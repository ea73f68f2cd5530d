//! Laws of the codec: decoding inverts encoding, untagged branches keep
//! their priority, and unrecognized tags fall back to `Unknown`.
use crate::bot::inline_mode::{
    InputMessageContent, InputMessageContentV, InputTextMessageContent, InputTextMessageContentV,
};
use crate::bot::methods::{
    ChatTarget, ChatTargetV, InputMedia, InputMediaV, ReplyMarkup, ReplyMarkupV,
};
use crate::bot::types::{
    ChatMemberStatus, ChatType, ChatTypeV, FileToSend, FileToSendV, InlineKeyboardButtonPressed,
    InlineKeyboardButtonPressedV, InlineKeyboardMarkup, LoginUrl, LoginUrlV, MessageEntityKind,
    ParseMode, Time,
};
use crate::json::{lookup, DecodeError, JsonV};
use vstd::prelude::*;

verus! {

broadcast use vstd::string::group_string_axioms, crate::json::lemma_lookup_concat, crate::json::lemma_lookup_req_entry, crate::json::lemma_lookup_opt_entry;

/// Decoding inverts encoding for every formatting language, the `Unknown`
/// branch included (its tag is not one of the recognized ones).
pub proof fn parse_mode_round_trip(m: ParseMode)
    ensures
        ParseMode::decoded(m.encoded()) == Ok::<_, DecodeError>(m),
{
    reveal_strlit("Markdown");
    reveal_strlit("MarkdownV2");
    reveal_strlit("HTML");
    reveal_strlit("Unknown");
    assert("Markdown"@.len() == 8);
    assert("MarkdownV2"@.len() == 10);
    assert("HTML"@.len() == 4);
    assert("Unknown"@.len() == 7);
}

/// A string that carries none of the recognized formatting tags decodes to
/// `Unknown` rather than failing.
pub proof fn parse_mode_unknown_fallback(s: Seq<char>)
    requires
        s != "Markdown"@,
        s != "MarkdownV2"@,
        s != "HTML"@,
    ensures
        ParseMode::decoded(JsonV::Str(s)) == Ok::<_, DecodeError>(ParseMode::Unknown),
{
}

/// Decoding inverts encoding for every message entity kind.
pub proof fn message_entity_kind_round_trip(k: MessageEntityKind)
    ensures
        MessageEntityKind::decoded(k.encoded()) == Ok::<_, DecodeError>(k),
{
    reveal_strlit("mention");
    reveal_strlit("hashtag");
    reveal_strlit("cashtag");
    reveal_strlit("bot_command");
    reveal_strlit("url");
    reveal_strlit("email");
    reveal_strlit("phone_number");
    reveal_strlit("bold");
    reveal_strlit("italic");
    reveal_strlit("code");
    reveal_strlit("pre");
    reveal_strlit("text_link");
    reveal_strlit("text_mention");
    reveal_strlit("unknown");
    assert("mention"@.len() == 7 && "mention"@[0] == 'm');
    assert("hashtag"@.len() == 7 && "hashtag"@[0] == 'h');
    assert("cashtag"@.len() == 7 && "cashtag"@[0] == 'c');
    assert("bot_command"@.len() == 11);
    assert("url"@.len() == 3 && "url"@[0] == 'u');
    assert("email"@.len() == 5);
    assert("phone_number"@.len() == 12 && "phone_number"@[0] == 'p');
    assert("bold"@.len() == 4 && "bold"@[0] == 'b');
    assert("italic"@.len() == 6);
    assert("code"@.len() == 4 && "code"@[0] == 'c');
    assert("pre"@.len() == 3 && "pre"@[0] == 'p');
    assert("text_link"@.len() == 9);
    assert("text_mention"@.len() == 12 && "text_mention"@[0] == 't');
    assert("unknown"@.len() == 7 && "unknown"@[0] == 'u');
}

/// A string that carries none of the recognized entity tags decodes to
/// `Unknown` rather than failing.
pub proof fn message_entity_kind_unknown_fallback(s: Seq<char>)
    requires
        s != "mention"@,
        s != "hashtag"@,
        s != "cashtag"@,
        s != "bot_command"@,
        s != "url"@,
        s != "email"@,
        s != "phone_number"@,
        s != "bold"@,
        s != "italic"@,
        s != "code"@,
        s != "pre"@,
        s != "text_link"@,
        s != "text_mention"@,
    ensures
        MessageEntityKind::decoded(JsonV::Str(s)) == Ok::<_, DecodeError>(
            MessageEntityKind::Unknown,
        ),
{
}

/// Decoding inverts encoding for every chat member status.
pub proof fn chat_member_status_round_trip(s: ChatMemberStatus)
    ensures
        ChatMemberStatus::decoded(s.encoded()) == Ok::<_, DecodeError>(s),
{
    reveal_strlit("creator");
    reveal_strlit("administrator");
    reveal_strlit("member");
    reveal_strlit("restricted");
    reveal_strlit("left");
    reveal_strlit("kicked");
    reveal_strlit("unknown");
    assert("creator"@.len() == 7 && "creator"@[0] == 'c');
    assert("administrator"@.len() == 13);
    assert("member"@.len() == 6 && "member"@[0] == 'm');
    assert("restricted"@.len() == 10);
    assert("left"@.len() == 4);
    assert("kicked"@.len() == 6 && "kicked"@[0] == 'k');
    assert("unknown"@.len() == 7 && "unknown"@[0] == 'u');
}

/// A string that carries none of the recognized status tags decodes to
/// `Unknown` rather than failing.
pub proof fn chat_member_status_unknown_fallback(s: Seq<char>)
    requires
        s != "creator"@,
        s != "administrator"@,
        s != "member"@,
        s != "restricted"@,
        s != "left"@,
        s != "kicked"@,
    ensures
        ChatMemberStatus::decoded(JsonV::Str(s)) == Ok::<_, DecodeError>(
            ChatMemberStatus::Unknown,
        ),
{
}

/// Decoding inverts encoding for a chat target, so encoding an identifier
/// can never come back as a username, nor the other way round: the two
/// branches' wire forms (a number, a string) are disjoint.
pub proof fn chat_target_round_trip(t: ChatTargetV)
    requires
        ChatTarget::wf_v(t),
    ensures
        ChatTarget::decoded(ChatTarget::encoded_v(t)) == Ok::<_, DecodeError>(t),
{
}

/// A bare string decodes as a reference by file identifier: the first
/// branch of the untagged union wins.
pub proof fn file_to_send_decodes_to_file_id(s: Seq<char>)
    ensures
        FileToSend::decoded(JsonV::Str(s)) == Ok::<_, DecodeError>(FileToSendV::FileId(s)),
{
}

/// A file reference encodes as the bare inner string of its branch, with
/// no wrapper object and no tag.
pub proof fn file_to_send_encodes_bare(v: FileToSendV)
    ensures
        FileToSend::encoded_v(v) == (match v {
            FileToSendV::FileId(s) => JsonV::Str(s),
            FileToSendV::Url(s) => JsonV::Str(s),
            FileToSendV::InputFile(s) => JsonV::Str(s),
        }),
{
}

/// Decoding inverts encoding for the file-identifier branch; the other two
/// branches share its wire form and therefore decode to it as well.
pub proof fn file_to_send_round_trip(s: Seq<char>)
    ensures
        FileToSend::decoded(FileToSend::encoded_v(FileToSendV::FileId(s))) == Ok::<
            _,
            DecodeError,
        >(FileToSendV::FileId(s)),
        FileToSend::decoded(FileToSend::encoded_v(FileToSendV::Url(s))) == Ok::<
            _,
            DecodeError,
        >(FileToSendV::FileId(s)),
{
}

/// Round trip of the private-chat kind.
proof fn chat_type_private_round_trip(
    username: Option<Seq<char>>,
    first_name: Seq<char>,
    last_name: Option<Seq<char>>,
)
    ensures
        ChatType::decoded_fields(
            ChatType::encoded_entries(ChatTypeV::Private { username, first_name, last_name }),
        ) == Ok::<_, DecodeError>(ChatTypeV::Private { username, first_name, last_name }),
{
    reveal_strlit("type");
    reveal_strlit("private");
    reveal_strlit("username");
    reveal_strlit("first_name");
    reveal_strlit("last_name");
    assert("type"@.len() == 4);
    assert("private"@.len() == 7);
    assert("username"@.len() == 8);
    assert("first_name"@.len() == 10);
    assert("last_name"@.len() == 9);
    let es = ChatType::encoded_entries(ChatTypeV::Private { username, first_name, last_name });
    crate::json::lemma_lookup_first_match(es, "type"@, 0);
    crate::json::lemma_lookup_first_match(es, "username"@, 1);
    crate::json::lemma_lookup_first_match(es, "first_name"@, 2);
    crate::json::lemma_lookup_first_match(es, "last_name"@, 3);
}

/// Round trip of the group-chat kind.
proof fn chat_type_group_round_trip(
    title: Seq<char>,
    username: Option<Seq<char>>,
    all_members_are_administrators: bool,
)
    ensures
        ChatType::decoded_fields(
            ChatType::encoded_entries(
                ChatTypeV::Group { title, username, all_members_are_administrators },
            ),
        ) == Ok::<_, DecodeError>(
            ChatTypeV::Group { title, username, all_members_are_administrators },
        ),
{
    reveal_strlit("type");
    reveal_strlit("private");
    reveal_strlit("group");
    reveal_strlit("title");
    reveal_strlit("username");
    reveal_strlit("all_members_are_administrators");
    assert("type"@.len() == 4);
    assert("private"@.len() == 7);
    assert("group"@.len() == 5 && "group"@[0] == 'g');
    assert("title"@.len() == 5 && "title"@[0] == 't');
    assert("username"@.len() == 8);
    assert("all_members_are_administrators"@.len() == 30);
    let es = ChatType::encoded_entries(
        ChatTypeV::Group { title, username, all_members_are_administrators },
    );
    crate::json::lemma_lookup_first_match(es, "type"@, 0);
    crate::json::lemma_lookup_first_match(es, "title"@, 1);
    crate::json::lemma_lookup_first_match(es, "username"@, 2);
    crate::json::lemma_lookup_first_match(es, "all_members_are_administrators"@, 3);
}

/// Round trip of the supergroup kind, for a value that carries no pinned
/// message: a pinned message is a whole nested message object, whose own
/// round trip is not stated here.
proof fn chat_type_supergroup_round_trip(
    title: Seq<char>,
    username: Option<Seq<char>>,
    all_members_are_administrators: bool,
    sticker_set_name: Option<Seq<char>>,
    can_set_sticker_set: Option<bool>,
    invite_link: Option<Seq<char>>,
    description: Option<Seq<char>>,
)
    ensures
        ChatType::decoded_fields(
            ChatType::encoded_entries(
                ChatTypeV::Supergroup {
                    title,
                    username,
                    all_members_are_administrators,
                    pinned_message: None,
                    sticker_set_name,
                    can_set_sticker_set,
                    invite_link,
                    description,
                },
            ),
        ) == Ok::<_, DecodeError>(
            ChatTypeV::Supergroup {
                title,
                username,
                all_members_are_administrators,
                pinned_message: None,
                sticker_set_name,
                can_set_sticker_set,
                invite_link,
                description,
            },
        ),
{
    reveal_strlit("type");
    reveal_strlit("private");
    reveal_strlit("group");
    reveal_strlit("supergroup");
    reveal_strlit("title");
    reveal_strlit("username");
    reveal_strlit("all_members_are_administrators");
    reveal_strlit("pinned_message");
    reveal_strlit("sticker_set_name");
    reveal_strlit("can_set_sticker_set");
    reveal_strlit("invite_link");
    reveal_strlit("description");
    assert("type"@.len() == 4);
    assert("private"@.len() == 7);
    assert("group"@.len() == 5 && "group"@[0] == 'g');
    assert("supergroup"@.len() == 10);
    assert("title"@.len() == 5 && "title"@[0] == 't');
    assert("username"@.len() == 8);
    assert("all_members_are_administrators"@.len() == 30);
    assert("pinned_message"@.len() == 14);
    assert("sticker_set_name"@.len() == 16);
    assert("can_set_sticker_set"@.len() == 19);
    assert("invite_link"@.len() == 11 && "invite_link"@[0] == 'i');
    assert("description"@.len() == 11 && "description"@[0] == 'd');
    let es = ChatType::encoded_entries(
        ChatTypeV::Supergroup {
            title,
            username,
            all_members_are_administrators,
            pinned_message: None,
            sticker_set_name,
            can_set_sticker_set,
            invite_link,
            description,
        },
    );
    crate::json::lemma_lookup_first_match(es, "type"@, 0);
    crate::json::lemma_lookup_first_match(es, "title"@, 1);
    crate::json::lemma_lookup_first_match(es, "username"@, 2);
    crate::json::lemma_lookup_first_match(es, "all_members_are_administrators"@, 3);
    crate::json::lemma_lookup_first_match(es, "pinned_message"@, 4);
    crate::json::lemma_lookup_first_match(es, "sticker_set_name"@, 5);
    crate::json::lemma_lookup_first_match(es, "can_set_sticker_set"@, 6);
    crate::json::lemma_lookup_first_match(es, "invite_link"@, 7);
    crate::json::lemma_lookup_first_match(es, "description"@, 8);
}

/// Round trip of the channel kind, for a value that carries no pinned
/// message.
proof fn chat_type_channel_round_trip(
    title: Seq<char>,
    username: Option<Seq<char>>,
    invite_link: Option<Seq<char>>,
    description: Option<Seq<char>>,
)
    ensures
        ChatType::decoded_fields(
            ChatType::encoded_entries(
                ChatTypeV::Channel {
                    title,
                    username,
                    pinned_message: None,
                    invite_link,
                    description,
                },
            ),
        ) == Ok::<_, DecodeError>(
            ChatTypeV::Channel { title, username, pinned_message: None, invite_link, description },
        ),
{
    reveal_strlit("type");
    reveal_strlit("private");
    reveal_strlit("group");
    reveal_strlit("supergroup");
    reveal_strlit("channel");
    reveal_strlit("title");
    reveal_strlit("username");
    reveal_strlit("pinned_message");
    reveal_strlit("invite_link");
    reveal_strlit("description");
    assert("type"@.len() == 4);
    assert("private"@.len() == 7 && "private"@[0] == 'p');
    assert("group"@.len() == 5 && "group"@[0] == 'g');
    assert("supergroup"@.len() == 10);
    assert("channel"@.len() == 7 && "channel"@[0] == 'c');
    assert("title"@.len() == 5 && "title"@[0] == 't');
    assert("username"@.len() == 8);
    assert("pinned_message"@.len() == 14);
    assert("invite_link"@.len() == 11 && "invite_link"@[0] == 'i');
    assert("description"@.len() == 11 && "description"@[0] == 'd');
    let es = ChatType::encoded_entries(
        ChatTypeV::Channel { title, username, pinned_message: None, invite_link, description },
    );
    crate::json::lemma_lookup_first_match(es, "type"@, 0);
    crate::json::lemma_lookup_first_match(es, "title"@, 1);
    crate::json::lemma_lookup_first_match(es, "username"@, 2);
    crate::json::lemma_lookup_first_match(es, "pinned_message"@, 3);
    crate::json::lemma_lookup_first_match(es, "invite_link"@, 4);
    crate::json::lemma_lookup_first_match(es, "description"@, 5);
}

/// Decoding inverts encoding for every chat kind that carries no pinned
/// message, the `Unknown` branch included: its tag is one that no branch
/// recognizes. A pinned message is a whole nested message object, whose
/// own round trip is not stated here.
pub proof fn chat_type_round_trip(v: ChatTypeV)
    requires
        match v {
            ChatTypeV::Supergroup { pinned_message, .. } => pinned_message is None,
            ChatTypeV::Channel { pinned_message, .. } => pinned_message is None,
            _ => true,
        },
    ensures
        ChatType::decoded_fields(ChatType::encoded_entries(v)) == Ok::<_, DecodeError>(v),
{
    match v {
        ChatTypeV::Private { username, first_name, last_name } => {
            chat_type_private_round_trip(username, first_name, last_name);
        },
        ChatTypeV::Group { title, username, all_members_are_administrators } => {
            chat_type_group_round_trip(title, username, all_members_are_administrators);
        },
        ChatTypeV::Supergroup {
            title,
            username,
            all_members_are_administrators,
            pinned_message,
            sticker_set_name,
            can_set_sticker_set,
            invite_link,
            description,
        } => {
            chat_type_supergroup_round_trip(
                title,
                username,
                all_members_are_administrators,
                sticker_set_name,
                can_set_sticker_set,
                invite_link,
                description,
            );
        },
        ChatTypeV::Channel { title, username, pinned_message, invite_link, description } => {
            chat_type_channel_round_trip(title, username, invite_link, description);
        },
        ChatTypeV::Unknown => {
            reveal_with_fuel(crate::json::lookup, 3);
            reveal_strlit("type");
            reveal_strlit("private");
            reveal_strlit("group");
            reveal_strlit("supergroup");
            reveal_strlit("channel");
            reveal_strlit("unknown");
            assert("private"@.len() == 7 && "private"@[0] == 'p');
            assert("group"@.len() == 5);
            assert("supergroup"@.len() == 10);
            assert("channel"@.len() == 7 && "channel"@[0] == 'c');
            assert("unknown"@.len() == 7 && "unknown"@[0] == 'u');
        },
    }
}

/// A chat object whose kind tag is none of the recognized ones decodes to
/// the `Unknown` kind rather than failing.
pub proof fn chat_type_unknown_fallback(es: Seq<(Seq<char>, JsonV)>, tag: Seq<char>)
    requires
        crate::json::sp_req_str(es, "type"@) == Ok::<_, DecodeError>(tag),
        tag != "private"@,
        tag != "group"@,
        tag != "supergroup"@,
        tag != "channel"@,
    ensures
        ChatType::decoded_fields(es) == Ok::<_, DecodeError>(ChatTypeV::Unknown),
{
}

/// Decoding inverts encoding for a login-button parameter.
pub proof fn login_url_round_trip(l: LoginUrlV)
    ensures
        LoginUrl::decoded(LoginUrl::encoded_v(l)) == Ok::<_, DecodeError>(l),
{
    reveal_with_fuel(crate::json::lookup, 6);
    reveal_strlit("url");
    reveal_strlit("forward_text");
    reveal_strlit("bot_username");
    reveal_strlit("request_write_access");
    assert("url"@.len() == 3);
    assert("forward_text"@.len() == 12 && "forward_text"@[0] == 'f');
    assert("bot_username"@.len() == 12 && "bot_username"@[0] == 'b');
    assert("request_write_access"@.len() == 20);
}

/// Decoding inverts encoding for what a button press does, the `Unknown`
/// branch included: it adds no member, and the decoder's fallback is the
/// same branch.
pub proof fn inline_keyboard_button_pressed_round_trip(v: InlineKeyboardButtonPressedV)
    ensures
        InlineKeyboardButtonPressed::decoded_fields(
            InlineKeyboardButtonPressed::encoded_entries(v),
        ) == Ok::<_, DecodeError>(v),
{
    reveal_with_fuel(crate::json::lookup, 4);
    reveal_strlit("url");
    reveal_strlit("callback_data");
    reveal_strlit("switch_inline_query");
    reveal_strlit("switch_inline_query_current_chat");
    reveal_strlit("pay");
    reveal_strlit("callback_game");
    reveal_strlit("login_url");
    assert("url"@.len() == 3 && "url"@[0] == 'u');
    assert("callback_data"@.len() == 13 && "callback_data"@[9] == 'd');
    assert("switch_inline_query"@.len() == 19);
    assert("switch_inline_query_current_chat"@.len() == 32);
    assert("pay"@.len() == 3 && "pay"@[0] == 'p');
    assert("callback_game"@.len() == 13 && "callback_game"@[9] == 'g');
    assert("login_url"@.len() == 9);
    if v is LoginUrl {
        login_url_round_trip(v->LoginUrl_0);
    }
}

/// A button object with none of the recognized member names decodes to
/// `Unknown` rather than failing.
pub proof fn inline_keyboard_button_pressed_unknown_fallback(es: Seq<(Seq<char>, JsonV)>)
    requires
        lookup(es, "url"@) is None,
        lookup(es, "callback_data"@) is None,
        lookup(es, "switch_inline_query"@) is None,
        lookup(es, "switch_inline_query_current_chat"@) is None,
        lookup(es, "pay"@) is None,
        lookup(es, "callback_game"@) is None,
        lookup(es, "login_url"@) is None,
    ensures
        InlineKeyboardButtonPressed::decoded_fields(es) == Ok::<_, DecodeError>(
            InlineKeyboardButtonPressedV::Unknown,
        ),
{
}

/// Round trip of the video branch of a media content.
proof fn input_media_video_round_trip(
    media: FileToSendV,
    caption: Option<Seq<char>>,
    parse_mode: Option<ParseMode>,
    width: Option<int>,
    height: Option<int>,
    duration: Option<int>,
    supports_streaming: Option<bool>,
)
    requires
        media is FileId,
        crate::bot::methods::opt_in_i32(width),
        crate::bot::methods::opt_in_i32(height),
        crate::bot::methods::opt_in_i32(duration),
    ensures
        InputMedia::decoded(
            InputMedia::encoded_v(
                InputMediaV::Video {
                    media,
                    caption,
                    parse_mode,
                    width,
                    height,
                    duration,
                    supports_streaming,
                },
            ),
        ) == Ok::<_, DecodeError>(
            InputMediaV::Video {
                media,
                caption,
                parse_mode,
                width,
                height,
                duration,
                supports_streaming,
            },
        ),
{
    reveal_strlit("type");
    reveal_strlit("video");
    reveal_strlit("photo");
    reveal_strlit("animation");
    reveal_strlit("audio");
    reveal_strlit("document");
    reveal_strlit("media");
    reveal_strlit("caption");
    reveal_strlit("parse_mode");
    reveal_strlit("width");
    reveal_strlit("height");
    reveal_strlit("duration");
    reveal_strlit("supports_streaming");
    reveal_strlit("Markdown");
    reveal_strlit("MarkdownV2");
    reveal_strlit("HTML");
    reveal_strlit("Unknown");
    assert("type"@.len() == 4);
    assert("video"@.len() == 5 && "video"@[0] == 'v');
    assert("photo"@.len() == 5 && "photo"@[0] == 'p');
    assert("animation"@.len() == 9);
    assert("audio"@.len() == 5 && "audio"@[0] == 'a');
    assert("document"@.len() == 8);
    assert("media"@.len() == 5 && "media"@[0] == 'm');
    assert("caption"@.len() == 7);
    assert("parse_mode"@.len() == 10);
    assert("width"@.len() == 5 && "width"@[0] == 'w');
    assert("height"@.len() == 6);
    assert("duration"@.len() == 8 && "duration"@[0] == 'd');
    assert("supports_streaming"@.len() == 18);
    assert("Markdown"@.len() == 8);
    assert("MarkdownV2"@.len() == 10);
    assert("HTML"@.len() == 4);
    assert("Unknown"@.len() == 7);
    let v = InputMediaV::Video {
        media,
        caption,
        parse_mode,
        width,
        height,
        duration,
        supports_streaming,
    };
    let es = InputMedia::encoded_v(v)->Obj_0;
    assert(lookup(es, "type"@) == Some(JsonV::Str("video"@)));
    assert(lookup(es, "media"@) == Some(FileToSend::encoded_v(media)));
    assert(lookup(es, "caption"@) == crate::json::opt_str_v(caption));
    assert(lookup(es, "parse_mode"@) == ParseMode::opt_encoded(parse_mode));
    assert(lookup(es, "width"@) == crate::json::opt_int_v(width));
    assert(lookup(es, "height"@) == crate::json::opt_int_v(height));
    assert(lookup(es, "duration"@) == crate::json::opt_int_v(duration));
    assert(lookup(es, "supports_streaming"@) == crate::json::opt_bool_v(supports_streaming));
}

/// Round trip of the photo branch of a media content.
proof fn input_media_photo_round_trip(
    media: FileToSendV,
    caption: Option<Seq<char>>,
    parse_mode: Option<ParseMode>,
)
    requires
        media is FileId,
    ensures
        InputMedia::decoded(
            InputMedia::encoded_v(InputMediaV::Photo { media, caption, parse_mode }),
        ) == Ok::<_, DecodeError>(InputMediaV::Photo { media, caption, parse_mode }),
{
    reveal_strlit("type");
    reveal_strlit("video");
    reveal_strlit("photo");
    reveal_strlit("animation");
    reveal_strlit("audio");
    reveal_strlit("document");
    reveal_strlit("media");
    reveal_strlit("caption");
    reveal_strlit("parse_mode");
    reveal_strlit("Markdown");
    reveal_strlit("MarkdownV2");
    reveal_strlit("HTML");
    reveal_strlit("Unknown");
    assert("type"@.len() == 4);
    assert("video"@.len() == 5 && "video"@[0] == 'v');
    assert("photo"@.len() == 5 && "photo"@[0] == 'p');
    assert("animation"@.len() == 9);
    assert("audio"@.len() == 5 && "audio"@[0] == 'a');
    assert("document"@.len() == 8);
    assert("media"@.len() == 5 && "media"@[0] == 'm');
    assert("caption"@.len() == 7);
    assert("parse_mode"@.len() == 10);
    assert("Markdown"@.len() == 8);
    assert("MarkdownV2"@.len() == 10);
    assert("HTML"@.len() == 4);
    assert("Unknown"@.len() == 7);
    let v = InputMediaV::Photo { media, caption, parse_mode };
    let es = InputMedia::encoded_v(v)->Obj_0;
    assert(lookup(es, "type"@) == Some(JsonV::Str("photo"@)));
    assert(lookup(es, "media"@) == Some(FileToSend::encoded_v(media)));
    assert(lookup(es, "caption"@) == crate::json::opt_str_v(caption));
    assert(lookup(es, "parse_mode"@) == ParseMode::opt_encoded(parse_mode));
}

/// Round trip of the animation branch of a media content.
proof fn input_media_animation_round_trip(
    media: FileToSendV,
    thumb: Option<Seq<char>>,
    caption: Option<Seq<char>>,
    parse_mode: Option<ParseMode>,
    width: Option<int>,
    height: Option<int>,
    duration: Option<int>,
)
    requires
        media is FileId,
        crate::bot::methods::opt_in_i32(width),
        crate::bot::methods::opt_in_i32(height),
        crate::bot::methods::opt_in_i32(duration),
    ensures
        InputMedia::decoded(
            InputMedia::encoded_v(
                InputMediaV::Animation { media, thumb, caption, parse_mode, width, height, duration },
            ),
        ) == Ok::<_, DecodeError>(
            InputMediaV::Animation { media, thumb, caption, parse_mode, width, height, duration },
        ),
{
    reveal_strlit("type");
    reveal_strlit("video");
    reveal_strlit("photo");
    reveal_strlit("animation");
    reveal_strlit("audio");
    reveal_strlit("document");
    reveal_strlit("media");
    reveal_strlit("thumb");
    reveal_strlit("caption");
    reveal_strlit("parse_mode");
    reveal_strlit("width");
    reveal_strlit("height");
    reveal_strlit("duration");
    reveal_strlit("Markdown");
    reveal_strlit("MarkdownV2");
    reveal_strlit("HTML");
    reveal_strlit("Unknown");
    assert("type"@.len() == 4);
    assert("video"@.len() == 5 && "video"@[0] == 'v');
    assert("photo"@.len() == 5 && "photo"@[0] == 'p');
    assert("animation"@.len() == 9);
    assert("audio"@.len() == 5 && "audio"@[0] == 'a');
    assert("document"@.len() == 8);
    assert("media"@.len() == 5 && "media"@[0] == 'm');
    assert("thumb"@.len() == 5 && "thumb"@[0] == 't');
    assert("caption"@.len() == 7);
    assert("parse_mode"@.len() == 10);
    assert("width"@.len() == 5 && "width"@[0] == 'w');
    assert("height"@.len() == 6);
    assert("duration"@.len() == 8 && "duration"@[0] == 'd');
    assert("Markdown"@.len() == 8);
    assert("MarkdownV2"@.len() == 10);
    assert("HTML"@.len() == 4);
    assert("Unknown"@.len() == 7);
    let v = InputMediaV::Animation { media, thumb, caption, parse_mode, width, height, duration };
    let es = InputMedia::encoded_v(v)->Obj_0;
    assert(lookup(es, "type"@) == Some(JsonV::Str("animation"@)));
    assert(lookup(es, "media"@) == Some(FileToSend::encoded_v(media)));
    assert(lookup(es, "thumb"@) == Some(crate::json::nullable(crate::json::opt_str_v(thumb))));
    assert(lookup(es, "caption"@) == crate::json::opt_str_v(caption));
    assert(lookup(es, "parse_mode"@) == ParseMode::opt_encoded(parse_mode));
    assert(lookup(es, "width"@) == crate::json::opt_int_v(width));
    assert(lookup(es, "height"@) == crate::json::opt_int_v(height));
    assert(lookup(es, "duration"@) == crate::json::opt_int_v(duration));
}

/// Round trip of the audio branch of a media content.
proof fn input_media_audio_round_trip(
    media: FileToSendV,
    thumb: Option<Seq<char>>,
    caption: Option<Seq<char>>,
    parse_mode: Option<ParseMode>,
    duration: Option<int>,
    performer: Option<Seq<char>>,
    title: Option<Seq<char>>,
)
    requires
        media is FileId,
        crate::bot::methods::opt_in_i32(duration),
    ensures
        InputMedia::decoded(
            InputMedia::encoded_v(
                InputMediaV::Audio { media, thumb, caption, parse_mode, duration, performer, title },
            ),
        ) == Ok::<_, DecodeError>(
            InputMediaV::Audio { media, thumb, caption, parse_mode, duration, performer, title },
        ),
{
    reveal_strlit("type");
    reveal_strlit("video");
    reveal_strlit("photo");
    reveal_strlit("animation");
    reveal_strlit("audio");
    reveal_strlit("document");
    reveal_strlit("media");
    reveal_strlit("thumb");
    reveal_strlit("caption");
    reveal_strlit("parse_mode");
    reveal_strlit("duration");
    reveal_strlit("performer");
    reveal_strlit("title");
    reveal_strlit("Markdown");
    reveal_strlit("MarkdownV2");
    reveal_strlit("HTML");
    reveal_strlit("Unknown");
    assert("type"@.len() == 4);
    assert("video"@.len() == 5 && "video"@[0] == 'v');
    assert("photo"@.len() == 5 && "photo"@[0] == 'p');
    assert("animation"@.len() == 9);
    assert("audio"@.len() == 5 && "audio"@[0] == 'a');
    assert("document"@.len() == 8);
    assert("media"@.len() == 5 && "media"@[0] == 'm');
    assert("thumb"@.len() == 5 && "thumb"@[0] == 't' && "thumb"@[1] == 'h');
    assert("caption"@.len() == 7);
    assert("parse_mode"@.len() == 10);
    assert("duration"@.len() == 8 && "duration"@[0] == 'd');
    assert("performer"@.len() == 9 && "performer"@[0] == 'p');
    assert("title"@.len() == 5 && "title"@[0] == 't' && "title"@[1] == 'i');
    assert("Markdown"@.len() == 8);
    assert("MarkdownV2"@.len() == 10);
    assert("HTML"@.len() == 4);
    assert("Unknown"@.len() == 7);
    let v = InputMediaV::Audio { media, thumb, caption, parse_mode, duration, performer, title };
    let es = InputMedia::encoded_v(v)->Obj_0;
    assert(lookup(es, "type"@) == Some(JsonV::Str("audio"@)));
    assert(lookup(es, "media"@) == Some(FileToSend::encoded_v(media)));
    assert(lookup(es, "thumb"@) == Some(crate::json::nullable(crate::json::opt_str_v(thumb))));
    assert(lookup(es, "caption"@) == crate::json::opt_str_v(caption));
    assert(lookup(es, "parse_mode"@) == ParseMode::opt_encoded(parse_mode));
    assert(lookup(es, "duration"@) == crate::json::opt_int_v(duration));
    assert(lookup(es, "performer"@) == crate::json::opt_str_v(performer));
    assert(lookup(es, "title"@) == crate::json::opt_str_v(title));
}

/// Round trip of the document branch of a media content.
proof fn input_media_document_round_trip(
    media: FileToSendV,
    thumb: Option<Seq<char>>,
    caption: Option<Seq<char>>,
    parse_mode: Option<ParseMode>,
)
    requires
        media is FileId,
    ensures
        InputMedia::decoded(
            InputMedia::encoded_v(InputMediaV::Document { media, thumb, caption, parse_mode }),
        ) == Ok::<_, DecodeError>(InputMediaV::Document { media, thumb, caption, parse_mode }),
{
    reveal_strlit("type");
    reveal_strlit("video");
    reveal_strlit("photo");
    reveal_strlit("animation");
    reveal_strlit("audio");
    reveal_strlit("document");
    reveal_strlit("media");
    reveal_strlit("thumb");
    reveal_strlit("caption");
    reveal_strlit("parse_mode");
    reveal_strlit("Markdown");
    reveal_strlit("MarkdownV2");
    reveal_strlit("HTML");
    reveal_strlit("Unknown");
    assert("type"@.len() == 4);
    assert("video"@.len() == 5 && "video"@[0] == 'v');
    assert("photo"@.len() == 5 && "photo"@[0] == 'p');
    assert("animation"@.len() == 9);
    assert("audio"@.len() == 5 && "audio"@[0] == 'a');
    assert("document"@.len() == 8);
    assert("media"@.len() == 5 && "media"@[0] == 'm');
    assert("thumb"@.len() == 5 && "thumb"@[0] == 't');
    assert("caption"@.len() == 7);
    assert("parse_mode"@.len() == 10);
    assert("Markdown"@.len() == 8);
    assert("MarkdownV2"@.len() == 10);
    assert("HTML"@.len() == 4);
    assert("Unknown"@.len() == 7);
    let v = InputMediaV::Document { media, thumb, caption, parse_mode };
    let es = InputMedia::encoded_v(v)->Obj_0;
    assert(lookup(es, "type"@) == Some(JsonV::Str("document"@)));
    assert(lookup(es, "media"@) == Some(FileToSend::encoded_v(media)));
    assert(lookup(es, "thumb"@) == Some(crate::json::nullable(crate::json::opt_str_v(thumb))));
    assert(lookup(es, "caption"@) == crate::json::opt_str_v(caption));
    assert(lookup(es, "parse_mode"@) == ParseMode::opt_encoded(parse_mode));
}

/// Decoding inverts encoding for every media content whose integer
/// attributes fit the wire's 32-bit fields and whose file references are
/// by identifier — the one branch the shared bare-string wire form can
/// decode back to. The `Unknown` branch is included: its tag is one that
/// no branch recognizes.
pub proof fn input_media_round_trip(v: InputMediaV)
    requires
        InputMedia::wf_v(v),
        InputMedia::media_by_id(v),
    ensures
        InputMedia::decoded(InputMedia::encoded_v(v)) == Ok::<_, DecodeError>(v),
{
    match v {
        InputMediaV::Video { media, caption, parse_mode, width, height, duration, supports_streaming } => {
            input_media_video_round_trip(
                media,
                caption,
                parse_mode,
                width,
                height,
                duration,
                supports_streaming,
            );
        },
        InputMediaV::Photo { media, caption, parse_mode } => {
            input_media_photo_round_trip(media, caption, parse_mode);
        },
        InputMediaV::Animation { media, thumb, caption, parse_mode, width, height, duration } => {
            input_media_animation_round_trip(
                media,
                thumb,
                caption,
                parse_mode,
                width,
                height,
                duration,
            );
        },
        InputMediaV::Audio { media, thumb, caption, parse_mode, duration, performer, title } => {
            input_media_audio_round_trip(
                media,
                thumb,
                caption,
                parse_mode,
                duration,
                performer,
                title,
            );
        },
        InputMediaV::Document { media, thumb, caption, parse_mode } => {
            input_media_document_round_trip(media, thumb, caption, parse_mode);
        },
        InputMediaV::Unknown => {
            reveal_strlit("type");
            reveal_strlit("video");
            reveal_strlit("photo");
            reveal_strlit("animation");
            reveal_strlit("audio");
            reveal_strlit("document");
            reveal_strlit("Unknown");
            assert("video"@.len() == 5 && "video"@[0] == 'v');
            assert("photo"@.len() == 5 && "photo"@[0] == 'p');
            assert("animation"@.len() == 9);
            assert("audio"@.len() == 5 && "audio"@[0] == 'a');
            assert("document"@.len() == 8);
            assert("Unknown"@.len() == 7);
            let es = InputMedia::encoded_v(v)->Obj_0;
            assert(lookup(es, "type"@) == Some(JsonV::Str("Unknown"@)));
        },
    }
}

/// A media object whose tag is none of the recognized ones decodes to the
/// `Unknown` content rather than failing.
pub proof fn input_media_unknown_fallback(es: Seq<(Seq<char>, JsonV)>, tag: Seq<char>)
    requires
        crate::json::sp_req_str(es, "type"@) == Ok::<_, DecodeError>(tag),
        tag != "video"@,
        tag != "photo"@,
        tag != "animation"@,
        tag != "audio"@,
        tag != "document"@,
    ensures
        InputMedia::decoded_fields(es) == Ok::<_, DecodeError>(InputMediaV::Unknown),
{
}

/// The inline-keyboard branch is tried first and accepts any object, its
/// only member being optional, so every object a reply markup can decode
/// from decodes as an inline keyboard: the residual ambiguity of this
/// untagged union, stated rather than left implicit.
pub proof fn reply_markup_object_is_inline_keyboard(j: JsonV)
    requires
        InlineKeyboardMarkup::decoded(j) is Ok,
    ensures
        ReplyMarkup::decoded(j) == Ok::<_, DecodeError>(
            ReplyMarkupV::InlineKeyboard(InlineKeyboardMarkup::decoded(j)->Ok_0),
        ),
{
}

/// Encoding a text answer payload and decoding it comes back as the text
/// branch: that branch is tried first, so no later branch can take its
/// wire form.
pub proof fn input_message_content_text_round_trip(t: InputTextMessageContentV)
    ensures
        InputMessageContent::decoded(
            InputMessageContent::encoded_v(InputMessageContentV::Text(t)),
        ) == Ok::<_, DecodeError>(InputMessageContentV::Text(t)),
{
    reveal_strlit("message_text");
    reveal_strlit("parse_mode");
    reveal_strlit("disable_web_page_preview");
    reveal_strlit("Markdown");
    reveal_strlit("MarkdownV2");
    reveal_strlit("HTML");
    reveal_strlit("Unknown");
    assert("message_text"@.len() == 12);
    assert("parse_mode"@.len() == 10);
    assert("disable_web_page_preview"@.len() == 24);
    assert("Markdown"@.len() == 8);
    assert("MarkdownV2"@.len() == 10);
    assert("HTML"@.len() == 4);
    assert("Unknown"@.len() == 7);
    let es = InputTextMessageContent::encoded_v(t)->Obj_0;
    assert(lookup(es, "message_text"@) == Some(JsonV::Str(t.message_text)));
    assert(lookup(es, "parse_mode"@) == ParseMode::opt_encoded(t.parse_mode));
    assert(lookup(es, "disable_web_page_preview"@) == crate::json::opt_bool_v(
        t.disable_web_page_preview,
    ));
}

/// Decoding inverts encoding for a timestamp.
pub proof fn time_round_trip(t: Time)
    requires
        t.wf(),
    ensures
        Time::decoded(t.encoded()) == Ok::<_, DecodeError>(t),
{
}

} // verus!
