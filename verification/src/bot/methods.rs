//! Request parameter types of the bot methods, and the response envelope.
use crate::bot::types::{
    ChatId, FileToSend, FileToSendV, ForceReply, ForceReplyV, InlineKeyboardMarkup,
    InlineKeyboardMarkupV, InputFile, MessageEntity, MessageId, ParseMode, ReplyKeyboardMarkup,
    ReplyKeyboardMarkupV, ReplyKeyboardRemove, ReplyKeyboardRemoveV, ResponseParameters,
    ResponseParametersV, Update, UpdateId, UpdateV, UserId,
};
use crate::json::{
    entries_view, json_kind, kind_of, nullable, opt_bool_v, opt_entry, opt_int_v, opt_str_v,
    push_entry, req_entry, sp_opt_bool, sp_opt_i32, sp_opt_str, sp_req_str, DecodeError, Json,
    JsonV, UnionKind,
};
use vstd::prelude::*;

verus! {

/// The model of a chat target.
pub enum ChatTargetV {
    Id(int),
    Username(Seq<char>),
}

/// A chat: by numeric identifier, or by `@username`.
///
/// On the wire this is a single scalar with no tag: a number denotes the
/// identifier branch and a string the username branch, so the branches can
/// never be confused on decode.
#[derive(Debug, Clone, PartialEq, Eq, PartialOrd, Ord, Hash)]
pub enum ChatTarget {
    Id(ChatId),
    Username(String),
}

impl View for ChatTarget {
    type V = ChatTargetV;

    open spec fn view(&self) -> ChatTargetV {
        match self {
            ChatTarget::Id(c) => ChatTargetV::Id(c.0 as int),
            ChatTarget::Username(u) => ChatTargetV::Username(u@),
        }
    }
}

impl ChatTarget {
    /// A target by numeric chat identifier.
    pub fn id(value: i64) -> (r: ChatTarget)
        ensures
            r@ == ChatTargetV::Id(value as int),
    {
        ChatTarget::Id(ChatId(value))
    }

    /// A target by `@username`.
    pub fn username(name: &str) -> (r: ChatTarget)
        ensures
            r@ == ChatTargetV::Username(name@),
    {
        ChatTarget::Username(name.to_owned())
    }

    /// The identifier branch fits the wire's signed 64-bit number line.
    pub open spec fn wf_v(v: ChatTargetV) -> bool {
        match v {
            ChatTargetV::Id(n) => i64::MIN <= n <= i64::MAX,
            ChatTargetV::Username(_) => true,
        }
    }

    /// The wire form: the bare scalar of the branch, with no tag.
    pub open spec fn encoded_v(v: ChatTargetV) -> JsonV {
        match v {
            ChatTargetV::Id(n) => JsonV::Int(n),
            ChatTargetV::Username(u) => JsonV::Str(u),
        }
    }

    /// What a document denotes: the numeric branch is tried first, then the
    /// username branch; any other shape matches no branch, and the error
    /// names this union and the JSON type of the value.
    pub open spec fn decoded(j: JsonV) -> Result<ChatTargetV, DecodeError> {
        match j {
            JsonV::Int(n) => if i64::MIN <= n <= i64::MAX {
                Ok(ChatTargetV::Id(n))
            } else {
                Err(DecodeError::NoVariantMatched(UnionKind::ChatTarget, kind_of(j)))
            },
            JsonV::Str(u) => Ok(ChatTargetV::Username(u)),
            _ => Err(DecodeError::NoVariantMatched(UnionKind::ChatTarget, kind_of(j))),
        }
    }

    /// Encode as the bare scalar of the branch.
    pub fn to_json(&self) -> (r: Json)
        ensures
            r@ == ChatTarget::encoded_v(self@),
    {
        match self {
            ChatTarget::Id(c) => Json::Int(c.0),
            ChatTarget::Username(u) => Json::Str(u.clone()),
        }
    }

    /// Decode the bare scalar, trying the numeric branch first.
    pub fn from_json(j: &Json) -> (r: Result<ChatTarget, DecodeError>)
        ensures
            match r {
                Ok(t) => ChatTarget::decoded(j@) == Ok::<_, DecodeError>(t@),
                Err(e) => ChatTarget::decoded(j@) == Err::<ChatTargetV, _>(e),
            },
    {
        match j {
            Json::Int(n) => Ok(ChatTarget::Id(ChatId(*n))),
            Json::Str(u) => Ok(ChatTarget::Username(u.clone())),
            _ => Err(DecodeError::NoVariantMatched(UnionKind::ChatTarget, json_kind(j))),
        }
    }
}

/// The failure projection of the response envelope: the protocol-level
/// numeric code (`0` is reserved for a malformed success envelope), a
/// human-readable description, and optional retry or migration hints.
#[derive(Debug, Clone, PartialEq)]
pub struct ApiError {
    pub error_code: i32,
    pub description: String,
    pub parameters: Option<ResponseParameters>,
}

impl ApiError {
    /// The human-readable description.
    pub fn description(&self) -> (r: &str)
        ensures
            r@ == self.description@,
    {
        self.description.as_str()
    }

    /// The description, prefixed as an error line.
    pub fn message(&self) -> (r: String)
        ensures
            r@ == "[ERROR] "@ + self.description@,
    {
        String::from_str("[ERROR] ").concat(self.description.as_str())
    }
}

/// The response envelope: a success flag, then either a typed payload or a
/// description, numeric code and hints for a failure.
#[derive(Debug, Clone, PartialEq)]
pub struct TelegramResult<T> {
    pub ok: bool,
    pub description: Option<String>,
    pub error_code: Option<i32>,
    pub result: Option<T>,
    pub parameters: Option<ResponseParameters>,
}

impl<T> TelegramResult<T> {
    /// The success/failure outcome the envelope denotes.
    ///
    /// A success envelope must carry its payload: `ok: true` without a
    /// `result` member is itself an error, reported with the reserved code
    /// `0`. A failure envelope is projected onto [`ApiError`]; a failure
    /// without a code keeps code `0` and a description that says the code
    /// was missing.
    pub fn into_result(self) -> (r: Result<T, ApiError>)
        ensures
            self.ok && self.result is Some ==> r == Ok::<T, ApiError>(self.result->0),
            self.ok && self.result is None ==> (r matches Err(e) && e.error_code == 0
                && e.description@
                == "In the response from telegram `ok: true`, but not found `result` field."@
                && e.parameters is None),
            !self.ok ==> (r matches Err(e) && e.error_code == (
            match self.error_code {
                Some(c) => c,
                None => 0,
            }) && e.parameters == self.parameters && e.description@ == (
            match self.error_code {
                None => "In the response from telegram `ok: false`, but not found `err_code` field."@,
                Some(_) => match self.description {
                    Some(d) => d@,
                    None => Seq::<char>::empty(),
                },
            })),
    {
        if self.ok {
            match self.result {
                Some(v) => Ok(v),
                None => Err(
                    ApiError {
                        error_code: 0,
                        description: String::from_str(
                            "In the response from telegram `ok: true`, but not found `result` field.",
                        ),
                        parameters: None,
                    },
                ),
            }
        } else {
            let description = if self.error_code.is_none() {
                String::from_str(
                    "In the response from telegram `ok: false`, but not found `err_code` field.",
                )
            } else {
                match self.description {
                    Some(d) => d,
                    None => String::new(),
                }
            };
            Err(
                ApiError {
                    error_code: match self.error_code {
                        Some(c) => c,
                        None => 0,
                    },
                    description,
                    parameters: self.parameters,
                },
            )
        }
    }
}

/// The kinds of update a poller can subscribe to.
#[derive(Debug, Clone, Copy, PartialEq, Eq, Structural, PartialOrd, Ord, Hash)]
pub enum UpdateTypes {
    /// New incoming message of any kind — text, photo, sticker, etc.
    Message,
    /// New version of a message that is known to the bot and was edited
    EditedMessage,
    /// New incoming channel post of any kind — text, photo, sticker, etc.
    ChannelPost,
    /// New version of a channel post that is known to the bot and was edited
    EditedChannelPost,
    /// New incoming inline query
    InlineQuery,
    /// The result of an inline query that was chosen by a user and sent to their chat partner.
    ChosenInlineResult,
    /// New incoming callback query
    CallbackQuery,
    /// New incoming shipping query. Only for invoices with flexible price
    ShippingQuery,
    /// New incoming pre-checkout query. Contains full information about checkout
    PreCheckoutQuery,
    MessageReaction,
    MessageReactionCount,
    MyChatMember,
    ChatMember,
    ChatJoinRequest,
}

impl UpdateTypes {
    /// The wire tag of each branch.
    pub open spec fn tag(self) -> Seq<char> {
        match self {
            UpdateTypes::Message => "message"@,
            UpdateTypes::EditedMessage => "edited_message"@,
            UpdateTypes::ChannelPost => "channel_post"@,
            UpdateTypes::EditedChannelPost => "edited_channel_post"@,
            UpdateTypes::InlineQuery => "inline_query"@,
            UpdateTypes::ChosenInlineResult => "chosen_inline_result"@,
            UpdateTypes::CallbackQuery => "callback_query"@,
            UpdateTypes::ShippingQuery => "shipping_query"@,
            UpdateTypes::PreCheckoutQuery => "pre_checkout_query"@,
            UpdateTypes::MessageReaction => "message_reaction"@,
            UpdateTypes::MessageReactionCount => "message_reaction_count"@,
            UpdateTypes::MyChatMember => "my_chat_member"@,
            UpdateTypes::ChatMember => "chat_member"@,
            UpdateTypes::ChatJoinRequest => "chat_join_request"@,
        }
    }

    /// Encode as the bare tag string.
    pub fn to_json(&self) -> (r: Json)
        ensures
            r@ == JsonV::Str(self.tag()),
    {
        match self {
            UpdateTypes::Message => Json::Str(String::from_str("message")),
            UpdateTypes::EditedMessage => Json::Str(String::from_str("edited_message")),
            UpdateTypes::ChannelPost => Json::Str(String::from_str("channel_post")),
            UpdateTypes::EditedChannelPost => Json::Str(String::from_str("edited_channel_post")),
            UpdateTypes::InlineQuery => Json::Str(String::from_str("inline_query")),
            UpdateTypes::ChosenInlineResult => Json::Str(
                String::from_str("chosen_inline_result"),
            ),
            UpdateTypes::CallbackQuery => Json::Str(String::from_str("callback_query")),
            UpdateTypes::ShippingQuery => Json::Str(String::from_str("shipping_query")),
            UpdateTypes::PreCheckoutQuery => Json::Str(String::from_str("pre_checkout_query")),
            UpdateTypes::MessageReaction => Json::Str(String::from_str("message_reaction")),
            UpdateTypes::MessageReactionCount => Json::Str(
                String::from_str("message_reaction_count"),
            ),
            UpdateTypes::MyChatMember => Json::Str(String::from_str("my_chat_member")),
            UpdateTypes::ChatMember => Json::Str(String::from_str("chat_member")),
            UpdateTypes::ChatJoinRequest => Json::Str(String::from_str("chat_join_request")),
        }
    }
}

/// Parameters of the long-polling request for incoming updates.
#[derive(Debug, Clone, PartialEq)]
pub struct GetUpdates {
    pub offset: Option<UpdateId>,
    pub limit: Option<i32>,
    pub timeout: Option<i32>,
    pub allowed_updates: Option<Vec<UpdateTypes>>,
}

impl GetUpdates {
    /// A request with every parameter left to its default.
    pub fn new() -> (r: GetUpdates)
        ensures
            r.offset is None,
            r.limit is None,
            r.timeout is None,
            r.allowed_updates is None,
    {
        GetUpdates { offset: None, limit: None, timeout: None, allowed_updates: None }
    }

    /// Ask only for updates from `x` onwards.
    pub fn offset(&mut self, x: UpdateId)
        ensures
            final(self).offset == Some(x),
            final(self).limit == old(self).limit,
            final(self).timeout == old(self).timeout,
            final(self).allowed_updates == old(self).allowed_updates,
    {
        self.offset = Some(x)
    }
}

impl Default for GetUpdates {
    /// A request with every parameter left to its default.
    fn default() -> (r: GetUpdates)
        ensures
            r.offset is None,
            r.limit is None,
            r.timeout is None,
            r.allowed_updates is None,
    {
        GetUpdates::new()
    }
}

/// Send a text message. On success, the sent message is returned.
#[derive(Debug, Clone, PartialEq)]
pub struct SendMessage {
    pub chat_id: ChatTarget,
    pub text: String,
    pub parse_mode: Option<ParseMode>,
    pub disable_web_page_preview: Option<bool>,
    pub disable_notification: Option<bool>,
    pub reply_to_message_id: Option<MessageId>,
    pub reply_markup: Option<ReplyMarkup>,
}

impl SendMessage {
    /// A request to send `text` to `chat_id`, other options default.
    pub fn new(chat_id: ChatTarget, text: &str) -> (r: SendMessage)
        ensures
            r.chat_id == chat_id,
            r.text@ == text@,
            r.parse_mode is None,
            r.disable_web_page_preview == Some(false),
            r.disable_notification == Some(false),
            r.reply_to_message_id is None,
            r.reply_markup is None,
    {
        SendMessage {
            chat_id,
            text: text.to_owned(),
            parse_mode: None,
            disable_web_page_preview: Some(false),
            disable_notification: Some(false),
            reply_to_message_id: None,
            reply_markup: None,
        }
    }

    /// The same request, formatted in the given language.
    pub fn parse_mode(self, mode: ParseMode) -> (r: SendMessage)
        ensures
            r.parse_mode == Some(mode),
            r.chat_id == self.chat_id,
            r.text == self.text,
            r.disable_web_page_preview == self.disable_web_page_preview,
            r.disable_notification == self.disable_notification,
            r.reply_to_message_id == self.reply_to_message_id,
            r.reply_markup == self.reply_markup,
    {
        SendMessage {
            parse_mode: Some(mode),
            ..self
        }
    }

    /// The same request, sent as a reply to the given message.
    pub fn reply(self, message_id: MessageId) -> (r: SendMessage)
        ensures
            r.reply_to_message_id == Some(message_id),
            r.chat_id == self.chat_id,
            r.text == self.text,
            r.parse_mode == self.parse_mode,
            r.disable_web_page_preview == self.disable_web_page_preview,
            r.disable_notification == self.disable_notification,
            r.reply_markup == self.reply_markup,
    {
        SendMessage {
            reply_to_message_id: Some(message_id),
            ..self
        }
    }

    /// The same request, with the given reply markup attached.
    pub fn reply_markup(self, markup: ReplyMarkup) -> (r: SendMessage)
        ensures
            r.reply_markup == Some(markup),
            r.chat_id == self.chat_id,
            r.text == self.text,
            r.parse_mode == self.parse_mode,
            r.disable_web_page_preview == self.disable_web_page_preview,
            r.disable_notification == self.disable_notification,
            r.reply_to_message_id == self.reply_to_message_id,
    {
        SendMessage {
            reply_markup: Some(markup),
            ..self
        }
    }
}

/// Send a sticker.
#[derive(Debug, Clone, PartialEq)]
pub struct SendSticker {
    pub chat_id: ChatTarget,
    pub sticker: FileToSend,
    pub disable_notification: Option<bool>,
    pub reply_to_message_id: Option<MessageId>,
    pub reply_markup: Option<ReplyMarkup>,
}

impl SendSticker {
    /// A request to send a sticker, other options default.
    pub fn new(chat_id: ChatTarget, sticker: FileToSend) -> (r: SendSticker)
        ensures
            r.chat_id == chat_id,
            r.sticker == sticker,
            r.disable_notification is None,
            r.reply_to_message_id is None,
            r.reply_markup is None,
    {
        SendSticker {
            chat_id,
            sticker,
            disable_notification: None,
            reply_to_message_id: None,
            reply_markup: None,
        }
    }

    /// The same request, sent as a reply to the given message.
    pub fn reply(self, reply_to_message_id: MessageId) -> (r: SendSticker)
        ensures
            r.reply_to_message_id == Some(reply_to_message_id),
            r.chat_id == self.chat_id,
            r.sticker == self.sticker,
            r.disable_notification == self.disable_notification,
            r.reply_markup == self.reply_markup,
    {
        SendSticker {
            reply_to_message_id: Some(reply_to_message_id),
            ..self
        }
    }

    /// The same request, with the given reply markup attached.
    pub fn reply_markup(self, markup: ReplyMarkup) -> (r: SendSticker)
        ensures
            r.reply_markup == Some(markup),
            r.chat_id == self.chat_id,
            r.sticker == self.sticker,
            r.disable_notification == self.disable_notification,
            r.reply_to_message_id == self.reply_to_message_id,
    {
        SendSticker {
            reply_markup: Some(markup),
            ..self
        }
    }
}

/// Send a photo.
#[derive(Debug, Clone, PartialEq)]
pub struct SendPhoto {
    pub chat_id: ChatTarget,
    pub photo: FileToSend,
    pub caption: Option<String>,
    pub parse_mode: Option<ParseMode>,
    pub disable_notification: Option<bool>,
    pub reply_to_message_id: Option<MessageId>,
    pub reply_markup: Option<ReplyMarkup>,
}

impl SendPhoto {
    /// A request to send a photo, other options default.
    pub fn new(chat_id: ChatTarget, photo: FileToSend) -> (r: SendPhoto)
        ensures
            r.chat_id == chat_id,
            r.photo == photo,
            r.caption is None,
            r.parse_mode is None,
            r.disable_notification is None,
            r.reply_to_message_id is None,
            r.reply_markup is None,
    {
        SendPhoto {
            chat_id,
            photo,
            caption: None,
            parse_mode: None,
            disable_notification: None,
            reply_to_message_id: None,
            reply_markup: None,
        }
    }

    /// The same request, formatted in the given language.
    pub fn parse_mode(self, mode: ParseMode) -> (r: SendPhoto)
        ensures
            r.parse_mode == Some(mode),
            r.chat_id == self.chat_id,
            r.photo == self.photo,
            r.caption == self.caption,
            r.disable_notification == self.disable_notification,
            r.reply_to_message_id == self.reply_to_message_id,
            r.reply_markup == self.reply_markup,
    {
        SendPhoto {
            parse_mode: Some(mode),
            ..self
        }
    }

    /// The same request, sent as a reply to the given message.
    pub fn reply(self, reply_to_message_id: MessageId) -> (r: SendPhoto)
        ensures
            r.reply_to_message_id == Some(reply_to_message_id),
            r.chat_id == self.chat_id,
            r.photo == self.photo,
            r.caption == self.caption,
            r.parse_mode == self.parse_mode,
            r.disable_notification == self.disable_notification,
            r.reply_markup == self.reply_markup,
    {
        SendPhoto {
            reply_to_message_id: Some(reply_to_message_id),
            ..self
        }
    }

    /// The same request, with the given reply markup attached.
    pub fn reply_markup(self, markup: ReplyMarkup) -> (r: SendPhoto)
        ensures
            r.reply_markup == Some(markup),
            r.chat_id == self.chat_id,
            r.photo == self.photo,
            r.caption == self.caption,
            r.parse_mode == self.parse_mode,
            r.disable_notification == self.disable_notification,
            r.reply_to_message_id == self.reply_to_message_id,
    {
        SendPhoto {
            reply_markup: Some(markup),
            ..self
        }
    }
}

/// Send a general file.
#[derive(Debug, Clone, PartialEq)]
pub struct SendDocument {
    pub chat_id: ChatTarget,
    pub document: FileToSend,
    pub caption: Option<String>,
    pub parse_mode: Option<ParseMode>,
    pub disable_notification: Option<bool>,
    pub reply_to_message_id: Option<MessageId>,
    pub reply_markup: Option<ReplyMarkup>,
}

impl SendDocument {
    /// A request to send a document, other options default.
    pub fn new(chat_id: ChatTarget, document: FileToSend) -> (r: SendDocument)
        ensures
            r.chat_id == chat_id,
            r.document == document,
            r.caption is None,
            r.parse_mode is None,
            r.disable_notification is None,
            r.reply_to_message_id is None,
            r.reply_markup is None,
    {
        SendDocument {
            chat_id,
            document,
            caption: None,
            parse_mode: None,
            disable_notification: None,
            reply_to_message_id: None,
            reply_markup: None,
        }
    }

    /// The same request, formatted in the given language.
    pub fn parse_mode(self, mode: ParseMode) -> (r: SendDocument)
        ensures
            r.parse_mode == Some(mode),
            r.chat_id == self.chat_id,
            r.document == self.document,
            r.caption == self.caption,
            r.disable_notification == self.disable_notification,
            r.reply_to_message_id == self.reply_to_message_id,
            r.reply_markup == self.reply_markup,
    {
        SendDocument {
            parse_mode: Some(mode),
            ..self
        }
    }

    /// The same request, sent as a reply to the given message.
    pub fn reply(self, reply_to_message_id: MessageId) -> (r: SendDocument)
        ensures
            r.reply_to_message_id == Some(reply_to_message_id),
            r.chat_id == self.chat_id,
            r.document == self.document,
            r.caption == self.caption,
            r.parse_mode == self.parse_mode,
            r.disable_notification == self.disable_notification,
            r.reply_markup == self.reply_markup,
    {
        SendDocument {
            reply_to_message_id: Some(reply_to_message_id),
            ..self
        }
    }

    /// The same request, with the given reply markup attached.
    pub fn reply_markup(self, markup: ReplyMarkup) -> (r: SendDocument)
        ensures
            r.reply_markup == Some(markup),
            r.chat_id == self.chat_id,
            r.document == self.document,
            r.caption == self.caption,
            r.parse_mode == self.parse_mode,
            r.disable_notification == self.disable_notification,
            r.reply_to_message_id == self.reply_to_message_id,
    {
        SendDocument {
            reply_markup: Some(markup),
            ..self
        }
    }
}

/// Forward a message of any kind.
#[derive(Debug, Clone, PartialEq)]
pub struct ForwardMessage {
    pub chat_id: ChatTarget,
    pub from_chat_id: ChatTarget,
    pub message_id: MessageId,
}


/// Copy a message without a link to the original.
#[derive(Debug, Clone, PartialEq)]
pub struct CopyMessage {
    /// Target chat or username of the target channel
    pub chat_id: ChatTarget,
    /// Chat where the original message was sent
    pub from_chat_id: ChatTarget,
    pub message_id: MessageId,
    /// New caption for media; the original caption is kept when absent
    pub caption: Option<String>,
    pub parse_mode: Option<ParseMode>,
    /// Special entities in the new caption, instead of `parse_mode`
    pub caption_entities: Option<Vec<MessageEntity>>,
    /// Send silently
    pub disable_notification: Option<bool>,
    /// If the message is a reply, the original message
    pub reply_to_message_id: Option<MessageId>,
    /// Send even if the replied-to message is not found
    pub allow_sending_without_reply: Option<bool>,
    /// Additional interface options
    pub reply_markup: Option<ReplyMarkup>,
}

impl CopyMessage {
    /// A request to copy a message, other options default.
    pub fn new(
        chat_id: ChatTarget,
        from_chat_id: ChatTarget,
        message_id: MessageId,
    ) -> (r: CopyMessage)
        ensures
            r.chat_id == chat_id,
            r.from_chat_id == from_chat_id,
            r.message_id == message_id,
            r.caption is None,
            r.parse_mode is None,
            r.caption_entities is None,
            r.disable_notification is None,
            r.reply_to_message_id is None,
            r.allow_sending_without_reply is None,
            r.reply_markup is None,
    {
        CopyMessage {
            chat_id,
            from_chat_id,
            message_id,
            caption: None,
            parse_mode: None,
            caption_entities: None,
            disable_notification: None,
            reply_to_message_id: None,
            allow_sending_without_reply: None,
            reply_markup: None,
        }
    }

    /// The same request, with a new caption.
    pub fn caption(self, caption: String) -> (r: CopyMessage)
        ensures
            r.caption == Some(caption),
            r.chat_id == self.chat_id,
            r.from_chat_id == self.from_chat_id,
            r.message_id == self.message_id,
            r.parse_mode == self.parse_mode,
            r.caption_entities == self.caption_entities,
            r.disable_notification == self.disable_notification,
            r.reply_to_message_id == self.reply_to_message_id,
            r.allow_sending_without_reply == self.allow_sending_without_reply,
            r.reply_markup == self.reply_markup,
    {
        CopyMessage {
            caption: Some(caption),
            ..self
        }
    }

    /// The same request, formatted in the given language.
    pub fn parse_mode(self, parse_mode: ParseMode) -> (r: CopyMessage)
        ensures
            r.parse_mode == Some(parse_mode),
            r.chat_id == self.chat_id,
            r.from_chat_id == self.from_chat_id,
            r.message_id == self.message_id,
            r.caption == self.caption,
            r.caption_entities == self.caption_entities,
            r.disable_notification == self.disable_notification,
            r.reply_to_message_id == self.reply_to_message_id,
            r.allow_sending_without_reply == self.allow_sending_without_reply,
            r.reply_markup == self.reply_markup,
    {
        CopyMessage {
            parse_mode: Some(parse_mode),
            ..self
        }
    }

    /// The same request, sent silently or not.
    pub fn disable_notification(self, disable_notification: bool) -> (r: CopyMessage)
        ensures
            r.disable_notification == Some(disable_notification),
            r.chat_id == self.chat_id,
            r.from_chat_id == self.from_chat_id,
            r.message_id == self.message_id,
            r.caption == self.caption,
            r.parse_mode == self.parse_mode,
            r.caption_entities == self.caption_entities,
            r.reply_to_message_id == self.reply_to_message_id,
            r.allow_sending_without_reply == self.allow_sending_without_reply,
            r.reply_markup == self.reply_markup,
    {
        CopyMessage {
            disable_notification: Some(disable_notification),
            ..self
        }
    }

    /// The same request, sent as a reply to the given message.
    pub fn reply_to_message_id(self, reply_to_message_id: MessageId) -> (r: CopyMessage)
        ensures
            r.reply_to_message_id == Some(reply_to_message_id),
            r.chat_id == self.chat_id,
            r.from_chat_id == self.from_chat_id,
            r.message_id == self.message_id,
            r.caption == self.caption,
            r.parse_mode == self.parse_mode,
            r.caption_entities == self.caption_entities,
            r.disable_notification == self.disable_notification,
            r.allow_sending_without_reply == self.allow_sending_without_reply,
            r.reply_markup == self.reply_markup,
    {
        CopyMessage {
            reply_to_message_id: Some(reply_to_message_id),
            ..self
        }
    }

    /// The same request, tolerant of a missing replied-to message.
    pub fn allow_sending_without_reply(self, allow_sending_without_reply: bool) -> (r: CopyMessage)
        ensures
            r.allow_sending_without_reply == Some(allow_sending_without_reply),
            r.chat_id == self.chat_id,
            r.from_chat_id == self.from_chat_id,
            r.message_id == self.message_id,
            r.caption == self.caption,
            r.parse_mode == self.parse_mode,
            r.caption_entities == self.caption_entities,
            r.disable_notification == self.disable_notification,
            r.reply_to_message_id == self.reply_to_message_id,
            r.reply_markup == self.reply_markup,
    {
        CopyMessage {
            allow_sending_without_reply: Some(allow_sending_without_reply),
            ..self
        }
    }

    /// The same request, with the given reply markup attached.
    pub fn reply_markup(self, reply_markup: ReplyMarkup) -> (r: CopyMessage)
        ensures
            r.reply_markup == Some(reply_markup),
            r.chat_id == self.chat_id,
            r.from_chat_id == self.from_chat_id,
            r.message_id == self.message_id,
            r.caption == self.caption,
            r.parse_mode == self.parse_mode,
            r.caption_entities == self.caption_entities,
            r.disable_notification == self.disable_notification,
            r.reply_to_message_id == self.reply_to_message_id,
            r.allow_sending_without_reply == self.allow_sending_without_reply,
    {
        CopyMessage {
            reply_markup: Some(reply_markup),
            ..self
        }
    }
}

/// Get a user's profile pictures.
#[derive(Debug, Clone, PartialEq)]
pub struct GetUserProfilePhotos {
    pub user_id: UserId,
    pub offset: Option<i32>,
    pub limit: Option<i32>,
}

impl GetUserProfilePhotos {
    /// A request for the profile pictures of `user_id`.
    pub fn new(user_id: UserId) -> (r: GetUserProfilePhotos)
        ensures
            r.user_id == user_id,
            r.offset is None,
            r.limit is None,
    {
        GetUserProfilePhotos { user_id, offset: None, limit: None }
    }
}

/// Get up to date information about a chat.
#[derive(Debug, Clone, PartialEq)]
pub struct GetChat {
    pub chat_id: ChatTarget,
}


/// Get the number of members in a chat.
#[derive(Debug, Clone, PartialEq)]
pub struct GetChatMembersCount {
    pub chat_id: ChatTarget,
}


/// Get the administrators of a chat.
#[derive(Debug, Clone, PartialEq)]
pub struct GetChatAdministrators {
    pub chat_id: ChatTarget,
}


/// Get information about a member of a chat.
#[derive(Debug, Clone, PartialEq)]
pub struct GetChatMember {
    pub chat_id: ChatTarget,
    pub user_id: UserId,
}


/// Answer a callback query sent from an inline keyboard.
#[derive(Debug, Clone, PartialEq)]
pub struct AnswerCallbackQuery {
    /// Unique identifier for the query to be answered
    pub callback_query_id: String,
    /// Text of the notification
    pub text: Option<String>,
    /// Show an alert instead of a notification
    pub show_alert: Option<bool>,
    /// URL that will be opened by the user's client
    pub url: Option<String>,
    /// Seconds the result may be cached client-side
    pub cache_time: Option<u64>,
}

impl AnswerCallbackQuery {
    /// An answer to the given callback query, other options default.
    pub fn new(callback_query_id: String) -> (r: AnswerCallbackQuery)
        ensures
            r.callback_query_id == callback_query_id,
            r.text is None,
            r.show_alert is None,
            r.url is None,
            r.cache_time is None,
    {
        AnswerCallbackQuery {
            callback_query_id,
            text: None,
            show_alert: None,
            url: None,
            cache_time: None,
        }
    }

    /// The same answer, with a notification text.
    pub fn text(self, text: String) -> (r: AnswerCallbackQuery)
        ensures
            r.text == Some(text),
            r.callback_query_id == self.callback_query_id,
            r.show_alert == self.show_alert,
            r.url == self.url,
            r.cache_time == self.cache_time,
    {
        AnswerCallbackQuery {
            text: Some(text),
            ..self
        }
    }

    /// The same answer, shown as an alert or not.
    pub fn show_alert(self, show_alert: bool) -> (r: AnswerCallbackQuery)
        ensures
            r.show_alert == Some(show_alert),
            r.callback_query_id == self.callback_query_id,
            r.text == self.text,
            r.url == self.url,
            r.cache_time == self.cache_time,
    {
        AnswerCallbackQuery {
            show_alert: Some(show_alert),
            ..self
        }
    }

    /// The same answer, opening the given URL.
    pub fn url(self, url: String) -> (r: AnswerCallbackQuery)
        ensures
            r.url == Some(url),
            r.callback_query_id == self.callback_query_id,
            r.text == self.text,
            r.show_alert == self.show_alert,
            r.cache_time == self.cache_time,
    {
        AnswerCallbackQuery {
            url: Some(url),
            ..self
        }
    }

    /// The same answer, cached for the given seconds.
    pub fn cache_time(self, cache_time: u64) -> (r: AnswerCallbackQuery)
        ensures
            r.cache_time == Some(cache_time),
            r.callback_query_id == self.callback_query_id,
            r.text == self.text,
            r.show_alert == self.show_alert,
            r.url == self.url,
    {
        AnswerCallbackQuery {
            cache_time: Some(cache_time),
            ..self
        }
    }
}

/// Send a group of photos, videos, documents or audios as an album.
#[derive(Debug, Clone, PartialEq)]
pub struct SendMediaGroup {
    pub chat_id: ChatTarget,
    /// Must include 2-10 items
    pub media: Vec<InputMedia>,
    /// Send silently
    pub disable_notification: Option<bool>,
    /// If the messages are a reply, the original message
    pub reply_to_message_id: Option<MessageId>,
    /// Send even if the replied-to message is not found
    pub allow_sending_without_reply: Option<bool>,
}


/// Edit the text of a message sent by the bot.
#[derive(Debug, Clone, PartialEq)]
pub struct EditMessageText {
    pub chat_id: Option<ChatTarget>,
    pub message_id: Option<MessageId>,
    pub inline_message_id: Option<String>,
    pub text: String,
    pub parse_mode: Option<ParseMode>,
    pub disable_web_page_preview: Option<bool>,
    pub reply_markup: Option<InlineKeyboardMarkup>,
}

impl EditMessageText {
    /// A request to replace the text of the given message.
    pub fn new(chat_id: ChatTarget, message_id: MessageId, text: &str) -> (r: EditMessageText)
        ensures
            r.chat_id == Some(chat_id),
            r.message_id == Some(message_id),
            r.inline_message_id is None,
            r.text@ == text@,
            r.parse_mode is None,
            r.disable_web_page_preview is None,
            r.reply_markup is None,
    {
        EditMessageText {
            chat_id: Some(chat_id),
            message_id: Some(message_id),
            inline_message_id: None,
            text: text.to_owned(),
            parse_mode: None,
            disable_web_page_preview: None,
            reply_markup: None,
        }
    }

    /// The same request, with link previews disabled.
    pub fn disable_preview(self) -> (r: EditMessageText)
        ensures
            r.disable_web_page_preview == Some(true),
            r.chat_id == self.chat_id,
            r.message_id == self.message_id,
            r.inline_message_id == self.inline_message_id,
            r.text == self.text,
            r.parse_mode == self.parse_mode,
            r.reply_markup == self.reply_markup,
    {
        EditMessageText {
            disable_web_page_preview: Some(true),
            ..self
        }
    }

    /// The same request, formatted in the given language.
    pub fn parse_mode(self, mode: ParseMode) -> (r: EditMessageText)
        ensures
            r.parse_mode == Some(mode),
            r.chat_id == self.chat_id,
            r.message_id == self.message_id,
            r.inline_message_id == self.inline_message_id,
            r.text == self.text,
            r.disable_web_page_preview == self.disable_web_page_preview,
            r.reply_markup == self.reply_markup,
    {
        EditMessageText {
            parse_mode: Some(mode),
            ..self
        }
    }

    /// The same request, with the given inline keyboard attached.
    pub fn reply_markup(self, markup: InlineKeyboardMarkup) -> (r: EditMessageText)
        ensures
            r.reply_markup == Some(markup),
            r.chat_id == self.chat_id,
            r.message_id == self.message_id,
            r.inline_message_id == self.inline_message_id,
            r.text == self.text,
            r.parse_mode == self.parse_mode,
            r.disable_web_page_preview == self.disable_web_page_preview,
    {
        EditMessageText {
            reply_markup: Some(markup),
            ..self
        }
    }
}

/// Edit the caption of a message sent by the bot.
#[derive(Debug, Clone, PartialEq)]
pub struct EditMessageCaption {
    pub chat_id: Option<ChatTarget>,
    pub message_id: Option<MessageId>,
    pub inline_message_id: Option<String>,
    pub caption: Option<String>,
    pub parse_mode: Option<ParseMode>,
    pub reply_markup: Option<InlineKeyboardMarkup>,
}

impl EditMessageCaption {
    /// A request to edit the caption of the given message.
    pub fn new(chat_id: ChatTarget, message_id: MessageId) -> (r: EditMessageCaption)
        ensures
            r.chat_id == Some(chat_id),
            r.message_id == Some(message_id),
            r.inline_message_id is None,
            r.caption is None,
            r.parse_mode is None,
            r.reply_markup is None,
    {
        EditMessageCaption {
            chat_id: Some(chat_id),
            message_id: Some(message_id),
            inline_message_id: None,
            caption: None,
            parse_mode: None,
            reply_markup: None,
        }
    }

    /// The same request, with a new caption.
    pub fn caption(self, caption: String) -> (r: EditMessageCaption)
        ensures
            r.caption == Some(caption),
            r.chat_id == self.chat_id,
            r.message_id == self.message_id,
            r.inline_message_id == self.inline_message_id,
            r.parse_mode == self.parse_mode,
            r.reply_markup == self.reply_markup,
    {
        EditMessageCaption {
            caption: Some(caption),
            ..self
        }
    }

    /// The same request, formatted in the given language.
    pub fn parse_mode(self, mode: ParseMode) -> (r: EditMessageCaption)
        ensures
            r.parse_mode == Some(mode),
            r.chat_id == self.chat_id,
            r.message_id == self.message_id,
            r.inline_message_id == self.inline_message_id,
            r.caption == self.caption,
            r.reply_markup == self.reply_markup,
    {
        EditMessageCaption {
            parse_mode: Some(mode),
            ..self
        }
    }

    /// The same request, with the given inline keyboard attached.
    pub fn reply_markup(self, markup: InlineKeyboardMarkup) -> (r: EditMessageCaption)
        ensures
            r.reply_markup == Some(markup),
            r.chat_id == self.chat_id,
            r.message_id == self.message_id,
            r.inline_message_id == self.inline_message_id,
            r.caption == self.caption,
            r.parse_mode == self.parse_mode,
    {
        EditMessageCaption {
            reply_markup: Some(markup),
            ..self
        }
    }
}

/// Edit the media of a message sent by the bot.
#[derive(Debug, Clone, PartialEq)]
pub struct EditMessageMedia {
    pub chat_id: Option<ChatTarget>,
    pub message_id: Option<MessageId>,
    pub inline_message_id: Option<String>,
    pub media: InputMedia,
    pub reply_markup: Option<InlineKeyboardMarkup>,
}

impl EditMessageMedia {
    /// A request to replace the media of the given message.
    pub fn new(
        chat_id: ChatTarget,
        message_id: MessageId,
        media: InputMedia,
    ) -> (r: EditMessageMedia)
        ensures
            r.chat_id == Some(chat_id),
            r.message_id == Some(message_id),
            r.inline_message_id is None,
            r.media == media,
            r.reply_markup is None,
    {
        EditMessageMedia {
            chat_id: Some(chat_id),
            message_id: Some(message_id),
            inline_message_id: None,
            media,
            reply_markup: None,
        }
    }
}

/// Edit only the reply markup of a message sent by the bot.
#[derive(Debug, Clone, PartialEq)]
pub struct EditMessageReplyMarkup {
    pub chat_id: Option<ChatTarget>,
    pub message_id: Option<MessageId>,
    pub inline_message_id: Option<String>,
    pub reply_markup: Option<InlineKeyboardMarkup>,
}

/// Delete a message.
#[derive(Debug, Clone, PartialEq)]
pub struct DeleteMessage {
    pub chat_id: ChatTarget,
    pub message_id: MessageId,
}

/// Approve a chat join request.
#[derive(Debug, Clone, PartialEq)]
pub struct ApproveJoinRequest {
    pub chat_id: ChatTarget,
    pub user_id: UserId,
}

/// Decline a chat join request.
#[derive(Debug, Clone, PartialEq)]
pub struct DeclineJoinRequest {
    pub chat_id: ChatTarget,
    pub user_id: UserId,
}

/// Get basic information about the bot itself.
#[derive(Debug, Clone, PartialEq)]
pub struct GetMe;

/// Remove the webhook integration.
#[derive(Debug, Clone, PartialEq)]
pub struct DeleteWebhook;

/// Get the current webhook status.
#[derive(Debug, Clone, PartialEq)]
pub struct GetWebhookInfo;


/// Specify a url to receive incoming updates via an outgoing webhook.
#[derive(Debug, Clone, PartialEq)]
pub struct SetWebhook {
    /// HTTPS url to send updates to; empty to remove the webhook
    pub url: String,
    /// Fixed IP address to use instead of one resolved through DNS
    pub ip_address: Option<String>,
    /// Maximum allowed number of simultaneous connections, 1-100
    pub max_connections: Option<i32>,
    pub allowed_updates: Option<Vec<UpdateTypes>>,
    /// Pass true to drop all pending updates
    pub drop_pending_updates: Option<bool>,
}

impl SetWebhook {
    /// A request to receive updates at `url`, other options default.
    pub fn new(url: &str) -> (r: SetWebhook)
        ensures
            r.url@ == url@,
            r.ip_address is None,
            r.max_connections is None,
            r.allowed_updates is None,
            r.drop_pending_updates is None,
    {
        SetWebhook {
            url: url.to_owned(),
            ip_address: None,
            max_connections: None,
            allowed_updates: None,
            drop_pending_updates: None,
        }
    }

    /// The same request, with a connection limit.
    pub fn max_connections(self, x: i32) -> (r: SetWebhook)
        ensures
            r.max_connections == Some(x),
            r.url == self.url,
            r.ip_address == self.ip_address,
            r.allowed_updates == self.allowed_updates,
            r.drop_pending_updates == self.drop_pending_updates,
    {
        SetWebhook {
            max_connections: Some(x),
            ..self
        }
    }
}

/// The model of a reply markup.
pub enum ReplyMarkupV {
    InlineKeyboard(InlineKeyboardMarkupV),
    ReplyKeyboard(ReplyKeyboardMarkupV),
    ReplyKeyboardRemove(ReplyKeyboardRemoveV),
    ForceReply(ForceReplyV),
}

/// Kinds of reply markup: one of four mutually exclusive keyboard shapes.
///
/// The wire form is the inner object's form, with no tag; decoding tries
/// the branches in declaration order.
#[derive(Debug, Clone, PartialEq)]
pub enum ReplyMarkup {
    InlineKeyboard(InlineKeyboardMarkup),
    ReplyKeyboard(ReplyKeyboardMarkup),
    ReplyKeyboardRemove(ReplyKeyboardRemove),
    ForceReply(ForceReply),
}

impl View for ReplyMarkup {
    type V = ReplyMarkupV;

    open spec fn view(&self) -> ReplyMarkupV {
        match self {
            ReplyMarkup::InlineKeyboard(k) => ReplyMarkupV::InlineKeyboard(k@),
            ReplyMarkup::ReplyKeyboard(k) => ReplyMarkupV::ReplyKeyboard(k@),
            ReplyMarkup::ReplyKeyboardRemove(k) => ReplyMarkupV::ReplyKeyboardRemove(k@),
            ReplyMarkup::ForceReply(k) => ReplyMarkupV::ForceReply(k@),
        }
    }
}

impl ReplyMarkup {
    /// The wire form: the inner object's form, carrying no tag.
    pub open spec fn encoded_v(v: ReplyMarkupV) -> JsonV {
        match v {
            ReplyMarkupV::InlineKeyboard(k) => InlineKeyboardMarkup::encoded_v(k),
            ReplyMarkupV::ReplyKeyboard(k) => ReplyKeyboardMarkup::encoded_v(k),
            ReplyMarkupV::ReplyKeyboardRemove(k) => ReplyKeyboardRemove::encoded_v(k),
            ReplyMarkupV::ForceReply(k) => ForceReply::encoded_v(k),
        }
    }

    /// What a document denotes: the branches are tried in declaration
    /// order and the first whose decoder accepts the value wins; when none
    /// does, the error names this union and the JSON type of the value.
    ///
    /// The inline-keyboard branch accepts any object, since its only
    /// member may be absent, so an object with none of the branches'
    /// marker members still decodes as an inline keyboard: that residual
    /// ambiguity is part of the wire format.
    pub open spec fn decoded(j: JsonV) -> Result<ReplyMarkupV, DecodeError> {
        if InlineKeyboardMarkup::decoded(j) is Ok {
            Ok(ReplyMarkupV::InlineKeyboard(InlineKeyboardMarkup::decoded(j)->Ok_0))
        } else if ReplyKeyboardMarkup::decoded(j) is Ok {
            Ok(ReplyMarkupV::ReplyKeyboard(ReplyKeyboardMarkup::decoded(j)->Ok_0))
        } else if ReplyKeyboardRemove::decoded(j) is Ok {
            Ok(ReplyMarkupV::ReplyKeyboardRemove(ReplyKeyboardRemove::decoded(j)->Ok_0))
        } else if ForceReply::decoded(j) is Ok {
            Ok(ReplyMarkupV::ForceReply(ForceReply::decoded(j)->Ok_0))
        } else {
            Err(DecodeError::NoVariantMatched(UnionKind::ReplyMarkup, kind_of(j)))
        }
    }

    /// Encode as the inner object, with no tag.
    pub fn to_json(&self) -> (r: Json)
        ensures
            r@ == ReplyMarkup::encoded_v(self@),
    {
        match self {
            ReplyMarkup::InlineKeyboard(k) => k.to_json(),
            ReplyMarkup::ReplyKeyboard(k) => k.to_json(),
            ReplyMarkup::ReplyKeyboardRemove(k) => k.to_json(),
            ReplyMarkup::ForceReply(k) => k.to_json(),
        }
    }

    /// Decode by trying the branches in declaration order.
    pub fn from_json(j: &Json) -> (r: Result<ReplyMarkup, DecodeError>)
        ensures
            match r {
                Ok(v) => ReplyMarkup::decoded(j@) == Ok::<_, DecodeError>(v@),
                Err(e) => ReplyMarkup::decoded(j@) == Err::<ReplyMarkupV, _>(e),
            },
    {
        match InlineKeyboardMarkup::from_json(j) {
            Ok(k) => {
                return Ok(ReplyMarkup::InlineKeyboard(k));
            },
            Err(_) => {},
        }
        match ReplyKeyboardMarkup::from_json(j) {
            Ok(k) => {
                return Ok(ReplyMarkup::ReplyKeyboard(k));
            },
            Err(_) => {},
        }
        match ReplyKeyboardRemove::from_json(j) {
            Ok(k) => {
                return Ok(ReplyMarkup::ReplyKeyboardRemove(k));
            },
            Err(_) => {},
        }
        match ForceReply::from_json(j) {
            Ok(k) => {
                return Ok(ReplyMarkup::ForceReply(k));
            },
            Err(_) => {},
        }
        Err(DecodeError::NoVariantMatched(UnionKind::ReplyMarkup, json_kind(j)))
    }
}

/// The model of the content of a media message.
pub enum InputMediaV {
    Video {
        media: FileToSendV,
        caption: Option<Seq<char>>,
        parse_mode: Option<ParseMode>,
        width: Option<int>,
        height: Option<int>,
        duration: Option<int>,
        supports_streaming: Option<bool>,
    },
    Photo {
        media: FileToSendV,
        caption: Option<Seq<char>>,
        parse_mode: Option<ParseMode>,
    },
    Animation {
        media: FileToSendV,
        thumb: Option<Seq<char>>,
        caption: Option<Seq<char>>,
        parse_mode: Option<ParseMode>,
        width: Option<int>,
        height: Option<int>,
        duration: Option<int>,
    },
    Audio {
        media: FileToSendV,
        thumb: Option<Seq<char>>,
        caption: Option<Seq<char>>,
        parse_mode: Option<ParseMode>,
        duration: Option<int>,
        performer: Option<Seq<char>>,
        title: Option<Seq<char>>,
    },
    Document {
        media: FileToSendV,
        thumb: Option<Seq<char>>,
        caption: Option<Seq<char>>,
        parse_mode: Option<ParseMode>,
    },
    Unknown,
}

/// The content of a media message to be sent, tagged by its `type`
/// member; an unrecognized tag decodes to `Unknown` rather than failing.
#[derive(Debug, Clone, PartialEq)]
pub enum InputMedia {
    Video {
        /// File to send.
        media: FileToSend,
        /// Caption of the video to be sent
        caption: Option<String>,
        parse_mode: Option<ParseMode>,
        width: Option<i32>,
        height: Option<i32>,
        duration: Option<i32>,
        /// Pass true if the uploaded video is suitable for streaming
        supports_streaming: Option<bool>,
    },
    Photo {
        /// File to send.
        media: FileToSend,
        /// Caption of the photo to be sent
        caption: Option<String>,
        parse_mode: Option<ParseMode>,
    },
    Animation {
        /// File to send.
        media: FileToSend,
        /// Thumbnail of the file sent
        thumb: Option<InputFile>,
        caption: Option<String>,
        parse_mode: Option<ParseMode>,
        width: Option<i32>,
        height: Option<i32>,
        duration: Option<i32>,
    },
    Audio {
        media: FileToSend,
        thumb: Option<InputFile>,
        caption: Option<String>,
        parse_mode: Option<ParseMode>,
        duration: Option<i32>,
        performer: Option<String>,
        title: Option<String>,
    },
    Document {
        media: FileToSend,
        thumb: Option<InputFile>,
        caption: Option<String>,
        parse_mode: Option<ParseMode>,
    },
    /// Unknown upstream data type.
    Unknown,
}

impl View for InputMedia {
    type V = InputMediaV;

    open spec fn view(&self) -> InputMediaV {
        match self {
            InputMedia::Video { media, caption, parse_mode, width, height, duration, supports_streaming } => InputMediaV::Video {
                media: media@,
                caption: opt_str_view(caption),
                parse_mode: *parse_mode,
                width: opt_i32_view(width),
                height: opt_i32_view(height),
                duration: opt_i32_view(duration),
                supports_streaming: *supports_streaming,
            },
            InputMedia::Photo { media, caption, parse_mode } => InputMediaV::Photo {
                media: media@,
                caption: opt_str_view(caption),
                parse_mode: *parse_mode,
            },
            InputMedia::Animation { media, thumb, caption, parse_mode, width, height, duration } => InputMediaV::Animation {
                media: media@,
                thumb: opt_file_view(thumb),
                caption: opt_str_view(caption),
                parse_mode: *parse_mode,
                width: opt_i32_view(width),
                height: opt_i32_view(height),
                duration: opt_i32_view(duration),
            },
            InputMedia::Audio { media, thumb, caption, parse_mode, duration, performer, title } => InputMediaV::Audio {
                media: media@,
                thumb: opt_file_view(thumb),
                caption: opt_str_view(caption),
                parse_mode: *parse_mode,
                duration: opt_i32_view(duration),
                performer: opt_str_view(performer),
                title: opt_str_view(title),
            },
            InputMedia::Document { media, thumb, caption, parse_mode } => InputMediaV::Document {
                media: media@,
                thumb: opt_file_view(thumb),
                caption: opt_str_view(caption),
                parse_mode: *parse_mode,
            },
            InputMedia::Unknown => InputMediaV::Unknown,
        }
    }
}

/// The model of an optional string.
pub open spec fn opt_str_view(s: &Option<String>) -> Option<Seq<char>> {
    match s {
        None => None,
        Some(x) => Some(x@),
    }
}

/// The model of an optional 32-bit integer.
pub open spec fn opt_i32_view(n: &Option<i32>) -> Option<int> {
    match n {
        None => None,
        Some(x) => Some(*x as int),
    }
}

/// The model of an optional fresh-upload reference: its attachment string.
pub open spec fn opt_file_view(f: &Option<InputFile>) -> Option<Seq<char>> {
    match f {
        None => None,
        Some(x) => Some(x.0@),
    }
}

/// An optional integer absent or within the signed 32-bit range.
pub open spec fn opt_in_i32(n: Option<int>) -> bool {
    match n {
        None => true,
        Some(x) => i32::MIN <= x <= i32::MAX,
    }
}

impl InputMedia {
    /// The integer attributes of the branch fit the wire's 32-bit fields.
    pub open spec fn wf_v(v: InputMediaV) -> bool {
        match v {
            InputMediaV::Video { width, height, duration, .. } => opt_in_i32(width) && opt_in_i32(
                height,
            ) && opt_in_i32(duration),
            InputMediaV::Photo { .. } => true,
            InputMediaV::Animation { width, height, duration, .. } => opt_in_i32(width)
                && opt_in_i32(height) && opt_in_i32(duration),
            InputMediaV::Audio { duration, .. } => opt_in_i32(duration),
            InputMediaV::Document { .. } => true,
            InputMediaV::Unknown => true,
        }
    }

    /// Every file reference of the branch is in the by-identifier branch,
    /// the one the shared bare-string wire form decodes back to.
    pub open spec fn media_by_id(v: InputMediaV) -> bool {
        match v {
            InputMediaV::Video { media, .. } => media is FileId,
            InputMediaV::Photo { media, .. } => media is FileId,
            InputMediaV::Animation { media, .. } => media is FileId,
            InputMediaV::Audio { media, .. } => media is FileId,
            InputMediaV::Document { media, .. } => media is FileId,
            InputMediaV::Unknown => true,
        }
    }

    /// The wire form: an object whose `type` member names the branch and
    /// whose other members are the branch's attributes; an absent optional
    /// attribute is written not at all, but a fresh-upload thumbnail
    /// member is always written, as `null` when absent.
    pub open spec fn encoded_v(v: InputMediaV) -> JsonV {
        match v {
            InputMediaV::Video { media, caption, parse_mode, width, height, duration, supports_streaming } => JsonV::Obj(
                req_entry("type"@, JsonV::Str("video"@)) + req_entry(
                    "media"@,
                    FileToSend::encoded_v(media),
                ) + opt_entry("caption"@, opt_str_v(caption)) + opt_entry(
                    "parse_mode"@,
                    ParseMode::opt_encoded(parse_mode),
                ) + opt_entry("width"@, opt_int_v(width)) + opt_entry(
                    "height"@,
                    opt_int_v(height),
                ) + opt_entry("duration"@, opt_int_v(duration)) + opt_entry(
                    "supports_streaming"@,
                    opt_bool_v(supports_streaming),
                ),
            ),
            InputMediaV::Photo { media, caption, parse_mode } => JsonV::Obj(
                req_entry("type"@, JsonV::Str("photo"@)) + req_entry(
                    "media"@,
                    FileToSend::encoded_v(media),
                ) + opt_entry("caption"@, opt_str_v(caption)) + opt_entry(
                    "parse_mode"@,
                    ParseMode::opt_encoded(parse_mode),
                ),
            ),
            InputMediaV::Animation { media, thumb, caption, parse_mode, width, height, duration } => JsonV::Obj(
                req_entry("type"@, JsonV::Str("animation"@)) + req_entry(
                    "media"@,
                    FileToSend::encoded_v(media),
                ) + req_entry("thumb"@, nullable(opt_str_v(thumb))) + opt_entry(
                    "caption"@,
                    opt_str_v(caption),
                ) + opt_entry("parse_mode"@, ParseMode::opt_encoded(parse_mode)) + opt_entry(
                    "width"@,
                    opt_int_v(width),
                ) + opt_entry("height"@, opt_int_v(height)) + opt_entry(
                    "duration"@,
                    opt_int_v(duration),
                ),
            ),
            InputMediaV::Audio { media, thumb, caption, parse_mode, duration, performer, title } => JsonV::Obj(
                req_entry("type"@, JsonV::Str("audio"@)) + req_entry(
                    "media"@,
                    FileToSend::encoded_v(media),
                ) + req_entry("thumb"@, nullable(opt_str_v(thumb))) + opt_entry(
                    "caption"@,
                    opt_str_v(caption),
                ) + opt_entry("parse_mode"@, ParseMode::opt_encoded(parse_mode)) + opt_entry(
                    "duration"@,
                    opt_int_v(duration),
                ) + opt_entry("performer"@, opt_str_v(performer)) + opt_entry(
                    "title"@,
                    opt_str_v(title),
                ),
            ),
            InputMediaV::Document { media, thumb, caption, parse_mode } => JsonV::Obj(
                req_entry("type"@, JsonV::Str("document"@)) + req_entry(
                    "media"@,
                    FileToSend::encoded_v(media),
                ) + req_entry("thumb"@, nullable(opt_str_v(thumb))) + opt_entry(
                    "caption"@,
                    opt_str_v(caption),
                ) + opt_entry("parse_mode"@, ParseMode::opt_encoded(parse_mode)),
            ),
            InputMediaV::Unknown => JsonV::Obj(req_entry("type"@, JsonV::Str("Unknown"@))),
        }
    }

    /// What the members of the object denote once the tag named the video
    /// branch.
    pub open spec fn decoded_video(es: Seq<(Seq<char>, JsonV)>) -> Result<
        InputMediaV,
        DecodeError,
    > {
        if FileToSend::sp_req_field(es, "media"@) is Err {
            Err(FileToSend::sp_req_field(es, "media"@)->Err_0)
        } else if sp_opt_str(es, "caption"@) is Err {
            Err(sp_opt_str(es, "caption"@)->Err_0)
        } else if ParseMode::sp_opt_field(es, "parse_mode"@) is Err {
            Err(ParseMode::sp_opt_field(es, "parse_mode"@)->Err_0)
        } else if sp_opt_i32(es, "width"@) is Err {
            Err(sp_opt_i32(es, "width"@)->Err_0)
        } else if sp_opt_i32(es, "height"@) is Err {
            Err(sp_opt_i32(es, "height"@)->Err_0)
        } else if sp_opt_i32(es, "duration"@) is Err {
            Err(sp_opt_i32(es, "duration"@)->Err_0)
        } else if sp_opt_bool(es, "supports_streaming"@) is Err {
            Err(sp_opt_bool(es, "supports_streaming"@)->Err_0)
        } else {
            Ok(
                InputMediaV::Video {
                    media: FileToSend::sp_req_field(es, "media"@)->Ok_0,
                    caption: sp_opt_str(es, "caption"@)->Ok_0,
                    parse_mode: ParseMode::sp_opt_field(es, "parse_mode"@)->Ok_0,
                    width: sp_opt_i32(es, "width"@)->Ok_0,
                    height: sp_opt_i32(es, "height"@)->Ok_0,
                    duration: sp_opt_i32(es, "duration"@)->Ok_0,
                    supports_streaming: sp_opt_bool(es, "supports_streaming"@)->Ok_0,
                },
            )
        }
    }

    /// What the members denote once the tag named the photo branch.
    pub open spec fn decoded_photo(es: Seq<(Seq<char>, JsonV)>) -> Result<
        InputMediaV,
        DecodeError,
    > {
        if FileToSend::sp_req_field(es, "media"@) is Err {
            Err(FileToSend::sp_req_field(es, "media"@)->Err_0)
        } else if sp_opt_str(es, "caption"@) is Err {
            Err(sp_opt_str(es, "caption"@)->Err_0)
        } else if ParseMode::sp_opt_field(es, "parse_mode"@) is Err {
            Err(ParseMode::sp_opt_field(es, "parse_mode"@)->Err_0)
        } else {
            Ok(
                InputMediaV::Photo {
                    media: FileToSend::sp_req_field(es, "media"@)->Ok_0,
                    caption: sp_opt_str(es, "caption"@)->Ok_0,
                    parse_mode: ParseMode::sp_opt_field(es, "parse_mode"@)->Ok_0,
                },
            )
        }
    }

    /// What the members denote once the tag named the animation branch.
    pub open spec fn decoded_animation(es: Seq<(Seq<char>, JsonV)>) -> Result<
        InputMediaV,
        DecodeError,
    > {
        if FileToSend::sp_req_field(es, "media"@) is Err {
            Err(FileToSend::sp_req_field(es, "media"@)->Err_0)
        } else if sp_opt_str(es, "thumb"@) is Err {
            Err(sp_opt_str(es, "thumb"@)->Err_0)
        } else if sp_opt_str(es, "caption"@) is Err {
            Err(sp_opt_str(es, "caption"@)->Err_0)
        } else if ParseMode::sp_opt_field(es, "parse_mode"@) is Err {
            Err(ParseMode::sp_opt_field(es, "parse_mode"@)->Err_0)
        } else if sp_opt_i32(es, "width"@) is Err {
            Err(sp_opt_i32(es, "width"@)->Err_0)
        } else if sp_opt_i32(es, "height"@) is Err {
            Err(sp_opt_i32(es, "height"@)->Err_0)
        } else if sp_opt_i32(es, "duration"@) is Err {
            Err(sp_opt_i32(es, "duration"@)->Err_0)
        } else {
            Ok(
                InputMediaV::Animation {
                    media: FileToSend::sp_req_field(es, "media"@)->Ok_0,
                    thumb: sp_opt_str(es, "thumb"@)->Ok_0,
                    caption: sp_opt_str(es, "caption"@)->Ok_0,
                    parse_mode: ParseMode::sp_opt_field(es, "parse_mode"@)->Ok_0,
                    width: sp_opt_i32(es, "width"@)->Ok_0,
                    height: sp_opt_i32(es, "height"@)->Ok_0,
                    duration: sp_opt_i32(es, "duration"@)->Ok_0,
                },
            )
        }
    }

    /// What the members denote once the tag named the audio branch.
    pub open spec fn decoded_audio(es: Seq<(Seq<char>, JsonV)>) -> Result<
        InputMediaV,
        DecodeError,
    > {
        if FileToSend::sp_req_field(es, "media"@) is Err {
            Err(FileToSend::sp_req_field(es, "media"@)->Err_0)
        } else if sp_opt_str(es, "thumb"@) is Err {
            Err(sp_opt_str(es, "thumb"@)->Err_0)
        } else if sp_opt_str(es, "caption"@) is Err {
            Err(sp_opt_str(es, "caption"@)->Err_0)
        } else if ParseMode::sp_opt_field(es, "parse_mode"@) is Err {
            Err(ParseMode::sp_opt_field(es, "parse_mode"@)->Err_0)
        } else if sp_opt_i32(es, "duration"@) is Err {
            Err(sp_opt_i32(es, "duration"@)->Err_0)
        } else if sp_opt_str(es, "performer"@) is Err {
            Err(sp_opt_str(es, "performer"@)->Err_0)
        } else if sp_opt_str(es, "title"@) is Err {
            Err(sp_opt_str(es, "title"@)->Err_0)
        } else {
            Ok(
                InputMediaV::Audio {
                    media: FileToSend::sp_req_field(es, "media"@)->Ok_0,
                    thumb: sp_opt_str(es, "thumb"@)->Ok_0,
                    caption: sp_opt_str(es, "caption"@)->Ok_0,
                    parse_mode: ParseMode::sp_opt_field(es, "parse_mode"@)->Ok_0,
                    duration: sp_opt_i32(es, "duration"@)->Ok_0,
                    performer: sp_opt_str(es, "performer"@)->Ok_0,
                    title: sp_opt_str(es, "title"@)->Ok_0,
                },
            )
        }
    }

    /// What the members denote once the tag named the document branch.
    pub open spec fn decoded_document(es: Seq<(Seq<char>, JsonV)>) -> Result<
        InputMediaV,
        DecodeError,
    > {
        if FileToSend::sp_req_field(es, "media"@) is Err {
            Err(FileToSend::sp_req_field(es, "media"@)->Err_0)
        } else if sp_opt_str(es, "thumb"@) is Err {
            Err(sp_opt_str(es, "thumb"@)->Err_0)
        } else if sp_opt_str(es, "caption"@) is Err {
            Err(sp_opt_str(es, "caption"@)->Err_0)
        } else if ParseMode::sp_opt_field(es, "parse_mode"@) is Err {
            Err(ParseMode::sp_opt_field(es, "parse_mode"@)->Err_0)
        } else {
            Ok(
                InputMediaV::Document {
                    media: FileToSend::sp_req_field(es, "media"@)->Ok_0,
                    thumb: sp_opt_str(es, "thumb"@)->Ok_0,
                    caption: sp_opt_str(es, "caption"@)->Ok_0,
                    parse_mode: ParseMode::sp_opt_field(es, "parse_mode"@)->Ok_0,
                },
            )
        }
    }

    /// What the members of an object denote: the `type` tag names the
    /// branch, an unrecognized tag is `Unknown`, and a missing tag is an
    /// error.
    pub open spec fn decoded_fields(es: Seq<(Seq<char>, JsonV)>) -> Result<
        InputMediaV,
        DecodeError,
    > {
        match sp_req_str(es, "type"@) {
            Err(e) => Err(e),
            Ok(tag) => if tag == "video"@ {
                InputMedia::decoded_video(es)
            } else if tag == "photo"@ {
                InputMedia::decoded_photo(es)
            } else if tag == "animation"@ {
                InputMedia::decoded_animation(es)
            } else if tag == "audio"@ {
                InputMedia::decoded_audio(es)
            } else if tag == "document"@ {
                InputMedia::decoded_document(es)
            } else {
                Ok(InputMediaV::Unknown)
            },
        }
    }

    /// What a document denotes.
    pub open spec fn decoded(j: JsonV) -> Result<InputMediaV, DecodeError> {
        match j {
            JsonV::Obj(es) => InputMedia::decoded_fields(es),
            _ => Err(DecodeError::WrongType),
        }
    }

    /// Encode as a tagged object.
    pub fn to_json(&self) -> (r: Json)
        ensures
            r@ == InputMedia::encoded_v(self@),
    {
        let mut out: Vec<(String, Json)> = Vec::new();
        match self {
            InputMedia::Video { media, caption, parse_mode, width, height, duration, supports_streaming } => {
                push_entry(&mut out, "type", Json::Str(String::from_str("video")));
                push_entry(&mut out, "media", media.to_json());
                match caption {
                    None => {},
                    Some(c) => push_entry(&mut out, "caption", Json::Str(c.clone())),
                }
                match parse_mode {
                    None => {},
                    Some(m) => push_entry(&mut out, "parse_mode", m.to_json()),
                }
                match width {
                    None => {},
                    Some(n) => push_entry(&mut out, "width", Json::Int(*n as i64)),
                }
                match height {
                    None => {},
                    Some(n) => push_entry(&mut out, "height", Json::Int(*n as i64)),
                }
                match duration {
                    None => {},
                    Some(n) => push_entry(&mut out, "duration", Json::Int(*n as i64)),
                }
                match supports_streaming {
                    None => {},
                    Some(b) => push_entry(&mut out, "supports_streaming", Json::Bool(*b)),
                }
                proof {
                    assert(entries_view(out@) =~= InputMedia::encoded_v(self@)->Obj_0);
                }
            },
            InputMedia::Photo { media, caption, parse_mode } => {
                push_entry(&mut out, "type", Json::Str(String::from_str("photo")));
                push_entry(&mut out, "media", media.to_json());
                match caption {
                    None => {},
                    Some(c) => push_entry(&mut out, "caption", Json::Str(c.clone())),
                }
                match parse_mode {
                    None => {},
                    Some(m) => push_entry(&mut out, "parse_mode", m.to_json()),
                }
                proof {
                    assert(entries_view(out@) =~= InputMedia::encoded_v(self@)->Obj_0);
                }
            },
            InputMedia::Animation { media, thumb, caption, parse_mode, width, height, duration } => {
                push_entry(&mut out, "type", Json::Str(String::from_str("animation")));
                push_entry(&mut out, "media", media.to_json());
                match thumb {
                    None => push_entry(&mut out, "thumb", Json::Null),
                    Some(f) => push_entry(&mut out, "thumb", Json::Str(f.0.clone())),
                }
                match caption {
                    None => {},
                    Some(c) => push_entry(&mut out, "caption", Json::Str(c.clone())),
                }
                match parse_mode {
                    None => {},
                    Some(m) => push_entry(&mut out, "parse_mode", m.to_json()),
                }
                match width {
                    None => {},
                    Some(n) => push_entry(&mut out, "width", Json::Int(*n as i64)),
                }
                match height {
                    None => {},
                    Some(n) => push_entry(&mut out, "height", Json::Int(*n as i64)),
                }
                match duration {
                    None => {},
                    Some(n) => push_entry(&mut out, "duration", Json::Int(*n as i64)),
                }
                proof {
                    assert(entries_view(out@) =~= InputMedia::encoded_v(self@)->Obj_0);
                }
            },
            InputMedia::Audio { media, thumb, caption, parse_mode, duration, performer, title } => {
                push_entry(&mut out, "type", Json::Str(String::from_str("audio")));
                push_entry(&mut out, "media", media.to_json());
                match thumb {
                    None => push_entry(&mut out, "thumb", Json::Null),
                    Some(f) => push_entry(&mut out, "thumb", Json::Str(f.0.clone())),
                }
                match caption {
                    None => {},
                    Some(c) => push_entry(&mut out, "caption", Json::Str(c.clone())),
                }
                match parse_mode {
                    None => {},
                    Some(m) => push_entry(&mut out, "parse_mode", m.to_json()),
                }
                match duration {
                    None => {},
                    Some(n) => push_entry(&mut out, "duration", Json::Int(*n as i64)),
                }
                match performer {
                    None => {},
                    Some(s) => push_entry(&mut out, "performer", Json::Str(s.clone())),
                }
                match title {
                    None => {},
                    Some(s) => push_entry(&mut out, "title", Json::Str(s.clone())),
                }
                proof {
                    assert(entries_view(out@) =~= InputMedia::encoded_v(self@)->Obj_0);
                }
            },
            InputMedia::Document { media, thumb, caption, parse_mode } => {
                push_entry(&mut out, "type", Json::Str(String::from_str("document")));
                push_entry(&mut out, "media", media.to_json());
                match thumb {
                    None => push_entry(&mut out, "thumb", Json::Null),
                    Some(f) => push_entry(&mut out, "thumb", Json::Str(f.0.clone())),
                }
                match caption {
                    None => {},
                    Some(c) => push_entry(&mut out, "caption", Json::Str(c.clone())),
                }
                match parse_mode {
                    None => {},
                    Some(m) => push_entry(&mut out, "parse_mode", m.to_json()),
                }
                proof {
                    assert(entries_view(out@) =~= InputMedia::encoded_v(self@)->Obj_0);
                }
            },
            InputMedia::Unknown => {
                push_entry(&mut out, "type", Json::Str(String::from_str("Unknown")));
                proof {
                    assert(entries_view(out@) =~= InputMedia::encoded_v(self@)->Obj_0);
                }
            },
        }
        Json::Obj(out)
    }

    /// Decode from a tagged object.
    #[verifier::rlimit(100)]
    pub fn from_json(j: &Json) -> (r: Result<InputMedia, DecodeError>)
        ensures
            match r {
                Ok(v) => InputMedia::decoded(j@) == Ok::<_, DecodeError>(v@),
                Err(e) => InputMedia::decoded(j@) == Err::<InputMediaV, _>(e),
            },
    {
        let entries = match j {
            Json::Obj(entries) => entries,
            _ => {
                return Err(DecodeError::WrongType);
            },
        };
        let tag = match crate::json::req_str(entries, "type") {
            Err(e) => {
                return Err(e);
            },
            Ok(s) => s,
        };
        if crate::json::str_eq(tag.as_str(), "video") {
            let media = match FileToSend::req_field(entries, "media") {
                Err(e) => {
                    return Err(e);
                },
                Ok(v) => v,
            };
            let caption = match crate::json::opt_str(entries, "caption") {
                Err(e) => {
                    return Err(e);
                },
                Ok(v) => v,
            };
            let parse_mode = match ParseMode::opt_field(entries, "parse_mode") {
                Err(e) => {
                    return Err(e);
                },
                Ok(v) => v,
            };
            let width = match crate::json::opt_i32(entries, "width") {
                Err(e) => {
                    return Err(e);
                },
                Ok(v) => v,
            };
            let height = match crate::json::opt_i32(entries, "height") {
                Err(e) => {
                    return Err(e);
                },
                Ok(v) => v,
            };
            let duration = match crate::json::opt_i32(entries, "duration") {
                Err(e) => {
                    return Err(e);
                },
                Ok(v) => v,
            };
            let supports_streaming = match crate::json::opt_bool(entries, "supports_streaming") {
                Err(e) => {
                    return Err(e);
                },
                Ok(v) => v,
            };
            Ok(
                InputMedia::Video {
                    media,
                    caption,
                    parse_mode,
                    width,
                    height,
                    duration,
                    supports_streaming,
                },
            )
        } else if crate::json::str_eq(tag.as_str(), "photo") {
            let media = match FileToSend::req_field(entries, "media") {
                Err(e) => {
                    return Err(e);
                },
                Ok(v) => v,
            };
            let caption = match crate::json::opt_str(entries, "caption") {
                Err(e) => {
                    return Err(e);
                },
                Ok(v) => v,
            };
            let parse_mode = match ParseMode::opt_field(entries, "parse_mode") {
                Err(e) => {
                    return Err(e);
                },
                Ok(v) => v,
            };
            Ok(InputMedia::Photo { media, caption, parse_mode })
        } else if crate::json::str_eq(tag.as_str(), "animation") {
            let media = match FileToSend::req_field(entries, "media") {
                Err(e) => {
                    return Err(e);
                },
                Ok(v) => v,
            };
            let thumb = match crate::json::opt_str(entries, "thumb") {
                Err(e) => {
                    return Err(e);
                },
                Ok(None) => None,
                Ok(Some(s)) => Some(InputFile(s)),
            };
            let caption = match crate::json::opt_str(entries, "caption") {
                Err(e) => {
                    return Err(e);
                },
                Ok(v) => v,
            };
            let parse_mode = match ParseMode::opt_field(entries, "parse_mode") {
                Err(e) => {
                    return Err(e);
                },
                Ok(v) => v,
            };
            let width = match crate::json::opt_i32(entries, "width") {
                Err(e) => {
                    return Err(e);
                },
                Ok(v) => v,
            };
            let height = match crate::json::opt_i32(entries, "height") {
                Err(e) => {
                    return Err(e);
                },
                Ok(v) => v,
            };
            let duration = match crate::json::opt_i32(entries, "duration") {
                Err(e) => {
                    return Err(e);
                },
                Ok(v) => v,
            };
            Ok(InputMedia::Animation { media, thumb, caption, parse_mode, width, height, duration })
        } else if crate::json::str_eq(tag.as_str(), "audio") {
            let media = match FileToSend::req_field(entries, "media") {
                Err(e) => {
                    return Err(e);
                },
                Ok(v) => v,
            };
            let thumb = match crate::json::opt_str(entries, "thumb") {
                Err(e) => {
                    return Err(e);
                },
                Ok(None) => None,
                Ok(Some(s)) => Some(InputFile(s)),
            };
            let caption = match crate::json::opt_str(entries, "caption") {
                Err(e) => {
                    return Err(e);
                },
                Ok(v) => v,
            };
            let parse_mode = match ParseMode::opt_field(entries, "parse_mode") {
                Err(e) => {
                    return Err(e);
                },
                Ok(v) => v,
            };
            let duration = match crate::json::opt_i32(entries, "duration") {
                Err(e) => {
                    return Err(e);
                },
                Ok(v) => v,
            };
            let performer = match crate::json::opt_str(entries, "performer") {
                Err(e) => {
                    return Err(e);
                },
                Ok(v) => v,
            };
            let title = match crate::json::opt_str(entries, "title") {
                Err(e) => {
                    return Err(e);
                },
                Ok(v) => v,
            };
            Ok(InputMedia::Audio { media, thumb, caption, parse_mode, duration, performer, title })
        } else if crate::json::str_eq(tag.as_str(), "document") {
            let media = match FileToSend::req_field(entries, "media") {
                Err(e) => {
                    return Err(e);
                },
                Ok(v) => v,
            };
            let thumb = match crate::json::opt_str(entries, "thumb") {
                Err(e) => {
                    return Err(e);
                },
                Ok(None) => None,
                Ok(Some(s)) => Some(InputFile(s)),
            };
            let caption = match crate::json::opt_str(entries, "caption") {
                Err(e) => {
                    return Err(e);
                },
                Ok(v) => v,
            };
            let parse_mode = match ParseMode::opt_field(entries, "parse_mode") {
                Err(e) => {
                    return Err(e);
                },
                Ok(v) => v,
            };
            Ok(InputMedia::Document { media, thumb, caption, parse_mode })
        } else {
            Ok(InputMedia::Unknown)
        }
    }
}

/// The model of a response envelope with payload model `P`.
pub struct TelegramResultV<P> {
    pub ok: bool,
    pub description: Option<Seq<char>>,
    pub error_code: Option<int>,
    pub result: Option<P>,
    pub parameters: Option<ResponseParametersV>,
}

/// What a member holding failure hints denotes.
pub open spec fn sp_opt_parameters(es: Seq<(Seq<char>, JsonV)>, key: Seq<char>) -> Result<
    Option<ResponseParametersV>,
    DecodeError,
> {
    match crate::json::lookup(es, key) {
        None => Ok(None),
        Some(JsonV::Null) => Ok(None),
        Some(p) => match ResponseParameters::decoded(p) {
            Err(e) => Err(e),
            Ok(v) => Ok(Some(v)),
        },
    }
}

/// What a document denotes as a response envelope, its payload kept raw.
pub open spec fn sp_decode_envelope(j: JsonV) -> Result<TelegramResultV<JsonV>, DecodeError> {
    match j {
        JsonV::Obj(es) => if crate::json::sp_req_bool(es, "ok"@) is Err {
            Err(crate::json::sp_req_bool(es, "ok"@)->Err_0)
        } else if crate::json::sp_opt_str(es, "description"@) is Err {
            Err(crate::json::sp_opt_str(es, "description"@)->Err_0)
        } else if crate::json::sp_opt_i32(es, "error_code"@) is Err {
            Err(crate::json::sp_opt_i32(es, "error_code"@)->Err_0)
        } else if sp_opt_parameters(es, "parameters"@) is Err {
            Err(sp_opt_parameters(es, "parameters"@)->Err_0)
        } else {
            Ok(
                TelegramResultV {
                    ok: crate::json::sp_req_bool(es, "ok"@)->Ok_0,
                    description: crate::json::sp_opt_str(es, "description"@)->Ok_0,
                    error_code: crate::json::sp_opt_i32(es, "error_code"@)->Ok_0,
                    result: crate::json::sp_opt_raw(es, "result"@),
                    parameters: sp_opt_parameters(es, "parameters"@)->Ok_0,
                },
            )
        },
        _ => Err(DecodeError::WrongType),
    }
}

/// The model of an envelope whose payload is a raw document.
pub open spec fn envelope_view(r: TelegramResult<Json>) -> TelegramResultV<JsonV> {
    TelegramResultV {
        ok: r.ok,
        description: match r.description {
            None => None,
            Some(s) => Some(s@),
        },
        error_code: match r.error_code {
            None => None,
            Some(c) => Some(c as int),
        },
        result: match r.result {
            None => None,
            Some(j) => Some(j@),
        },
        parameters: match r.parameters {
            None => None,
            Some(p) => Some(p@),
        },
    }
}

/// Decode the response envelope, keeping the payload raw: this is the
/// pure structural step, which fails only when the envelope shape itself
/// is malformed. [`TelegramResult::into_result`] is the semantic step.
pub fn decode_envelope(j: &Json) -> (r: Result<TelegramResult<Json>, DecodeError>)
    ensures
        match r {
            Ok(v) => sp_decode_envelope(j@) == Ok::<_, DecodeError>(envelope_view(v)),
            Err(e) => sp_decode_envelope(j@) == Err::<TelegramResultV<JsonV>, _>(e),
        },
{
    match j {
        Json::Obj(entries) => {
            let ok = match crate::json::req_bool(entries, "ok") {
                Err(e) => {
                    return Err(e);
                },
                Ok(b) => b,
            };
            let description = match crate::json::opt_str(entries, "description") {
                Err(e) => {
                    return Err(e);
                },
                Ok(v) => v,
            };
            let error_code = match crate::json::opt_i32(entries, "error_code") {
                Err(e) => {
                    return Err(e);
                },
                Ok(v) => v,
            };
            let parameters = match crate::json::obj_get(entries, "parameters") {
                None => None,
                Some(Json::Null) => None,
                Some(p) => match ResponseParameters::from_json(p) {
                    Err(e) => {
                        return Err(e);
                    },
                    Ok(v) => Some(v),
                },
            };
            let result = crate::json::opt_raw(entries, "result");
            Ok(TelegramResult { ok, description, error_code, result, parameters })
        },
        _ => Err(DecodeError::WrongType),
    }
}

/// The model of an envelope whose payload is a batch of updates.
pub open spec fn update_list_view(r: TelegramResult<Vec<Update>>) -> TelegramResultV<
    Seq<UpdateV>,
> {
    TelegramResultV {
        ok: r.ok,
        description: match r.description {
            None => None,
            Some(s) => Some(s@),
        },
        error_code: match r.error_code {
            None => None,
            Some(c) => Some(c as int),
        },
        result: match r.result {
            None => None,
            Some(v) => Some(Update::seq_view(v@)),
        },
        parameters: match r.parameters {
            None => None,
            Some(p) => Some(p@),
        },
    }
}

/// What a document denotes as an envelope carrying a batch of updates.
pub open spec fn sp_decode_update_list(j: JsonV) -> Result<
    TelegramResultV<Seq<UpdateV>>,
    DecodeError,
> {
    match sp_decode_envelope(j) {
        Err(e) => Err(e),
        Ok(env) => match env.result {
            None => Ok(
                TelegramResultV {
                    ok: env.ok,
                    description: env.description,
                    error_code: env.error_code,
                    result: None,
                    parameters: env.parameters,
                },
            ),
            Some(JsonV::Arr(items)) => match Update::sp_dec_seq(items) {
                Err(e) => Err(e),
                Ok(us) => Ok(
                    TelegramResultV {
                        ok: env.ok,
                        description: env.description,
                        error_code: env.error_code,
                        result: Some(us),
                        parameters: env.parameters,
                    },
                ),
            },
            Some(_) => Err(DecodeError::WrongType),
        },
    }
}

/// Decode a whole long-polling response: the envelope, then the batch of
/// updates it carries.
pub fn decode_update_list(j: &Json) -> (r: Result<TelegramResult<Vec<Update>>, DecodeError>)
    ensures
        match r {
            Ok(v) => sp_decode_update_list(j@) == Ok::<_, DecodeError>(update_list_view(v)),
            Err(e) => sp_decode_update_list(j@) == Err::<TelegramResultV<Seq<UpdateV>>, _>(e),
        },
{
    let env = match decode_envelope(j) {
        Err(e) => {
            return Err(e);
        },
        Ok(v) => v,
    };
    let result = match env.result {
        None => None,
        Some(Json::Arr(items)) => match Update::vec_from_json(&items) {
            Err(e) => {
                return Err(e);
            },
            Ok(us) => Some(us),
        },
        Some(_) => {
            return Err(DecodeError::WrongType);
        },
    };
    Ok(
        TelegramResult {
            ok: env.ok,
            description: env.description,
            error_code: env.error_code,
            result,
            parameters: env.parameters,
        },
    )
}

/// An optional message identifier as an optional number value.
pub open spec fn opt_msg_id_v(m: Option<MessageId>) -> Option<JsonV> {
    match m {
        None => None,
        Some(i) => Some(JsonV::Int(i.0 as int)),
    }
}

/// An optional update identifier as an optional number value.
pub open spec fn opt_upd_id_v(m: Option<UpdateId>) -> Option<JsonV> {
    match m {
        None => None,
        Some(i) => Some(JsonV::Int(i.0 as int)),
    }
}

/// An optional chat target as an optional scalar value.
pub open spec fn opt_target_v(t: &Option<ChatTarget>) -> Option<JsonV> {
    match t {
        None => None,
        Some(c) => Some(ChatTarget::encoded_v(c@)),
    }
}

/// An optional reply markup as an optional object value.
pub open spec fn opt_markup_v(m: &Option<ReplyMarkup>) -> Option<JsonV> {
    match m {
        None => None,
        Some(k) => Some(ReplyMarkup::encoded_v(k@)),
    }
}

/// An optional inline keyboard as an optional object value.
pub open spec fn opt_inline_markup_v(m: &Option<InlineKeyboardMarkup>) -> Option<JsonV> {
    match m {
        None => None,
        Some(k) => Some(InlineKeyboardMarkup::encoded_v(k@)),
    }
}

/// The model of an optional non-negative integer.
pub open spec fn opt_u64_view(n: &Option<u64>) -> Option<int> {
    match n {
        None => None,
        Some(x) => Some(*x as int),
    }
}

/// An optional subscription list as an optional array value.
pub open spec fn opt_updates_v(v: &Option<Vec<UpdateTypes>>) -> Option<JsonV> {
    match v {
        None => None,
        Some(x) => Some(JsonV::Arr(UpdateTypes::sp_enc_seq(x@))),
    }
}

/// An optional list of entities as an optional array value.
pub open spec fn opt_entities_v(v: &Option<Vec<MessageEntity>>) -> Option<JsonV> {
    match v {
        None => None,
        Some(x) => Some(JsonV::Arr(MessageEntity::sp_enc_seq(MessageEntity::seq_view(x@)))),
    }
}

impl UpdateTypes {
    /// The wire form of a subscription list: the branches' tag strings.
    pub open spec fn sp_enc_seq(s: Seq<UpdateTypes>) -> Seq<JsonV> {
        Seq::new(s.len(), |i: int| JsonV::Str(s[i].tag()))
    }

    /// Encode a subscription list as an array of tag strings.
    #[verifier::loop_isolation(false)]
    pub fn vec_to_json(v: &Vec<UpdateTypes>) -> (r: Json)
        ensures
            r@ == JsonV::Arr(UpdateTypes::sp_enc_seq(v@)),
    {
        let mut out: Vec<Json> = Vec::new();
        let mut i: usize = 0;
        while i < v.len()
            invariant
                i <= v@.len(),
                crate::json::elems_view(out@) =~= UpdateTypes::sp_enc_seq(v@).subrange(
                    0,
                    i as int,
                ),
            decreases v@.len() - i,
        {
            let e = v[i].to_json();
            let ghost prev = out@;
            out.push(e);
            proof {
                crate::json::lemma_elems_view_push(prev, e);
                assert(crate::json::elems_view(out@) =~= UpdateTypes::sp_enc_seq(v@).subrange(
                    0,
                    i + 1,
                ));
            }
            i += 1;
        }
        proof {
            assert(crate::json::elems_view(out@) =~= UpdateTypes::sp_enc_seq(v@));
        }
        Json::Arr(out)
    }
}

impl InputMedia {
    /// The wire form of a media list.
    pub open spec fn sp_enc_seq(s: Seq<InputMedia>) -> Seq<JsonV> {
        Seq::new(s.len(), |i: int| InputMedia::encoded_v(s[i]@))
    }

    /// Encode a media list as an array of tagged objects.
    #[verifier::loop_isolation(false)]
    pub fn vec_to_json(v: &Vec<InputMedia>) -> (r: Json)
        ensures
            r@ == JsonV::Arr(InputMedia::sp_enc_seq(v@)),
    {
        let mut out: Vec<Json> = Vec::new();
        let mut i: usize = 0;
        while i < v.len()
            invariant
                i <= v@.len(),
                crate::json::elems_view(out@) =~= InputMedia::sp_enc_seq(v@).subrange(
                    0,
                    i as int,
                ),
            decreases v@.len() - i,
        {
            let e = v[i].to_json();
            let ghost prev = out@;
            out.push(e);
            proof {
                crate::json::lemma_elems_view_push(prev, e);
                assert(crate::json::elems_view(out@) =~= InputMedia::sp_enc_seq(v@).subrange(
                    0,
                    i + 1,
                ));
            }
            i += 1;
        }
        proof {
            assert(crate::json::elems_view(out@) =~= InputMedia::sp_enc_seq(v@));
        }
        Json::Arr(out)
    }
}

impl GetUpdates {
    /// The wire form of the request body: members in declaration order, an
    /// absent optional member written not at all.
    pub open spec fn encoded_v(self) -> JsonV {
        JsonV::Obj(
            opt_entry("offset"@, opt_upd_id_v(self.offset)) + opt_entry(
                "limit"@,
                opt_int_v(opt_i32_view(&self.limit)),
            ) + opt_entry("timeout"@, opt_int_v(opt_i32_view(&self.timeout))) + opt_entry(
                "allowed_updates"@,
                opt_updates_v(&self.allowed_updates),
            ),
        )
    }

    /// Encode the request body.
    pub fn to_json(&self) -> (r: Json)
        ensures
            r@ == self.encoded_v(),
    {
        let mut out: Vec<(String, Json)> = Vec::new();
        match &self.offset {
            None => {},
            Some(i) => push_entry(&mut out, "offset", Json::Int(i.0)),
        }
        match &self.limit {
            None => {},
            Some(n) => push_entry(&mut out, "limit", Json::Int(*n as i64)),
        }
        match &self.timeout {
            None => {},
            Some(n) => push_entry(&mut out, "timeout", Json::Int(*n as i64)),
        }
        match &self.allowed_updates {
            None => {},
            Some(v) => push_entry(&mut out, "allowed_updates", UpdateTypes::vec_to_json(v)),
        }
        proof {
            assert(entries_view(out@) =~= self.encoded_v()->Obj_0);
        }
        Json::Obj(out)
    }
}

impl SendMessage {
    /// The wire form of the request body: members in declaration order, an
    /// absent optional member written not at all.
    pub open spec fn encoded_v(self) -> JsonV {
        JsonV::Obj(
            req_entry("chat_id"@, ChatTarget::encoded_v(self.chat_id@)) + req_entry(
                "text"@,
                JsonV::Str(self.text@),
            ) + opt_entry("parse_mode"@, ParseMode::opt_encoded(self.parse_mode)) + opt_entry(
                "disable_web_page_preview"@,
                opt_bool_v(self.disable_web_page_preview),
            ) + opt_entry("disable_notification"@, opt_bool_v(self.disable_notification))
                + opt_entry("reply_to_message_id"@, opt_msg_id_v(self.reply_to_message_id))
                + opt_entry("reply_markup"@, opt_markup_v(&self.reply_markup)),
        )
    }

    /// Encode the request body.
    pub fn to_json(&self) -> (r: Json)
        ensures
            r@ == self.encoded_v(),
    {
        let mut out: Vec<(String, Json)> = Vec::new();
        push_entry(&mut out, "chat_id", self.chat_id.to_json());
        push_entry(&mut out, "text", Json::Str(self.text.clone()));
        match &self.parse_mode {
            None => {},
            Some(m) => push_entry(&mut out, "parse_mode", m.to_json()),
        }
        match &self.disable_web_page_preview {
            None => {},
            Some(b) => push_entry(&mut out, "disable_web_page_preview", Json::Bool(*b)),
        }
        match &self.disable_notification {
            None => {},
            Some(b) => push_entry(&mut out, "disable_notification", Json::Bool(*b)),
        }
        match &self.reply_to_message_id {
            None => {},
            Some(i) => push_entry(&mut out, "reply_to_message_id", Json::Int(i.0)),
        }
        match &self.reply_markup {
            None => {},
            Some(k) => push_entry(&mut out, "reply_markup", k.to_json()),
        }
        proof {
            assert(entries_view(out@) =~= self.encoded_v()->Obj_0);
        }
        Json::Obj(out)
    }
}

impl SendSticker {
    /// The wire form of the request body: members in declaration order, an
    /// absent optional member written not at all.
    pub open spec fn encoded_v(self) -> JsonV {
        JsonV::Obj(
            req_entry("chat_id"@, ChatTarget::encoded_v(self.chat_id@)) + req_entry(
                "sticker"@,
                FileToSend::encoded_v(self.sticker@),
            ) + opt_entry("disable_notification"@, opt_bool_v(self.disable_notification))
                + opt_entry("reply_to_message_id"@, opt_msg_id_v(self.reply_to_message_id))
                + opt_entry("reply_markup"@, opt_markup_v(&self.reply_markup)),
        )
    }

    /// Encode the request body.
    pub fn to_json(&self) -> (r: Json)
        ensures
            r@ == self.encoded_v(),
    {
        let mut out: Vec<(String, Json)> = Vec::new();
        push_entry(&mut out, "chat_id", self.chat_id.to_json());
        push_entry(&mut out, "sticker", self.sticker.to_json());
        match &self.disable_notification {
            None => {},
            Some(b) => push_entry(&mut out, "disable_notification", Json::Bool(*b)),
        }
        match &self.reply_to_message_id {
            None => {},
            Some(i) => push_entry(&mut out, "reply_to_message_id", Json::Int(i.0)),
        }
        match &self.reply_markup {
            None => {},
            Some(k) => push_entry(&mut out, "reply_markup", k.to_json()),
        }
        proof {
            assert(entries_view(out@) =~= self.encoded_v()->Obj_0);
        }
        Json::Obj(out)
    }
}

impl SendPhoto {
    /// The wire form of the request body: members in declaration order, an
    /// absent optional member written not at all.
    pub open spec fn encoded_v(self) -> JsonV {
        JsonV::Obj(
            req_entry("chat_id"@, ChatTarget::encoded_v(self.chat_id@)) + req_entry(
                "photo"@,
                FileToSend::encoded_v(self.photo@),
            ) + opt_entry("caption"@, opt_str_v(opt_str_view(&self.caption))) + opt_entry(
                "parse_mode"@,
                ParseMode::opt_encoded(self.parse_mode),
            ) + opt_entry("disable_notification"@, opt_bool_v(self.disable_notification))
                + opt_entry("reply_to_message_id"@, opt_msg_id_v(self.reply_to_message_id))
                + opt_entry("reply_markup"@, opt_markup_v(&self.reply_markup)),
        )
    }

    /// Encode the request body.
    pub fn to_json(&self) -> (r: Json)
        ensures
            r@ == self.encoded_v(),
    {
        let mut out: Vec<(String, Json)> = Vec::new();
        push_entry(&mut out, "chat_id", self.chat_id.to_json());
        push_entry(&mut out, "photo", self.photo.to_json());
        match &self.caption {
            None => {},
            Some(c) => push_entry(&mut out, "caption", Json::Str(c.clone())),
        }
        match &self.parse_mode {
            None => {},
            Some(m) => push_entry(&mut out, "parse_mode", m.to_json()),
        }
        match &self.disable_notification {
            None => {},
            Some(b) => push_entry(&mut out, "disable_notification", Json::Bool(*b)),
        }
        match &self.reply_to_message_id {
            None => {},
            Some(i) => push_entry(&mut out, "reply_to_message_id", Json::Int(i.0)),
        }
        match &self.reply_markup {
            None => {},
            Some(k) => push_entry(&mut out, "reply_markup", k.to_json()),
        }
        proof {
            assert(entries_view(out@) =~= self.encoded_v()->Obj_0);
        }
        Json::Obj(out)
    }
}

impl SendDocument {
    /// The wire form of the request body: members in declaration order, an
    /// absent optional member written not at all.
    pub open spec fn encoded_v(self) -> JsonV {
        JsonV::Obj(
            req_entry("chat_id"@, ChatTarget::encoded_v(self.chat_id@)) + req_entry(
                "document"@,
                FileToSend::encoded_v(self.document@),
            ) + opt_entry("caption"@, opt_str_v(opt_str_view(&self.caption))) + opt_entry(
                "parse_mode"@,
                ParseMode::opt_encoded(self.parse_mode),
            ) + opt_entry("disable_notification"@, opt_bool_v(self.disable_notification))
                + opt_entry("reply_to_message_id"@, opt_msg_id_v(self.reply_to_message_id))
                + opt_entry("reply_markup"@, opt_markup_v(&self.reply_markup)),
        )
    }

    /// Encode the request body.
    pub fn to_json(&self) -> (r: Json)
        ensures
            r@ == self.encoded_v(),
    {
        let mut out: Vec<(String, Json)> = Vec::new();
        push_entry(&mut out, "chat_id", self.chat_id.to_json());
        push_entry(&mut out, "document", self.document.to_json());
        match &self.caption {
            None => {},
            Some(c) => push_entry(&mut out, "caption", Json::Str(c.clone())),
        }
        match &self.parse_mode {
            None => {},
            Some(m) => push_entry(&mut out, "parse_mode", m.to_json()),
        }
        match &self.disable_notification {
            None => {},
            Some(b) => push_entry(&mut out, "disable_notification", Json::Bool(*b)),
        }
        match &self.reply_to_message_id {
            None => {},
            Some(i) => push_entry(&mut out, "reply_to_message_id", Json::Int(i.0)),
        }
        match &self.reply_markup {
            None => {},
            Some(k) => push_entry(&mut out, "reply_markup", k.to_json()),
        }
        proof {
            assert(entries_view(out@) =~= self.encoded_v()->Obj_0);
        }
        Json::Obj(out)
    }
}

impl ForwardMessage {
    /// The wire form of the request body.
    pub open spec fn encoded_v(self) -> JsonV {
        JsonV::Obj(
            req_entry("chat_id"@, ChatTarget::encoded_v(self.chat_id@)) + req_entry(
                "from_chat_id"@,
                ChatTarget::encoded_v(self.from_chat_id@),
            ) + req_entry("message_id"@, JsonV::Int(self.message_id.0 as int)),
        )
    }

    /// Encode the request body.
    pub fn to_json(&self) -> (r: Json)
        ensures
            r@ == self.encoded_v(),
    {
        let mut out: Vec<(String, Json)> = Vec::new();
        push_entry(&mut out, "chat_id", self.chat_id.to_json());
        push_entry(&mut out, "from_chat_id", self.from_chat_id.to_json());
        push_entry(&mut out, "message_id", Json::Int(self.message_id.0));
        proof {
            assert(entries_view(out@) =~= self.encoded_v()->Obj_0);
        }
        Json::Obj(out)
    }
}

impl CopyMessage {
    /// The wire form of the request body: members in declaration order, an
    /// absent optional member written not at all.
    pub open spec fn encoded_v(self) -> JsonV {
        JsonV::Obj(
            req_entry("chat_id"@, ChatTarget::encoded_v(self.chat_id@)) + req_entry(
                "from_chat_id"@,
                ChatTarget::encoded_v(self.from_chat_id@),
            ) + req_entry("message_id"@, JsonV::Int(self.message_id.0 as int)) + opt_entry(
                "caption"@,
                opt_str_v(opt_str_view(&self.caption)),
            ) + opt_entry("parse_mode"@, ParseMode::opt_encoded(self.parse_mode)) + opt_entry(
                "caption_entities"@,
                opt_entities_v(&self.caption_entities),
            ) + opt_entry("disable_notification"@, opt_bool_v(self.disable_notification))
                + opt_entry("reply_to_message_id"@, opt_msg_id_v(self.reply_to_message_id))
                + opt_entry(
                "allow_sending_without_reply"@,
                opt_bool_v(self.allow_sending_without_reply),
            ) + opt_entry("reply_markup"@, opt_markup_v(&self.reply_markup)),
        )
    }

    /// Encode the request body.
    pub fn to_json(&self) -> (r: Json)
        ensures
            r@ == self.encoded_v(),
    {
        let mut out: Vec<(String, Json)> = Vec::new();
        push_entry(&mut out, "chat_id", self.chat_id.to_json());
        push_entry(&mut out, "from_chat_id", self.from_chat_id.to_json());
        push_entry(&mut out, "message_id", Json::Int(self.message_id.0));
        match &self.caption {
            None => {},
            Some(c) => push_entry(&mut out, "caption", Json::Str(c.clone())),
        }
        match &self.parse_mode {
            None => {},
            Some(m) => push_entry(&mut out, "parse_mode", m.to_json()),
        }
        match &self.caption_entities {
            None => {},
            Some(v) => push_entry(&mut out, "caption_entities", MessageEntity::vec_to_json(v)),
        }
        match &self.disable_notification {
            None => {},
            Some(b) => push_entry(&mut out, "disable_notification", Json::Bool(*b)),
        }
        match &self.reply_to_message_id {
            None => {},
            Some(i) => push_entry(&mut out, "reply_to_message_id", Json::Int(i.0)),
        }
        match &self.allow_sending_without_reply {
            None => {},
            Some(b) => push_entry(&mut out, "allow_sending_without_reply", Json::Bool(*b)),
        }
        match &self.reply_markup {
            None => {},
            Some(k) => push_entry(&mut out, "reply_markup", k.to_json()),
        }
        proof {
            assert(entries_view(out@) =~= self.encoded_v()->Obj_0);
        }
        Json::Obj(out)
    }
}

impl GetUserProfilePhotos {
    /// The wire form of the request body.
    pub open spec fn encoded_v(self) -> JsonV {
        JsonV::Obj(
            req_entry("user_id"@, JsonV::Int(self.user_id.0 as int)) + opt_entry(
                "offset"@,
                opt_int_v(opt_i32_view(&self.offset)),
            ) + opt_entry("limit"@, opt_int_v(opt_i32_view(&self.limit))),
        )
    }

    /// Encode the request body.
    pub fn to_json(&self) -> (r: Json)
        ensures
            r@ == self.encoded_v(),
    {
        let mut out: Vec<(String, Json)> = Vec::new();
        push_entry(&mut out, "user_id", Json::Int(self.user_id.0));
        match &self.offset {
            None => {},
            Some(n) => push_entry(&mut out, "offset", Json::Int(*n as i64)),
        }
        match &self.limit {
            None => {},
            Some(n) => push_entry(&mut out, "limit", Json::Int(*n as i64)),
        }
        proof {
            assert(entries_view(out@) =~= self.encoded_v()->Obj_0);
        }
        Json::Obj(out)
    }
}

impl GetChat {
    /// The wire form of the request body.
    pub open spec fn encoded_v(self) -> JsonV {
        JsonV::Obj(req_entry("chat_id"@, ChatTarget::encoded_v(self.chat_id@)))
    }

    /// Encode the request body.
    pub fn to_json(&self) -> (r: Json)
        ensures
            r@ == self.encoded_v(),
    {
        let mut out: Vec<(String, Json)> = Vec::new();
        push_entry(&mut out, "chat_id", self.chat_id.to_json());
        proof {
            assert(entries_view(out@) =~= self.encoded_v()->Obj_0);
        }
        Json::Obj(out)
    }
}

impl GetChatMembersCount {
    /// The wire form of the request body.
    pub open spec fn encoded_v(self) -> JsonV {
        JsonV::Obj(req_entry("chat_id"@, ChatTarget::encoded_v(self.chat_id@)))
    }

    /// Encode the request body.
    pub fn to_json(&self) -> (r: Json)
        ensures
            r@ == self.encoded_v(),
    {
        let mut out: Vec<(String, Json)> = Vec::new();
        push_entry(&mut out, "chat_id", self.chat_id.to_json());
        proof {
            assert(entries_view(out@) =~= self.encoded_v()->Obj_0);
        }
        Json::Obj(out)
    }
}

impl GetChatAdministrators {
    /// The wire form of the request body.
    pub open spec fn encoded_v(self) -> JsonV {
        JsonV::Obj(req_entry("chat_id"@, ChatTarget::encoded_v(self.chat_id@)))
    }

    /// Encode the request body.
    pub fn to_json(&self) -> (r: Json)
        ensures
            r@ == self.encoded_v(),
    {
        let mut out: Vec<(String, Json)> = Vec::new();
        push_entry(&mut out, "chat_id", self.chat_id.to_json());
        proof {
            assert(entries_view(out@) =~= self.encoded_v()->Obj_0);
        }
        Json::Obj(out)
    }
}

impl GetChatMember {
    /// The wire form of the request body.
    pub open spec fn encoded_v(self) -> JsonV {
        JsonV::Obj(
            req_entry("chat_id"@, ChatTarget::encoded_v(self.chat_id@)) + req_entry(
                "user_id"@,
                JsonV::Int(self.user_id.0 as int),
            ),
        )
    }

    /// Encode the request body.
    pub fn to_json(&self) -> (r: Json)
        ensures
            r@ == self.encoded_v(),
    {
        let mut out: Vec<(String, Json)> = Vec::new();
        push_entry(&mut out, "chat_id", self.chat_id.to_json());
        push_entry(&mut out, "user_id", Json::Int(self.user_id.0));
        proof {
            assert(entries_view(out@) =~= self.encoded_v()->Obj_0);
        }
        Json::Obj(out)
    }
}

impl AnswerCallbackQuery {
    /// The wire form of the request body: members in declaration order, an
    /// absent optional member written not at all.
    pub open spec fn encoded_v(self) -> JsonV {
        JsonV::Obj(
            req_entry("callback_query_id"@, JsonV::Str(self.callback_query_id@)) + opt_entry(
                "text"@,
                opt_str_v(opt_str_view(&self.text)),
            ) + opt_entry("show_alert"@, opt_bool_v(self.show_alert)) + opt_entry(
                "url"@,
                opt_str_v(opt_str_view(&self.url)),
            ) + opt_entry("cache_time"@, opt_int_v(opt_u64_view(&self.cache_time))),
        )
    }

    /// Encode the request body. The cached seconds must fit the wire's
    /// signed 64-bit number line.
    pub fn to_json(&self) -> (r: Json)
        requires
            self.cache_time matches Some(t) ==> t as int <= i64::MAX as int,
        ensures
            r@ == self.encoded_v(),
    {
        let mut out: Vec<(String, Json)> = Vec::new();
        push_entry(&mut out, "callback_query_id", Json::Str(self.callback_query_id.clone()));
        match &self.text {
            None => {},
            Some(s) => push_entry(&mut out, "text", Json::Str(s.clone())),
        }
        match &self.show_alert {
            None => {},
            Some(b) => push_entry(&mut out, "show_alert", Json::Bool(*b)),
        }
        match &self.url {
            None => {},
            Some(s) => push_entry(&mut out, "url", Json::Str(s.clone())),
        }
        match &self.cache_time {
            None => {},
            Some(t) => push_entry(&mut out, "cache_time", Json::Int(*t as i64)),
        }
        proof {
            assert(entries_view(out@) =~= self.encoded_v()->Obj_0);
        }
        Json::Obj(out)
    }
}

impl SendMediaGroup {
    /// The wire form of the request body: members in declaration order, an
    /// absent optional member written not at all.
    pub open spec fn encoded_v(self) -> JsonV {
        JsonV::Obj(
            req_entry("chat_id"@, ChatTarget::encoded_v(self.chat_id@)) + req_entry(
                "media"@,
                JsonV::Arr(InputMedia::sp_enc_seq(self.media@)),
            ) + opt_entry("disable_notification"@, opt_bool_v(self.disable_notification))
                + opt_entry("reply_to_message_id"@, opt_msg_id_v(self.reply_to_message_id))
                + opt_entry(
                "allow_sending_without_reply"@,
                opt_bool_v(self.allow_sending_without_reply),
            ),
        )
    }

    /// Encode the request body.
    pub fn to_json(&self) -> (r: Json)
        ensures
            r@ == self.encoded_v(),
    {
        let mut out: Vec<(String, Json)> = Vec::new();
        push_entry(&mut out, "chat_id", self.chat_id.to_json());
        push_entry(&mut out, "media", InputMedia::vec_to_json(&self.media));
        match &self.disable_notification {
            None => {},
            Some(b) => push_entry(&mut out, "disable_notification", Json::Bool(*b)),
        }
        match &self.reply_to_message_id {
            None => {},
            Some(i) => push_entry(&mut out, "reply_to_message_id", Json::Int(i.0)),
        }
        match &self.allow_sending_without_reply {
            None => {},
            Some(b) => push_entry(&mut out, "allow_sending_without_reply", Json::Bool(*b)),
        }
        proof {
            assert(entries_view(out@) =~= self.encoded_v()->Obj_0);
        }
        Json::Obj(out)
    }
}

impl EditMessageText {
    /// The wire form of the request body: members in declaration order, an
    /// absent optional member written not at all.
    pub open spec fn encoded_v(self) -> JsonV {
        JsonV::Obj(
            opt_entry("chat_id"@, opt_target_v(&self.chat_id)) + opt_entry(
                "message_id"@,
                opt_msg_id_v(self.message_id),
            ) + opt_entry("inline_message_id"@, opt_str_v(opt_str_view(&self.inline_message_id)))
                + req_entry("text"@, JsonV::Str(self.text@)) + opt_entry(
                "parse_mode"@,
                ParseMode::opt_encoded(self.parse_mode),
            ) + opt_entry(
                "disable_web_page_preview"@,
                opt_bool_v(self.disable_web_page_preview),
            ) + opt_entry("reply_markup"@, opt_inline_markup_v(&self.reply_markup)),
        )
    }

    /// Encode the request body.
    pub fn to_json(&self) -> (r: Json)
        ensures
            r@ == self.encoded_v(),
    {
        let mut out: Vec<(String, Json)> = Vec::new();
        match &self.chat_id {
            None => {},
            Some(c) => push_entry(&mut out, "chat_id", c.to_json()),
        }
        match &self.message_id {
            None => {},
            Some(i) => push_entry(&mut out, "message_id", Json::Int(i.0)),
        }
        match &self.inline_message_id {
            None => {},
            Some(s) => push_entry(&mut out, "inline_message_id", Json::Str(s.clone())),
        }
        push_entry(&mut out, "text", Json::Str(self.text.clone()));
        match &self.parse_mode {
            None => {},
            Some(m) => push_entry(&mut out, "parse_mode", m.to_json()),
        }
        match &self.disable_web_page_preview {
            None => {},
            Some(b) => push_entry(&mut out, "disable_web_page_preview", Json::Bool(*b)),
        }
        match &self.reply_markup {
            None => {},
            Some(k) => push_entry(&mut out, "reply_markup", k.to_json()),
        }
        proof {
            assert(entries_view(out@) =~= self.encoded_v()->Obj_0);
        }
        Json::Obj(out)
    }
}

impl EditMessageCaption {
    /// The wire form of the request body: members in declaration order, an
    /// absent optional member written not at all.
    pub open spec fn encoded_v(self) -> JsonV {
        JsonV::Obj(
            opt_entry("chat_id"@, opt_target_v(&self.chat_id)) + opt_entry(
                "message_id"@,
                opt_msg_id_v(self.message_id),
            ) + opt_entry("inline_message_id"@, opt_str_v(opt_str_view(&self.inline_message_id)))
                + opt_entry("caption"@, opt_str_v(opt_str_view(&self.caption))) + opt_entry(
                "parse_mode"@,
                ParseMode::opt_encoded(self.parse_mode),
            ) + opt_entry("reply_markup"@, opt_inline_markup_v(&self.reply_markup)),
        )
    }

    /// Encode the request body.
    pub fn to_json(&self) -> (r: Json)
        ensures
            r@ == self.encoded_v(),
    {
        let mut out: Vec<(String, Json)> = Vec::new();
        match &self.chat_id {
            None => {},
            Some(c) => push_entry(&mut out, "chat_id", c.to_json()),
        }
        match &self.message_id {
            None => {},
            Some(i) => push_entry(&mut out, "message_id", Json::Int(i.0)),
        }
        match &self.inline_message_id {
            None => {},
            Some(s) => push_entry(&mut out, "inline_message_id", Json::Str(s.clone())),
        }
        match &self.caption {
            None => {},
            Some(c) => push_entry(&mut out, "caption", Json::Str(c.clone())),
        }
        match &self.parse_mode {
            None => {},
            Some(m) => push_entry(&mut out, "parse_mode", m.to_json()),
        }
        match &self.reply_markup {
            None => {},
            Some(k) => push_entry(&mut out, "reply_markup", k.to_json()),
        }
        proof {
            assert(entries_view(out@) =~= self.encoded_v()->Obj_0);
        }
        Json::Obj(out)
    }
}

impl EditMessageMedia {
    /// The wire form of the request body: members in declaration order, an
    /// absent optional member written not at all.
    pub open spec fn encoded_v(self) -> JsonV {
        JsonV::Obj(
            opt_entry("chat_id"@, opt_target_v(&self.chat_id)) + opt_entry(
                "message_id"@,
                opt_msg_id_v(self.message_id),
            ) + opt_entry("inline_message_id"@, opt_str_v(opt_str_view(&self.inline_message_id)))
                + req_entry("media"@, InputMedia::encoded_v(self.media@)) + opt_entry(
                "reply_markup"@,
                opt_inline_markup_v(&self.reply_markup),
            ),
        )
    }

    /// Encode the request body.
    pub fn to_json(&self) -> (r: Json)
        ensures
            r@ == self.encoded_v(),
    {
        let mut out: Vec<(String, Json)> = Vec::new();
        match &self.chat_id {
            None => {},
            Some(c) => push_entry(&mut out, "chat_id", c.to_json()),
        }
        match &self.message_id {
            None => {},
            Some(i) => push_entry(&mut out, "message_id", Json::Int(i.0)),
        }
        match &self.inline_message_id {
            None => {},
            Some(s) => push_entry(&mut out, "inline_message_id", Json::Str(s.clone())),
        }
        push_entry(&mut out, "media", self.media.to_json());
        match &self.reply_markup {
            None => {},
            Some(k) => push_entry(&mut out, "reply_markup", k.to_json()),
        }
        proof {
            assert(entries_view(out@) =~= self.encoded_v()->Obj_0);
        }
        Json::Obj(out)
    }
}

impl EditMessageReplyMarkup {
    /// The wire form of the request body: members in declaration order, an
    /// absent optional member written not at all.
    pub open spec fn encoded_v(self) -> JsonV {
        JsonV::Obj(
            opt_entry("chat_id"@, opt_target_v(&self.chat_id)) + opt_entry(
                "message_id"@,
                opt_msg_id_v(self.message_id),
            ) + opt_entry("inline_message_id"@, opt_str_v(opt_str_view(&self.inline_message_id)))
                + opt_entry("reply_markup"@, opt_inline_markup_v(&self.reply_markup)),
        )
    }

    /// Encode the request body.
    pub fn to_json(&self) -> (r: Json)
        ensures
            r@ == self.encoded_v(),
    {
        let mut out: Vec<(String, Json)> = Vec::new();
        match &self.chat_id {
            None => {},
            Some(c) => push_entry(&mut out, "chat_id", c.to_json()),
        }
        match &self.message_id {
            None => {},
            Some(i) => push_entry(&mut out, "message_id", Json::Int(i.0)),
        }
        match &self.inline_message_id {
            None => {},
            Some(s) => push_entry(&mut out, "inline_message_id", Json::Str(s.clone())),
        }
        match &self.reply_markup {
            None => {},
            Some(k) => push_entry(&mut out, "reply_markup", k.to_json()),
        }
        proof {
            assert(entries_view(out@) =~= self.encoded_v()->Obj_0);
        }
        Json::Obj(out)
    }
}

impl DeleteMessage {
    /// The wire form of the request body.
    pub open spec fn encoded_v(self) -> JsonV {
        JsonV::Obj(
            req_entry("chat_id"@, ChatTarget::encoded_v(self.chat_id@)) + req_entry(
                "message_id"@,
                JsonV::Int(self.message_id.0 as int),
            ),
        )
    }

    /// Encode the request body.
    pub fn to_json(&self) -> (r: Json)
        ensures
            r@ == self.encoded_v(),
    {
        let mut out: Vec<(String, Json)> = Vec::new();
        push_entry(&mut out, "chat_id", self.chat_id.to_json());
        push_entry(&mut out, "message_id", Json::Int(self.message_id.0));
        proof {
            assert(entries_view(out@) =~= self.encoded_v()->Obj_0);
        }
        Json::Obj(out)
    }
}

impl ApproveJoinRequest {
    /// The wire form of the request body.
    pub open spec fn encoded_v(self) -> JsonV {
        JsonV::Obj(
            req_entry("chat_id"@, ChatTarget::encoded_v(self.chat_id@)) + req_entry(
                "user_id"@,
                JsonV::Int(self.user_id.0 as int),
            ),
        )
    }

    /// Encode the request body.
    pub fn to_json(&self) -> (r: Json)
        ensures
            r@ == self.encoded_v(),
    {
        let mut out: Vec<(String, Json)> = Vec::new();
        push_entry(&mut out, "chat_id", self.chat_id.to_json());
        push_entry(&mut out, "user_id", Json::Int(self.user_id.0));
        proof {
            assert(entries_view(out@) =~= self.encoded_v()->Obj_0);
        }
        Json::Obj(out)
    }
}

impl DeclineJoinRequest {
    /// The wire form of the request body.
    pub open spec fn encoded_v(self) -> JsonV {
        JsonV::Obj(
            req_entry("chat_id"@, ChatTarget::encoded_v(self.chat_id@)) + req_entry(
                "user_id"@,
                JsonV::Int(self.user_id.0 as int),
            ),
        )
    }

    /// Encode the request body.
    pub fn to_json(&self) -> (r: Json)
        ensures
            r@ == self.encoded_v(),
    {
        let mut out: Vec<(String, Json)> = Vec::new();
        push_entry(&mut out, "chat_id", self.chat_id.to_json());
        push_entry(&mut out, "user_id", Json::Int(self.user_id.0));
        proof {
            assert(entries_view(out@) =~= self.encoded_v()->Obj_0);
        }
        Json::Obj(out)
    }
}

impl SetWebhook {
    /// The wire form of the request body: members in declaration order, an
    /// absent optional member written not at all.
    pub open spec fn encoded_v(self) -> JsonV {
        JsonV::Obj(
            req_entry("url"@, JsonV::Str(self.url@)) + opt_entry(
                "ip_address"@,
                opt_str_v(opt_str_view(&self.ip_address)),
            ) + opt_entry("max_connections"@, opt_int_v(opt_i32_view(&self.max_connections)))
                + opt_entry("allowed_updates"@, opt_updates_v(&self.allowed_updates)) + opt_entry(
                "drop_pending_updates"@,
                opt_bool_v(self.drop_pending_updates),
            ),
        )
    }

    /// Encode the request body.
    pub fn to_json(&self) -> (r: Json)
        ensures
            r@ == self.encoded_v(),
    {
        let mut out: Vec<(String, Json)> = Vec::new();
        push_entry(&mut out, "url", Json::Str(self.url.clone()));
        match &self.ip_address {
            None => {},
            Some(s) => push_entry(&mut out, "ip_address", Json::Str(s.clone())),
        }
        match &self.max_connections {
            None => {},
            Some(n) => push_entry(&mut out, "max_connections", Json::Int(*n as i64)),
        }
        match &self.allowed_updates {
            None => {},
            Some(v) => push_entry(&mut out, "allowed_updates", UpdateTypes::vec_to_json(v)),
        }
        match &self.drop_pending_updates {
            None => {},
            Some(b) => push_entry(&mut out, "drop_pending_updates", Json::Bool(*b)),
        }
        proof {
            assert(entries_view(out@) =~= self.encoded_v()->Obj_0);
        }
        Json::Obj(out)
    }
}

/// The envelope of a long-polling response.
pub type UpdateList = TelegramResult<Vec<Update>>;

/// The cursor a poller must send next so that updates through `last` are
/// not delivered again.
pub fn next_offset(last: UpdateId) -> (r: UpdateId)
    requires
        last.0 < i64::MAX,
    ensures
        r.0 == last.0 + 1,
{
    last.plus(1)
}

} // verus!
