//! Telegram bot object types and their JSON codecs.
use crate::json::{
    elems_view, entries_view, lemma_elems_view_index, lemma_elems_view_len,
    lemma_elems_view_push, lemma_entries_view_push, lookup, nullable, obj_get, opt_bool,
    bool_or_false, opt_bool_v, opt_entry, opt_i32, opt_i64, opt_int_v, opt_str, opt_str_v, opt_u64, req_bool,
    req_entry,
    opt_strs, push_entry, req_i32, req_i64, req_str, req_u64, sp_bool_or_false, sp_enc_strs,
    sp_opt_bool, sp_opt_i32, sp_opt_i64, sp_opt_raw, sp_opt_str, sp_opt_strs, sp_opt_u64,
    sp_req_bool, sp_req_i32, sp_req_i64, sp_req_str, sp_req_u64, strs_to_json, strs_view,
    DecodeError, Json, JsonV,
};
use vstd::prelude::*;

verus! {

/// Unique identifier of a user or bot.
#[derive(Debug, Clone, Copy, PartialEq, Eq, Structural, PartialOrd, Ord, Hash)]
pub struct UserId(pub i64);

/// Unique identifier of a chat.
#[derive(Debug, Clone, Copy, PartialEq, Eq, Structural, PartialOrd, Ord, Hash)]
pub struct ChatId(pub i64);

/// Unique identifier of a message inside a chat.
#[derive(Debug, Clone, Copy, PartialEq, Eq, Structural, PartialOrd, Ord, Hash)]
pub struct MessageId(pub i64);

/// Unique identifier of an update; increases with each new update.
#[derive(Debug, Clone, Copy, PartialEq, Eq, Structural, PartialOrd, Ord, Hash)]
pub struct UpdateId(pub i64);

impl UserId {
    /// The identifier offset forwards by a raw amount.
    pub fn plus(self, other: i64) -> (r: UserId)
        requires
            i64::MIN <= self.0 + other <= i64::MAX,
        ensures
            r.0 == self.0 + other,
    {
        UserId(self.0 + other)
    }

    /// The identifier offset backwards by a raw amount.
    pub fn minus(self, other: i64) -> (r: UserId)
        requires
            i64::MIN <= self.0 - other <= i64::MAX,
        ensures
            r.0 == self.0 - other,
    {
        UserId(self.0 - other)
    }
}

impl ChatId {
    /// The identifier offset forwards by a raw amount.
    pub fn plus(self, other: i64) -> (r: ChatId)
        requires
            i64::MIN <= self.0 + other <= i64::MAX,
        ensures
            r.0 == self.0 + other,
    {
        ChatId(self.0 + other)
    }

    /// The identifier offset backwards by a raw amount.
    pub fn minus(self, other: i64) -> (r: ChatId)
        requires
            i64::MIN <= self.0 - other <= i64::MAX,
        ensures
            r.0 == self.0 - other,
    {
        ChatId(self.0 - other)
    }
}

impl MessageId {
    /// The identifier offset forwards by a raw amount.
    pub fn plus(self, other: i64) -> (r: MessageId)
        requires
            i64::MIN <= self.0 + other <= i64::MAX,
        ensures
            r.0 == self.0 + other,
    {
        MessageId(self.0 + other)
    }

    /// The identifier offset backwards by a raw amount.
    pub fn minus(self, other: i64) -> (r: MessageId)
        requires
            i64::MIN <= self.0 - other <= i64::MAX,
        ensures
            r.0 == self.0 - other,
    {
        MessageId(self.0 - other)
    }
}

impl UpdateId {
    /// The identifier offset forwards by a raw amount; a poller's next
    /// cursor after seeing this update is `self.plus(1)`.
    pub fn plus(self, other: i64) -> (r: UpdateId)
        requires
            i64::MIN <= self.0 + other <= i64::MAX,
        ensures
            r.0 == self.0 + other,
    {
        UpdateId(self.0 + other)
    }

    /// The identifier offset backwards by a raw amount.
    pub fn minus(self, other: i64) -> (r: UpdateId)
        requires
            i64::MIN <= self.0 - other <= i64::MAX,
        ensures
            r.0 == self.0 - other,
    {
        UpdateId(self.0 - other)
    }
}

/// Unique identifier of a file on the servers.
#[derive(Debug, Clone, PartialEq, Eq, PartialOrd, Ord, Hash)]
pub struct FileId(pub String);

/// A unique message identifier, as the result payload of a copy request.
#[derive(Debug, Clone, Copy, PartialEq, Eq, Structural, PartialOrd, Ord, Hash)]
pub struct MessageIdResult {
    pub message_id: MessageId,
}

impl MessageIdResult {
    /// The wire form: an object holding the bare identifier.
    pub open spec fn encoded_v(v: MessageIdResult) -> JsonV {
        JsonV::Obj(seq![("message_id"@, JsonV::Int(v.message_id.0 as int))])
    }

    /// What the members of an object denote.
    pub open spec fn decoded_fields(es: Seq<(Seq<char>, JsonV)>) -> Result<
        MessageIdResult,
        DecodeError,
    > {
        match sp_req_i64(es, "message_id"@) {
            Err(e) => Err(e),
            Ok(n) => Ok(MessageIdResult { message_id: MessageId(n as i64) }),
        }
    }

    /// What a document denotes.
    pub open spec fn decoded(j: JsonV) -> Result<MessageIdResult, DecodeError> {
        match j {
            JsonV::Obj(es) => MessageIdResult::decoded_fields(es),
            _ => Err(DecodeError::WrongType),
        }
    }

    /// Encode as an object.
    pub fn to_json(&self) -> (r: Json)
        ensures
            r@ == MessageIdResult::encoded_v(*self),
    {
        let out: Vec<(String, Json)> = vec![
            (String::from_str("message_id"), Json::Int(self.message_id.0)),
        ];
        proof {
            crate::json::lemma_entries_view_len(out@);
            crate::json::lemma_entries_view_index(out@, 0);
            assert(entries_view(out@) =~= MessageIdResult::encoded_v(*self)->Obj_0);
        }
        Json::Obj(out)
    }

    /// Decode from an object.
    pub fn from_json(j: &Json) -> (r: Result<MessageIdResult, DecodeError>)
        ensures
            r == MessageIdResult::decoded(j@),
    {
        match j {
            Json::Obj(entries) => match req_i64(entries, "message_id") {
                Err(e) => Err(e),
                Ok(n) => Ok(MessageIdResult { message_id: MessageId(n) }),
            },
            _ => Err(DecodeError::WrongType),
        }
    }
}

/// A UNIX timestamp.
#[derive(Debug, Clone, Copy, PartialEq, Eq, Structural, PartialOrd, Ord)]
pub struct Time(pub u64);

impl Time {
    /// The timestamp fits the wire's signed 64-bit number line.
    pub open spec fn wf(self) -> bool {
        self.0 <= i64::MAX
    }

    /// The wire form: the bare number.
    pub open spec fn encoded(self) -> JsonV {
        JsonV::Int(self.0 as int)
    }

    /// What a document denotes as a timestamp: a non-negative number.
    pub open spec fn decoded(j: JsonV) -> Result<Time, DecodeError> {
        match j {
            JsonV::Int(n) => if 0 <= n <= u64::MAX {
                Ok(Time(n as u64))
            } else {
                Err(DecodeError::WrongType)
            },
            _ => Err(DecodeError::WrongType),
        }
    }

    /// Encode as the bare number.
    pub fn to_json(&self) -> (r: Json)
        requires
            self.wf(),
        ensures
            r@ == self.encoded(),
    {
        Json::Int(self.0 as i64)
    }

    /// Decode from the bare number.
    pub fn from_json(j: &Json) -> (r: Result<Time, DecodeError>)
        ensures
            r == Time::decoded(j@),
    {
        match j {
            Json::Int(n) => {
                if *n >= 0 {
                    Ok(Time(*n as u64))
                } else {
                    Err(DecodeError::WrongType)
                }
            },
            _ => Err(DecodeError::WrongType),
        }
    }
}

/// The model of the current webhook status.
pub struct WebhookInfoV {
    pub url: Seq<char>,
    pub has_custom_certificate: bool,
    pub pending_update_count: int,
    pub ip_address: Option<Seq<char>>,
    pub last_error_date: Option<int>,
    pub last_error_message: Option<Seq<char>>,
    pub max_connections: Option<int>,
    pub allowed_updates: Option<Seq<Seq<char>>>,
}

/// The current webhook status.
#[derive(Debug, Clone, PartialEq)]
pub struct WebhookInfo {
    /// Webhook URL; empty when no webhook is set up
    pub url: String,
    /// True if a custom certificate was provided for certificate checks
    pub has_custom_certificate: bool,
    /// Number of updates awaiting delivery
    pub pending_update_count: i32,
    /// Currently used webhook IP address
    pub ip_address: Option<String>,
    /// Time of the most recent delivery error
    pub last_error_date: Option<Time>,
    /// Human-readable message of the most recent delivery error
    pub last_error_message: Option<String>,
    /// Maximum allowed number of simultaneous connections
    pub max_connections: Option<i32>,
    /// The update kinds the bot is subscribed to; all kinds when absent
    pub allowed_updates: Option<Vec<String>>,
}

impl View for WebhookInfo {
    type V = WebhookInfoV;

    open spec fn view(&self) -> WebhookInfoV {
        WebhookInfoV {
            url: self.url@,
            has_custom_certificate: self.has_custom_certificate,
            pending_update_count: self.pending_update_count as int,
            ip_address: match &self.ip_address {
                None => None,
                Some(s) => Some(s@),
            },
            last_error_date: match self.last_error_date {
                None => None,
                Some(t) => Some(t.0 as int),
            },
            last_error_message: match &self.last_error_message {
                None => None,
                Some(s) => Some(s@),
            },
            max_connections: match self.max_connections {
                None => None,
                Some(n) => Some(n as int),
            },
            allowed_updates: match &self.allowed_updates {
                None => None,
                Some(v) => Some(strs_view(v@)),
            },
        }
    }
}

impl WebhookInfo {
    /// The wire form.
    pub open spec fn encoded_v(v: WebhookInfoV) -> JsonV {
        JsonV::Obj(
            seq![
                ("url"@, JsonV::Str(v.url)),
                ("has_custom_certificate"@, JsonV::Bool(v.has_custom_certificate)),
                ("pending_update_count"@, JsonV::Int(v.pending_update_count)),
                ("ip_address"@, nullable(opt_str_v(v.ip_address))),
                ("last_error_date"@, nullable(opt_int_v(v.last_error_date))),
                ("last_error_message"@, nullable(opt_str_v(v.last_error_message))),
                ("max_connections"@, nullable(opt_int_v(v.max_connections))),
                (
                    "allowed_updates"@,
                    nullable(
                        match v.allowed_updates {
                            None => None,
                            Some(ss) => Some(JsonV::Arr(sp_enc_strs(ss))),
                        },
                    ),
                ),
            ],
        )
    }

    /// What the members of an object denote.
    pub open spec fn decoded_fields(es: Seq<(Seq<char>, JsonV)>) -> Result<
        WebhookInfoV,
        DecodeError,
    > {
        if sp_req_str(es, "url"@) is Err {
            Err(sp_req_str(es, "url"@)->Err_0)
        } else if sp_req_bool(es, "has_custom_certificate"@) is Err {
            Err(sp_req_bool(es, "has_custom_certificate"@)->Err_0)
        } else if sp_req_i32(es, "pending_update_count"@) is Err {
            Err(sp_req_i32(es, "pending_update_count"@)->Err_0)
        } else if sp_opt_str(es, "ip_address"@) is Err {
            Err(sp_opt_str(es, "ip_address"@)->Err_0)
        } else if sp_opt_u64(es, "last_error_date"@) is Err {
            Err(sp_opt_u64(es, "last_error_date"@)->Err_0)
        } else if sp_opt_str(es, "last_error_message"@) is Err {
            Err(sp_opt_str(es, "last_error_message"@)->Err_0)
        } else if sp_opt_i32(es, "max_connections"@) is Err {
            Err(sp_opt_i32(es, "max_connections"@)->Err_0)
        } else if sp_opt_strs(es, "allowed_updates"@) is Err {
            Err(sp_opt_strs(es, "allowed_updates"@)->Err_0)
        } else {
            Ok(
                WebhookInfoV {
                    url: sp_req_str(es, "url"@)->Ok_0,
                    has_custom_certificate: sp_req_bool(es, "has_custom_certificate"@)->Ok_0,
                    pending_update_count: sp_req_i32(es, "pending_update_count"@)->Ok_0,
                    ip_address: sp_opt_str(es, "ip_address"@)->Ok_0,
                    last_error_date: sp_opt_u64(es, "last_error_date"@)->Ok_0,
                    last_error_message: sp_opt_str(es, "last_error_message"@)->Ok_0,
                    max_connections: sp_opt_i32(es, "max_connections"@)->Ok_0,
                    allowed_updates: sp_opt_strs(es, "allowed_updates"@)->Ok_0,
                },
            )
        }
    }

    /// What a document denotes.
    pub open spec fn decoded(j: JsonV) -> Result<WebhookInfoV, DecodeError> {
        match j {
            JsonV::Obj(es) => WebhookInfo::decoded_fields(es),
            _ => Err(DecodeError::WrongType),
        }
    }

    /// Encode as an object. A recorded error time must fit the wire's
    /// signed 64-bit number line.
    pub fn to_json(&self) -> (r: Json)
        requires
            self.last_error_date matches Some(t) ==> t.wf(),
        ensures
            r@ == WebhookInfo::encoded_v(self@),
    {
        let mut out: Vec<(String, Json)> = Vec::new();
        push_entry(&mut out, "url", Json::Str(self.url.clone()));
        push_entry(&mut out, "has_custom_certificate", Json::Bool(self.has_custom_certificate));
        push_entry(&mut out, "pending_update_count", Json::Int(self.pending_update_count as i64));
        let j_ip = match &self.ip_address {
            None => Json::Null,
            Some(s) => Json::Str(s.clone()),
        };
        push_entry(&mut out, "ip_address", j_ip);
        let j_date = match &self.last_error_date {
            None => Json::Null,
            Some(t) => Json::Int(t.0 as i64),
        };
        push_entry(&mut out, "last_error_date", j_date);
        let j_msg = match &self.last_error_message {
            None => Json::Null,
            Some(s) => Json::Str(s.clone()),
        };
        push_entry(&mut out, "last_error_message", j_msg);
        let j_max = match &self.max_connections {
            None => Json::Null,
            Some(n) => Json::Int(*n as i64),
        };
        push_entry(&mut out, "max_connections", j_max);
        let j_allowed = match &self.allowed_updates {
            None => Json::Null,
            Some(v) => strs_to_json(v),
        };
        push_entry(&mut out, "allowed_updates", j_allowed);
        proof {
            assert(entries_view(out@) =~= WebhookInfo::encoded_v(self@)->Obj_0);
        }
        Json::Obj(out)
    }

    /// Decode from an object.
    pub fn from_json(j: &Json) -> (r: Result<WebhookInfo, DecodeError>)
        ensures
            match r {
                Ok(v) => WebhookInfo::decoded(j@) == Ok::<_, DecodeError>(v@),
                Err(e) => WebhookInfo::decoded(j@) == Err::<WebhookInfoV, _>(e),
            },
    {
        match j {
            Json::Obj(entries) => {
                let url = match req_str(entries, "url") {
                    Err(e) => {
                        return Err(e);
                    },
                    Ok(s) => s,
                };
                let has_custom_certificate = match req_bool(entries, "has_custom_certificate") {
                    Err(e) => {
                        return Err(e);
                    },
                    Ok(b) => b,
                };
                let pending_update_count = match req_i32(entries, "pending_update_count") {
                    Err(e) => {
                        return Err(e);
                    },
                    Ok(n) => n,
                };
                let ip_address = match opt_str(entries, "ip_address") {
                    Err(e) => {
                        return Err(e);
                    },
                    Ok(v) => v,
                };
                let last_error_date = match opt_u64(entries, "last_error_date") {
                    Err(e) => {
                        return Err(e);
                    },
                    Ok(None) => None,
                    Ok(Some(n)) => Some(Time(n)),
                };
                let last_error_message = match opt_str(entries, "last_error_message") {
                    Err(e) => {
                        return Err(e);
                    },
                    Ok(v) => v,
                };
                let max_connections = match opt_i32(entries, "max_connections") {
                    Err(e) => {
                        return Err(e);
                    },
                    Ok(v) => v,
                };
                let allowed_updates = match opt_strs(entries, "allowed_updates") {
                    Err(e) => {
                        return Err(e);
                    },
                    Ok(v) => v,
                };
                Ok(
                    WebhookInfo {
                        url,
                        has_custom_certificate,
                        pending_update_count,
                        ip_address,
                        last_error_date,
                        last_error_message,
                        max_connections,
                        allowed_updates,
                    },
                )
            },
            _ => Err(DecodeError::WrongType),
        }
    }
}

/// Formatting language of a text or caption.
///
/// An unrecognized wire tag decodes to `Unknown` rather than failing, so
/// that tags added upstream later do not break this model.
#[derive(Debug, Clone, Copy, PartialEq, Eq, Structural)]
pub enum ParseMode {
    Markdown,
    MarkdownV2,
    HTML,
    /// Unknown upstream data type.
    Unknown,
}

impl ParseMode {
    /// The wire tag of each branch.
    pub open spec fn tag(self) -> Seq<char> {
        match self {
            ParseMode::Markdown => "Markdown"@,
            ParseMode::MarkdownV2 => "MarkdownV2"@,
            ParseMode::HTML => "HTML"@,
            ParseMode::Unknown => "Unknown"@,
        }
    }

    /// The wire form: the bare tag string.
    pub open spec fn encoded(self) -> JsonV {
        JsonV::Str(self.tag())
    }

    /// An optional formatting language as an optional tag value.
    pub open spec fn opt_encoded(m: Option<ParseMode>) -> Option<JsonV> {
        match m {
            None => None,
            Some(x) => Some(x.encoded()),
        }
    }

    /// What a document denotes: a known tag names its branch, any other
    /// string is `Unknown`, and a non-string is a type error.
    pub open spec fn decoded(j: JsonV) -> Result<ParseMode, DecodeError> {
        match j {
            JsonV::Str(s) => Ok(
                if s == "Markdown"@ {
                    ParseMode::Markdown
                } else if s == "MarkdownV2"@ {
                    ParseMode::MarkdownV2
                } else if s == "HTML"@ {
                    ParseMode::HTML
                } else {
                    ParseMode::Unknown
                },
            ),
            _ => Err(DecodeError::WrongType),
        }
    }

    /// Encode as the bare tag string.
    pub fn to_json(&self) -> (r: Json)
        ensures
            r@ == self.encoded(),
    {
        match self {
            ParseMode::Markdown => Json::Str(String::from_str("Markdown")),
            ParseMode::MarkdownV2 => Json::Str(String::from_str("MarkdownV2")),
            ParseMode::HTML => Json::Str(String::from_str("HTML")),
            ParseMode::Unknown => Json::Str(String::from_str("Unknown")),
        }
    }

    /// Decode from the bare tag string, falling back to `Unknown`.
    pub fn from_json(j: &Json) -> (r: Result<ParseMode, DecodeError>)
        ensures
            r == ParseMode::decoded(j@),
    {
        match j {
            Json::Str(s) => Ok(
                if crate::json::str_eq(s.as_str(), "Markdown") {
                    ParseMode::Markdown
                } else if crate::json::str_eq(s.as_str(), "MarkdownV2") {
                    ParseMode::MarkdownV2
                } else if crate::json::str_eq(s.as_str(), "HTML") {
                    ParseMode::HTML
                } else {
                    ParseMode::Unknown
                },
            ),
            _ => Err(DecodeError::WrongType),
        }
    }
}

/// Type of a special entity in a message text.
///
/// An unrecognized wire tag decodes to `Unknown` rather than failing.
#[derive(Debug, Clone, Copy, PartialEq, Eq, Structural, PartialOrd, Ord)]
pub enum MessageEntityKind {
    /// `@username`
    Mention,
    Hashtag,
    Cashtag,
    BotCommand,
    Url,
    Email,
    PhoneNumber,
    /// bold text
    Bold,
    /// italic text
    Italic,
    /// monowidth string
    Code,
    /// monowidth block
    Pre,
    /// for clickable text URLs
    TextLink,
    /// for users without usernames
    TextMention,
    /// Unknown upstream data type.
    Unknown,
}

impl MessageEntityKind {
    /// The wire tag of each branch.
    pub open spec fn tag(self) -> Seq<char> {
        match self {
            MessageEntityKind::Mention => "mention"@,
            MessageEntityKind::Hashtag => "hashtag"@,
            MessageEntityKind::Cashtag => "cashtag"@,
            MessageEntityKind::BotCommand => "bot_command"@,
            MessageEntityKind::Url => "url"@,
            MessageEntityKind::Email => "email"@,
            MessageEntityKind::PhoneNumber => "phone_number"@,
            MessageEntityKind::Bold => "bold"@,
            MessageEntityKind::Italic => "italic"@,
            MessageEntityKind::Code => "code"@,
            MessageEntityKind::Pre => "pre"@,
            MessageEntityKind::TextLink => "text_link"@,
            MessageEntityKind::TextMention => "text_mention"@,
            MessageEntityKind::Unknown => "unknown"@,
        }
    }

    /// The wire form: the bare tag string.
    pub open spec fn encoded(self) -> JsonV {
        JsonV::Str(self.tag())
    }

    /// What a document denotes: a known tag names its branch, any other
    /// string is `Unknown`, and a non-string is a type error.
    pub open spec fn decoded(j: JsonV) -> Result<MessageEntityKind, DecodeError> {
        match j {
            JsonV::Str(s) => Ok(
                if s == "mention"@ {
                    MessageEntityKind::Mention
                } else if s == "hashtag"@ {
                    MessageEntityKind::Hashtag
                } else if s == "cashtag"@ {
                    MessageEntityKind::Cashtag
                } else if s == "bot_command"@ {
                    MessageEntityKind::BotCommand
                } else if s == "url"@ {
                    MessageEntityKind::Url
                } else if s == "email"@ {
                    MessageEntityKind::Email
                } else if s == "phone_number"@ {
                    MessageEntityKind::PhoneNumber
                } else if s == "bold"@ {
                    MessageEntityKind::Bold
                } else if s == "italic"@ {
                    MessageEntityKind::Italic
                } else if s == "code"@ {
                    MessageEntityKind::Code
                } else if s == "pre"@ {
                    MessageEntityKind::Pre
                } else if s == "text_link"@ {
                    MessageEntityKind::TextLink
                } else if s == "text_mention"@ {
                    MessageEntityKind::TextMention
                } else {
                    MessageEntityKind::Unknown
                },
            ),
            _ => Err(DecodeError::WrongType),
        }
    }

    /// Encode as the bare tag string.
    pub fn to_json(&self) -> (r: Json)
        ensures
            r@ == self.encoded(),
    {
        match self {
            MessageEntityKind::Mention => Json::Str(String::from_str("mention")),
            MessageEntityKind::Hashtag => Json::Str(String::from_str("hashtag")),
            MessageEntityKind::Cashtag => Json::Str(String::from_str("cashtag")),
            MessageEntityKind::BotCommand => Json::Str(String::from_str("bot_command")),
            MessageEntityKind::Url => Json::Str(String::from_str("url")),
            MessageEntityKind::Email => Json::Str(String::from_str("email")),
            MessageEntityKind::PhoneNumber => Json::Str(String::from_str("phone_number")),
            MessageEntityKind::Bold => Json::Str(String::from_str("bold")),
            MessageEntityKind::Italic => Json::Str(String::from_str("italic")),
            MessageEntityKind::Code => Json::Str(String::from_str("code")),
            MessageEntityKind::Pre => Json::Str(String::from_str("pre")),
            MessageEntityKind::TextLink => Json::Str(String::from_str("text_link")),
            MessageEntityKind::TextMention => Json::Str(String::from_str("text_mention")),
            MessageEntityKind::Unknown => Json::Str(String::from_str("unknown")),
        }
    }

    /// Decode from the bare tag string, falling back to `Unknown`.
    pub fn from_json(j: &Json) -> (r: Result<MessageEntityKind, DecodeError>)
        ensures
            r == MessageEntityKind::decoded(j@),
    {
        match j {
            Json::Str(s) => Ok(
                if crate::json::str_eq(s.as_str(), "mention") {
                    MessageEntityKind::Mention
                } else if crate::json::str_eq(s.as_str(), "hashtag") {
                    MessageEntityKind::Hashtag
                } else if crate::json::str_eq(s.as_str(), "cashtag") {
                    MessageEntityKind::Cashtag
                } else if crate::json::str_eq(s.as_str(), "bot_command") {
                    MessageEntityKind::BotCommand
                } else if crate::json::str_eq(s.as_str(), "url") {
                    MessageEntityKind::Url
                } else if crate::json::str_eq(s.as_str(), "email") {
                    MessageEntityKind::Email
                } else if crate::json::str_eq(s.as_str(), "phone_number") {
                    MessageEntityKind::PhoneNumber
                } else if crate::json::str_eq(s.as_str(), "bold") {
                    MessageEntityKind::Bold
                } else if crate::json::str_eq(s.as_str(), "italic") {
                    MessageEntityKind::Italic
                } else if crate::json::str_eq(s.as_str(), "code") {
                    MessageEntityKind::Code
                } else if crate::json::str_eq(s.as_str(), "pre") {
                    MessageEntityKind::Pre
                } else if crate::json::str_eq(s.as_str(), "text_link") {
                    MessageEntityKind::TextLink
                } else if crate::json::str_eq(s.as_str(), "text_mention") {
                    MessageEntityKind::TextMention
                } else {
                    MessageEntityKind::Unknown
                },
            ),
            _ => Err(DecodeError::WrongType),
        }
    }
}

/// A member's status in a chat.
///
/// An unrecognized wire tag decodes to `Unknown` rather than failing.
#[derive(Debug, Clone, Copy, PartialEq, Eq, Structural, PartialOrd, Ord)]
pub enum ChatMemberStatus {
    Creator,
    Administrator,
    Member,
    Restricted,
    Left,
    Kicked,
    /// Unknown upstream data type.
    Unknown,
}

impl ChatMemberStatus {
    /// The wire tag of each branch.
    pub open spec fn tag(self) -> Seq<char> {
        match self {
            ChatMemberStatus::Creator => "creator"@,
            ChatMemberStatus::Administrator => "administrator"@,
            ChatMemberStatus::Member => "member"@,
            ChatMemberStatus::Restricted => "restricted"@,
            ChatMemberStatus::Left => "left"@,
            ChatMemberStatus::Kicked => "kicked"@,
            ChatMemberStatus::Unknown => "unknown"@,
        }
    }

    /// The wire form: the bare tag string.
    pub open spec fn encoded(self) -> JsonV {
        JsonV::Str(self.tag())
    }

    /// What a document denotes: a known tag names its branch, any other
    /// string is `Unknown`, and a non-string is a type error.
    pub open spec fn decoded(j: JsonV) -> Result<ChatMemberStatus, DecodeError> {
        match j {
            JsonV::Str(s) => Ok(
                if s == "creator"@ {
                    ChatMemberStatus::Creator
                } else if s == "administrator"@ {
                    ChatMemberStatus::Administrator
                } else if s == "member"@ {
                    ChatMemberStatus::Member
                } else if s == "restricted"@ {
                    ChatMemberStatus::Restricted
                } else if s == "left"@ {
                    ChatMemberStatus::Left
                } else if s == "kicked"@ {
                    ChatMemberStatus::Kicked
                } else {
                    ChatMemberStatus::Unknown
                },
            ),
            _ => Err(DecodeError::WrongType),
        }
    }

    /// Encode as the bare tag string.
    pub fn to_json(&self) -> (r: Json)
        ensures
            r@ == self.encoded(),
    {
        match self {
            ChatMemberStatus::Creator => Json::Str(String::from_str("creator")),
            ChatMemberStatus::Administrator => Json::Str(String::from_str("administrator")),
            ChatMemberStatus::Member => Json::Str(String::from_str("member")),
            ChatMemberStatus::Restricted => Json::Str(String::from_str("restricted")),
            ChatMemberStatus::Left => Json::Str(String::from_str("left")),
            ChatMemberStatus::Kicked => Json::Str(String::from_str("kicked")),
            ChatMemberStatus::Unknown => Json::Str(String::from_str("unknown")),
        }
    }

    /// Decode from the bare tag string, falling back to `Unknown`.
    pub fn from_json(j: &Json) -> (r: Result<ChatMemberStatus, DecodeError>)
        ensures
            r == ChatMemberStatus::decoded(j@),
    {
        match j {
            Json::Str(s) => Ok(
                if crate::json::str_eq(s.as_str(), "creator") {
                    ChatMemberStatus::Creator
                } else if crate::json::str_eq(s.as_str(), "administrator") {
                    ChatMemberStatus::Administrator
                } else if crate::json::str_eq(s.as_str(), "member") {
                    ChatMemberStatus::Member
                } else if crate::json::str_eq(s.as_str(), "restricted") {
                    ChatMemberStatus::Restricted
                } else if crate::json::str_eq(s.as_str(), "left") {
                    ChatMemberStatus::Left
                } else if crate::json::str_eq(s.as_str(), "kicked") {
                    ChatMemberStatus::Kicked
                } else {
                    ChatMemberStatus::Unknown
                },
            ),
            _ => Err(DecodeError::WrongType),
        }
    }
}

/// The contents of a file to be uploaded: the `attach://<name>` token that
/// cross-references a multipart part by name.
#[derive(Debug, Clone, PartialEq, Eq, PartialOrd, Ord)]
pub struct InputFile(pub String);

impl InputFile {
    /// A reference to a multipart part uploaded under `file_attach_name`.
    pub fn new(file_attach_name: &str) -> (r: InputFile)
        ensures
            r.0@ == "attach://"@ + file_attach_name@,
    {
        let attach = String::from_str("attach://").concat(file_attach_name);
        InputFile(attach)
    }
}

/// The model of a file reference.
pub enum FileToSendV {
    FileId(Seq<char>),
    Url(Seq<char>),
    InputFile(Seq<char>),
}

/// One of the three ways to send a file: by identifier of a file already on
/// the servers, by a remote URL, or by a fresh multipart upload.
///
/// All three branches share the bare-string wire form, so decoding always
/// takes the first branch: a bare string decodes as a file identifier.
#[derive(Debug, Clone, PartialEq, Eq, PartialOrd, Ord)]
pub enum FileToSend {
    FileId(FileId),
    Url(String),
    InputFile(InputFile),
}

impl View for FileToSend {
    type V = FileToSendV;

    open spec fn view(&self) -> FileToSendV {
        match self {
            FileToSend::FileId(f) => FileToSendV::FileId(f.0@),
            FileToSend::Url(u) => FileToSendV::Url(u@),
            FileToSend::InputFile(f) => FileToSendV::InputFile(f.0@),
        }
    }
}

impl FileToSend {
    /// The wire form: the bare inner string, with no tag.
    pub open spec fn encoded_v(v: FileToSendV) -> JsonV {
        match v {
            FileToSendV::FileId(s) => JsonV::Str(s),
            FileToSendV::Url(s) => JsonV::Str(s),
            FileToSendV::InputFile(s) => JsonV::Str(s),
        }
    }

    /// What a document denotes: branches are tried in declaration order and
    /// every branch accepts a bare string, so a string is always a `FileId`;
    /// on any other shape the error names this union and the JSON type.
    pub open spec fn decoded(j: JsonV) -> Result<FileToSendV, DecodeError> {
        match j {
            JsonV::Str(s) => Ok(FileToSendV::FileId(s)),
            _ => Err(
                DecodeError::NoVariantMatched(crate::json::UnionKind::FileToSend, crate::json::kind_of(j)),
            ),
        }
    }

    /// Encode as the bare inner string.
    pub fn to_json(&self) -> (r: Json)
        ensures
            r@ == FileToSend::encoded_v(self@),
    {
        match self {
            FileToSend::FileId(f) => Json::Str(f.0.clone()),
            FileToSend::Url(u) => Json::Str(u.clone()),
            FileToSend::InputFile(f) => Json::Str(f.0.clone()),
        }
    }

    /// Decode a bare string as a reference by file identifier.
    pub fn from_json(j: &Json) -> (r: Result<FileToSend, DecodeError>)
        ensures
            match r {
                Ok(f) => FileToSend::decoded(j@) == Ok::<_, DecodeError>(f@),
                Err(e) => FileToSend::decoded(j@) == Err::<FileToSendV, _>(e),
            },
    {
        match j {
            Json::Str(s) => Ok(FileToSend::FileId(FileId(s.clone()))),
            _ => Err(
                DecodeError::NoVariantMatched(
                    crate::json::UnionKind::FileToSend,
                    crate::json::json_kind(j),
                ),
            ),
        }
    }

    /// What a required member denotes as a file reference.
    pub open spec fn sp_req_field(es: Seq<(Seq<char>, JsonV)>, key: Seq<char>) -> Result<
        FileToSendV,
        DecodeError,
    > {
        match lookup(es, key) {
            None => Err(DecodeError::MissingField),
            Some(j) => FileToSend::decoded(j),
        }
    }

    /// Decode a required member as a file reference.
    pub fn req_field(entries: &Vec<(String, Json)>, key: &str) -> (r: Result<
        FileToSend,
        DecodeError,
    >)
        ensures
            match r {
                Ok(v) => FileToSend::sp_req_field(entries_view(entries@), key@) == Ok::<
                    _,
                    DecodeError,
                >(v@),
                Err(e) => FileToSend::sp_req_field(entries_view(entries@), key@) == Err::<
                    FileToSendV,
                    _,
                >(e),
            },
    {
        match obj_get(entries, key) {
            None => Err(DecodeError::MissingField),
            Some(j) => FileToSend::from_json(j),
        }
    }
}

/// The model of retry and migration hints attached to a failure.
pub struct ResponseParametersV {
    pub migrate_to_chat_id: Option<int>,
    pub retry_after: Option<int>,
}

/// Why a request was unsuccessful: migration and flood-control hints.
#[derive(Debug, Clone, Copy, PartialEq, Eq, Structural)]
pub struct ResponseParameters {
    /// The group has been migrated to a supergroup with this identifier.
    pub migrate_to_chat_id: Option<ChatId>,
    /// After exceeding flood control, the seconds to wait before retrying.
    pub retry_after: Option<i32>,
}

impl View for ResponseParameters {
    type V = ResponseParametersV;

    open spec fn view(&self) -> ResponseParametersV {
        ResponseParametersV {
            migrate_to_chat_id: match self.migrate_to_chat_id {
                None => None,
                Some(c) => Some(c.0 as int),
            },
            retry_after: match self.retry_after {
                None => None,
                Some(n) => Some(n as int),
            },
        }
    }
}

impl ResponseParameters {
    /// The wire form: an object with both hints, `null` when absent.
    pub open spec fn encoded_v(v: ResponseParametersV) -> JsonV {
        JsonV::Obj(
            seq![
                ("migrate_to_chat_id"@, nullable(opt_int_v(v.migrate_to_chat_id))),
                ("retry_after"@, nullable(opt_int_v(v.retry_after))),
            ],
        )
    }

    /// What a document denotes as retry and migration hints.
    pub open spec fn decoded(j: JsonV) -> Result<ResponseParametersV, DecodeError> {
        match j {
            JsonV::Obj(es) => match sp_opt_i64(es, "migrate_to_chat_id"@) {
                Err(e) => Err(e),
                Ok(m) => match sp_opt_i32(es, "retry_after"@) {
                    Err(e) => Err(e),
                    Ok(r) => Ok(
                        ResponseParametersV { migrate_to_chat_id: m, retry_after: r },
                    ),
                },
            },
            _ => Err(DecodeError::WrongType),
        }
    }

    /// Encode as an object with both hints, `null` when absent.
    pub fn to_json(&self) -> (r: Json)
        ensures
            r@ == ResponseParameters::encoded_v(self@),
    {
        let migrate = match &self.migrate_to_chat_id {
            None => Json::Null,
            Some(c) => Json::Int(c.0),
        };
        let retry = match &self.retry_after {
            None => Json::Null,
            Some(n) => Json::Int(*n as i64),
        };
        let out: Vec<(String, Json)> = vec![
            (String::from_str("migrate_to_chat_id"), migrate),
            (String::from_str("retry_after"), retry),
        ];
        proof {
            crate::json::lemma_entries_view_len(out@);
            crate::json::lemma_entries_view_index(out@, 0);
            crate::json::lemma_entries_view_index(out@, 1);
            assert(entries_view(out@) =~= ResponseParameters::encoded_v(self@)->Obj_0);
        }
        Json::Obj(out)
    }

    /// Decode from an object with optional hints.
    pub fn from_json(j: &Json) -> (r: Result<ResponseParameters, DecodeError>)
        ensures
            match r {
                Ok(v) => ResponseParameters::decoded(j@) == Ok::<_, DecodeError>(v@),
                Err(e) => ResponseParameters::decoded(j@) == Err::<ResponseParametersV, _>(e),
            },
    {
        match j {
            Json::Obj(entries) => {
                let migrate = match opt_i64(entries, "migrate_to_chat_id") {
                    Err(e) => {
                        return Err(e);
                    },
                    Ok(None) => None,
                    Ok(Some(n)) => Some(ChatId(n)),
                };
                let retry = match opt_i32(entries, "retry_after") {
                    Err(e) => {
                        return Err(e);
                    },
                    Ok(v) => v,
                };
                Ok(ResponseParameters { migrate_to_chat_id: migrate, retry_after: retry })
            },
            _ => Err(DecodeError::WrongType),
        }
    }
}

/// The model of one size of a photo or thumbnail.
pub struct PhotoSizeV {
    pub file_id: Seq<char>,
    pub width: int,
    pub height: int,
    pub file_size: Option<int>,
}

/// One size of a photo or a file / sticker thumbnail.
#[derive(Debug, Clone, PartialEq, Eq, Hash)]
pub struct PhotoSize {
    /// Unique identifier for this file
    pub file_id: FileId,
    pub width: i32,
    pub height: i32,
    pub file_size: Option<i32>,
}

impl View for PhotoSize {
    type V = PhotoSizeV;

    open spec fn view(&self) -> PhotoSizeV {
        PhotoSizeV {
            file_id: self.file_id.0@,
            width: self.width as int,
            height: self.height as int,
            file_size: match self.file_size {
                None => None,
                Some(n) => Some(n as int),
            },
        }
    }
}

impl PhotoSize {
    /// The wire form.
    pub open spec fn encoded_v(v: PhotoSizeV) -> JsonV {
        JsonV::Obj(
            seq![
                ("file_id"@, JsonV::Str(v.file_id)),
                ("width"@, JsonV::Int(v.width)),
                ("height"@, JsonV::Int(v.height)),
                ("file_size"@, nullable(opt_int_v(v.file_size))),
            ],
        )
    }

    /// What the members of an object denote.
    pub open spec fn decoded_fields(es: Seq<(Seq<char>, JsonV)>) -> Result<
        PhotoSizeV,
        DecodeError,
    > {
        if sp_req_str(es, "file_id"@) is Err {
            Err(sp_req_str(es, "file_id"@)->Err_0)
        } else if sp_req_i32(es, "width"@) is Err {
            Err(sp_req_i32(es, "width"@)->Err_0)
        } else if sp_req_i32(es, "height"@) is Err {
            Err(sp_req_i32(es, "height"@)->Err_0)
        } else if sp_opt_i32(es, "file_size"@) is Err {
            Err(sp_opt_i32(es, "file_size"@)->Err_0)
        } else {
            Ok(
                PhotoSizeV {
                    file_id: sp_req_str(es, "file_id"@)->Ok_0,
                    width: sp_req_i32(es, "width"@)->Ok_0,
                    height: sp_req_i32(es, "height"@)->Ok_0,
                    file_size: sp_opt_i32(es, "file_size"@)->Ok_0,
                },
            )
        }
    }

    /// What a document denotes.
    pub open spec fn decoded(j: JsonV) -> Result<PhotoSizeV, DecodeError> {
        match j {
            JsonV::Obj(es) => PhotoSize::decoded_fields(es),
            _ => Err(DecodeError::WrongType),
        }
    }

    /// Encode as an object.
    pub fn to_json(&self) -> (r: Json)
        ensures
            r@ == PhotoSize::encoded_v(self@),
    {
        let file_size = match &self.file_size {
            None => Json::Null,
            Some(n) => Json::Int(*n as i64),
        };
        let out: Vec<(String, Json)> = vec![
            (String::from_str("file_id"), Json::Str(self.file_id.0.clone())),
            (String::from_str("width"), Json::Int(self.width as i64)),
            (String::from_str("height"), Json::Int(self.height as i64)),
            (String::from_str("file_size"), file_size),
        ];
        proof {
            crate::json::lemma_entries_view_len(out@);
            crate::json::lemma_entries_view_index(out@, 0);
            crate::json::lemma_entries_view_index(out@, 1);
            crate::json::lemma_entries_view_index(out@, 2);
            crate::json::lemma_entries_view_index(out@, 3);
            assert(entries_view(out@) =~= PhotoSize::encoded_v(self@)->Obj_0);
        }
        Json::Obj(out)
    }

    /// Decode from an object.
    pub fn from_json(j: &Json) -> (r: Result<PhotoSize, DecodeError>)
        ensures
            match r {
                Ok(v) => PhotoSize::decoded(j@) == Ok::<_, DecodeError>(v@),
                Err(e) => PhotoSize::decoded(j@) == Err::<PhotoSizeV, _>(e),
            },
    {
        match j {
            Json::Obj(entries) => {
                let file_id = match req_str(entries, "file_id") {
                    Err(e) => {
                        return Err(e);
                    },
                    Ok(s) => FileId(s),
                };
                let width = match req_i32(entries, "width") {
                    Err(e) => {
                        return Err(e);
                    },
                    Ok(n) => n,
                };
                let height = match req_i32(entries, "height") {
                    Err(e) => {
                        return Err(e);
                    },
                    Ok(n) => n,
                };
                let file_size = match opt_i32(entries, "file_size") {
                    Err(e) => {
                        return Err(e);
                    },
                    Ok(v) => v,
                };
                Ok(PhotoSize { file_id, width, height, file_size })
            },
            _ => Err(DecodeError::WrongType),
        }
    }

    /// What an optional member denotes as a photo size.
    pub open spec fn sp_opt_field(es: Seq<(Seq<char>, JsonV)>, key: Seq<char>) -> Result<
        Option<PhotoSizeV>,
        DecodeError,
    > {
        match lookup(es, key) {
            None => Ok(None),
            Some(JsonV::Null) => Ok(None),
            Some(j) => match PhotoSize::decoded(j) {
                Err(e) => Err(e),
                Ok(v) => Ok(Some(v)),
            },
        }
    }

    /// Decode an optional member as a photo size.
    pub fn opt_field(entries: &Vec<(String, Json)>, key: &str) -> (r: Result<
        Option<PhotoSize>,
        DecodeError,
    >)
        ensures
            match r {
                Ok(None) => PhotoSize::sp_opt_field(entries_view(entries@), key@) == Ok::<
                    Option<PhotoSizeV>,
                    DecodeError,
                >(None),
                Ok(Some(v)) => PhotoSize::sp_opt_field(entries_view(entries@), key@) == Ok::<
                    _,
                    DecodeError,
                >(Some(v@)),
                Err(e) => PhotoSize::sp_opt_field(entries_view(entries@), key@) == Err::<
                    Option<PhotoSizeV>,
                    _,
                >(e),
            },
    {
        match obj_get(entries, key) {
            None => Ok(None),
            Some(Json::Null) => Ok(None),
            Some(j) => match PhotoSize::from_json(j) {
                Err(e) => Err(e),
                Ok(v) => Ok(Some(v)),
            },
        }
    }

    /// What an array member that defaults to empty denotes.
    pub open spec fn sp_vec_field(es: Seq<(Seq<char>, JsonV)>, key: Seq<char>) -> Result<
        Seq<PhotoSizeV>,
        DecodeError,
    > {
        match lookup(es, key) {
            None => Ok(Seq::empty()),
            Some(JsonV::Arr(items)) => PhotoSize::sp_dec_seq(items),
            Some(_) => Err(DecodeError::WrongType),
        }
    }

    /// Decode an array member that defaults to empty.
    pub fn vec_field(entries: &Vec<(String, Json)>, key: &str) -> (r: Result<
        Vec<PhotoSize>,
        DecodeError,
    >)
        ensures
            match r {
                Ok(v) => PhotoSize::sp_vec_field(entries_view(entries@), key@) == Ok::<
                    _,
                    DecodeError,
                >(PhotoSize::seq_view(v@)),
                Err(e) => PhotoSize::sp_vec_field(entries_view(entries@), key@) == Err::<
                    Seq<PhotoSizeV>,
                    _,
                >(e),
            },
    {
        match obj_get(entries, key) {
            None => {
                let empty: Vec<PhotoSize> = Vec::new();
                proof {
                    assert(PhotoSize::seq_view(empty@) =~= Seq::<PhotoSizeV>::empty());
                }
                Ok(empty)
            },
            Some(Json::Arr(items)) => PhotoSize::vec_from_json(items),
            Some(_) => Err(DecodeError::WrongType),
        }
    }

    /// What a sequence of documents denotes as photo sizes.
    pub open spec fn sp_dec_seq(items: Seq<JsonV>) -> Result<Seq<PhotoSizeV>, DecodeError>
        decreases items.len(),
    {
        if items.len() == 0 {
            Ok(Seq::empty())
        } else {
            match PhotoSize::decoded(items[0]) {
                Err(e) => Err(e),
                Ok(h) => match PhotoSize::sp_dec_seq(items.drop_first()) {
                    Err(e) => Err(e),
                    Ok(t) => Ok(seq![h] + t),
                },
            }
        }
    }

    /// The model of a sequence of photo sizes.
    pub open spec fn seq_view(s: Seq<PhotoSize>) -> Seq<PhotoSizeV> {
        Seq::new(s.len(), |i: int| s[i]@)
    }

    /// The wire form of a sequence of photo sizes.
    pub open spec fn sp_enc_seq(s: Seq<PhotoSizeV>) -> Seq<JsonV> {
        Seq::new(s.len(), |i: int| PhotoSize::encoded_v(s[i]))
    }

    /// Decode an array of photo sizes.
    #[verifier::loop_isolation(false)]
    pub fn vec_from_json(items: &Vec<Json>) -> (r: Result<Vec<PhotoSize>, DecodeError>)
        ensures
            match r {
                Ok(v) => PhotoSize::sp_dec_seq(elems_view(items@)) == Ok::<_, DecodeError>(
                    PhotoSize::seq_view(v@),
                ),
                Err(e) => PhotoSize::sp_dec_seq(elems_view(items@)) == Err::<Seq<PhotoSizeV>, _>(
                    e,
                ),
            },
    {
        let ghost iv = elems_view(items@);
        proof {
            lemma_elems_view_len(items@);
        }
        let mut out: Vec<PhotoSize> = Vec::new();
        let mut i: usize = 0;
        while i < items.len()
            invariant
                i <= items@.len(),
                out@.len() == i,
                forall|k: int|
                    0 <= k < i ==> PhotoSize::decoded(iv[k]) == Ok::<_, DecodeError>(out@[k]@),
            decreases items@.len() - i,
        {
            proof {
                lemma_elems_view_index(items@, i as int);
            }
            match PhotoSize::from_json(&items[i]) {
                Err(e) => {
                    proof {
                        PhotoSize::lemma_sp_dec_seq_err(iv, i as int);
                    }
                    return Err(e);
                },
                Ok(v) => {
                    out.push(v);
                },
            }
            i += 1;
        }
        proof {
            PhotoSize::lemma_sp_dec_seq_ok(iv, out@);
        }
        Ok(out)
    }

    /// A failing element fails the whole sequence with its error.
    proof fn lemma_sp_dec_seq_err(items: Seq<JsonV>, i: int)
        requires
            0 <= i < items.len(),
            PhotoSize::decoded(items[i]) is Err,
            forall|k: int| 0 <= k < i ==> PhotoSize::decoded(items[k]) is Ok,
        ensures
            PhotoSize::sp_dec_seq(items) == Err::<Seq<PhotoSizeV>, _>(
                PhotoSize::decoded(items[i])->Err_0,
            ),
        decreases items.len(),
    {
        if i > 0 {
            assert(items.drop_first()[i - 1] == items[i]);
            assert(forall|k: int|
                0 <= k < i - 1 ==> items.drop_first()[k] == items[k + 1]
                    && PhotoSize::decoded(items.drop_first()[k]) is Ok);
            PhotoSize::lemma_sp_dec_seq_err(items.drop_first(), i - 1);
        }
    }

    /// Elementwise success decodes the whole sequence.
    proof fn lemma_sp_dec_seq_ok(items: Seq<JsonV>, out: Seq<PhotoSize>)
        requires
            out.len() == items.len(),
            forall|k: int|
                0 <= k < items.len() ==> PhotoSize::decoded(items[k]) == Ok::<_, DecodeError>(
                    out[k]@,
                ),
        ensures
            PhotoSize::sp_dec_seq(items) == Ok::<_, DecodeError>(PhotoSize::seq_view(out)),
        decreases items.len(),
    {
        if items.len() == 0 {
            assert(PhotoSize::seq_view(out) =~= Seq::<PhotoSizeV>::empty());
        } else {
            assert(forall|k: int|
                0 <= k < items.drop_first().len() ==> items.drop_first()[k] == items[k + 1]
                    && PhotoSize::decoded(items.drop_first()[k]) == Ok::<_, DecodeError>(
                    out.drop_first()[k]@,
                ));
            PhotoSize::lemma_sp_dec_seq_ok(items.drop_first(), out.drop_first());
            assert(PhotoSize::seq_view(out) =~= seq![out[0]@] + PhotoSize::seq_view(
                out.drop_first(),
            ));
        }
    }

    /// Encode a sequence of photo sizes as an array.
    #[verifier::loop_isolation(false)]
    pub fn vec_to_json(v: &Vec<PhotoSize>) -> (r: Json)
        ensures
            r@ == JsonV::Arr(PhotoSize::sp_enc_seq(PhotoSize::seq_view(v@))),
    {
        let mut out: Vec<Json> = Vec::new();
        let mut i: usize = 0;
        while i < v.len()
            invariant
                i <= v@.len(),
                elems_view(out@) =~= PhotoSize::sp_enc_seq(PhotoSize::seq_view(v@)).subrange(
                    0,
                    i as int,
                ),
            decreases v@.len() - i,
        {
            let e = v[i].to_json();
            let ghost prev = out@;
            out.push(e);
            proof {
                lemma_elems_view_push(prev, e);
                assert(elems_view(out@) =~= PhotoSize::sp_enc_seq(PhotoSize::seq_view(
                    v@,
                )).subrange(0, i + 1));
            }
            i += 1;
        }
        proof {
            assert(elems_view(out@) =~= PhotoSize::sp_enc_seq(PhotoSize::seq_view(v@)));
        }
        Json::Arr(out)
    }
}

/// The model of a Telegram user or bot.
pub struct UserV {
    pub id: int,
    pub is_bot: bool,
    pub first_name: Seq<char>,
    pub last_name: Option<Seq<char>>,
    pub username: Option<Seq<char>>,
    pub language_code: Option<Seq<char>>,
}

/// A Telegram user or bot.
#[derive(Debug, Clone, PartialEq)]
pub struct User {
    pub id: UserId,
    pub is_bot: bool,
    pub first_name: String,
    pub last_name: Option<String>,
    pub username: Option<String>,
    pub language_code: Option<String>,
}

impl View for User {
    type V = UserV;

    open spec fn view(&self) -> UserV {
        UserV {
            id: self.id.0 as int,
            is_bot: self.is_bot,
            first_name: self.first_name@,
            last_name: match &self.last_name {
                None => None,
                Some(x) => Some(x@),
            },
            username: match &self.username {
                None => None,
                Some(x) => Some(x@),
            },
            language_code: match &self.language_code {
                None => None,
                Some(x) => Some(x@),
            },
        }
    }
}

impl User {
    /// The wire form.
    pub open spec fn encoded_v(v: UserV) -> JsonV {
        JsonV::Obj(
            seq![
                ("id"@, JsonV::Int(v.id)),
                ("is_bot"@, JsonV::Bool(v.is_bot)),
                ("first_name"@, JsonV::Str(v.first_name)),
                ("last_name"@, nullable(opt_str_v(v.last_name))),
                ("username"@, nullable(opt_str_v(v.username))),
                ("language_code"@, nullable(opt_str_v(v.language_code))),
            ],
        )
    }

    /// What the members of an object denote.
    pub open spec fn decoded_fields(es: Seq<(Seq<char>, JsonV)>) -> Result<
        UserV,
        DecodeError,
    > {
        if sp_req_i64(es, "id"@) is Err {
            Err(sp_req_i64(es, "id"@)->Err_0)
        } else if sp_req_bool(es, "is_bot"@) is Err {
            Err(sp_req_bool(es, "is_bot"@)->Err_0)
        } else if sp_req_str(es, "first_name"@) is Err {
            Err(sp_req_str(es, "first_name"@)->Err_0)
        } else if sp_opt_str(es, "last_name"@) is Err {
            Err(sp_opt_str(es, "last_name"@)->Err_0)
        } else if sp_opt_str(es, "username"@) is Err {
            Err(sp_opt_str(es, "username"@)->Err_0)
        } else if sp_opt_str(es, "language_code"@) is Err {
            Err(sp_opt_str(es, "language_code"@)->Err_0)
        } else {
            Ok(
                UserV {
                    id: sp_req_i64(es, "id"@)->Ok_0,
                    is_bot: sp_req_bool(es, "is_bot"@)->Ok_0,
                    first_name: sp_req_str(es, "first_name"@)->Ok_0,
                    last_name: sp_opt_str(es, "last_name"@)->Ok_0,
                    username: sp_opt_str(es, "username"@)->Ok_0,
                    language_code: sp_opt_str(es, "language_code"@)->Ok_0,
                },
            )
        }
    }

    /// What a document denotes.
    pub open spec fn decoded(j: JsonV) -> Result<UserV, DecodeError> {
        match j {
            JsonV::Obj(es) => User::decoded_fields(es),
            _ => Err(DecodeError::WrongType),
        }
    }

    /// Encode as an object.
    pub fn to_json(&self) -> (r: Json)
        ensures
            r@ == User::encoded_v(self@),
    {
        let j_last_name = match &self.last_name {
                    None => Json::Null,
                    Some(x) => Json::Str(x.clone()),
                };
        let j_username = match &self.username {
                    None => Json::Null,
                    Some(x) => Json::Str(x.clone()),
                };
        let j_language_code = match &self.language_code {
                    None => Json::Null,
                    Some(x) => Json::Str(x.clone()),
                };
        let out: Vec<(String, Json)> = vec![
            (String::from_str("id"), Json::Int(self.id.0)),
            (String::from_str("is_bot"), Json::Bool(self.is_bot)),
            (String::from_str("first_name"), Json::Str(self.first_name.clone())),
            (String::from_str("last_name"), j_last_name),
            (String::from_str("username"), j_username),
            (String::from_str("language_code"), j_language_code),
        ];
        proof {
            crate::json::lemma_entries_view_len(out@);
            crate::json::lemma_entries_view_index(out@, 0);
            crate::json::lemma_entries_view_index(out@, 1);
            crate::json::lemma_entries_view_index(out@, 2);
            crate::json::lemma_entries_view_index(out@, 3);
            crate::json::lemma_entries_view_index(out@, 4);
            crate::json::lemma_entries_view_index(out@, 5);
            assert(entries_view(out@) =~= User::encoded_v(self@)->Obj_0);
        }
        Json::Obj(out)
    }

    /// Decode from an object.
    pub fn from_json(j: &Json) -> (r: Result<User, DecodeError>)
        ensures
            match r {
                Ok(v) => User::decoded(j@) == Ok::<_, DecodeError>(v@),
                Err(e) => User::decoded(j@) == Err::<UserV, _>(e),
            },
    {
        match j {
            Json::Obj(entries) => {
                let id = match req_i64(entries, "id") {
                                    Err(e) => {
                                        return Err(e);
                                    },
                                    Ok(n) => UserId(n),
                                };
                let is_bot = match req_bool(entries, "is_bot") {
                                    Err(e) => {
                                        return Err(e);
                                    },
                                    Ok(b) => b,
                                };
                let first_name = match req_str(entries, "first_name") {
                                    Err(e) => {
                                        return Err(e);
                                    },
                                    Ok(s) => s,
                                };
                let last_name = match opt_str(entries, "last_name") {
                                    Err(e) => {
                                        return Err(e);
                                    },
                                    Ok(v) => v,
                                };
                let username = match opt_str(entries, "username") {
                                    Err(e) => {
                                        return Err(e);
                                    },
                                    Ok(v) => v,
                                };
                let language_code = match opt_str(entries, "language_code") {
                                    Err(e) => {
                                        return Err(e);
                                    },
                                    Ok(v) => v,
                                };
                Ok(User { id, is_bot, first_name, last_name, username, language_code })
            },
            _ => Err(DecodeError::WrongType),
        }
    }
}

impl User {
    /// What an optional member denotes.
    pub open spec fn sp_opt_field(es: Seq<(Seq<char>, JsonV)>, key: Seq<char>) -> Result<
        Option<UserV>,
        DecodeError,
    > {
        match lookup(es, key) {
            None => Ok(None),
            Some(JsonV::Null) => Ok(None),
            Some(j) => match User::decoded(j) {
                Err(e) => Err(e),
                Ok(v) => Ok(Some(v)),
            },
        }
    }

    /// Decode an optional member.
    pub fn opt_field(entries: &Vec<(String, Json)>, key: &str) -> (r: Result<
        Option<User>,
        DecodeError,
    >)
        ensures
            match r {
                Ok(None) => User::sp_opt_field(entries_view(entries@), key@) == Ok::<
                    Option<UserV>,
                    DecodeError,
                >(None),
                Ok(Some(v)) => User::sp_opt_field(entries_view(entries@), key@) == Ok::<
                    _,
                    DecodeError,
                >(Some(v@)),
                Err(e) => User::sp_opt_field(entries_view(entries@), key@) == Err::<
                    Option<UserV>,
                    _,
                >(e),
            },
    {
        match obj_get(entries, key) {
            None => Ok(None),
            Some(Json::Null) => Ok(None),
            Some(j) => match User::from_json(j) {
                Err(e) => Err(e),
                Ok(v) => Ok(Some(v)),
            },
        }
    }

    /// What a required member denotes.
    pub open spec fn sp_req_field(es: Seq<(Seq<char>, JsonV)>, key: Seq<char>) -> Result<
        UserV,
        DecodeError,
    > {
        match lookup(es, key) {
            None => Err(DecodeError::MissingField),
            Some(j) => User::decoded(j),
        }
    }

    /// Decode a required member.
    pub fn req_field(entries: &Vec<(String, Json)>, key: &str) -> (r: Result<
        User,
        DecodeError,
    >)
        ensures
            match r {
                Ok(v) => User::sp_req_field(entries_view(entries@), key@) == Ok::<
                    _,
                    DecodeError,
                >(v@),
                Err(e) => User::sp_req_field(entries_view(entries@), key@) == Err::<UserV, _>(e),
            },
    {
        match obj_get(entries, key) {
            None => Err(DecodeError::MissingField),
            Some(j) => User::from_json(j),
        }
    }
}

impl User {
    /// What a sequence of documents denotes.
    pub open spec fn sp_dec_seq(items: Seq<JsonV>) -> Result<Seq<UserV>, DecodeError>
        decreases items.len(),
    {
        if items.len() == 0 {
            Ok(Seq::empty())
        } else {
            match User::decoded(items[0]) {
                Err(e) => Err(e),
                Ok(h) => match User::sp_dec_seq(items.drop_first()) {
                    Err(e) => Err(e),
                    Ok(t) => Ok(seq![h] + t),
                },
            }
        }
    }

    /// The model of a sequence of values.
    pub open spec fn seq_view(s: Seq<User>) -> Seq<UserV> {
        Seq::new(s.len(), |i: int| s[i]@)
    }

    /// The wire form of a sequence of values.
    pub open spec fn sp_enc_seq(s: Seq<UserV>) -> Seq<JsonV> {
        Seq::new(s.len(), |i: int| User::encoded_v(s[i]))
    }

    /// What an array member that defaults to empty denotes.
    pub open spec fn sp_vec_field(es: Seq<(Seq<char>, JsonV)>, key: Seq<char>) -> Result<
        Seq<UserV>,
        DecodeError,
    > {
        match lookup(es, key) {
            None => Ok(Seq::empty()),
            Some(JsonV::Arr(items)) => User::sp_dec_seq(items),
            Some(_) => Err(DecodeError::WrongType),
        }
    }

    /// Decode an array member that defaults to empty.
    pub fn vec_field(entries: &Vec<(String, Json)>, key: &str) -> (r: Result<
        Vec<User>,
        DecodeError,
    >)
        ensures
            match r {
                Ok(v) => User::sp_vec_field(entries_view(entries@), key@) == Ok::<
                    _,
                    DecodeError,
                >(User::seq_view(v@)),
                Err(e) => User::sp_vec_field(entries_view(entries@), key@) == Err::<
                    Seq<UserV>,
                    _,
                >(e),
            },
    {
        match obj_get(entries, key) {
            None => {
                let empty: Vec<User> = Vec::new();
                proof {
                    assert(User::seq_view(empty@) =~= Seq::<UserV>::empty());
                }
                Ok(empty)
            },
            Some(Json::Arr(items)) => User::vec_from_json(items),
            Some(_) => Err(DecodeError::WrongType),
        }
    }

    /// Decode an array of values.
    #[verifier::loop_isolation(false)]
    pub fn vec_from_json(items: &Vec<Json>) -> (r: Result<Vec<User>, DecodeError>)
        ensures
            match r {
                Ok(v) => User::sp_dec_seq(elems_view(items@)) == Ok::<_, DecodeError>(
                    User::seq_view(v@),
                ),
                Err(e) => User::sp_dec_seq(elems_view(items@)) == Err::<Seq<UserV>, _>(
                    e,
                ),
            },
    {
        let ghost iv = elems_view(items@);
        proof {
            lemma_elems_view_len(items@);
        }
        let mut out: Vec<User> = Vec::new();
        let mut i: usize = 0;
        while i < items.len()
            invariant
                i <= items@.len(),
                out@.len() == i,
                forall|k: int|
                    0 <= k < i ==> User::decoded(iv[k]) == Ok::<_, DecodeError>(out@[k]@),
            decreases items@.len() - i,
        {
            proof {
                lemma_elems_view_index(items@, i as int);
            }
            match User::from_json(&items[i]) {
                Err(e) => {
                    proof {
                        User::lemma_sp_dec_seq_err(iv, i as int);
                    }
                    return Err(e);
                },
                Ok(v) => {
                    out.push(v);
                },
            }
            i += 1;
        }
        proof {
            User::lemma_sp_dec_seq_ok(iv, out@);
        }
        Ok(out)
    }

    /// A failing element fails the whole sequence with its error.
    proof fn lemma_sp_dec_seq_err(items: Seq<JsonV>, i: int)
        requires
            0 <= i < items.len(),
            User::decoded(items[i]) is Err,
            forall|k: int| 0 <= k < i ==> User::decoded(items[k]) is Ok,
        ensures
            User::sp_dec_seq(items) == Err::<Seq<UserV>, _>(
                User::decoded(items[i])->Err_0,
            ),
        decreases items.len(),
    {
        if i > 0 {
            assert(items.drop_first()[i - 1] == items[i]);
            assert(forall|k: int|
                0 <= k < i - 1 ==> items.drop_first()[k] == items[k + 1]
                    && User::decoded(items.drop_first()[k]) is Ok);
            User::lemma_sp_dec_seq_err(items.drop_first(), i - 1);
        }
    }

    /// Elementwise success decodes the whole sequence.
    proof fn lemma_sp_dec_seq_ok(items: Seq<JsonV>, out: Seq<User>)
        requires
            out.len() == items.len(),
            forall|k: int|
                0 <= k < items.len() ==> User::decoded(items[k]) == Ok::<_, DecodeError>(
                    out[k]@,
                ),
        ensures
            User::sp_dec_seq(items) == Ok::<_, DecodeError>(User::seq_view(out)),
        decreases items.len(),
    {
        if items.len() == 0 {
            assert(User::seq_view(out) =~= Seq::<UserV>::empty());
        } else {
            assert(forall|k: int|
                0 <= k < items.drop_first().len() ==> items.drop_first()[k] == items[k + 1]
                    && User::decoded(items.drop_first()[k]) == Ok::<_, DecodeError>(
                    out.drop_first()[k]@,
                ));
            User::lemma_sp_dec_seq_ok(items.drop_first(), out.drop_first());
            assert(User::seq_view(out) =~= seq![out[0]@] + User::seq_view(
                out.drop_first(),
            ));
        }
    }

    /// Encode a sequence of values as an array.
    #[verifier::loop_isolation(false)]
    pub fn vec_to_json(v: &Vec<User>) -> (r: Json)
        ensures
            r@ == JsonV::Arr(User::sp_enc_seq(User::seq_view(v@))),
    {
        let mut out: Vec<Json> = Vec::new();
        let mut i: usize = 0;
        while i < v.len()
            invariant
                i <= v@.len(),
                elems_view(out@) =~= User::sp_enc_seq(User::seq_view(v@)).subrange(
                    0,
                    i as int,
                ),
            decreases v@.len() - i,
        {
            let e = v[i].to_json();
            let ghost prev = out@;
            out.push(e);
            proof {
                lemma_elems_view_push(prev, e);
                assert(elems_view(out@) =~= User::sp_enc_seq(User::seq_view(
                    v@,
                )).subrange(0, i + 1));
            }
            i += 1;
        }
        proof {
            assert(elems_view(out@) =~= User::sp_enc_seq(User::seq_view(v@)));
        }
        Json::Arr(out)
    }
}

/// The model of a chat photo, by the file identifiers of its two sizes.
pub struct ChatPhotoV {
    pub small_file_id: Seq<char>,
    pub big_file_id: Seq<char>,
}

/// A chat photo, by the file identifiers of its two sizes.
#[derive(Debug, Clone, PartialEq)]
pub struct ChatPhoto {
    pub small_file_id: FileId,
    pub big_file_id: FileId,
}

impl View for ChatPhoto {
    type V = ChatPhotoV;

    open spec fn view(&self) -> ChatPhotoV {
        ChatPhotoV {
            small_file_id: self.small_file_id.0@,
            big_file_id: self.big_file_id.0@,
        }
    }
}

impl ChatPhoto {
    /// The wire form.
    pub open spec fn encoded_v(v: ChatPhotoV) -> JsonV {
        JsonV::Obj(
            seq![
                ("small_file_id"@, JsonV::Str(v.small_file_id)),
                ("big_file_id"@, JsonV::Str(v.big_file_id)),
            ],
        )
    }

    /// What the members of an object denote.
    pub open spec fn decoded_fields(es: Seq<(Seq<char>, JsonV)>) -> Result<
        ChatPhotoV,
        DecodeError,
    > {
        if sp_req_str(es, "small_file_id"@) is Err {
            Err(sp_req_str(es, "small_file_id"@)->Err_0)
        } else if sp_req_str(es, "big_file_id"@) is Err {
            Err(sp_req_str(es, "big_file_id"@)->Err_0)
        } else {
            Ok(
                ChatPhotoV {
                    small_file_id: sp_req_str(es, "small_file_id"@)->Ok_0,
                    big_file_id: sp_req_str(es, "big_file_id"@)->Ok_0,
                },
            )
        }
    }

    /// What a document denotes.
    pub open spec fn decoded(j: JsonV) -> Result<ChatPhotoV, DecodeError> {
        match j {
            JsonV::Obj(es) => ChatPhoto::decoded_fields(es),
            _ => Err(DecodeError::WrongType),
        }
    }

    /// Encode as an object.
    pub fn to_json(&self) -> (r: Json)
        ensures
            r@ == ChatPhoto::encoded_v(self@),
    {
        let out: Vec<(String, Json)> = vec![
            (String::from_str("small_file_id"), Json::Str(self.small_file_id.0.clone())),
            (String::from_str("big_file_id"), Json::Str(self.big_file_id.0.clone())),
        ];
        proof {
            crate::json::lemma_entries_view_len(out@);
            crate::json::lemma_entries_view_index(out@, 0);
            crate::json::lemma_entries_view_index(out@, 1);
            assert(entries_view(out@) =~= ChatPhoto::encoded_v(self@)->Obj_0);
        }
        Json::Obj(out)
    }

    /// Decode from an object.
    pub fn from_json(j: &Json) -> (r: Result<ChatPhoto, DecodeError>)
        ensures
            match r {
                Ok(v) => ChatPhoto::decoded(j@) == Ok::<_, DecodeError>(v@),
                Err(e) => ChatPhoto::decoded(j@) == Err::<ChatPhotoV, _>(e),
            },
    {
        match j {
            Json::Obj(entries) => {
                let small_file_id = match req_str(entries, "small_file_id") {
                                    Err(e) => {
                                        return Err(e);
                                    },
                                    Ok(s) => FileId(s),
                                };
                let big_file_id = match req_str(entries, "big_file_id") {
                                    Err(e) => {
                                        return Err(e);
                                    },
                                    Ok(s) => FileId(s),
                                };
                Ok(ChatPhoto { small_file_id, big_file_id })
            },
            _ => Err(DecodeError::WrongType),
        }
    }
}

impl ChatPhoto {
    /// What an optional member denotes.
    pub open spec fn sp_opt_field(es: Seq<(Seq<char>, JsonV)>, key: Seq<char>) -> Result<
        Option<ChatPhotoV>,
        DecodeError,
    > {
        match lookup(es, key) {
            None => Ok(None),
            Some(JsonV::Null) => Ok(None),
            Some(j) => match ChatPhoto::decoded(j) {
                Err(e) => Err(e),
                Ok(v) => Ok(Some(v)),
            },
        }
    }

    /// Decode an optional member.
    pub fn opt_field(entries: &Vec<(String, Json)>, key: &str) -> (r: Result<
        Option<ChatPhoto>,
        DecodeError,
    >)
        ensures
            match r {
                Ok(None) => ChatPhoto::sp_opt_field(entries_view(entries@), key@) == Ok::<
                    Option<ChatPhotoV>,
                    DecodeError,
                >(None),
                Ok(Some(v)) => ChatPhoto::sp_opt_field(entries_view(entries@), key@) == Ok::<
                    _,
                    DecodeError,
                >(Some(v@)),
                Err(e) => ChatPhoto::sp_opt_field(entries_view(entries@), key@) == Err::<
                    Option<ChatPhotoV>,
                    _,
                >(e),
            },
    {
        match obj_get(entries, key) {
            None => Ok(None),
            Some(Json::Null) => Ok(None),
            Some(j) => match ChatPhoto::from_json(j) {
                Err(e) => Err(e),
                Ok(v) => Ok(Some(v)),
            },
        }
    }
}

/// The model of a general file.
pub struct DocumentV {
    pub file_id: Seq<char>,
    pub thumb: Option<PhotoSizeV>,
    pub file_name: Option<Seq<char>>,
    pub mime_type: Option<Seq<char>>,
    pub file_size: Option<int>,
}

/// A general file.
#[derive(Debug, Clone, PartialEq)]
pub struct Document {
    pub file_id: FileId,
    pub thumb: Option<PhotoSize>,
    pub file_name: Option<String>,
    pub mime_type: Option<String>,
    pub file_size: Option<i32>,
}

impl View for Document {
    type V = DocumentV;

    open spec fn view(&self) -> DocumentV {
        DocumentV {
            file_id: self.file_id.0@,
            thumb: match &self.thumb {
                None => None,
                Some(x) => Some(x@),
            },
            file_name: match &self.file_name {
                None => None,
                Some(x) => Some(x@),
            },
            mime_type: match &self.mime_type {
                None => None,
                Some(x) => Some(x@),
            },
            file_size: match self.file_size {
                None => None,
                Some(n) => Some(n as int),
            },
        }
    }
}

impl Document {
    /// The wire form.
    pub open spec fn encoded_v(v: DocumentV) -> JsonV {
        JsonV::Obj(
            seq![
                ("file_id"@, JsonV::Str(v.file_id)),
                ("thumb"@, nullable(match v.thumb {
                    None => None,
                    Some(x) => Some(PhotoSize::encoded_v(x)),
                })),
                ("file_name"@, nullable(opt_str_v(v.file_name))),
                ("mime_type"@, nullable(opt_str_v(v.mime_type))),
                ("file_size"@, nullable(opt_int_v(v.file_size))),
            ],
        )
    }

    /// What the members of an object denote.
    pub open spec fn decoded_fields(es: Seq<(Seq<char>, JsonV)>) -> Result<
        DocumentV,
        DecodeError,
    > {
        if sp_req_str(es, "file_id"@) is Err {
            Err(sp_req_str(es, "file_id"@)->Err_0)
        } else if PhotoSize::sp_opt_field(es, "thumb"@) is Err {
            Err(PhotoSize::sp_opt_field(es, "thumb"@)->Err_0)
        } else if sp_opt_str(es, "file_name"@) is Err {
            Err(sp_opt_str(es, "file_name"@)->Err_0)
        } else if sp_opt_str(es, "mime_type"@) is Err {
            Err(sp_opt_str(es, "mime_type"@)->Err_0)
        } else if sp_opt_i32(es, "file_size"@) is Err {
            Err(sp_opt_i32(es, "file_size"@)->Err_0)
        } else {
            Ok(
                DocumentV {
                    file_id: sp_req_str(es, "file_id"@)->Ok_0,
                    thumb: PhotoSize::sp_opt_field(es, "thumb"@)->Ok_0,
                    file_name: sp_opt_str(es, "file_name"@)->Ok_0,
                    mime_type: sp_opt_str(es, "mime_type"@)->Ok_0,
                    file_size: sp_opt_i32(es, "file_size"@)->Ok_0,
                },
            )
        }
    }

    /// What a document denotes.
    pub open spec fn decoded(j: JsonV) -> Result<DocumentV, DecodeError> {
        match j {
            JsonV::Obj(es) => Document::decoded_fields(es),
            _ => Err(DecodeError::WrongType),
        }
    }

    /// Encode as an object.
    pub fn to_json(&self) -> (r: Json)
        ensures
            r@ == Document::encoded_v(self@),
    {
        let j_thumb = match &self.thumb {
                    None => Json::Null,
                    Some(x) => x.to_json(),
                };
        let j_file_name = match &self.file_name {
                    None => Json::Null,
                    Some(x) => Json::Str(x.clone()),
                };
        let j_mime_type = match &self.mime_type {
                    None => Json::Null,
                    Some(x) => Json::Str(x.clone()),
                };
        let j_file_size = match &self.file_size {
                    None => Json::Null,
                    Some(n) => Json::Int(*n as i64),
                };
        let out: Vec<(String, Json)> = vec![
            (String::from_str("file_id"), Json::Str(self.file_id.0.clone())),
            (String::from_str("thumb"), j_thumb),
            (String::from_str("file_name"), j_file_name),
            (String::from_str("mime_type"), j_mime_type),
            (String::from_str("file_size"), j_file_size),
        ];
        proof {
            crate::json::lemma_entries_view_len(out@);
            crate::json::lemma_entries_view_index(out@, 0);
            crate::json::lemma_entries_view_index(out@, 1);
            crate::json::lemma_entries_view_index(out@, 2);
            crate::json::lemma_entries_view_index(out@, 3);
            crate::json::lemma_entries_view_index(out@, 4);
            assert(entries_view(out@) =~= Document::encoded_v(self@)->Obj_0);
        }
        Json::Obj(out)
    }

    /// Decode from an object.
    pub fn from_json(j: &Json) -> (r: Result<Document, DecodeError>)
        ensures
            match r {
                Ok(v) => Document::decoded(j@) == Ok::<_, DecodeError>(v@),
                Err(e) => Document::decoded(j@) == Err::<DocumentV, _>(e),
            },
    {
        match j {
            Json::Obj(entries) => {
                let file_id = match req_str(entries, "file_id") {
                                    Err(e) => {
                                        return Err(e);
                                    },
                                    Ok(s) => FileId(s),
                                };
                let thumb = match PhotoSize::opt_field(entries, "thumb") {
                                    Err(e) => {
                                        return Err(e);
                                    },
                                    Ok(v) => v,
                                };
                let file_name = match opt_str(entries, "file_name") {
                                    Err(e) => {
                                        return Err(e);
                                    },
                                    Ok(v) => v,
                                };
                let mime_type = match opt_str(entries, "mime_type") {
                                    Err(e) => {
                                        return Err(e);
                                    },
                                    Ok(v) => v,
                                };
                let file_size = match opt_i32(entries, "file_size") {
                                    Err(e) => {
                                        return Err(e);
                                    },
                                    Ok(v) => v,
                                };
                Ok(Document { file_id, thumb, file_name, mime_type, file_size })
            },
            _ => Err(DecodeError::WrongType),
        }
    }
}

impl Document {
    /// What an optional member denotes.
    pub open spec fn sp_opt_field(es: Seq<(Seq<char>, JsonV)>, key: Seq<char>) -> Result<
        Option<DocumentV>,
        DecodeError,
    > {
        match lookup(es, key) {
            None => Ok(None),
            Some(JsonV::Null) => Ok(None),
            Some(j) => match Document::decoded(j) {
                Err(e) => Err(e),
                Ok(v) => Ok(Some(v)),
            },
        }
    }

    /// Decode an optional member.
    pub fn opt_field(entries: &Vec<(String, Json)>, key: &str) -> (r: Result<
        Option<Document>,
        DecodeError,
    >)
        ensures
            match r {
                Ok(None) => Document::sp_opt_field(entries_view(entries@), key@) == Ok::<
                    Option<DocumentV>,
                    DecodeError,
                >(None),
                Ok(Some(v)) => Document::sp_opt_field(entries_view(entries@), key@) == Ok::<
                    _,
                    DecodeError,
                >(Some(v@)),
                Err(e) => Document::sp_opt_field(entries_view(entries@), key@) == Err::<
                    Option<DocumentV>,
                    _,
                >(e),
            },
    {
        match obj_get(entries, key) {
            None => Ok(None),
            Some(Json::Null) => Ok(None),
            Some(j) => match Document::from_json(j) {
                Err(e) => Err(e),
                Ok(v) => Ok(Some(v)),
            },
        }
    }
}

/// The model of a video file.
pub struct VideoV {
    pub file_id: Seq<char>,
    pub width: int,
    pub height: int,
    pub duration: int,
    pub thumb: Option<PhotoSizeV>,
    pub mime_type: Option<Seq<char>>,
    pub file_size: Option<int>,
}

/// A video file.
#[derive(Debug, Clone, PartialEq)]
pub struct Video {
    pub file_id: FileId,
    pub width: i32,
    pub height: i32,
    pub duration: i32,
    pub thumb: Option<PhotoSize>,
    pub mime_type: Option<String>,
    pub file_size: Option<i32>,
}

impl View for Video {
    type V = VideoV;

    open spec fn view(&self) -> VideoV {
        VideoV {
            file_id: self.file_id.0@,
            width: self.width as int,
            height: self.height as int,
            duration: self.duration as int,
            thumb: match &self.thumb {
                None => None,
                Some(x) => Some(x@),
            },
            mime_type: match &self.mime_type {
                None => None,
                Some(x) => Some(x@),
            },
            file_size: match self.file_size {
                None => None,
                Some(n) => Some(n as int),
            },
        }
    }
}

impl Video {
    /// The wire form.
    pub open spec fn encoded_v(v: VideoV) -> JsonV {
        JsonV::Obj(
            seq![
                ("file_id"@, JsonV::Str(v.file_id)),
                ("width"@, JsonV::Int(v.width)),
                ("height"@, JsonV::Int(v.height)),
                ("duration"@, JsonV::Int(v.duration)),
                ("thumb"@, nullable(match v.thumb {
                    None => None,
                    Some(x) => Some(PhotoSize::encoded_v(x)),
                })),
                ("mime_type"@, nullable(opt_str_v(v.mime_type))),
                ("file_size"@, nullable(opt_int_v(v.file_size))),
            ],
        )
    }

    /// What the members of an object denote.
    pub open spec fn decoded_fields(es: Seq<(Seq<char>, JsonV)>) -> Result<
        VideoV,
        DecodeError,
    > {
        if sp_req_str(es, "file_id"@) is Err {
            Err(sp_req_str(es, "file_id"@)->Err_0)
        } else if sp_req_i32(es, "width"@) is Err {
            Err(sp_req_i32(es, "width"@)->Err_0)
        } else if sp_req_i32(es, "height"@) is Err {
            Err(sp_req_i32(es, "height"@)->Err_0)
        } else if sp_req_i32(es, "duration"@) is Err {
            Err(sp_req_i32(es, "duration"@)->Err_0)
        } else if PhotoSize::sp_opt_field(es, "thumb"@) is Err {
            Err(PhotoSize::sp_opt_field(es, "thumb"@)->Err_0)
        } else if sp_opt_str(es, "mime_type"@) is Err {
            Err(sp_opt_str(es, "mime_type"@)->Err_0)
        } else if sp_opt_i32(es, "file_size"@) is Err {
            Err(sp_opt_i32(es, "file_size"@)->Err_0)
        } else {
            Ok(
                VideoV {
                    file_id: sp_req_str(es, "file_id"@)->Ok_0,
                    width: sp_req_i32(es, "width"@)->Ok_0,
                    height: sp_req_i32(es, "height"@)->Ok_0,
                    duration: sp_req_i32(es, "duration"@)->Ok_0,
                    thumb: PhotoSize::sp_opt_field(es, "thumb"@)->Ok_0,
                    mime_type: sp_opt_str(es, "mime_type"@)->Ok_0,
                    file_size: sp_opt_i32(es, "file_size"@)->Ok_0,
                },
            )
        }
    }

    /// What a document denotes.
    pub open spec fn decoded(j: JsonV) -> Result<VideoV, DecodeError> {
        match j {
            JsonV::Obj(es) => Video::decoded_fields(es),
            _ => Err(DecodeError::WrongType),
        }
    }

    /// Encode as an object.
    pub fn to_json(&self) -> (r: Json)
        ensures
            r@ == Video::encoded_v(self@),
    {
        let j_thumb = match &self.thumb {
                    None => Json::Null,
                    Some(x) => x.to_json(),
                };
        let j_mime_type = match &self.mime_type {
                    None => Json::Null,
                    Some(x) => Json::Str(x.clone()),
                };
        let j_file_size = match &self.file_size {
                    None => Json::Null,
                    Some(n) => Json::Int(*n as i64),
                };
        let out: Vec<(String, Json)> = vec![
            (String::from_str("file_id"), Json::Str(self.file_id.0.clone())),
            (String::from_str("width"), Json::Int(self.width as i64)),
            (String::from_str("height"), Json::Int(self.height as i64)),
            (String::from_str("duration"), Json::Int(self.duration as i64)),
            (String::from_str("thumb"), j_thumb),
            (String::from_str("mime_type"), j_mime_type),
            (String::from_str("file_size"), j_file_size),
        ];
        proof {
            crate::json::lemma_entries_view_len(out@);
            crate::json::lemma_entries_view_index(out@, 0);
            crate::json::lemma_entries_view_index(out@, 1);
            crate::json::lemma_entries_view_index(out@, 2);
            crate::json::lemma_entries_view_index(out@, 3);
            crate::json::lemma_entries_view_index(out@, 4);
            crate::json::lemma_entries_view_index(out@, 5);
            crate::json::lemma_entries_view_index(out@, 6);
            assert(entries_view(out@) =~= Video::encoded_v(self@)->Obj_0);
        }
        Json::Obj(out)
    }

    /// Decode from an object.
    pub fn from_json(j: &Json) -> (r: Result<Video, DecodeError>)
        ensures
            match r {
                Ok(v) => Video::decoded(j@) == Ok::<_, DecodeError>(v@),
                Err(e) => Video::decoded(j@) == Err::<VideoV, _>(e),
            },
    {
        match j {
            Json::Obj(entries) => {
                let file_id = match req_str(entries, "file_id") {
                                    Err(e) => {
                                        return Err(e);
                                    },
                                    Ok(s) => FileId(s),
                                };
                let width = match req_i32(entries, "width") {
                                    Err(e) => {
                                        return Err(e);
                                    },
                                    Ok(n) => n,
                                };
                let height = match req_i32(entries, "height") {
                                    Err(e) => {
                                        return Err(e);
                                    },
                                    Ok(n) => n,
                                };
                let duration = match req_i32(entries, "duration") {
                                    Err(e) => {
                                        return Err(e);
                                    },
                                    Ok(n) => n,
                                };
                let thumb = match PhotoSize::opt_field(entries, "thumb") {
                                    Err(e) => {
                                        return Err(e);
                                    },
                                    Ok(v) => v,
                                };
                let mime_type = match opt_str(entries, "mime_type") {
                                    Err(e) => {
                                        return Err(e);
                                    },
                                    Ok(v) => v,
                                };
                let file_size = match opt_i32(entries, "file_size") {
                                    Err(e) => {
                                        return Err(e);
                                    },
                                    Ok(v) => v,
                                };
                Ok(Video { file_id, width, height, duration, thumb, mime_type, file_size })
            },
            _ => Err(DecodeError::WrongType),
        }
    }
}

impl Video {
    /// What an optional member denotes.
    pub open spec fn sp_opt_field(es: Seq<(Seq<char>, JsonV)>, key: Seq<char>) -> Result<
        Option<VideoV>,
        DecodeError,
    > {
        match lookup(es, key) {
            None => Ok(None),
            Some(JsonV::Null) => Ok(None),
            Some(j) => match Video::decoded(j) {
                Err(e) => Err(e),
                Ok(v) => Ok(Some(v)),
            },
        }
    }

    /// Decode an optional member.
    pub fn opt_field(entries: &Vec<(String, Json)>, key: &str) -> (r: Result<
        Option<Video>,
        DecodeError,
    >)
        ensures
            match r {
                Ok(None) => Video::sp_opt_field(entries_view(entries@), key@) == Ok::<
                    Option<VideoV>,
                    DecodeError,
                >(None),
                Ok(Some(v)) => Video::sp_opt_field(entries_view(entries@), key@) == Ok::<
                    _,
                    DecodeError,
                >(Some(v@)),
                Err(e) => Video::sp_opt_field(entries_view(entries@), key@) == Err::<
                    Option<VideoV>,
                    _,
                >(e),
            },
    {
        match obj_get(entries, key) {
            None => Ok(None),
            Some(Json::Null) => Ok(None),
            Some(j) => match Video::from_json(j) {
                Err(e) => Err(e),
                Ok(v) => Ok(Some(v)),
            },
        }
    }
}

/// The model of an animation file (GIF or silent video).
pub struct AnimationV {
    pub file_id: Seq<char>,
    pub width: int,
    pub height: int,
    pub duration: int,
    pub thumb: Option<PhotoSizeV>,
    pub file_name: Option<Seq<char>>,
    pub mime_type: Option<Seq<char>>,
    pub file_size: Option<int>,
}

/// An animation file (GIF or silent video).
#[derive(Debug, Clone, PartialEq)]
pub struct Animation {
    pub file_id: FileId,
    pub width: i32,
    pub height: i32,
    pub duration: i32,
    pub thumb: Option<PhotoSize>,
    pub file_name: Option<String>,
    pub mime_type: Option<String>,
    pub file_size: Option<i32>,
}

impl View for Animation {
    type V = AnimationV;

    open spec fn view(&self) -> AnimationV {
        AnimationV {
            file_id: self.file_id.0@,
            width: self.width as int,
            height: self.height as int,
            duration: self.duration as int,
            thumb: match &self.thumb {
                None => None,
                Some(x) => Some(x@),
            },
            file_name: match &self.file_name {
                None => None,
                Some(x) => Some(x@),
            },
            mime_type: match &self.mime_type {
                None => None,
                Some(x) => Some(x@),
            },
            file_size: match self.file_size {
                None => None,
                Some(n) => Some(n as int),
            },
        }
    }
}

impl Animation {
    /// The wire form.
    pub open spec fn encoded_v(v: AnimationV) -> JsonV {
        JsonV::Obj(
            seq![
                ("file_id"@, JsonV::Str(v.file_id)),
                ("width"@, JsonV::Int(v.width)),
                ("height"@, JsonV::Int(v.height)),
                ("duration"@, JsonV::Int(v.duration)),
                ("thumb"@, nullable(match v.thumb {
                    None => None,
                    Some(x) => Some(PhotoSize::encoded_v(x)),
                })),
                ("file_name"@, nullable(opt_str_v(v.file_name))),
                ("mime_type"@, nullable(opt_str_v(v.mime_type))),
                ("file_size"@, nullable(opt_int_v(v.file_size))),
            ],
        )
    }

    /// What the members of an object denote.
    pub open spec fn decoded_fields(es: Seq<(Seq<char>, JsonV)>) -> Result<
        AnimationV,
        DecodeError,
    > {
        if sp_req_str(es, "file_id"@) is Err {
            Err(sp_req_str(es, "file_id"@)->Err_0)
        } else if sp_req_i32(es, "width"@) is Err {
            Err(sp_req_i32(es, "width"@)->Err_0)
        } else if sp_req_i32(es, "height"@) is Err {
            Err(sp_req_i32(es, "height"@)->Err_0)
        } else if sp_req_i32(es, "duration"@) is Err {
            Err(sp_req_i32(es, "duration"@)->Err_0)
        } else if PhotoSize::sp_opt_field(es, "thumb"@) is Err {
            Err(PhotoSize::sp_opt_field(es, "thumb"@)->Err_0)
        } else if sp_opt_str(es, "file_name"@) is Err {
            Err(sp_opt_str(es, "file_name"@)->Err_0)
        } else if sp_opt_str(es, "mime_type"@) is Err {
            Err(sp_opt_str(es, "mime_type"@)->Err_0)
        } else if sp_opt_i32(es, "file_size"@) is Err {
            Err(sp_opt_i32(es, "file_size"@)->Err_0)
        } else {
            Ok(
                AnimationV {
                    file_id: sp_req_str(es, "file_id"@)->Ok_0,
                    width: sp_req_i32(es, "width"@)->Ok_0,
                    height: sp_req_i32(es, "height"@)->Ok_0,
                    duration: sp_req_i32(es, "duration"@)->Ok_0,
                    thumb: PhotoSize::sp_opt_field(es, "thumb"@)->Ok_0,
                    file_name: sp_opt_str(es, "file_name"@)->Ok_0,
                    mime_type: sp_opt_str(es, "mime_type"@)->Ok_0,
                    file_size: sp_opt_i32(es, "file_size"@)->Ok_0,
                },
            )
        }
    }

    /// What a document denotes.
    pub open spec fn decoded(j: JsonV) -> Result<AnimationV, DecodeError> {
        match j {
            JsonV::Obj(es) => Animation::decoded_fields(es),
            _ => Err(DecodeError::WrongType),
        }
    }

    /// Encode as an object.
    pub fn to_json(&self) -> (r: Json)
        ensures
            r@ == Animation::encoded_v(self@),
    {
        let j_thumb = match &self.thumb {
                    None => Json::Null,
                    Some(x) => x.to_json(),
                };
        let j_file_name = match &self.file_name {
                    None => Json::Null,
                    Some(x) => Json::Str(x.clone()),
                };
        let j_mime_type = match &self.mime_type {
                    None => Json::Null,
                    Some(x) => Json::Str(x.clone()),
                };
        let j_file_size = match &self.file_size {
                    None => Json::Null,
                    Some(n) => Json::Int(*n as i64),
                };
        let out: Vec<(String, Json)> = vec![
            (String::from_str("file_id"), Json::Str(self.file_id.0.clone())),
            (String::from_str("width"), Json::Int(self.width as i64)),
            (String::from_str("height"), Json::Int(self.height as i64)),
            (String::from_str("duration"), Json::Int(self.duration as i64)),
            (String::from_str("thumb"), j_thumb),
            (String::from_str("file_name"), j_file_name),
            (String::from_str("mime_type"), j_mime_type),
            (String::from_str("file_size"), j_file_size),
        ];
        proof {
            crate::json::lemma_entries_view_len(out@);
            crate::json::lemma_entries_view_index(out@, 0);
            crate::json::lemma_entries_view_index(out@, 1);
            crate::json::lemma_entries_view_index(out@, 2);
            crate::json::lemma_entries_view_index(out@, 3);
            crate::json::lemma_entries_view_index(out@, 4);
            crate::json::lemma_entries_view_index(out@, 5);
            crate::json::lemma_entries_view_index(out@, 6);
            crate::json::lemma_entries_view_index(out@, 7);
            assert(entries_view(out@) =~= Animation::encoded_v(self@)->Obj_0);
        }
        Json::Obj(out)
    }

    /// Decode from an object.
    pub fn from_json(j: &Json) -> (r: Result<Animation, DecodeError>)
        ensures
            match r {
                Ok(v) => Animation::decoded(j@) == Ok::<_, DecodeError>(v@),
                Err(e) => Animation::decoded(j@) == Err::<AnimationV, _>(e),
            },
    {
        match j {
            Json::Obj(entries) => {
                let file_id = match req_str(entries, "file_id") {
                                    Err(e) => {
                                        return Err(e);
                                    },
                                    Ok(s) => FileId(s),
                                };
                let width = match req_i32(entries, "width") {
                                    Err(e) => {
                                        return Err(e);
                                    },
                                    Ok(n) => n,
                                };
                let height = match req_i32(entries, "height") {
                                    Err(e) => {
                                        return Err(e);
                                    },
                                    Ok(n) => n,
                                };
                let duration = match req_i32(entries, "duration") {
                                    Err(e) => {
                                        return Err(e);
                                    },
                                    Ok(n) => n,
                                };
                let thumb = match PhotoSize::opt_field(entries, "thumb") {
                                    Err(e) => {
                                        return Err(e);
                                    },
                                    Ok(v) => v,
                                };
                let file_name = match opt_str(entries, "file_name") {
                                    Err(e) => {
                                        return Err(e);
                                    },
                                    Ok(v) => v,
                                };
                let mime_type = match opt_str(entries, "mime_type") {
                                    Err(e) => {
                                        return Err(e);
                                    },
                                    Ok(v) => v,
                                };
                let file_size = match opt_i32(entries, "file_size") {
                                    Err(e) => {
                                        return Err(e);
                                    },
                                    Ok(v) => v,
                                };
                Ok(Animation { file_id, width, height, duration, thumb, file_name, mime_type, file_size })
            },
            _ => Err(DecodeError::WrongType),
        }
    }
}

impl Animation {
    /// What an optional member denotes.
    pub open spec fn sp_opt_field(es: Seq<(Seq<char>, JsonV)>, key: Seq<char>) -> Result<
        Option<AnimationV>,
        DecodeError,
    > {
        match lookup(es, key) {
            None => Ok(None),
            Some(JsonV::Null) => Ok(None),
            Some(j) => match Animation::decoded(j) {
                Err(e) => Err(e),
                Ok(v) => Ok(Some(v)),
            },
        }
    }

    /// Decode an optional member.
    pub fn opt_field(entries: &Vec<(String, Json)>, key: &str) -> (r: Result<
        Option<Animation>,
        DecodeError,
    >)
        ensures
            match r {
                Ok(None) => Animation::sp_opt_field(entries_view(entries@), key@) == Ok::<
                    Option<AnimationV>,
                    DecodeError,
                >(None),
                Ok(Some(v)) => Animation::sp_opt_field(entries_view(entries@), key@) == Ok::<
                    _,
                    DecodeError,
                >(Some(v@)),
                Err(e) => Animation::sp_opt_field(entries_view(entries@), key@) == Err::<
                    Option<AnimationV>,
                    _,
                >(e),
            },
    {
        match obj_get(entries, key) {
            None => Ok(None),
            Some(Json::Null) => Ok(None),
            Some(j) => match Animation::from_json(j) {
                Err(e) => Err(e),
                Ok(v) => Ok(Some(v)),
            },
        }
    }
}

/// The model of an audio file to be treated as music.
pub struct AudioV {
    pub file_id: Seq<char>,
    pub duration: int,
    pub performer: Option<Seq<char>>,
    pub title: Option<Seq<char>>,
    pub mime_type: Option<Seq<char>>,
    pub file_size: Option<int>,
    pub thumb: Option<PhotoSizeV>,
}

/// An audio file to be treated as music.
#[derive(Debug, Clone, PartialEq)]
pub struct Audio {
    pub file_id: FileId,
    pub duration: i32,
    pub performer: Option<String>,
    pub title: Option<String>,
    pub mime_type: Option<String>,
    pub file_size: Option<i32>,
    pub thumb: Option<PhotoSize>,
}

impl View for Audio {
    type V = AudioV;

    open spec fn view(&self) -> AudioV {
        AudioV {
            file_id: self.file_id.0@,
            duration: self.duration as int,
            performer: match &self.performer {
                None => None,
                Some(x) => Some(x@),
            },
            title: match &self.title {
                None => None,
                Some(x) => Some(x@),
            },
            mime_type: match &self.mime_type {
                None => None,
                Some(x) => Some(x@),
            },
            file_size: match self.file_size {
                None => None,
                Some(n) => Some(n as int),
            },
            thumb: match &self.thumb {
                None => None,
                Some(x) => Some(x@),
            },
        }
    }
}

impl Audio {
    /// The wire form.
    pub open spec fn encoded_v(v: AudioV) -> JsonV {
        JsonV::Obj(
            seq![
                ("file_id"@, JsonV::Str(v.file_id)),
                ("duration"@, JsonV::Int(v.duration)),
                ("performer"@, nullable(opt_str_v(v.performer))),
                ("title"@, nullable(opt_str_v(v.title))),
                ("mime_type"@, nullable(opt_str_v(v.mime_type))),
                ("file_size"@, nullable(opt_int_v(v.file_size))),
                ("thumb"@, nullable(match v.thumb {
                    None => None,
                    Some(x) => Some(PhotoSize::encoded_v(x)),
                })),
            ],
        )
    }

    /// What the members of an object denote.
    pub open spec fn decoded_fields(es: Seq<(Seq<char>, JsonV)>) -> Result<
        AudioV,
        DecodeError,
    > {
        if sp_req_str(es, "file_id"@) is Err {
            Err(sp_req_str(es, "file_id"@)->Err_0)
        } else if sp_req_i32(es, "duration"@) is Err {
            Err(sp_req_i32(es, "duration"@)->Err_0)
        } else if sp_opt_str(es, "performer"@) is Err {
            Err(sp_opt_str(es, "performer"@)->Err_0)
        } else if sp_opt_str(es, "title"@) is Err {
            Err(sp_opt_str(es, "title"@)->Err_0)
        } else if sp_opt_str(es, "mime_type"@) is Err {
            Err(sp_opt_str(es, "mime_type"@)->Err_0)
        } else if sp_opt_i32(es, "file_size"@) is Err {
            Err(sp_opt_i32(es, "file_size"@)->Err_0)
        } else if PhotoSize::sp_opt_field(es, "thumb"@) is Err {
            Err(PhotoSize::sp_opt_field(es, "thumb"@)->Err_0)
        } else {
            Ok(
                AudioV {
                    file_id: sp_req_str(es, "file_id"@)->Ok_0,
                    duration: sp_req_i32(es, "duration"@)->Ok_0,
                    performer: sp_opt_str(es, "performer"@)->Ok_0,
                    title: sp_opt_str(es, "title"@)->Ok_0,
                    mime_type: sp_opt_str(es, "mime_type"@)->Ok_0,
                    file_size: sp_opt_i32(es, "file_size"@)->Ok_0,
                    thumb: PhotoSize::sp_opt_field(es, "thumb"@)->Ok_0,
                },
            )
        }
    }

    /// What a document denotes.
    pub open spec fn decoded(j: JsonV) -> Result<AudioV, DecodeError> {
        match j {
            JsonV::Obj(es) => Audio::decoded_fields(es),
            _ => Err(DecodeError::WrongType),
        }
    }

    /// Encode as an object.
    pub fn to_json(&self) -> (r: Json)
        ensures
            r@ == Audio::encoded_v(self@),
    {
        let j_performer = match &self.performer {
                    None => Json::Null,
                    Some(x) => Json::Str(x.clone()),
                };
        let j_title = match &self.title {
                    None => Json::Null,
                    Some(x) => Json::Str(x.clone()),
                };
        let j_mime_type = match &self.mime_type {
                    None => Json::Null,
                    Some(x) => Json::Str(x.clone()),
                };
        let j_file_size = match &self.file_size {
                    None => Json::Null,
                    Some(n) => Json::Int(*n as i64),
                };
        let j_thumb = match &self.thumb {
                    None => Json::Null,
                    Some(x) => x.to_json(),
                };
        let out: Vec<(String, Json)> = vec![
            (String::from_str("file_id"), Json::Str(self.file_id.0.clone())),
            (String::from_str("duration"), Json::Int(self.duration as i64)),
            (String::from_str("performer"), j_performer),
            (String::from_str("title"), j_title),
            (String::from_str("mime_type"), j_mime_type),
            (String::from_str("file_size"), j_file_size),
            (String::from_str("thumb"), j_thumb),
        ];
        proof {
            crate::json::lemma_entries_view_len(out@);
            crate::json::lemma_entries_view_index(out@, 0);
            crate::json::lemma_entries_view_index(out@, 1);
            crate::json::lemma_entries_view_index(out@, 2);
            crate::json::lemma_entries_view_index(out@, 3);
            crate::json::lemma_entries_view_index(out@, 4);
            crate::json::lemma_entries_view_index(out@, 5);
            crate::json::lemma_entries_view_index(out@, 6);
            assert(entries_view(out@) =~= Audio::encoded_v(self@)->Obj_0);
        }
        Json::Obj(out)
    }

    /// Decode from an object.
    pub fn from_json(j: &Json) -> (r: Result<Audio, DecodeError>)
        ensures
            match r {
                Ok(v) => Audio::decoded(j@) == Ok::<_, DecodeError>(v@),
                Err(e) => Audio::decoded(j@) == Err::<AudioV, _>(e),
            },
    {
        match j {
            Json::Obj(entries) => {
                let file_id = match req_str(entries, "file_id") {
                                    Err(e) => {
                                        return Err(e);
                                    },
                                    Ok(s) => FileId(s),
                                };
                let duration = match req_i32(entries, "duration") {
                                    Err(e) => {
                                        return Err(e);
                                    },
                                    Ok(n) => n,
                                };
                let performer = match opt_str(entries, "performer") {
                                    Err(e) => {
                                        return Err(e);
                                    },
                                    Ok(v) => v,
                                };
                let title = match opt_str(entries, "title") {
                                    Err(e) => {
                                        return Err(e);
                                    },
                                    Ok(v) => v,
                                };
                let mime_type = match opt_str(entries, "mime_type") {
                                    Err(e) => {
                                        return Err(e);
                                    },
                                    Ok(v) => v,
                                };
                let file_size = match opt_i32(entries, "file_size") {
                                    Err(e) => {
                                        return Err(e);
                                    },
                                    Ok(v) => v,
                                };
                let thumb = match PhotoSize::opt_field(entries, "thumb") {
                                    Err(e) => {
                                        return Err(e);
                                    },
                                    Ok(v) => v,
                                };
                Ok(Audio { file_id, duration, performer, title, mime_type, file_size, thumb })
            },
            _ => Err(DecodeError::WrongType),
        }
    }
}

impl Audio {
    /// What an optional member denotes.
    pub open spec fn sp_opt_field(es: Seq<(Seq<char>, JsonV)>, key: Seq<char>) -> Result<
        Option<AudioV>,
        DecodeError,
    > {
        match lookup(es, key) {
            None => Ok(None),
            Some(JsonV::Null) => Ok(None),
            Some(j) => match Audio::decoded(j) {
                Err(e) => Err(e),
                Ok(v) => Ok(Some(v)),
            },
        }
    }

    /// Decode an optional member.
    pub fn opt_field(entries: &Vec<(String, Json)>, key: &str) -> (r: Result<
        Option<Audio>,
        DecodeError,
    >)
        ensures
            match r {
                Ok(None) => Audio::sp_opt_field(entries_view(entries@), key@) == Ok::<
                    Option<AudioV>,
                    DecodeError,
                >(None),
                Ok(Some(v)) => Audio::sp_opt_field(entries_view(entries@), key@) == Ok::<
                    _,
                    DecodeError,
                >(Some(v@)),
                Err(e) => Audio::sp_opt_field(entries_view(entries@), key@) == Err::<
                    Option<AudioV>,
                    _,
                >(e),
            },
    {
        match obj_get(entries, key) {
            None => Ok(None),
            Some(Json::Null) => Ok(None),
            Some(j) => match Audio::from_json(j) {
                Err(e) => Err(e),
                Ok(v) => Ok(Some(v)),
            },
        }
    }
}

/// The model of a voice note.
pub struct VoiceV {
    pub file_id: Seq<char>,
    pub duration: int,
    pub mime_type: Option<Seq<char>>,
    pub file_size: Option<int>,
}

/// A voice note.
#[derive(Debug, Clone, PartialEq)]
pub struct Voice {
    pub file_id: FileId,
    pub duration: i32,
    pub mime_type: Option<String>,
    pub file_size: Option<i32>,
}

impl View for Voice {
    type V = VoiceV;

    open spec fn view(&self) -> VoiceV {
        VoiceV {
            file_id: self.file_id.0@,
            duration: self.duration as int,
            mime_type: match &self.mime_type {
                None => None,
                Some(x) => Some(x@),
            },
            file_size: match self.file_size {
                None => None,
                Some(n) => Some(n as int),
            },
        }
    }
}

impl Voice {
    /// The wire form.
    pub open spec fn encoded_v(v: VoiceV) -> JsonV {
        JsonV::Obj(
            seq![
                ("file_id"@, JsonV::Str(v.file_id)),
                ("duration"@, JsonV::Int(v.duration)),
                ("mime_type"@, nullable(opt_str_v(v.mime_type))),
                ("file_size"@, nullable(opt_int_v(v.file_size))),
            ],
        )
    }

    /// What the members of an object denote.
    pub open spec fn decoded_fields(es: Seq<(Seq<char>, JsonV)>) -> Result<
        VoiceV,
        DecodeError,
    > {
        if sp_req_str(es, "file_id"@) is Err {
            Err(sp_req_str(es, "file_id"@)->Err_0)
        } else if sp_req_i32(es, "duration"@) is Err {
            Err(sp_req_i32(es, "duration"@)->Err_0)
        } else if sp_opt_str(es, "mime_type"@) is Err {
            Err(sp_opt_str(es, "mime_type"@)->Err_0)
        } else if sp_opt_i32(es, "file_size"@) is Err {
            Err(sp_opt_i32(es, "file_size"@)->Err_0)
        } else {
            Ok(
                VoiceV {
                    file_id: sp_req_str(es, "file_id"@)->Ok_0,
                    duration: sp_req_i32(es, "duration"@)->Ok_0,
                    mime_type: sp_opt_str(es, "mime_type"@)->Ok_0,
                    file_size: sp_opt_i32(es, "file_size"@)->Ok_0,
                },
            )
        }
    }

    /// What a document denotes.
    pub open spec fn decoded(j: JsonV) -> Result<VoiceV, DecodeError> {
        match j {
            JsonV::Obj(es) => Voice::decoded_fields(es),
            _ => Err(DecodeError::WrongType),
        }
    }

    /// Encode as an object.
    pub fn to_json(&self) -> (r: Json)
        ensures
            r@ == Voice::encoded_v(self@),
    {
        let j_mime_type = match &self.mime_type {
                    None => Json::Null,
                    Some(x) => Json::Str(x.clone()),
                };
        let j_file_size = match &self.file_size {
                    None => Json::Null,
                    Some(n) => Json::Int(*n as i64),
                };
        let out: Vec<(String, Json)> = vec![
            (String::from_str("file_id"), Json::Str(self.file_id.0.clone())),
            (String::from_str("duration"), Json::Int(self.duration as i64)),
            (String::from_str("mime_type"), j_mime_type),
            (String::from_str("file_size"), j_file_size),
        ];
        proof {
            crate::json::lemma_entries_view_len(out@);
            crate::json::lemma_entries_view_index(out@, 0);
            crate::json::lemma_entries_view_index(out@, 1);
            crate::json::lemma_entries_view_index(out@, 2);
            crate::json::lemma_entries_view_index(out@, 3);
            assert(entries_view(out@) =~= Voice::encoded_v(self@)->Obj_0);
        }
        Json::Obj(out)
    }

    /// Decode from an object.
    pub fn from_json(j: &Json) -> (r: Result<Voice, DecodeError>)
        ensures
            match r {
                Ok(v) => Voice::decoded(j@) == Ok::<_, DecodeError>(v@),
                Err(e) => Voice::decoded(j@) == Err::<VoiceV, _>(e),
            },
    {
        match j {
            Json::Obj(entries) => {
                let file_id = match req_str(entries, "file_id") {
                                    Err(e) => {
                                        return Err(e);
                                    },
                                    Ok(s) => FileId(s),
                                };
                let duration = match req_i32(entries, "duration") {
                                    Err(e) => {
                                        return Err(e);
                                    },
                                    Ok(n) => n,
                                };
                let mime_type = match opt_str(entries, "mime_type") {
                                    Err(e) => {
                                        return Err(e);
                                    },
                                    Ok(v) => v,
                                };
                let file_size = match opt_i32(entries, "file_size") {
                                    Err(e) => {
                                        return Err(e);
                                    },
                                    Ok(v) => v,
                                };
                Ok(Voice { file_id, duration, mime_type, file_size })
            },
            _ => Err(DecodeError::WrongType),
        }
    }
}

impl Voice {
    /// What an optional member denotes.
    pub open spec fn sp_opt_field(es: Seq<(Seq<char>, JsonV)>, key: Seq<char>) -> Result<
        Option<VoiceV>,
        DecodeError,
    > {
        match lookup(es, key) {
            None => Ok(None),
            Some(JsonV::Null) => Ok(None),
            Some(j) => match Voice::decoded(j) {
                Err(e) => Err(e),
                Ok(v) => Ok(Some(v)),
            },
        }
    }

    /// Decode an optional member.
    pub fn opt_field(entries: &Vec<(String, Json)>, key: &str) -> (r: Result<
        Option<Voice>,
        DecodeError,
    >)
        ensures
            match r {
                Ok(None) => Voice::sp_opt_field(entries_view(entries@), key@) == Ok::<
                    Option<VoiceV>,
                    DecodeError,
                >(None),
                Ok(Some(v)) => Voice::sp_opt_field(entries_view(entries@), key@) == Ok::<
                    _,
                    DecodeError,
                >(Some(v@)),
                Err(e) => Voice::sp_opt_field(entries_view(entries@), key@) == Err::<
                    Option<VoiceV>,
                    _,
                >(e),
            },
    {
        match obj_get(entries, key) {
            None => Ok(None),
            Some(Json::Null) => Ok(None),
            Some(j) => match Voice::from_json(j) {
                Err(e) => Err(e),
                Ok(v) => Ok(Some(v)),
            },
        }
    }
}

/// The model of a video message.
pub struct VideoNoteV {
    pub file_id: Seq<char>,
    pub length: int,
    pub duration: int,
    pub thumb: Option<PhotoSizeV>,
    pub file_size: Option<int>,
}

/// A video message.
#[derive(Debug, Clone, PartialEq)]
pub struct VideoNote {
    pub file_id: FileId,
    pub length: i32,
    pub duration: i32,
    pub thumb: Option<PhotoSize>,
    pub file_size: Option<i32>,
}

impl View for VideoNote {
    type V = VideoNoteV;

    open spec fn view(&self) -> VideoNoteV {
        VideoNoteV {
            file_id: self.file_id.0@,
            length: self.length as int,
            duration: self.duration as int,
            thumb: match &self.thumb {
                None => None,
                Some(x) => Some(x@),
            },
            file_size: match self.file_size {
                None => None,
                Some(n) => Some(n as int),
            },
        }
    }
}

impl VideoNote {
    /// The wire form.
    pub open spec fn encoded_v(v: VideoNoteV) -> JsonV {
        JsonV::Obj(
            seq![
                ("file_id"@, JsonV::Str(v.file_id)),
                ("length"@, JsonV::Int(v.length)),
                ("duration"@, JsonV::Int(v.duration)),
                ("thumb"@, nullable(match v.thumb {
                    None => None,
                    Some(x) => Some(PhotoSize::encoded_v(x)),
                })),
                ("file_size"@, nullable(opt_int_v(v.file_size))),
            ],
        )
    }

    /// What the members of an object denote.
    pub open spec fn decoded_fields(es: Seq<(Seq<char>, JsonV)>) -> Result<
        VideoNoteV,
        DecodeError,
    > {
        if sp_req_str(es, "file_id"@) is Err {
            Err(sp_req_str(es, "file_id"@)->Err_0)
        } else if sp_req_i32(es, "length"@) is Err {
            Err(sp_req_i32(es, "length"@)->Err_0)
        } else if sp_req_i32(es, "duration"@) is Err {
            Err(sp_req_i32(es, "duration"@)->Err_0)
        } else if PhotoSize::sp_opt_field(es, "thumb"@) is Err {
            Err(PhotoSize::sp_opt_field(es, "thumb"@)->Err_0)
        } else if sp_opt_i32(es, "file_size"@) is Err {
            Err(sp_opt_i32(es, "file_size"@)->Err_0)
        } else {
            Ok(
                VideoNoteV {
                    file_id: sp_req_str(es, "file_id"@)->Ok_0,
                    length: sp_req_i32(es, "length"@)->Ok_0,
                    duration: sp_req_i32(es, "duration"@)->Ok_0,
                    thumb: PhotoSize::sp_opt_field(es, "thumb"@)->Ok_0,
                    file_size: sp_opt_i32(es, "file_size"@)->Ok_0,
                },
            )
        }
    }

    /// What a document denotes.
    pub open spec fn decoded(j: JsonV) -> Result<VideoNoteV, DecodeError> {
        match j {
            JsonV::Obj(es) => VideoNote::decoded_fields(es),
            _ => Err(DecodeError::WrongType),
        }
    }

    /// Encode as an object.
    pub fn to_json(&self) -> (r: Json)
        ensures
            r@ == VideoNote::encoded_v(self@),
    {
        let j_thumb = match &self.thumb {
                    None => Json::Null,
                    Some(x) => x.to_json(),
                };
        let j_file_size = match &self.file_size {
                    None => Json::Null,
                    Some(n) => Json::Int(*n as i64),
                };
        let out: Vec<(String, Json)> = vec![
            (String::from_str("file_id"), Json::Str(self.file_id.0.clone())),
            (String::from_str("length"), Json::Int(self.length as i64)),
            (String::from_str("duration"), Json::Int(self.duration as i64)),
            (String::from_str("thumb"), j_thumb),
            (String::from_str("file_size"), j_file_size),
        ];
        proof {
            crate::json::lemma_entries_view_len(out@);
            crate::json::lemma_entries_view_index(out@, 0);
            crate::json::lemma_entries_view_index(out@, 1);
            crate::json::lemma_entries_view_index(out@, 2);
            crate::json::lemma_entries_view_index(out@, 3);
            crate::json::lemma_entries_view_index(out@, 4);
            assert(entries_view(out@) =~= VideoNote::encoded_v(self@)->Obj_0);
        }
        Json::Obj(out)
    }

    /// Decode from an object.
    pub fn from_json(j: &Json) -> (r: Result<VideoNote, DecodeError>)
        ensures
            match r {
                Ok(v) => VideoNote::decoded(j@) == Ok::<_, DecodeError>(v@),
                Err(e) => VideoNote::decoded(j@) == Err::<VideoNoteV, _>(e),
            },
    {
        match j {
            Json::Obj(entries) => {
                let file_id = match req_str(entries, "file_id") {
                                    Err(e) => {
                                        return Err(e);
                                    },
                                    Ok(s) => FileId(s),
                                };
                let length = match req_i32(entries, "length") {
                                    Err(e) => {
                                        return Err(e);
                                    },
                                    Ok(n) => n,
                                };
                let duration = match req_i32(entries, "duration") {
                                    Err(e) => {
                                        return Err(e);
                                    },
                                    Ok(n) => n,
                                };
                let thumb = match PhotoSize::opt_field(entries, "thumb") {
                                    Err(e) => {
                                        return Err(e);
                                    },
                                    Ok(v) => v,
                                };
                let file_size = match opt_i32(entries, "file_size") {
                                    Err(e) => {
                                        return Err(e);
                                    },
                                    Ok(v) => v,
                                };
                Ok(VideoNote { file_id, length, duration, thumb, file_size })
            },
            _ => Err(DecodeError::WrongType),
        }
    }
}

impl VideoNote {
    /// What an optional member denotes.
    pub open spec fn sp_opt_field(es: Seq<(Seq<char>, JsonV)>, key: Seq<char>) -> Result<
        Option<VideoNoteV>,
        DecodeError,
    > {
        match lookup(es, key) {
            None => Ok(None),
            Some(JsonV::Null) => Ok(None),
            Some(j) => match VideoNote::decoded(j) {
                Err(e) => Err(e),
                Ok(v) => Ok(Some(v)),
            },
        }
    }

    /// Decode an optional member.
    pub fn opt_field(entries: &Vec<(String, Json)>, key: &str) -> (r: Result<
        Option<VideoNote>,
        DecodeError,
    >)
        ensures
            match r {
                Ok(None) => VideoNote::sp_opt_field(entries_view(entries@), key@) == Ok::<
                    Option<VideoNoteV>,
                    DecodeError,
                >(None),
                Ok(Some(v)) => VideoNote::sp_opt_field(entries_view(entries@), key@) == Ok::<
                    _,
                    DecodeError,
                >(Some(v@)),
                Err(e) => VideoNote::sp_opt_field(entries_view(entries@), key@) == Err::<
                    Option<VideoNoteV>,
                    _,
                >(e),
            },
    {
        match obj_get(entries, key) {
            None => Ok(None),
            Some(Json::Null) => Ok(None),
            Some(j) => match VideoNote::from_json(j) {
                Err(e) => Err(e),
                Ok(v) => Ok(Some(v)),
            },
        }
    }
}

/// The model of a phone contact.
pub struct ContactV {
    pub phone_number: Seq<char>,
    pub first_name: Seq<char>,
    pub last_name: Option<Seq<char>>,
    pub user_id: Option<int>,
    pub vcard: Option<Seq<char>>,
}

/// A phone contact.
#[derive(Debug, Clone, PartialEq)]
pub struct Contact {
    pub phone_number: String,
    pub first_name: String,
    pub last_name: Option<String>,
    pub user_id: Option<UserId>,
    pub vcard: Option<String>,
}

impl View for Contact {
    type V = ContactV;

    open spec fn view(&self) -> ContactV {
        ContactV {
            phone_number: self.phone_number@,
            first_name: self.first_name@,
            last_name: match &self.last_name {
                None => None,
                Some(x) => Some(x@),
            },
            user_id: match self.user_id {
                None => None,
                Some(x) => Some(x.0 as int),
            },
            vcard: match &self.vcard {
                None => None,
                Some(x) => Some(x@),
            },
        }
    }
}

impl Contact {
    /// The wire form.
    pub open spec fn encoded_v(v: ContactV) -> JsonV {
        JsonV::Obj(
            seq![
                ("phone_number"@, JsonV::Str(v.phone_number)),
                ("first_name"@, JsonV::Str(v.first_name)),
                ("last_name"@, nullable(opt_str_v(v.last_name))),
                ("user_id"@, nullable(opt_int_v(v.user_id))),
                ("vcard"@, nullable(opt_str_v(v.vcard))),
            ],
        )
    }

    /// What the members of an object denote.
    pub open spec fn decoded_fields(es: Seq<(Seq<char>, JsonV)>) -> Result<
        ContactV,
        DecodeError,
    > {
        if sp_req_str(es, "phone_number"@) is Err {
            Err(sp_req_str(es, "phone_number"@)->Err_0)
        } else if sp_req_str(es, "first_name"@) is Err {
            Err(sp_req_str(es, "first_name"@)->Err_0)
        } else if sp_opt_str(es, "last_name"@) is Err {
            Err(sp_opt_str(es, "last_name"@)->Err_0)
        } else if sp_opt_i64(es, "user_id"@) is Err {
            Err(sp_opt_i64(es, "user_id"@)->Err_0)
        } else if sp_opt_str(es, "vcard"@) is Err {
            Err(sp_opt_str(es, "vcard"@)->Err_0)
        } else {
            Ok(
                ContactV {
                    phone_number: sp_req_str(es, "phone_number"@)->Ok_0,
                    first_name: sp_req_str(es, "first_name"@)->Ok_0,
                    last_name: sp_opt_str(es, "last_name"@)->Ok_0,
                    user_id: sp_opt_i64(es, "user_id"@)->Ok_0,
                    vcard: sp_opt_str(es, "vcard"@)->Ok_0,
                },
            )
        }
    }

    /// What a document denotes.
    pub open spec fn decoded(j: JsonV) -> Result<ContactV, DecodeError> {
        match j {
            JsonV::Obj(es) => Contact::decoded_fields(es),
            _ => Err(DecodeError::WrongType),
        }
    }

    /// Encode as an object.
    pub fn to_json(&self) -> (r: Json)
        ensures
            r@ == Contact::encoded_v(self@),
    {
        let j_last_name = match &self.last_name {
                    None => Json::Null,
                    Some(x) => Json::Str(x.clone()),
                };
        let j_user_id = match &self.user_id {
                    None => Json::Null,
                    Some(x) => Json::Int(x.0),
                };
        let j_vcard = match &self.vcard {
                    None => Json::Null,
                    Some(x) => Json::Str(x.clone()),
                };
        let out: Vec<(String, Json)> = vec![
            (String::from_str("phone_number"), Json::Str(self.phone_number.clone())),
            (String::from_str("first_name"), Json::Str(self.first_name.clone())),
            (String::from_str("last_name"), j_last_name),
            (String::from_str("user_id"), j_user_id),
            (String::from_str("vcard"), j_vcard),
        ];
        proof {
            crate::json::lemma_entries_view_len(out@);
            crate::json::lemma_entries_view_index(out@, 0);
            crate::json::lemma_entries_view_index(out@, 1);
            crate::json::lemma_entries_view_index(out@, 2);
            crate::json::lemma_entries_view_index(out@, 3);
            crate::json::lemma_entries_view_index(out@, 4);
            assert(entries_view(out@) =~= Contact::encoded_v(self@)->Obj_0);
        }
        Json::Obj(out)
    }

    /// Decode from an object.
    pub fn from_json(j: &Json) -> (r: Result<Contact, DecodeError>)
        ensures
            match r {
                Ok(v) => Contact::decoded(j@) == Ok::<_, DecodeError>(v@),
                Err(e) => Contact::decoded(j@) == Err::<ContactV, _>(e),
            },
    {
        match j {
            Json::Obj(entries) => {
                let phone_number = match req_str(entries, "phone_number") {
                                    Err(e) => {
                                        return Err(e);
                                    },
                                    Ok(s) => s,
                                };
                let first_name = match req_str(entries, "first_name") {
                                    Err(e) => {
                                        return Err(e);
                                    },
                                    Ok(s) => s,
                                };
                let last_name = match opt_str(entries, "last_name") {
                                    Err(e) => {
                                        return Err(e);
                                    },
                                    Ok(v) => v,
                                };
                let user_id = match opt_i64(entries, "user_id") {
                                    Err(e) => {
                                        return Err(e);
                                    },
                                    Ok(None) => None,
                                    Ok(Some(n)) => Some(UserId(n)),
                                };
                let vcard = match opt_str(entries, "vcard") {
                                    Err(e) => {
                                        return Err(e);
                                    },
                                    Ok(v) => v,
                                };
                Ok(Contact { phone_number, first_name, last_name, user_id, vcard })
            },
            _ => Err(DecodeError::WrongType),
        }
    }
}

impl Contact {
    /// What an optional member denotes.
    pub open spec fn sp_opt_field(es: Seq<(Seq<char>, JsonV)>, key: Seq<char>) -> Result<
        Option<ContactV>,
        DecodeError,
    > {
        match lookup(es, key) {
            None => Ok(None),
            Some(JsonV::Null) => Ok(None),
            Some(j) => match Contact::decoded(j) {
                Err(e) => Err(e),
                Ok(v) => Ok(Some(v)),
            },
        }
    }

    /// Decode an optional member.
    pub fn opt_field(entries: &Vec<(String, Json)>, key: &str) -> (r: Result<
        Option<Contact>,
        DecodeError,
    >)
        ensures
            match r {
                Ok(None) => Contact::sp_opt_field(entries_view(entries@), key@) == Ok::<
                    Option<ContactV>,
                    DecodeError,
                >(None),
                Ok(Some(v)) => Contact::sp_opt_field(entries_view(entries@), key@) == Ok::<
                    _,
                    DecodeError,
                >(Some(v@)),
                Err(e) => Contact::sp_opt_field(entries_view(entries@), key@) == Err::<
                    Option<ContactV>,
                    _,
                >(e),
            },
    {
        match obj_get(entries, key) {
            None => Ok(None),
            Some(Json::Null) => Ok(None),
            Some(j) => match Contact::from_json(j) {
                Err(e) => Err(e),
                Ok(v) => Ok(Some(v)),
            },
        }
    }
}

/// The model of a file ready to be downloaded.
pub struct FileV {
    pub file_id: Seq<char>,
    pub file_size: Option<int>,
    pub file_path: Option<Seq<char>>,
}

/// A file ready to be downloaded.
#[derive(Debug, Clone, PartialEq)]
pub struct File {
    pub file_id: FileId,
    pub file_size: Option<i32>,
    pub file_path: Option<String>,
}

impl View for File {
    type V = FileV;

    open spec fn view(&self) -> FileV {
        FileV {
            file_id: self.file_id.0@,
            file_size: match self.file_size {
                None => None,
                Some(n) => Some(n as int),
            },
            file_path: match &self.file_path {
                None => None,
                Some(x) => Some(x@),
            },
        }
    }
}

impl File {
    /// The wire form.
    pub open spec fn encoded_v(v: FileV) -> JsonV {
        JsonV::Obj(
            seq![
                ("file_id"@, JsonV::Str(v.file_id)),
                ("file_size"@, nullable(opt_int_v(v.file_size))),
                ("file_path"@, nullable(opt_str_v(v.file_path))),
            ],
        )
    }

    /// What the members of an object denote.
    pub open spec fn decoded_fields(es: Seq<(Seq<char>, JsonV)>) -> Result<
        FileV,
        DecodeError,
    > {
        if sp_req_str(es, "file_id"@) is Err {
            Err(sp_req_str(es, "file_id"@)->Err_0)
        } else if sp_opt_i32(es, "file_size"@) is Err {
            Err(sp_opt_i32(es, "file_size"@)->Err_0)
        } else if sp_opt_str(es, "file_path"@) is Err {
            Err(sp_opt_str(es, "file_path"@)->Err_0)
        } else {
            Ok(
                FileV {
                    file_id: sp_req_str(es, "file_id"@)->Ok_0,
                    file_size: sp_opt_i32(es, "file_size"@)->Ok_0,
                    file_path: sp_opt_str(es, "file_path"@)->Ok_0,
                },
            )
        }
    }

    /// What a document denotes.
    pub open spec fn decoded(j: JsonV) -> Result<FileV, DecodeError> {
        match j {
            JsonV::Obj(es) => File::decoded_fields(es),
            _ => Err(DecodeError::WrongType),
        }
    }

    /// Encode as an object.
    pub fn to_json(&self) -> (r: Json)
        ensures
            r@ == File::encoded_v(self@),
    {
        let j_file_size = match &self.file_size {
                    None => Json::Null,
                    Some(n) => Json::Int(*n as i64),
                };
        let j_file_path = match &self.file_path {
                    None => Json::Null,
                    Some(x) => Json::Str(x.clone()),
                };
        let out: Vec<(String, Json)> = vec![
            (String::from_str("file_id"), Json::Str(self.file_id.0.clone())),
            (String::from_str("file_size"), j_file_size),
            (String::from_str("file_path"), j_file_path),
        ];
        proof {
            crate::json::lemma_entries_view_len(out@);
            crate::json::lemma_entries_view_index(out@, 0);
            crate::json::lemma_entries_view_index(out@, 1);
            crate::json::lemma_entries_view_index(out@, 2);
            assert(entries_view(out@) =~= File::encoded_v(self@)->Obj_0);
        }
        Json::Obj(out)
    }

    /// Decode from an object.
    pub fn from_json(j: &Json) -> (r: Result<File, DecodeError>)
        ensures
            match r {
                Ok(v) => File::decoded(j@) == Ok::<_, DecodeError>(v@),
                Err(e) => File::decoded(j@) == Err::<FileV, _>(e),
            },
    {
        match j {
            Json::Obj(entries) => {
                let file_id = match req_str(entries, "file_id") {
                                    Err(e) => {
                                        return Err(e);
                                    },
                                    Ok(s) => FileId(s),
                                };
                let file_size = match opt_i32(entries, "file_size") {
                                    Err(e) => {
                                        return Err(e);
                                    },
                                    Ok(v) => v,
                                };
                let file_path = match opt_str(entries, "file_path") {
                                    Err(e) => {
                                        return Err(e);
                                    },
                                    Ok(v) => v,
                                };
                Ok(File { file_id, file_size, file_path })
            },
            _ => Err(DecodeError::WrongType),
        }
    }
}

/// The model of a user's profile pictures.
pub struct UserProfilePhotosV {
    pub total_count: int,
    pub photos: Seq<PhotoSizeV>,
}

/// A user's profile pictures.
#[derive(Debug, Clone, PartialEq)]
pub struct UserProfilePhotos {
    pub total_count: i32,
    pub photos: Vec<PhotoSize>,
}

impl View for UserProfilePhotos {
    type V = UserProfilePhotosV;

    open spec fn view(&self) -> UserProfilePhotosV {
        UserProfilePhotosV {
            total_count: self.total_count as int,
            photos: PhotoSize::seq_view(self.photos@),
        }
    }
}

impl UserProfilePhotos {
    /// The wire form.
    pub open spec fn encoded_v(v: UserProfilePhotosV) -> JsonV {
        JsonV::Obj(
            seq![
                ("total_count"@, JsonV::Int(v.total_count)),
                ("photos"@, JsonV::Arr(PhotoSize::sp_enc_seq(v.photos))),
            ],
        )
    }

    /// What the members of an object denote.
    pub open spec fn decoded_fields(es: Seq<(Seq<char>, JsonV)>) -> Result<
        UserProfilePhotosV,
        DecodeError,
    > {
        if sp_req_i32(es, "total_count"@) is Err {
            Err(sp_req_i32(es, "total_count"@)->Err_0)
        } else if PhotoSize::sp_vec_field(es, "photos"@) is Err {
            Err(PhotoSize::sp_vec_field(es, "photos"@)->Err_0)
        } else {
            Ok(
                UserProfilePhotosV {
                    total_count: sp_req_i32(es, "total_count"@)->Ok_0,
                    photos: PhotoSize::sp_vec_field(es, "photos"@)->Ok_0,
                },
            )
        }
    }

    /// What a document denotes.
    pub open spec fn decoded(j: JsonV) -> Result<UserProfilePhotosV, DecodeError> {
        match j {
            JsonV::Obj(es) => UserProfilePhotos::decoded_fields(es),
            _ => Err(DecodeError::WrongType),
        }
    }

    /// Encode as an object.
    pub fn to_json(&self) -> (r: Json)
        ensures
            r@ == UserProfilePhotos::encoded_v(self@),
    {
        let out: Vec<(String, Json)> = vec![
            (String::from_str("total_count"), Json::Int(self.total_count as i64)),
            (String::from_str("photos"), PhotoSize::vec_to_json(&self.photos)),
        ];
        proof {
            crate::json::lemma_entries_view_len(out@);
            crate::json::lemma_entries_view_index(out@, 0);
            crate::json::lemma_entries_view_index(out@, 1);
            assert(entries_view(out@) =~= UserProfilePhotos::encoded_v(self@)->Obj_0);
        }
        Json::Obj(out)
    }

    /// Decode from an object.
    pub fn from_json(j: &Json) -> (r: Result<UserProfilePhotos, DecodeError>)
        ensures
            match r {
                Ok(v) => UserProfilePhotos::decoded(j@) == Ok::<_, DecodeError>(v@),
                Err(e) => UserProfilePhotos::decoded(j@) == Err::<UserProfilePhotosV, _>(e),
            },
    {
        match j {
            Json::Obj(entries) => {
                let total_count = match req_i32(entries, "total_count") {
                                    Err(e) => {
                                        return Err(e);
                                    },
                                    Ok(n) => n,
                                };
                let photos = match PhotoSize::vec_field(entries, "photos") {
                                    Err(e) => {
                                        return Err(e);
                                    },
                                    Ok(v) => v,
                                };
                Ok(UserProfilePhotos { total_count, photos })
            },
            _ => Err(DecodeError::WrongType),
        }
    }
}

/// The model of one special entity in a text message, such as a hashtag or URL.
pub struct MessageEntityV {
    pub kind: MessageEntityKind,
    pub offset: int,
    pub length: int,
    pub url: Option<Seq<char>>,
    pub user: Option<UserV>,
}

/// One special entity in a text message, such as a hashtag or URL.
#[derive(Debug, Clone, PartialEq)]
pub struct MessageEntity {
    pub kind: MessageEntityKind,
    pub offset: i32,
    pub length: i32,
    pub url: Option<String>,
    pub user: Option<Box<User>>,
}

impl View for MessageEntity {
    type V = MessageEntityV;

    open spec fn view(&self) -> MessageEntityV {
        MessageEntityV {
            kind: self.kind,
            offset: self.offset as int,
            length: self.length as int,
            url: match &self.url {
                None => None,
                Some(x) => Some(x@),
            },
            user: match &self.user {
                None => None,
                Some(x) => Some(x@),
            },
        }
    }
}

impl MessageEntity {
    /// The wire form.
    pub open spec fn encoded_v(v: MessageEntityV) -> JsonV {
        JsonV::Obj(
            seq![
                ("type"@, v.kind.encoded()),
                ("offset"@, JsonV::Int(v.offset)),
                ("length"@, JsonV::Int(v.length)),
                ("url"@, nullable(opt_str_v(v.url))),
                ("user"@, nullable(match v.user {
                    None => None,
                    Some(x) => Some(User::encoded_v(x)),
                })),
            ],
        )
    }

    /// What the members of an object denote.
    pub open spec fn decoded_fields(es: Seq<(Seq<char>, JsonV)>) -> Result<
        MessageEntityV,
        DecodeError,
    > {
        if MessageEntityKind::sp_req_field(es, "type"@) is Err {
            Err(MessageEntityKind::sp_req_field(es, "type"@)->Err_0)
        } else if sp_req_i32(es, "offset"@) is Err {
            Err(sp_req_i32(es, "offset"@)->Err_0)
        } else if sp_req_i32(es, "length"@) is Err {
            Err(sp_req_i32(es, "length"@)->Err_0)
        } else if sp_opt_str(es, "url"@) is Err {
            Err(sp_opt_str(es, "url"@)->Err_0)
        } else if User::sp_opt_field(es, "user"@) is Err {
            Err(User::sp_opt_field(es, "user"@)->Err_0)
        } else {
            Ok(
                MessageEntityV {
                    kind: MessageEntityKind::sp_req_field(es, "type"@)->Ok_0,
                    offset: sp_req_i32(es, "offset"@)->Ok_0,
                    length: sp_req_i32(es, "length"@)->Ok_0,
                    url: sp_opt_str(es, "url"@)->Ok_0,
                    user: User::sp_opt_field(es, "user"@)->Ok_0,
                },
            )
        }
    }

    /// What a document denotes.
    pub open spec fn decoded(j: JsonV) -> Result<MessageEntityV, DecodeError> {
        match j {
            JsonV::Obj(es) => MessageEntity::decoded_fields(es),
            _ => Err(DecodeError::WrongType),
        }
    }

    /// Encode as an object.
    pub fn to_json(&self) -> (r: Json)
        ensures
            r@ == MessageEntity::encoded_v(self@),
    {
        let j_url = match &self.url {
                    None => Json::Null,
                    Some(x) => Json::Str(x.clone()),
                };
        let j_user = match &self.user {
                    None => Json::Null,
                    Some(x) => x.to_json(),
                };
        let out: Vec<(String, Json)> = vec![
            (String::from_str("type"), self.kind.to_json()),
            (String::from_str("offset"), Json::Int(self.offset as i64)),
            (String::from_str("length"), Json::Int(self.length as i64)),
            (String::from_str("url"), j_url),
            (String::from_str("user"), j_user),
        ];
        proof {
            crate::json::lemma_entries_view_len(out@);
            crate::json::lemma_entries_view_index(out@, 0);
            crate::json::lemma_entries_view_index(out@, 1);
            crate::json::lemma_entries_view_index(out@, 2);
            crate::json::lemma_entries_view_index(out@, 3);
            crate::json::lemma_entries_view_index(out@, 4);
            assert(entries_view(out@) =~= MessageEntity::encoded_v(self@)->Obj_0);
        }
        Json::Obj(out)
    }

    /// Decode from an object.
    pub fn from_json(j: &Json) -> (r: Result<MessageEntity, DecodeError>)
        ensures
            match r {
                Ok(v) => MessageEntity::decoded(j@) == Ok::<_, DecodeError>(v@),
                Err(e) => MessageEntity::decoded(j@) == Err::<MessageEntityV, _>(e),
            },
    {
        match j {
            Json::Obj(entries) => {
                let kind = match MessageEntityKind::req_field(entries, "type") {
                                    Err(e) => {
                                        return Err(e);
                                    },
                                    Ok(v) => v,
                                };
                let offset = match req_i32(entries, "offset") {
                                    Err(e) => {
                                        return Err(e);
                                    },
                                    Ok(n) => n,
                                };
                let length = match req_i32(entries, "length") {
                                    Err(e) => {
                                        return Err(e);
                                    },
                                    Ok(n) => n,
                                };
                let url = match opt_str(entries, "url") {
                                    Err(e) => {
                                        return Err(e);
                                    },
                                    Ok(v) => v,
                                };
                let user = match User::opt_field(entries, "user") {
                                    Err(e) => {
                                        return Err(e);
                                    },
                                    Ok(None) => None,
                                    Ok(Some(v)) => Some(Box::new(v)),
                                };
                Ok(MessageEntity { kind, offset, length, url, user })
            },
            _ => Err(DecodeError::WrongType),
        }
    }
}

impl MessageEntity {
    /// What a sequence of documents denotes.
    pub open spec fn sp_dec_seq(items: Seq<JsonV>) -> Result<Seq<MessageEntityV>, DecodeError>
        decreases items.len(),
    {
        if items.len() == 0 {
            Ok(Seq::empty())
        } else {
            match MessageEntity::decoded(items[0]) {
                Err(e) => Err(e),
                Ok(h) => match MessageEntity::sp_dec_seq(items.drop_first()) {
                    Err(e) => Err(e),
                    Ok(t) => Ok(seq![h] + t),
                },
            }
        }
    }

    /// The model of a sequence of values.
    pub open spec fn seq_view(s: Seq<MessageEntity>) -> Seq<MessageEntityV> {
        Seq::new(s.len(), |i: int| s[i]@)
    }

    /// The wire form of a sequence of values.
    pub open spec fn sp_enc_seq(s: Seq<MessageEntityV>) -> Seq<JsonV> {
        Seq::new(s.len(), |i: int| MessageEntity::encoded_v(s[i]))
    }

    /// What an array member that defaults to empty denotes.
    pub open spec fn sp_vec_field(es: Seq<(Seq<char>, JsonV)>, key: Seq<char>) -> Result<
        Seq<MessageEntityV>,
        DecodeError,
    > {
        match lookup(es, key) {
            None => Ok(Seq::empty()),
            Some(JsonV::Arr(items)) => MessageEntity::sp_dec_seq(items),
            Some(_) => Err(DecodeError::WrongType),
        }
    }

    /// Decode an array member that defaults to empty.
    pub fn vec_field(entries: &Vec<(String, Json)>, key: &str) -> (r: Result<
        Vec<MessageEntity>,
        DecodeError,
    >)
        ensures
            match r {
                Ok(v) => MessageEntity::sp_vec_field(entries_view(entries@), key@) == Ok::<
                    _,
                    DecodeError,
                >(MessageEntity::seq_view(v@)),
                Err(e) => MessageEntity::sp_vec_field(entries_view(entries@), key@) == Err::<
                    Seq<MessageEntityV>,
                    _,
                >(e),
            },
    {
        match obj_get(entries, key) {
            None => {
                let empty: Vec<MessageEntity> = Vec::new();
                proof {
                    assert(MessageEntity::seq_view(empty@) =~= Seq::<MessageEntityV>::empty());
                }
                Ok(empty)
            },
            Some(Json::Arr(items)) => MessageEntity::vec_from_json(items),
            Some(_) => Err(DecodeError::WrongType),
        }
    }

    /// Decode an array of values.
    #[verifier::loop_isolation(false)]
    pub fn vec_from_json(items: &Vec<Json>) -> (r: Result<Vec<MessageEntity>, DecodeError>)
        ensures
            match r {
                Ok(v) => MessageEntity::sp_dec_seq(elems_view(items@)) == Ok::<_, DecodeError>(
                    MessageEntity::seq_view(v@),
                ),
                Err(e) => MessageEntity::sp_dec_seq(elems_view(items@)) == Err::<Seq<MessageEntityV>, _>(
                    e,
                ),
            },
    {
        let ghost iv = elems_view(items@);
        proof {
            lemma_elems_view_len(items@);
        }
        let mut out: Vec<MessageEntity> = Vec::new();
        let mut i: usize = 0;
        while i < items.len()
            invariant
                i <= items@.len(),
                out@.len() == i,
                forall|k: int|
                    0 <= k < i ==> MessageEntity::decoded(iv[k]) == Ok::<_, DecodeError>(out@[k]@),
            decreases items@.len() - i,
        {
            proof {
                lemma_elems_view_index(items@, i as int);
            }
            match MessageEntity::from_json(&items[i]) {
                Err(e) => {
                    proof {
                        MessageEntity::lemma_sp_dec_seq_err(iv, i as int);
                    }
                    return Err(e);
                },
                Ok(v) => {
                    out.push(v);
                },
            }
            i += 1;
        }
        proof {
            MessageEntity::lemma_sp_dec_seq_ok(iv, out@);
        }
        Ok(out)
    }

    /// A failing element fails the whole sequence with its error.
    proof fn lemma_sp_dec_seq_err(items: Seq<JsonV>, i: int)
        requires
            0 <= i < items.len(),
            MessageEntity::decoded(items[i]) is Err,
            forall|k: int| 0 <= k < i ==> MessageEntity::decoded(items[k]) is Ok,
        ensures
            MessageEntity::sp_dec_seq(items) == Err::<Seq<MessageEntityV>, _>(
                MessageEntity::decoded(items[i])->Err_0,
            ),
        decreases items.len(),
    {
        if i > 0 {
            assert(items.drop_first()[i - 1] == items[i]);
            assert(forall|k: int|
                0 <= k < i - 1 ==> items.drop_first()[k] == items[k + 1]
                    && MessageEntity::decoded(items.drop_first()[k]) is Ok);
            MessageEntity::lemma_sp_dec_seq_err(items.drop_first(), i - 1);
        }
    }

    /// Elementwise success decodes the whole sequence.
    proof fn lemma_sp_dec_seq_ok(items: Seq<JsonV>, out: Seq<MessageEntity>)
        requires
            out.len() == items.len(),
            forall|k: int|
                0 <= k < items.len() ==> MessageEntity::decoded(items[k]) == Ok::<_, DecodeError>(
                    out[k]@,
                ),
        ensures
            MessageEntity::sp_dec_seq(items) == Ok::<_, DecodeError>(MessageEntity::seq_view(out)),
        decreases items.len(),
    {
        if items.len() == 0 {
            assert(MessageEntity::seq_view(out) =~= Seq::<MessageEntityV>::empty());
        } else {
            assert(forall|k: int|
                0 <= k < items.drop_first().len() ==> items.drop_first()[k] == items[k + 1]
                    && MessageEntity::decoded(items.drop_first()[k]) == Ok::<_, DecodeError>(
                    out.drop_first()[k]@,
                ));
            MessageEntity::lemma_sp_dec_seq_ok(items.drop_first(), out.drop_first());
            assert(MessageEntity::seq_view(out) =~= seq![out[0]@] + MessageEntity::seq_view(
                out.drop_first(),
            ));
        }
    }

    /// Encode a sequence of values as an array.
    #[verifier::loop_isolation(false)]
    pub fn vec_to_json(v: &Vec<MessageEntity>) -> (r: Json)
        ensures
            r@ == JsonV::Arr(MessageEntity::sp_enc_seq(MessageEntity::seq_view(v@))),
    {
        let mut out: Vec<Json> = Vec::new();
        let mut i: usize = 0;
        while i < v.len()
            invariant
                i <= v@.len(),
                elems_view(out@) =~= MessageEntity::sp_enc_seq(MessageEntity::seq_view(v@)).subrange(
                    0,
                    i as int,
                ),
            decreases v@.len() - i,
        {
            let e = v[i].to_json();
            let ghost prev = out@;
            out.push(e);
            proof {
                lemma_elems_view_push(prev, e);
                assert(elems_view(out@) =~= MessageEntity::sp_enc_seq(MessageEntity::seq_view(
                    v@,
                )).subrange(0, i + 1));
            }
            i += 1;
        }
        proof {
            assert(elems_view(out@) =~= MessageEntity::sp_enc_seq(MessageEntity::seq_view(v@)));
        }
        Json::Arr(out)
    }
}

impl MessageEntityKind {
    /// What a required tag member denotes.
    pub open spec fn sp_req_field(es: Seq<(Seq<char>, JsonV)>, key: Seq<char>) -> Result<
        MessageEntityKind,
        DecodeError,
    > {
        match lookup(es, key) {
            None => Err(DecodeError::MissingField),
            Some(j) => MessageEntityKind::decoded(j),
        }
    }

    /// Decode a required tag member.
    pub fn req_field(entries: &Vec<(String, Json)>, key: &str) -> (r: Result<
        MessageEntityKind,
        DecodeError,
    >)
        ensures
            r == MessageEntityKind::sp_req_field(entries_view(entries@), key@),
    {
        match obj_get(entries, key) {
            None => Err(DecodeError::MissingField),
            Some(j) => MessageEntityKind::from_json(j),
        }
    }

    /// What an optional tag member denotes.
    pub open spec fn sp_opt_field(es: Seq<(Seq<char>, JsonV)>, key: Seq<char>) -> Result<
        Option<MessageEntityKind>,
        DecodeError,
    > {
        match lookup(es, key) {
            None => Ok(None),
            Some(JsonV::Null) => Ok(None),
            Some(j) => match MessageEntityKind::decoded(j) {
                Err(e) => Err(e),
                Ok(v) => Ok(Some(v)),
            },
        }
    }

    /// Decode an optional tag member.
    pub fn opt_field(entries: &Vec<(String, Json)>, key: &str) -> (r: Result<
        Option<MessageEntityKind>,
        DecodeError,
    >)
        ensures
            r == MessageEntityKind::sp_opt_field(entries_view(entries@), key@),
    {
        match obj_get(entries, key) {
            None => Ok(None),
            Some(Json::Null) => Ok(None),
            Some(j) => match MessageEntityKind::from_json(j) {
                Err(e) => Err(e),
                Ok(v) => Ok(Some(v)),
            },
        }
    }
}

impl ParseMode {
    /// What a required tag member denotes.
    pub open spec fn sp_req_field(es: Seq<(Seq<char>, JsonV)>, key: Seq<char>) -> Result<
        ParseMode,
        DecodeError,
    > {
        match lookup(es, key) {
            None => Err(DecodeError::MissingField),
            Some(j) => ParseMode::decoded(j),
        }
    }

    /// Decode a required tag member.
    pub fn req_field(entries: &Vec<(String, Json)>, key: &str) -> (r: Result<
        ParseMode,
        DecodeError,
    >)
        ensures
            r == ParseMode::sp_req_field(entries_view(entries@), key@),
    {
        match obj_get(entries, key) {
            None => Err(DecodeError::MissingField),
            Some(j) => ParseMode::from_json(j),
        }
    }

    /// What an optional tag member denotes.
    pub open spec fn sp_opt_field(es: Seq<(Seq<char>, JsonV)>, key: Seq<char>) -> Result<
        Option<ParseMode>,
        DecodeError,
    > {
        match lookup(es, key) {
            None => Ok(None),
            Some(JsonV::Null) => Ok(None),
            Some(j) => match ParseMode::decoded(j) {
                Err(e) => Err(e),
                Ok(v) => Ok(Some(v)),
            },
        }
    }

    /// Decode an optional tag member.
    pub fn opt_field(entries: &Vec<(String, Json)>, key: &str) -> (r: Result<
        Option<ParseMode>,
        DecodeError,
    >)
        ensures
            r == ParseMode::sp_opt_field(entries_view(entries@), key@),
    {
        match obj_get(entries, key) {
            None => Ok(None),
            Some(Json::Null) => Ok(None),
            Some(j) => match ParseMode::from_json(j) {
                Err(e) => Err(e),
                Ok(v) => Ok(Some(v)),
            },
        }
    }
}

impl ChatMemberStatus {
    /// What a required tag member denotes.
    pub open spec fn sp_req_field(es: Seq<(Seq<char>, JsonV)>, key: Seq<char>) -> Result<
        ChatMemberStatus,
        DecodeError,
    > {
        match lookup(es, key) {
            None => Err(DecodeError::MissingField),
            Some(j) => ChatMemberStatus::decoded(j),
        }
    }

    /// Decode a required tag member.
    pub fn req_field(entries: &Vec<(String, Json)>, key: &str) -> (r: Result<
        ChatMemberStatus,
        DecodeError,
    >)
        ensures
            r == ChatMemberStatus::sp_req_field(entries_view(entries@), key@),
    {
        match obj_get(entries, key) {
            None => Err(DecodeError::MissingField),
            Some(j) => ChatMemberStatus::from_json(j),
        }
    }

    /// What an optional tag member denotes.
    pub open spec fn sp_opt_field(es: Seq<(Seq<char>, JsonV)>, key: Seq<char>) -> Result<
        Option<ChatMemberStatus>,
        DecodeError,
    > {
        match lookup(es, key) {
            None => Ok(None),
            Some(JsonV::Null) => Ok(None),
            Some(j) => match ChatMemberStatus::decoded(j) {
                Err(e) => Err(e),
                Ok(v) => Ok(Some(v)),
            },
        }
    }

    /// Decode an optional tag member.
    pub fn opt_field(entries: &Vec<(String, Json)>, key: &str) -> (r: Result<
        Option<ChatMemberStatus>,
        DecodeError,
    >)
        ensures
            r == ChatMemberStatus::sp_opt_field(entries_view(entries@), key@),
    {
        match obj_get(entries, key) {
            None => Ok(None),
            Some(Json::Null) => Ok(None),
            Some(j) => match ChatMemberStatus::from_json(j) {
                Err(e) => Err(e),
                Ok(v) => Ok(Some(v)),
            },
        }
    }
}

/// The model of one button of the reply keyboard.
pub struct KeyboardButtonV {
    pub text: Seq<char>,
    pub request_contact: Option<bool>,
    pub request_location: Option<bool>,
}

/// One button of the reply keyboard.
#[derive(Debug, Clone, PartialEq)]
pub struct KeyboardButton {
    pub text: String,
    pub request_contact: Option<bool>,
    pub request_location: Option<bool>,
}

impl View for KeyboardButton {
    type V = KeyboardButtonV;

    open spec fn view(&self) -> KeyboardButtonV {
        KeyboardButtonV {
            text: self.text@,
            request_contact: self.request_contact,
            request_location: self.request_location,
        }
    }
}

impl KeyboardButton {
    /// The wire form.
    pub open spec fn encoded_v(v: KeyboardButtonV) -> JsonV {
        JsonV::Obj(
            seq![
                ("text"@, JsonV::Str(v.text)),
                ("request_contact"@, nullable(opt_bool_v(v.request_contact))),
                ("request_location"@, nullable(opt_bool_v(v.request_location))),
            ],
        )
    }

    /// What the members of an object denote.
    pub open spec fn decoded_fields(es: Seq<(Seq<char>, JsonV)>) -> Result<
        KeyboardButtonV,
        DecodeError,
    > {
        if sp_req_str(es, "text"@) is Err {
            Err(sp_req_str(es, "text"@)->Err_0)
        } else if sp_opt_bool(es, "request_contact"@) is Err {
            Err(sp_opt_bool(es, "request_contact"@)->Err_0)
        } else if sp_opt_bool(es, "request_location"@) is Err {
            Err(sp_opt_bool(es, "request_location"@)->Err_0)
        } else {
            Ok(
                KeyboardButtonV {
                    text: sp_req_str(es, "text"@)->Ok_0,
                    request_contact: sp_opt_bool(es, "request_contact"@)->Ok_0,
                    request_location: sp_opt_bool(es, "request_location"@)->Ok_0,
                },
            )
        }
    }

    /// What a document denotes.
    pub open spec fn decoded(j: JsonV) -> Result<KeyboardButtonV, DecodeError> {
        match j {
            JsonV::Obj(es) => KeyboardButton::decoded_fields(es),
            _ => Err(DecodeError::WrongType),
        }
    }

    /// Encode as an object.
    pub fn to_json(&self) -> (r: Json)
        ensures
            r@ == KeyboardButton::encoded_v(self@),
    {
        let j_request_contact = match &self.request_contact {
                    None => Json::Null,
                    Some(b) => Json::Bool(*b),
                };
        let j_request_location = match &self.request_location {
                    None => Json::Null,
                    Some(b) => Json::Bool(*b),
                };
        let out: Vec<(String, Json)> = vec![
            (String::from_str("text"), Json::Str(self.text.clone())),
            (String::from_str("request_contact"), j_request_contact),
            (String::from_str("request_location"), j_request_location),
        ];
        proof {
            crate::json::lemma_entries_view_len(out@);
            crate::json::lemma_entries_view_index(out@, 0);
            crate::json::lemma_entries_view_index(out@, 1);
            crate::json::lemma_entries_view_index(out@, 2);
            assert(entries_view(out@) =~= KeyboardButton::encoded_v(self@)->Obj_0);
        }
        Json::Obj(out)
    }

    /// Decode from an object.
    pub fn from_json(j: &Json) -> (r: Result<KeyboardButton, DecodeError>)
        ensures
            match r {
                Ok(v) => KeyboardButton::decoded(j@) == Ok::<_, DecodeError>(v@),
                Err(e) => KeyboardButton::decoded(j@) == Err::<KeyboardButtonV, _>(e),
            },
    {
        match j {
            Json::Obj(entries) => {
                let text = match req_str(entries, "text") {
                                    Err(e) => {
                                        return Err(e);
                                    },
                                    Ok(s) => s,
                                };
                let request_contact = match opt_bool(entries, "request_contact") {
                                    Err(e) => {
                                        return Err(e);
                                    },
                                    Ok(v) => v,
                                };
                let request_location = match opt_bool(entries, "request_location") {
                                    Err(e) => {
                                        return Err(e);
                                    },
                                    Ok(v) => v,
                                };
                Ok(KeyboardButton { text, request_contact, request_location })
            },
            _ => Err(DecodeError::WrongType),
        }
    }
}

impl KeyboardButton {
    /// What a sequence of documents denotes.
    pub open spec fn sp_dec_seq(items: Seq<JsonV>) -> Result<Seq<KeyboardButtonV>, DecodeError>
        decreases items.len(),
    {
        if items.len() == 0 {
            Ok(Seq::empty())
        } else {
            match KeyboardButton::decoded(items[0]) {
                Err(e) => Err(e),
                Ok(h) => match KeyboardButton::sp_dec_seq(items.drop_first()) {
                    Err(e) => Err(e),
                    Ok(t) => Ok(seq![h] + t),
                },
            }
        }
    }

    /// The model of a sequence of values.
    pub open spec fn seq_view(s: Seq<KeyboardButton>) -> Seq<KeyboardButtonV> {
        Seq::new(s.len(), |i: int| s[i]@)
    }

    /// The wire form of a sequence of values.
    pub open spec fn sp_enc_seq(s: Seq<KeyboardButtonV>) -> Seq<JsonV> {
        Seq::new(s.len(), |i: int| KeyboardButton::encoded_v(s[i]))
    }

    /// What an array member that defaults to empty denotes.
    pub open spec fn sp_vec_field(es: Seq<(Seq<char>, JsonV)>, key: Seq<char>) -> Result<
        Seq<KeyboardButtonV>,
        DecodeError,
    > {
        match lookup(es, key) {
            None => Ok(Seq::empty()),
            Some(JsonV::Arr(items)) => KeyboardButton::sp_dec_seq(items),
            Some(_) => Err(DecodeError::WrongType),
        }
    }

    /// Decode an array member that defaults to empty.
    pub fn vec_field(entries: &Vec<(String, Json)>, key: &str) -> (r: Result<
        Vec<KeyboardButton>,
        DecodeError,
    >)
        ensures
            match r {
                Ok(v) => KeyboardButton::sp_vec_field(entries_view(entries@), key@) == Ok::<
                    _,
                    DecodeError,
                >(KeyboardButton::seq_view(v@)),
                Err(e) => KeyboardButton::sp_vec_field(entries_view(entries@), key@) == Err::<
                    Seq<KeyboardButtonV>,
                    _,
                >(e),
            },
    {
        match obj_get(entries, key) {
            None => {
                let empty: Vec<KeyboardButton> = Vec::new();
                proof {
                    assert(KeyboardButton::seq_view(empty@) =~= Seq::<KeyboardButtonV>::empty());
                }
                Ok(empty)
            },
            Some(Json::Arr(items)) => KeyboardButton::vec_from_json(items),
            Some(_) => Err(DecodeError::WrongType),
        }
    }

    /// Decode an array of values.
    #[verifier::loop_isolation(false)]
    pub fn vec_from_json(items: &Vec<Json>) -> (r: Result<Vec<KeyboardButton>, DecodeError>)
        ensures
            match r {
                Ok(v) => KeyboardButton::sp_dec_seq(elems_view(items@)) == Ok::<_, DecodeError>(
                    KeyboardButton::seq_view(v@),
                ),
                Err(e) => KeyboardButton::sp_dec_seq(elems_view(items@)) == Err::<Seq<KeyboardButtonV>, _>(
                    e,
                ),
            },
    {
        let ghost iv = elems_view(items@);
        proof {
            lemma_elems_view_len(items@);
        }
        let mut out: Vec<KeyboardButton> = Vec::new();
        let mut i: usize = 0;
        while i < items.len()
            invariant
                i <= items@.len(),
                out@.len() == i,
                forall|k: int|
                    0 <= k < i ==> KeyboardButton::decoded(iv[k]) == Ok::<_, DecodeError>(out@[k]@),
            decreases items@.len() - i,
        {
            proof {
                lemma_elems_view_index(items@, i as int);
            }
            match KeyboardButton::from_json(&items[i]) {
                Err(e) => {
                    proof {
                        KeyboardButton::lemma_sp_dec_seq_err(iv, i as int);
                    }
                    return Err(e);
                },
                Ok(v) => {
                    out.push(v);
                },
            }
            i += 1;
        }
        proof {
            KeyboardButton::lemma_sp_dec_seq_ok(iv, out@);
        }
        Ok(out)
    }

    /// A failing element fails the whole sequence with its error.
    proof fn lemma_sp_dec_seq_err(items: Seq<JsonV>, i: int)
        requires
            0 <= i < items.len(),
            KeyboardButton::decoded(items[i]) is Err,
            forall|k: int| 0 <= k < i ==> KeyboardButton::decoded(items[k]) is Ok,
        ensures
            KeyboardButton::sp_dec_seq(items) == Err::<Seq<KeyboardButtonV>, _>(
                KeyboardButton::decoded(items[i])->Err_0,
            ),
        decreases items.len(),
    {
        if i > 0 {
            assert(items.drop_first()[i - 1] == items[i]);
            assert(forall|k: int|
                0 <= k < i - 1 ==> items.drop_first()[k] == items[k + 1]
                    && KeyboardButton::decoded(items.drop_first()[k]) is Ok);
            KeyboardButton::lemma_sp_dec_seq_err(items.drop_first(), i - 1);
        }
    }

    /// Elementwise success decodes the whole sequence.
    proof fn lemma_sp_dec_seq_ok(items: Seq<JsonV>, out: Seq<KeyboardButton>)
        requires
            out.len() == items.len(),
            forall|k: int|
                0 <= k < items.len() ==> KeyboardButton::decoded(items[k]) == Ok::<_, DecodeError>(
                    out[k]@,
                ),
        ensures
            KeyboardButton::sp_dec_seq(items) == Ok::<_, DecodeError>(KeyboardButton::seq_view(out)),
        decreases items.len(),
    {
        if items.len() == 0 {
            assert(KeyboardButton::seq_view(out) =~= Seq::<KeyboardButtonV>::empty());
        } else {
            assert(forall|k: int|
                0 <= k < items.drop_first().len() ==> items.drop_first()[k] == items[k + 1]
                    && KeyboardButton::decoded(items.drop_first()[k]) == Ok::<_, DecodeError>(
                    out.drop_first()[k]@,
                ));
            KeyboardButton::lemma_sp_dec_seq_ok(items.drop_first(), out.drop_first());
            assert(KeyboardButton::seq_view(out) =~= seq![out[0]@] + KeyboardButton::seq_view(
                out.drop_first(),
            ));
        }
    }

    /// Encode a sequence of values as an array.
    #[verifier::loop_isolation(false)]
    pub fn vec_to_json(v: &Vec<KeyboardButton>) -> (r: Json)
        ensures
            r@ == JsonV::Arr(KeyboardButton::sp_enc_seq(KeyboardButton::seq_view(v@))),
    {
        let mut out: Vec<Json> = Vec::new();
        let mut i: usize = 0;
        while i < v.len()
            invariant
                i <= v@.len(),
                elems_view(out@) =~= KeyboardButton::sp_enc_seq(KeyboardButton::seq_view(v@)).subrange(
                    0,
                    i as int,
                ),
            decreases v@.len() - i,
        {
            let e = v[i].to_json();
            let ghost prev = out@;
            out.push(e);
            proof {
                lemma_elems_view_push(prev, e);
                assert(elems_view(out@) =~= KeyboardButton::sp_enc_seq(KeyboardButton::seq_view(
                    v@,
                )).subrange(0, i + 1));
            }
            i += 1;
        }
        proof {
            assert(elems_view(out@) =~= KeyboardButton::sp_enc_seq(KeyboardButton::seq_view(v@)));
        }
        Json::Arr(out)
    }
}

impl KeyboardButton {
    /// What one document denotes as a row of buttons.
    pub open spec fn sp_dec_row(j: JsonV) -> Result<Seq<KeyboardButtonV>, DecodeError> {
        match j {
            JsonV::Arr(items) => KeyboardButton::sp_dec_seq(items),
            _ => Err(DecodeError::WrongType),
        }
    }

    /// What a sequence of documents denotes as rows of buttons.
    pub open spec fn sp_dec_rows(items: Seq<JsonV>) -> Result<Seq<Seq<KeyboardButtonV>>, DecodeError>
        decreases items.len(),
    {
        if items.len() == 0 {
            Ok(Seq::empty())
        } else {
            match KeyboardButton::sp_dec_row(items[0]) {
                Err(e) => Err(e),
                Ok(h) => match KeyboardButton::sp_dec_rows(items.drop_first()) {
                    Err(e) => Err(e),
                    Ok(t) => Ok(seq![h] + t),
                },
            }
        }
    }

    /// The model of a sequence of rows.
    pub open spec fn rows_view(s: Seq<Vec<KeyboardButton>>) -> Seq<Seq<KeyboardButtonV>> {
        Seq::new(s.len(), |i: int| KeyboardButton::seq_view(s[i]@))
    }

    /// The wire form of a sequence of rows.
    pub open spec fn sp_enc_rows(s: Seq<Seq<KeyboardButtonV>>) -> Seq<JsonV> {
        Seq::new(s.len(), |i: int| JsonV::Arr(KeyboardButton::sp_enc_seq(s[i])))
    }

    /// What an array-of-rows member that defaults to empty denotes.
    pub open spec fn sp_rows_field(es: Seq<(Seq<char>, JsonV)>, key: Seq<char>) -> Result<
        Seq<Seq<KeyboardButtonV>>,
        DecodeError,
    > {
        match lookup(es, key) {
            None => Ok(Seq::empty()),
            Some(JsonV::Arr(items)) => KeyboardButton::sp_dec_rows(items),
            Some(_) => Err(DecodeError::WrongType),
        }
    }

    /// Decode an array-of-rows member that defaults to empty.
    pub fn rows_field(entries: &Vec<(String, Json)>, key: &str) -> (r: Result<
        Vec<Vec<KeyboardButton>>,
        DecodeError,
    >)
        ensures
            match r {
                Ok(v) => KeyboardButton::sp_rows_field(entries_view(entries@), key@) == Ok::<
                    _,
                    DecodeError,
                >(KeyboardButton::rows_view(v@)),
                Err(e) => KeyboardButton::sp_rows_field(entries_view(entries@), key@) == Err::<
                    Seq<Seq<KeyboardButtonV>>,
                    _,
                >(e),
            },
    {
        match obj_get(entries, key) {
            None => {
                let empty: Vec<Vec<KeyboardButton>> = Vec::new();
                proof {
                    assert(KeyboardButton::rows_view(empty@) =~= Seq::<Seq<KeyboardButtonV>>::empty());
                }
                Ok(empty)
            },
            Some(Json::Arr(items)) => KeyboardButton::rows_from_json(items),
            Some(_) => Err(DecodeError::WrongType),
        }
    }

    /// Decode an array of rows.
    #[verifier::loop_isolation(false)]
    pub fn rows_from_json(items: &Vec<Json>) -> (r: Result<Vec<Vec<KeyboardButton>>, DecodeError>)
        ensures
            match r {
                Ok(v) => KeyboardButton::sp_dec_rows(elems_view(items@)) == Ok::<_, DecodeError>(
                    KeyboardButton::rows_view(v@),
                ),
                Err(e) => KeyboardButton::sp_dec_rows(elems_view(items@)) == Err::<Seq<Seq<KeyboardButtonV>>, _>(
                    e,
                ),
            },
    {
        let ghost iv = elems_view(items@);
        proof {
            lemma_elems_view_len(items@);
        }
        let mut out: Vec<Vec<KeyboardButton>> = Vec::new();
        let mut i: usize = 0;
        while i < items.len()
            invariant
                i <= items@.len(),
                out@.len() == i,
                forall|k: int|
                    0 <= k < i ==> KeyboardButton::sp_dec_row(iv[k]) == Ok::<_, DecodeError>(
                        KeyboardButton::seq_view(out@[k]@),
                    ),
            decreases items@.len() - i,
        {
            proof {
                lemma_elems_view_index(items@, i as int);
            }
            let row = match &items[i] {
                Json::Arr(row_items) => match KeyboardButton::vec_from_json(row_items) {
                    Err(e) => {
                        proof {
                            KeyboardButton::lemma_sp_dec_rows_err(iv, i as int);
                        }
                        return Err(e);
                    },
                    Ok(row) => row,
                },
                _ => {
                    proof {
                        KeyboardButton::lemma_sp_dec_rows_err(iv, i as int);
                    }
                    return Err(DecodeError::WrongType);
                },
            };
            out.push(row);
            i += 1;
        }
        proof {
            KeyboardButton::lemma_sp_dec_rows_ok(iv, out@);
        }
        Ok(out)
    }

    /// A failing row fails the whole sequence with its error.
    proof fn lemma_sp_dec_rows_err(items: Seq<JsonV>, i: int)
        requires
            0 <= i < items.len(),
            KeyboardButton::sp_dec_row(items[i]) is Err,
            forall|k: int| 0 <= k < i ==> KeyboardButton::sp_dec_row(items[k]) is Ok,
        ensures
            KeyboardButton::sp_dec_rows(items) == Err::<Seq<Seq<KeyboardButtonV>>, _>(
                KeyboardButton::sp_dec_row(items[i])->Err_0,
            ),
        decreases items.len(),
    {
        if i > 0 {
            assert(items.drop_first()[i - 1] == items[i]);
            assert(forall|k: int|
                0 <= k < i - 1 ==> items.drop_first()[k] == items[k + 1]
                    && KeyboardButton::sp_dec_row(items.drop_first()[k]) is Ok);
            KeyboardButton::lemma_sp_dec_rows_err(items.drop_first(), i - 1);
        }
    }

    /// Rowwise success decodes the whole sequence.
    proof fn lemma_sp_dec_rows_ok(items: Seq<JsonV>, out: Seq<Vec<KeyboardButton>>)
        requires
            out.len() == items.len(),
            forall|k: int|
                0 <= k < items.len() ==> KeyboardButton::sp_dec_row(items[k]) == Ok::<_, DecodeError>(
                    KeyboardButton::seq_view(out[k]@),
                ),
        ensures
            KeyboardButton::sp_dec_rows(items) == Ok::<_, DecodeError>(KeyboardButton::rows_view(out)),
        decreases items.len(),
    {
        if items.len() == 0 {
            assert(KeyboardButton::rows_view(out) =~= Seq::<Seq<KeyboardButtonV>>::empty());
        } else {
            assert(forall|k: int|
                0 <= k < items.drop_first().len() ==> items.drop_first()[k] == items[k + 1]
                    && KeyboardButton::sp_dec_row(items.drop_first()[k]) == Ok::<_, DecodeError>(
                    KeyboardButton::seq_view(out.drop_first()[k]@),
                ));
            KeyboardButton::lemma_sp_dec_rows_ok(items.drop_first(), out.drop_first());
            assert(KeyboardButton::rows_view(out) =~= seq![KeyboardButton::seq_view(out[0]@)]
                + KeyboardButton::rows_view(out.drop_first()));
        }
    }

    /// Encode a sequence of rows as an array of arrays.
    #[verifier::loop_isolation(false)]
    pub fn rows_to_json(v: &Vec<Vec<KeyboardButton>>) -> (r: Json)
        ensures
            r@ == JsonV::Arr(KeyboardButton::sp_enc_rows(KeyboardButton::rows_view(v@))),
    {
        let mut out: Vec<Json> = Vec::new();
        let mut i: usize = 0;
        while i < v.len()
            invariant
                i <= v@.len(),
                elems_view(out@) =~= KeyboardButton::sp_enc_rows(KeyboardButton::rows_view(v@)).subrange(
                    0,
                    i as int,
                ),
            decreases v@.len() - i,
        {
            let e = KeyboardButton::vec_to_json(&v[i]);
            let ghost prev = out@;
            out.push(e);
            proof {
                lemma_elems_view_push(prev, e);
                assert(elems_view(out@) =~= KeyboardButton::sp_enc_rows(KeyboardButton::rows_view(
                    v@,
                )).subrange(0, i + 1));
            }
            i += 1;
        }
        proof {
            assert(elems_view(out@) =~= KeyboardButton::sp_enc_rows(KeyboardButton::rows_view(v@)));
        }
        Json::Arr(out)
    }
}

/// The model of a request that clients remove the current custom keyboard.
pub struct ReplyKeyboardRemoveV {
    pub remove_keyboard: bool,
    pub selective: Option<bool>,
}

/// A request that clients remove the current custom keyboard.
#[derive(Debug, Clone, PartialEq)]
pub struct ReplyKeyboardRemove {
    pub remove_keyboard: bool,
    pub selective: Option<bool>,
}

impl View for ReplyKeyboardRemove {
    type V = ReplyKeyboardRemoveV;

    open spec fn view(&self) -> ReplyKeyboardRemoveV {
        ReplyKeyboardRemoveV {
            remove_keyboard: self.remove_keyboard,
            selective: self.selective,
        }
    }
}

impl ReplyKeyboardRemove {
    /// The wire form.
    pub open spec fn encoded_v(v: ReplyKeyboardRemoveV) -> JsonV {
        JsonV::Obj(
            seq![
                ("remove_keyboard"@, JsonV::Bool(v.remove_keyboard)),
                ("selective"@, nullable(opt_bool_v(v.selective))),
            ],
        )
    }

    /// What the members of an object denote.
    pub open spec fn decoded_fields(es: Seq<(Seq<char>, JsonV)>) -> Result<
        ReplyKeyboardRemoveV,
        DecodeError,
    > {
        if sp_req_bool(es, "remove_keyboard"@) is Err {
            Err(sp_req_bool(es, "remove_keyboard"@)->Err_0)
        } else if sp_opt_bool(es, "selective"@) is Err {
            Err(sp_opt_bool(es, "selective"@)->Err_0)
        } else {
            Ok(
                ReplyKeyboardRemoveV {
                    remove_keyboard: sp_req_bool(es, "remove_keyboard"@)->Ok_0,
                    selective: sp_opt_bool(es, "selective"@)->Ok_0,
                },
            )
        }
    }

    /// What a document denotes.
    pub open spec fn decoded(j: JsonV) -> Result<ReplyKeyboardRemoveV, DecodeError> {
        match j {
            JsonV::Obj(es) => ReplyKeyboardRemove::decoded_fields(es),
            _ => Err(DecodeError::WrongType),
        }
    }

    /// Encode as an object.
    pub fn to_json(&self) -> (r: Json)
        ensures
            r@ == ReplyKeyboardRemove::encoded_v(self@),
    {
        let j_selective = match &self.selective {
                    None => Json::Null,
                    Some(b) => Json::Bool(*b),
                };
        let out: Vec<(String, Json)> = vec![
            (String::from_str("remove_keyboard"), Json::Bool(self.remove_keyboard)),
            (String::from_str("selective"), j_selective),
        ];
        proof {
            crate::json::lemma_entries_view_len(out@);
            crate::json::lemma_entries_view_index(out@, 0);
            crate::json::lemma_entries_view_index(out@, 1);
            assert(entries_view(out@) =~= ReplyKeyboardRemove::encoded_v(self@)->Obj_0);
        }
        Json::Obj(out)
    }

    /// Decode from an object.
    pub fn from_json(j: &Json) -> (r: Result<ReplyKeyboardRemove, DecodeError>)
        ensures
            match r {
                Ok(v) => ReplyKeyboardRemove::decoded(j@) == Ok::<_, DecodeError>(v@),
                Err(e) => ReplyKeyboardRemove::decoded(j@) == Err::<ReplyKeyboardRemoveV, _>(e),
            },
    {
        match j {
            Json::Obj(entries) => {
                let remove_keyboard = match req_bool(entries, "remove_keyboard") {
                                    Err(e) => {
                                        return Err(e);
                                    },
                                    Ok(b) => b,
                                };
                let selective = match opt_bool(entries, "selective") {
                                    Err(e) => {
                                        return Err(e);
                                    },
                                    Ok(v) => v,
                                };
                Ok(ReplyKeyboardRemove { remove_keyboard, selective })
            },
            _ => Err(DecodeError::WrongType),
        }
    }
}

/// The model of a request that clients display a reply interface to the user.
pub struct ForceReplyV {
    pub force_reply: bool,
    pub selective: Option<bool>,
}

/// A request that clients display a reply interface to the user.
#[derive(Debug, Clone, PartialEq)]
pub struct ForceReply {
    pub force_reply: bool,
    pub selective: Option<bool>,
}

impl View for ForceReply {
    type V = ForceReplyV;

    open spec fn view(&self) -> ForceReplyV {
        ForceReplyV {
            force_reply: self.force_reply,
            selective: self.selective,
        }
    }
}

impl ForceReply {
    /// The wire form.
    pub open spec fn encoded_v(v: ForceReplyV) -> JsonV {
        JsonV::Obj(
            seq![
                ("force_reply"@, JsonV::Bool(v.force_reply)),
                ("selective"@, nullable(opt_bool_v(v.selective))),
            ],
        )
    }

    /// What the members of an object denote.
    pub open spec fn decoded_fields(es: Seq<(Seq<char>, JsonV)>) -> Result<
        ForceReplyV,
        DecodeError,
    > {
        if sp_req_bool(es, "force_reply"@) is Err {
            Err(sp_req_bool(es, "force_reply"@)->Err_0)
        } else if sp_opt_bool(es, "selective"@) is Err {
            Err(sp_opt_bool(es, "selective"@)->Err_0)
        } else {
            Ok(
                ForceReplyV {
                    force_reply: sp_req_bool(es, "force_reply"@)->Ok_0,
                    selective: sp_opt_bool(es, "selective"@)->Ok_0,
                },
            )
        }
    }

    /// What a document denotes.
    pub open spec fn decoded(j: JsonV) -> Result<ForceReplyV, DecodeError> {
        match j {
            JsonV::Obj(es) => ForceReply::decoded_fields(es),
            _ => Err(DecodeError::WrongType),
        }
    }

    /// Encode as an object.
    pub fn to_json(&self) -> (r: Json)
        ensures
            r@ == ForceReply::encoded_v(self@),
    {
        let j_selective = match &self.selective {
                    None => Json::Null,
                    Some(b) => Json::Bool(*b),
                };
        let out: Vec<(String, Json)> = vec![
            (String::from_str("force_reply"), Json::Bool(self.force_reply)),
            (String::from_str("selective"), j_selective),
        ];
        proof {
            crate::json::lemma_entries_view_len(out@);
            crate::json::lemma_entries_view_index(out@, 0);
            crate::json::lemma_entries_view_index(out@, 1);
            assert(entries_view(out@) =~= ForceReply::encoded_v(self@)->Obj_0);
        }
        Json::Obj(out)
    }

    /// Decode from an object.
    pub fn from_json(j: &Json) -> (r: Result<ForceReply, DecodeError>)
        ensures
            match r {
                Ok(v) => ForceReply::decoded(j@) == Ok::<_, DecodeError>(v@),
                Err(e) => ForceReply::decoded(j@) == Err::<ForceReplyV, _>(e),
            },
    {
        match j {
            Json::Obj(entries) => {
                let force_reply = match req_bool(entries, "force_reply") {
                                    Err(e) => {
                                        return Err(e);
                                    },
                                    Ok(b) => b,
                                };
                let selective = match opt_bool(entries, "selective") {
                                    Err(e) => {
                                        return Err(e);
                                    },
                                    Ok(v) => v,
                                };
                Ok(ForceReply { force_reply, selective })
            },
            _ => Err(DecodeError::WrongType),
        }
    }
}

/// The model of a parameter of an inline keyboard button used to automatically authorize a user.
pub struct LoginUrlV {
    pub url: Seq<char>,
    pub forward_text: Option<Seq<char>>,
    pub bot_username: Option<Seq<char>>,
    pub request_write_access: Option<bool>,
}

/// A parameter of an inline keyboard button used to automatically authorize a user.
#[derive(Debug, Clone, PartialEq)]
pub struct LoginUrl {
    pub url: String,
    pub forward_text: Option<String>,
    pub bot_username: Option<String>,
    pub request_write_access: Option<bool>,
}

impl View for LoginUrl {
    type V = LoginUrlV;

    open spec fn view(&self) -> LoginUrlV {
        LoginUrlV {
            url: self.url@,
            forward_text: match &self.forward_text {
                None => None,
                Some(x) => Some(x@),
            },
            bot_username: match &self.bot_username {
                None => None,
                Some(x) => Some(x@),
            },
            request_write_access: self.request_write_access,
        }
    }
}

impl LoginUrl {
    /// The wire form.
    pub open spec fn encoded_v(v: LoginUrlV) -> JsonV {
        JsonV::Obj(
            seq![
                ("url"@, JsonV::Str(v.url)),
                ("forward_text"@, nullable(opt_str_v(v.forward_text))),
                ("bot_username"@, nullable(opt_str_v(v.bot_username))),
                ("request_write_access"@, nullable(opt_bool_v(v.request_write_access))),
            ],
        )
    }

    /// What the members of an object denote.
    pub open spec fn decoded_fields(es: Seq<(Seq<char>, JsonV)>) -> Result<
        LoginUrlV,
        DecodeError,
    > {
        if sp_req_str(es, "url"@) is Err {
            Err(sp_req_str(es, "url"@)->Err_0)
        } else if sp_opt_str(es, "forward_text"@) is Err {
            Err(sp_opt_str(es, "forward_text"@)->Err_0)
        } else if sp_opt_str(es, "bot_username"@) is Err {
            Err(sp_opt_str(es, "bot_username"@)->Err_0)
        } else if sp_opt_bool(es, "request_write_access"@) is Err {
            Err(sp_opt_bool(es, "request_write_access"@)->Err_0)
        } else {
            Ok(
                LoginUrlV {
                    url: sp_req_str(es, "url"@)->Ok_0,
                    forward_text: sp_opt_str(es, "forward_text"@)->Ok_0,
                    bot_username: sp_opt_str(es, "bot_username"@)->Ok_0,
                    request_write_access: sp_opt_bool(es, "request_write_access"@)->Ok_0,
                },
            )
        }
    }

    /// What a document denotes.
    pub open spec fn decoded(j: JsonV) -> Result<LoginUrlV, DecodeError> {
        match j {
            JsonV::Obj(es) => LoginUrl::decoded_fields(es),
            _ => Err(DecodeError::WrongType),
        }
    }

    /// Encode as an object.
    pub fn to_json(&self) -> (r: Json)
        ensures
            r@ == LoginUrl::encoded_v(self@),
    {
        let j_forward_text = match &self.forward_text {
                    None => Json::Null,
                    Some(x) => Json::Str(x.clone()),
                };
        let j_bot_username = match &self.bot_username {
                    None => Json::Null,
                    Some(x) => Json::Str(x.clone()),
                };
        let j_request_write_access = match &self.request_write_access {
                    None => Json::Null,
                    Some(b) => Json::Bool(*b),
                };
        let out: Vec<(String, Json)> = vec![
            (String::from_str("url"), Json::Str(self.url.clone())),
            (String::from_str("forward_text"), j_forward_text),
            (String::from_str("bot_username"), j_bot_username),
            (String::from_str("request_write_access"), j_request_write_access),
        ];
        proof {
            crate::json::lemma_entries_view_len(out@);
            crate::json::lemma_entries_view_index(out@, 0);
            crate::json::lemma_entries_view_index(out@, 1);
            crate::json::lemma_entries_view_index(out@, 2);
            crate::json::lemma_entries_view_index(out@, 3);
            assert(entries_view(out@) =~= LoginUrl::encoded_v(self@)->Obj_0);
        }
        Json::Obj(out)
    }

    /// Decode from an object.
    pub fn from_json(j: &Json) -> (r: Result<LoginUrl, DecodeError>)
        ensures
            match r {
                Ok(v) => LoginUrl::decoded(j@) == Ok::<_, DecodeError>(v@),
                Err(e) => LoginUrl::decoded(j@) == Err::<LoginUrlV, _>(e),
            },
    {
        match j {
            Json::Obj(entries) => {
                let url = match req_str(entries, "url") {
                                    Err(e) => {
                                        return Err(e);
                                    },
                                    Ok(s) => s,
                                };
                let forward_text = match opt_str(entries, "forward_text") {
                                    Err(e) => {
                                        return Err(e);
                                    },
                                    Ok(v) => v,
                                };
                let bot_username = match opt_str(entries, "bot_username") {
                                    Err(e) => {
                                        return Err(e);
                                    },
                                    Ok(v) => v,
                                };
                let request_write_access = match opt_bool(entries, "request_write_access") {
                                    Err(e) => {
                                        return Err(e);
                                    },
                                    Ok(v) => v,
                                };
                Ok(LoginUrl { url, forward_text, bot_username, request_write_access })
            },
            _ => Err(DecodeError::WrongType),
        }
    }
}

/// The model of what pressing an inline keyboard button does.
pub enum InlineKeyboardButtonPressedV {
    Url(Seq<char>),
    CallbackData(Seq<char>),
    SwitchInlineQuery(Seq<char>),
    SwitchInlineQueryCurrentChat(Seq<char>),
    Pay(bool),
    CallbackGame(crate::bot::games::CallbackGameV),
    LoginUrl(LoginUrlV),
    Unknown,
}

/// What pressing an inline keyboard button does.
///
/// On the wire the branch is a single member of the button object, named
/// after the branch; a button with none of the known member names decodes
/// to `Unknown` rather than failing.
#[derive(Debug, Clone, PartialEq)]
pub enum InlineKeyboardButtonPressed {
    /// HTTP url to be opened when button is pressed
    Url(String),
    /// Data to be sent in a callback query to the bot when button is pressed
    CallbackData(String),
    /// Prompt the user to select a chat and insert an inline query there
    SwitchInlineQuery(String),
    /// Insert an inline query in the current chat's input field
    SwitchInlineQueryCurrentChat(String),
    /// A pay button
    Pay(bool),
    /// A game to be launched when the button is pressed
    CallbackGame(crate::bot::games::CallbackGame),
    /// An HTTP URL used to automatically authorize the user
    LoginUrl(LoginUrl),
    /// Unknown upstream data type.
    Unknown,
}

impl View for InlineKeyboardButtonPressed {
    type V = InlineKeyboardButtonPressedV;

    open spec fn view(&self) -> InlineKeyboardButtonPressedV {
        match self {
            InlineKeyboardButtonPressed::Url(s) => InlineKeyboardButtonPressedV::Url(s@),
            InlineKeyboardButtonPressed::CallbackData(s) => InlineKeyboardButtonPressedV::CallbackData(
                s@,
            ),
            InlineKeyboardButtonPressed::SwitchInlineQuery(s) => InlineKeyboardButtonPressedV::SwitchInlineQuery(
                s@,
            ),
            InlineKeyboardButtonPressed::SwitchInlineQueryCurrentChat(
                s,
            ) => InlineKeyboardButtonPressedV::SwitchInlineQueryCurrentChat(s@),
            InlineKeyboardButtonPressed::Pay(b) => InlineKeyboardButtonPressedV::Pay(*b),
            InlineKeyboardButtonPressed::CallbackGame(g) => InlineKeyboardButtonPressedV::CallbackGame(
                g@,
            ),
            InlineKeyboardButtonPressed::LoginUrl(l) => InlineKeyboardButtonPressedV::LoginUrl(
                l@,
            ),
            InlineKeyboardButtonPressed::Unknown => InlineKeyboardButtonPressedV::Unknown,
        }
    }
}

impl InlineKeyboardButtonPressed {
    /// The wire form: the members this branch adds to the button object.
    /// The `Unknown` branch adds none.
    pub open spec fn encoded_entries(v: InlineKeyboardButtonPressedV) -> Seq<
        (Seq<char>, JsonV),
    > {
        match v {
            InlineKeyboardButtonPressedV::Url(s) => seq![("url"@, JsonV::Str(s))],
            InlineKeyboardButtonPressedV::CallbackData(s) => seq![
                ("callback_data"@, JsonV::Str(s)),
            ],
            InlineKeyboardButtonPressedV::SwitchInlineQuery(s) => seq![
                ("switch_inline_query"@, JsonV::Str(s)),
            ],
            InlineKeyboardButtonPressedV::SwitchInlineQueryCurrentChat(s) => seq![
                ("switch_inline_query_current_chat"@, JsonV::Str(s)),
            ],
            InlineKeyboardButtonPressedV::Pay(b) => seq![("pay"@, JsonV::Bool(b))],
            InlineKeyboardButtonPressedV::CallbackGame(g) => seq![
                ("callback_game"@, crate::bot::games::CallbackGame::encoded_v(g)),
            ],
            InlineKeyboardButtonPressedV::LoginUrl(l) => seq![
                ("login_url"@, LoginUrl::encoded_v(l)),
            ],
            InlineKeyboardButtonPressedV::Unknown => Seq::empty(),
        }
    }

    /// What the members of a button object denote: the known member names
    /// are tried in declaration order, and a button with none of them is
    /// `Unknown`.
    pub open spec fn decoded_fields(es: Seq<(Seq<char>, JsonV)>) -> Result<
        InlineKeyboardButtonPressedV,
        DecodeError,
    > {
        if lookup(es, "url"@) is Some {
            match lookup(es, "url"@)->0 {
                JsonV::Str(s) => Ok(InlineKeyboardButtonPressedV::Url(s)),
                _ => Err(DecodeError::WrongType),
            }
        } else if lookup(es, "callback_data"@) is Some {
            match lookup(es, "callback_data"@)->0 {
                JsonV::Str(s) => Ok(InlineKeyboardButtonPressedV::CallbackData(s)),
                _ => Err(DecodeError::WrongType),
            }
        } else if lookup(es, "switch_inline_query"@) is Some {
            match lookup(es, "switch_inline_query"@)->0 {
                JsonV::Str(s) => Ok(InlineKeyboardButtonPressedV::SwitchInlineQuery(s)),
                _ => Err(DecodeError::WrongType),
            }
        } else if lookup(es, "switch_inline_query_current_chat"@) is Some {
            match lookup(es, "switch_inline_query_current_chat"@)->0 {
                JsonV::Str(s) => Ok(
                    InlineKeyboardButtonPressedV::SwitchInlineQueryCurrentChat(s),
                ),
                _ => Err(DecodeError::WrongType),
            }
        } else if lookup(es, "pay"@) is Some {
            match lookup(es, "pay"@)->0 {
                JsonV::Bool(b) => Ok(InlineKeyboardButtonPressedV::Pay(b)),
                _ => Err(DecodeError::WrongType),
            }
        } else if lookup(es, "callback_game"@) is Some {
            match crate::bot::games::CallbackGame::decoded(lookup(es, "callback_game"@)->0) {
                Err(e) => Err(e),
                Ok(g) => Ok(InlineKeyboardButtonPressedV::CallbackGame(g)),
            }
        } else if lookup(es, "login_url"@) is Some {
            match LoginUrl::decoded(lookup(es, "login_url"@)->0) {
                Err(e) => Err(e),
                Ok(l) => Ok(InlineKeyboardButtonPressedV::LoginUrl(l)),
            }
        } else {
            Ok(InlineKeyboardButtonPressedV::Unknown)
        }
    }

    /// The members this branch adds to the button object.
    pub fn entries_json(&self) -> (r: Vec<(String, Json)>)
        ensures
            entries_view(r@) =~= InlineKeyboardButtonPressed::encoded_entries(self@),
    {
        let mut out: Vec<(String, Json)> = Vec::new();
        match self {
            InlineKeyboardButtonPressed::Url(s) => {
                out.push((String::from_str("url"), Json::Str(s.clone())));
            },
            InlineKeyboardButtonPressed::CallbackData(s) => {
                out.push((String::from_str("callback_data"), Json::Str(s.clone())));
            },
            InlineKeyboardButtonPressed::SwitchInlineQuery(s) => {
                out.push((String::from_str("switch_inline_query"), Json::Str(s.clone())));
            },
            InlineKeyboardButtonPressed::SwitchInlineQueryCurrentChat(s) => {
                out.push(
                    (String::from_str("switch_inline_query_current_chat"), Json::Str(s.clone())),
                );
            },
            InlineKeyboardButtonPressed::Pay(b) => {
                out.push((String::from_str("pay"), Json::Bool(*b)));
            },
            InlineKeyboardButtonPressed::CallbackGame(g) => {
                out.push((String::from_str("callback_game"), g.to_json()));
            },
            InlineKeyboardButtonPressed::LoginUrl(l) => {
                out.push((String::from_str("login_url"), l.to_json()));
            },
            InlineKeyboardButtonPressed::Unknown => {},
        }
        proof {
            crate::json::lemma_entries_view_len(out@);
            if out@.len() > 0 {
                crate::json::lemma_entries_view_index(out@, 0);
            }
        }
        out
    }

    /// Decode from the members of a button object.
    pub fn from_fields(entries: &Vec<(String, Json)>) -> (r: Result<
        InlineKeyboardButtonPressed,
        DecodeError,
    >)
        ensures
            match r {
                Ok(v) => InlineKeyboardButtonPressed::decoded_fields(entries_view(entries@))
                    == Ok::<_, DecodeError>(v@),
                Err(e) => InlineKeyboardButtonPressed::decoded_fields(entries_view(entries@))
                    == Err::<InlineKeyboardButtonPressedV, _>(e),
            },
    {
        if let Some(j) = obj_get(entries, "url") {
            match j {
                Json::Str(s) => Ok(InlineKeyboardButtonPressed::Url(s.clone())),
                _ => Err(DecodeError::WrongType),
            }
        } else if let Some(j) = obj_get(entries, "callback_data") {
            match j {
                Json::Str(s) => Ok(InlineKeyboardButtonPressed::CallbackData(s.clone())),
                _ => Err(DecodeError::WrongType),
            }
        } else if let Some(j) = obj_get(entries, "switch_inline_query") {
            match j {
                Json::Str(s) => Ok(InlineKeyboardButtonPressed::SwitchInlineQuery(s.clone())),
                _ => Err(DecodeError::WrongType),
            }
        } else if let Some(j) = obj_get(entries, "switch_inline_query_current_chat") {
            match j {
                Json::Str(s) => Ok(
                    InlineKeyboardButtonPressed::SwitchInlineQueryCurrentChat(s.clone()),
                ),
                _ => Err(DecodeError::WrongType),
            }
        } else if let Some(j) = obj_get(entries, "pay") {
            match j {
                Json::Bool(b) => Ok(InlineKeyboardButtonPressed::Pay(*b)),
                _ => Err(DecodeError::WrongType),
            }
        } else if let Some(j) = obj_get(entries, "callback_game") {
            match crate::bot::games::CallbackGame::from_json(j) {
                Err(e) => Err(e),
                Ok(g) => Ok(InlineKeyboardButtonPressed::CallbackGame(g)),
            }
        } else if let Some(j) = obj_get(entries, "login_url") {
            match LoginUrl::from_json(j) {
                Err(e) => Err(e),
                Ok(l) => Ok(InlineKeyboardButtonPressed::LoginUrl(l)),
            }
        } else {
            Ok(InlineKeyboardButtonPressed::Unknown)
        }
    }
}

/// The model of one button of an inline keyboard.
pub struct InlineKeyboardButtonV {
    pub text: Seq<char>,
    pub pressed: InlineKeyboardButtonPressedV,
}

/// One button of an inline keyboard: a label, and what pressing it does,
/// the latter written into the button object itself.
#[derive(Debug, Clone, PartialEq)]
pub struct InlineKeyboardButton {
    /// Label text on the button
    pub text: String,
    pub pressed: InlineKeyboardButtonPressed,
}

impl View for InlineKeyboardButton {
    type V = InlineKeyboardButtonV;

    open spec fn view(&self) -> InlineKeyboardButtonV {
        InlineKeyboardButtonV { text: self.text@, pressed: self.pressed@ }
    }
}

impl InlineKeyboardButton {
    /// The wire form: the label, then the branch's members.
    pub open spec fn encoded_v(v: InlineKeyboardButtonV) -> JsonV {
        JsonV::Obj(
            seq![("text"@, JsonV::Str(v.text))]
                + InlineKeyboardButtonPressed::encoded_entries(v.pressed),
        )
    }

    /// What the members of an object denote.
    pub open spec fn decoded_fields(es: Seq<(Seq<char>, JsonV)>) -> Result<
        InlineKeyboardButtonV,
        DecodeError,
    > {
        if sp_req_str(es, "text"@) is Err {
            Err(sp_req_str(es, "text"@)->Err_0)
        } else if InlineKeyboardButtonPressed::decoded_fields(es) is Err {
            Err(InlineKeyboardButtonPressed::decoded_fields(es)->Err_0)
        } else {
            Ok(
                InlineKeyboardButtonV {
                    text: sp_req_str(es, "text"@)->Ok_0,
                    pressed: InlineKeyboardButtonPressed::decoded_fields(es)->Ok_0,
                },
            )
        }
    }

    /// What a document denotes.
    pub open spec fn decoded(j: JsonV) -> Result<InlineKeyboardButtonV, DecodeError> {
        match j {
            JsonV::Obj(es) => InlineKeyboardButton::decoded_fields(es),
            _ => Err(DecodeError::WrongType),
        }
    }

    /// Encode as an object.
    pub fn to_json(&self) -> (r: Json)
        ensures
            r@ == InlineKeyboardButton::encoded_v(self@),
    {
        let mut out: Vec<(String, Json)> = Vec::new();
        out.push((String::from_str("text"), Json::Str(self.text.clone())));
        let ghost first = out@;
        let mut rest = self.pressed.entries_json();
        let ghost restv = rest@;
        out.append(&mut rest);
        proof {
            crate::json::lemma_entries_view_len(first);
            crate::json::lemma_entries_view_index(first, 0);
            crate::json::lemma_entries_view_concat(first, restv);
            assert(entries_view(out@) =~= InlineKeyboardButton::encoded_v(self@)->Obj_0);
        }
        Json::Obj(out)
    }

    /// Decode from an object.
    pub fn from_json(j: &Json) -> (r: Result<InlineKeyboardButton, DecodeError>)
        ensures
            match r {
                Ok(v) => InlineKeyboardButton::decoded(j@) == Ok::<_, DecodeError>(v@),
                Err(e) => InlineKeyboardButton::decoded(j@) == Err::<InlineKeyboardButtonV, _>(
                    e,
                ),
            },
    {
        match j {
            Json::Obj(entries) => {
                let text = match req_str(entries, "text") {
                    Err(e) => {
                        return Err(e);
                    },
                    Ok(s) => s,
                };
                let pressed = match InlineKeyboardButtonPressed::from_fields(entries) {
                    Err(e) => {
                        return Err(e);
                    },
                    Ok(p) => p,
                };
                Ok(InlineKeyboardButton { text, pressed })
            },
            _ => Err(DecodeError::WrongType),
        }
    }
}

impl InlineKeyboardButton {
    /// What a sequence of documents denotes.
    pub open spec fn sp_dec_seq(items: Seq<JsonV>) -> Result<Seq<InlineKeyboardButtonV>, DecodeError>
        decreases items.len(),
    {
        if items.len() == 0 {
            Ok(Seq::empty())
        } else {
            match InlineKeyboardButton::decoded(items[0]) {
                Err(e) => Err(e),
                Ok(h) => match InlineKeyboardButton::sp_dec_seq(items.drop_first()) {
                    Err(e) => Err(e),
                    Ok(t) => Ok(seq![h] + t),
                },
            }
        }
    }

    /// The model of a sequence of values.
    pub open spec fn seq_view(s: Seq<InlineKeyboardButton>) -> Seq<InlineKeyboardButtonV> {
        Seq::new(s.len(), |i: int| s[i]@)
    }

    /// The wire form of a sequence of values.
    pub open spec fn sp_enc_seq(s: Seq<InlineKeyboardButtonV>) -> Seq<JsonV> {
        Seq::new(s.len(), |i: int| InlineKeyboardButton::encoded_v(s[i]))
    }

    /// What an array member that defaults to empty denotes.
    pub open spec fn sp_vec_field(es: Seq<(Seq<char>, JsonV)>, key: Seq<char>) -> Result<
        Seq<InlineKeyboardButtonV>,
        DecodeError,
    > {
        match lookup(es, key) {
            None => Ok(Seq::empty()),
            Some(JsonV::Arr(items)) => InlineKeyboardButton::sp_dec_seq(items),
            Some(_) => Err(DecodeError::WrongType),
        }
    }

    /// Decode an array member that defaults to empty.
    pub fn vec_field(entries: &Vec<(String, Json)>, key: &str) -> (r: Result<
        Vec<InlineKeyboardButton>,
        DecodeError,
    >)
        ensures
            match r {
                Ok(v) => InlineKeyboardButton::sp_vec_field(entries_view(entries@), key@) == Ok::<
                    _,
                    DecodeError,
                >(InlineKeyboardButton::seq_view(v@)),
                Err(e) => InlineKeyboardButton::sp_vec_field(entries_view(entries@), key@) == Err::<
                    Seq<InlineKeyboardButtonV>,
                    _,
                >(e),
            },
    {
        match obj_get(entries, key) {
            None => {
                let empty: Vec<InlineKeyboardButton> = Vec::new();
                proof {
                    assert(InlineKeyboardButton::seq_view(empty@) =~= Seq::<InlineKeyboardButtonV>::empty());
                }
                Ok(empty)
            },
            Some(Json::Arr(items)) => InlineKeyboardButton::vec_from_json(items),
            Some(_) => Err(DecodeError::WrongType),
        }
    }

    /// Decode an array of values.
    #[verifier::loop_isolation(false)]
    pub fn vec_from_json(items: &Vec<Json>) -> (r: Result<Vec<InlineKeyboardButton>, DecodeError>)
        ensures
            match r {
                Ok(v) => InlineKeyboardButton::sp_dec_seq(elems_view(items@)) == Ok::<_, DecodeError>(
                    InlineKeyboardButton::seq_view(v@),
                ),
                Err(e) => InlineKeyboardButton::sp_dec_seq(elems_view(items@)) == Err::<Seq<InlineKeyboardButtonV>, _>(
                    e,
                ),
            },
    {
        let ghost iv = elems_view(items@);
        proof {
            lemma_elems_view_len(items@);
        }
        let mut out: Vec<InlineKeyboardButton> = Vec::new();
        let mut i: usize = 0;
        while i < items.len()
            invariant
                i <= items@.len(),
                out@.len() == i,
                forall|k: int|
                    0 <= k < i ==> InlineKeyboardButton::decoded(iv[k]) == Ok::<_, DecodeError>(out@[k]@),
            decreases items@.len() - i,
        {
            proof {
                lemma_elems_view_index(items@, i as int);
            }
            match InlineKeyboardButton::from_json(&items[i]) {
                Err(e) => {
                    proof {
                        InlineKeyboardButton::lemma_sp_dec_seq_err(iv, i as int);
                    }
                    return Err(e);
                },
                Ok(v) => {
                    out.push(v);
                },
            }
            i += 1;
        }
        proof {
            InlineKeyboardButton::lemma_sp_dec_seq_ok(iv, out@);
        }
        Ok(out)
    }

    /// A failing element fails the whole sequence with its error.
    proof fn lemma_sp_dec_seq_err(items: Seq<JsonV>, i: int)
        requires
            0 <= i < items.len(),
            InlineKeyboardButton::decoded(items[i]) is Err,
            forall|k: int| 0 <= k < i ==> InlineKeyboardButton::decoded(items[k]) is Ok,
        ensures
            InlineKeyboardButton::sp_dec_seq(items) == Err::<Seq<InlineKeyboardButtonV>, _>(
                InlineKeyboardButton::decoded(items[i])->Err_0,
            ),
        decreases items.len(),
    {
        if i > 0 {
            assert(items.drop_first()[i - 1] == items[i]);
            assert(forall|k: int|
                0 <= k < i - 1 ==> items.drop_first()[k] == items[k + 1]
                    && InlineKeyboardButton::decoded(items.drop_first()[k]) is Ok);
            InlineKeyboardButton::lemma_sp_dec_seq_err(items.drop_first(), i - 1);
        }
    }

    /// Elementwise success decodes the whole sequence.
    proof fn lemma_sp_dec_seq_ok(items: Seq<JsonV>, out: Seq<InlineKeyboardButton>)
        requires
            out.len() == items.len(),
            forall|k: int|
                0 <= k < items.len() ==> InlineKeyboardButton::decoded(items[k]) == Ok::<_, DecodeError>(
                    out[k]@,
                ),
        ensures
            InlineKeyboardButton::sp_dec_seq(items) == Ok::<_, DecodeError>(InlineKeyboardButton::seq_view(out)),
        decreases items.len(),
    {
        if items.len() == 0 {
            assert(InlineKeyboardButton::seq_view(out) =~= Seq::<InlineKeyboardButtonV>::empty());
        } else {
            assert(forall|k: int|
                0 <= k < items.drop_first().len() ==> items.drop_first()[k] == items[k + 1]
                    && InlineKeyboardButton::decoded(items.drop_first()[k]) == Ok::<_, DecodeError>(
                    out.drop_first()[k]@,
                ));
            InlineKeyboardButton::lemma_sp_dec_seq_ok(items.drop_first(), out.drop_first());
            assert(InlineKeyboardButton::seq_view(out) =~= seq![out[0]@] + InlineKeyboardButton::seq_view(
                out.drop_first(),
            ));
        }
    }

    /// Encode a sequence of values as an array.
    #[verifier::loop_isolation(false)]
    pub fn vec_to_json(v: &Vec<InlineKeyboardButton>) -> (r: Json)
        ensures
            r@ == JsonV::Arr(InlineKeyboardButton::sp_enc_seq(InlineKeyboardButton::seq_view(v@))),
    {
        let mut out: Vec<Json> = Vec::new();
        let mut i: usize = 0;
        while i < v.len()
            invariant
                i <= v@.len(),
                elems_view(out@) =~= InlineKeyboardButton::sp_enc_seq(InlineKeyboardButton::seq_view(v@)).subrange(
                    0,
                    i as int,
                ),
            decreases v@.len() - i,
        {
            let e = v[i].to_json();
            let ghost prev = out@;
            out.push(e);
            proof {
                lemma_elems_view_push(prev, e);
                assert(elems_view(out@) =~= InlineKeyboardButton::sp_enc_seq(InlineKeyboardButton::seq_view(
                    v@,
                )).subrange(0, i + 1));
            }
            i += 1;
        }
        proof {
            assert(elems_view(out@) =~= InlineKeyboardButton::sp_enc_seq(InlineKeyboardButton::seq_view(v@)));
        }
        Json::Arr(out)
    }
}

impl InlineKeyboardButton {
    /// What one document denotes as a row of buttons.
    pub open spec fn sp_dec_row(j: JsonV) -> Result<Seq<InlineKeyboardButtonV>, DecodeError> {
        match j {
            JsonV::Arr(items) => InlineKeyboardButton::sp_dec_seq(items),
            _ => Err(DecodeError::WrongType),
        }
    }

    /// What a sequence of documents denotes as rows of buttons.
    pub open spec fn sp_dec_rows(items: Seq<JsonV>) -> Result<Seq<Seq<InlineKeyboardButtonV>>, DecodeError>
        decreases items.len(),
    {
        if items.len() == 0 {
            Ok(Seq::empty())
        } else {
            match InlineKeyboardButton::sp_dec_row(items[0]) {
                Err(e) => Err(e),
                Ok(h) => match InlineKeyboardButton::sp_dec_rows(items.drop_first()) {
                    Err(e) => Err(e),
                    Ok(t) => Ok(seq![h] + t),
                },
            }
        }
    }

    /// The model of a sequence of rows.
    pub open spec fn rows_view(s: Seq<Vec<InlineKeyboardButton>>) -> Seq<Seq<InlineKeyboardButtonV>> {
        Seq::new(s.len(), |i: int| InlineKeyboardButton::seq_view(s[i]@))
    }

    /// The wire form of a sequence of rows.
    pub open spec fn sp_enc_rows(s: Seq<Seq<InlineKeyboardButtonV>>) -> Seq<JsonV> {
        Seq::new(s.len(), |i: int| JsonV::Arr(InlineKeyboardButton::sp_enc_seq(s[i])))
    }

    /// What an array-of-rows member that defaults to empty denotes.
    pub open spec fn sp_rows_field(es: Seq<(Seq<char>, JsonV)>, key: Seq<char>) -> Result<
        Seq<Seq<InlineKeyboardButtonV>>,
        DecodeError,
    > {
        match lookup(es, key) {
            None => Ok(Seq::empty()),
            Some(JsonV::Arr(items)) => InlineKeyboardButton::sp_dec_rows(items),
            Some(_) => Err(DecodeError::WrongType),
        }
    }

    /// Decode an array-of-rows member that defaults to empty.
    pub fn rows_field(entries: &Vec<(String, Json)>, key: &str) -> (r: Result<
        Vec<Vec<InlineKeyboardButton>>,
        DecodeError,
    >)
        ensures
            match r {
                Ok(v) => InlineKeyboardButton::sp_rows_field(entries_view(entries@), key@) == Ok::<
                    _,
                    DecodeError,
                >(InlineKeyboardButton::rows_view(v@)),
                Err(e) => InlineKeyboardButton::sp_rows_field(entries_view(entries@), key@) == Err::<
                    Seq<Seq<InlineKeyboardButtonV>>,
                    _,
                >(e),
            },
    {
        match obj_get(entries, key) {
            None => {
                let empty: Vec<Vec<InlineKeyboardButton>> = Vec::new();
                proof {
                    assert(InlineKeyboardButton::rows_view(empty@) =~= Seq::<Seq<InlineKeyboardButtonV>>::empty());
                }
                Ok(empty)
            },
            Some(Json::Arr(items)) => InlineKeyboardButton::rows_from_json(items),
            Some(_) => Err(DecodeError::WrongType),
        }
    }

    /// Decode an array of rows.
    #[verifier::loop_isolation(false)]
    pub fn rows_from_json(items: &Vec<Json>) -> (r: Result<Vec<Vec<InlineKeyboardButton>>, DecodeError>)
        ensures
            match r {
                Ok(v) => InlineKeyboardButton::sp_dec_rows(elems_view(items@)) == Ok::<_, DecodeError>(
                    InlineKeyboardButton::rows_view(v@),
                ),
                Err(e) => InlineKeyboardButton::sp_dec_rows(elems_view(items@)) == Err::<Seq<Seq<InlineKeyboardButtonV>>, _>(
                    e,
                ),
            },
    {
        let ghost iv = elems_view(items@);
        proof {
            lemma_elems_view_len(items@);
        }
        let mut out: Vec<Vec<InlineKeyboardButton>> = Vec::new();
        let mut i: usize = 0;
        while i < items.len()
            invariant
                i <= items@.len(),
                out@.len() == i,
                forall|k: int|
                    0 <= k < i ==> InlineKeyboardButton::sp_dec_row(iv[k]) == Ok::<_, DecodeError>(
                        InlineKeyboardButton::seq_view(out@[k]@),
                    ),
            decreases items@.len() - i,
        {
            proof {
                lemma_elems_view_index(items@, i as int);
            }
            let row = match &items[i] {
                Json::Arr(row_items) => match InlineKeyboardButton::vec_from_json(row_items) {
                    Err(e) => {
                        proof {
                            InlineKeyboardButton::lemma_sp_dec_rows_err(iv, i as int);
                        }
                        return Err(e);
                    },
                    Ok(row) => row,
                },
                _ => {
                    proof {
                        InlineKeyboardButton::lemma_sp_dec_rows_err(iv, i as int);
                    }
                    return Err(DecodeError::WrongType);
                },
            };
            out.push(row);
            i += 1;
        }
        proof {
            InlineKeyboardButton::lemma_sp_dec_rows_ok(iv, out@);
        }
        Ok(out)
    }

    /// A failing row fails the whole sequence with its error.
    proof fn lemma_sp_dec_rows_err(items: Seq<JsonV>, i: int)
        requires
            0 <= i < items.len(),
            InlineKeyboardButton::sp_dec_row(items[i]) is Err,
            forall|k: int| 0 <= k < i ==> InlineKeyboardButton::sp_dec_row(items[k]) is Ok,
        ensures
            InlineKeyboardButton::sp_dec_rows(items) == Err::<Seq<Seq<InlineKeyboardButtonV>>, _>(
                InlineKeyboardButton::sp_dec_row(items[i])->Err_0,
            ),
        decreases items.len(),
    {
        if i > 0 {
            assert(items.drop_first()[i - 1] == items[i]);
            assert(forall|k: int|
                0 <= k < i - 1 ==> items.drop_first()[k] == items[k + 1]
                    && InlineKeyboardButton::sp_dec_row(items.drop_first()[k]) is Ok);
            InlineKeyboardButton::lemma_sp_dec_rows_err(items.drop_first(), i - 1);
        }
    }

    /// Rowwise success decodes the whole sequence.
    proof fn lemma_sp_dec_rows_ok(items: Seq<JsonV>, out: Seq<Vec<InlineKeyboardButton>>)
        requires
            out.len() == items.len(),
            forall|k: int|
                0 <= k < items.len() ==> InlineKeyboardButton::sp_dec_row(items[k]) == Ok::<_, DecodeError>(
                    InlineKeyboardButton::seq_view(out[k]@),
                ),
        ensures
            InlineKeyboardButton::sp_dec_rows(items) == Ok::<_, DecodeError>(InlineKeyboardButton::rows_view(out)),
        decreases items.len(),
    {
        if items.len() == 0 {
            assert(InlineKeyboardButton::rows_view(out) =~= Seq::<Seq<InlineKeyboardButtonV>>::empty());
        } else {
            assert(forall|k: int|
                0 <= k < items.drop_first().len() ==> items.drop_first()[k] == items[k + 1]
                    && InlineKeyboardButton::sp_dec_row(items.drop_first()[k]) == Ok::<_, DecodeError>(
                    InlineKeyboardButton::seq_view(out.drop_first()[k]@),
                ));
            InlineKeyboardButton::lemma_sp_dec_rows_ok(items.drop_first(), out.drop_first());
            assert(InlineKeyboardButton::rows_view(out) =~= seq![InlineKeyboardButton::seq_view(out[0]@)]
                + InlineKeyboardButton::rows_view(out.drop_first()));
        }
    }

    /// Encode a sequence of rows as an array of arrays.
    #[verifier::loop_isolation(false)]
    pub fn rows_to_json(v: &Vec<Vec<InlineKeyboardButton>>) -> (r: Json)
        ensures
            r@ == JsonV::Arr(InlineKeyboardButton::sp_enc_rows(InlineKeyboardButton::rows_view(v@))),
    {
        let mut out: Vec<Json> = Vec::new();
        let mut i: usize = 0;
        while i < v.len()
            invariant
                i <= v@.len(),
                elems_view(out@) =~= InlineKeyboardButton::sp_enc_rows(InlineKeyboardButton::rows_view(v@)).subrange(
                    0,
                    i as int,
                ),
            decreases v@.len() - i,
        {
            let e = InlineKeyboardButton::vec_to_json(&v[i]);
            let ghost prev = out@;
            out.push(e);
            proof {
                lemma_elems_view_push(prev, e);
                assert(elems_view(out@) =~= InlineKeyboardButton::sp_enc_rows(InlineKeyboardButton::rows_view(
                    v@,
                )).subrange(0, i + 1));
            }
            i += 1;
        }
        proof {
            assert(elems_view(out@) =~= InlineKeyboardButton::sp_enc_rows(InlineKeyboardButton::rows_view(v@)));
        }
        Json::Arr(out)
    }
}


/// The model of an inline keyboard.
pub struct InlineKeyboardMarkupV {
    pub inline_keyboard: Seq<Seq<InlineKeyboardButtonV>>,
}

/// An inline keyboard that appears right next to the message it belongs
/// to, as rows of buttons.
#[derive(Debug, Clone, PartialEq)]
pub struct InlineKeyboardMarkup {
    /// Array of button rows
    pub inline_keyboard: Vec<Vec<InlineKeyboardButton>>,
}

impl View for InlineKeyboardMarkup {
    type V = InlineKeyboardMarkupV;

    open spec fn view(&self) -> InlineKeyboardMarkupV {
        InlineKeyboardMarkupV {
            inline_keyboard: InlineKeyboardButton::rows_view(self.inline_keyboard@),
        }
    }
}

impl InlineKeyboardMarkup {
    /// The wire form.
    pub open spec fn encoded_v(v: InlineKeyboardMarkupV) -> JsonV {
        JsonV::Obj(
            seq![
                (
                    "inline_keyboard"@,
                    JsonV::Arr(InlineKeyboardButton::sp_enc_rows(v.inline_keyboard)),
                ),
            ],
        )
    }

    /// What the members of an object denote; a missing keyboard member is
    /// an empty keyboard.
    pub open spec fn decoded_fields(es: Seq<(Seq<char>, JsonV)>) -> Result<
        InlineKeyboardMarkupV,
        DecodeError,
    > {
        if InlineKeyboardButton::sp_rows_field(es, "inline_keyboard"@) is Err {
            Err(InlineKeyboardButton::sp_rows_field(es, "inline_keyboard"@)->Err_0)
        } else {
            Ok(
                InlineKeyboardMarkupV {
                    inline_keyboard: InlineKeyboardButton::sp_rows_field(
                        es,
                        "inline_keyboard"@,
                    )->Ok_0,
                },
            )
        }
    }

    /// What a document denotes.
    pub open spec fn decoded(j: JsonV) -> Result<InlineKeyboardMarkupV, DecodeError> {
        match j {
            JsonV::Obj(es) => InlineKeyboardMarkup::decoded_fields(es),
            _ => Err(DecodeError::WrongType),
        }
    }

    /// Encode as an object.
    pub fn to_json(&self) -> (r: Json)
        ensures
            r@ == InlineKeyboardMarkup::encoded_v(self@),
    {
        let out: Vec<(String, Json)> = vec![
            (
                String::from_str("inline_keyboard"),
                InlineKeyboardButton::rows_to_json(&self.inline_keyboard),
            ),
        ];
        proof {
            crate::json::lemma_entries_view_len(out@);
            crate::json::lemma_entries_view_index(out@, 0);
            assert(entries_view(out@) =~= InlineKeyboardMarkup::encoded_v(self@)->Obj_0);
        }
        Json::Obj(out)
    }

    /// Decode from an object.
    pub fn from_json(j: &Json) -> (r: Result<InlineKeyboardMarkup, DecodeError>)
        ensures
            match r {
                Ok(v) => InlineKeyboardMarkup::decoded(j@) == Ok::<_, DecodeError>(v@),
                Err(e) => InlineKeyboardMarkup::decoded(j@) == Err::<InlineKeyboardMarkupV, _>(
                    e,
                ),
            },
    {
        match j {
            Json::Obj(entries) => {
                let inline_keyboard = match InlineKeyboardButton::rows_field(
                    entries,
                    "inline_keyboard",
                ) {
                    Err(e) => {
                        return Err(e);
                    },
                    Ok(v) => v,
                };
                Ok(InlineKeyboardMarkup { inline_keyboard })
            },
            _ => Err(DecodeError::WrongType),
        }
    }

    /// What an optional member denotes.
    pub open spec fn sp_opt_field(es: Seq<(Seq<char>, JsonV)>, key: Seq<char>) -> Result<
        Option<InlineKeyboardMarkupV>,
        DecodeError,
    > {
        match lookup(es, key) {
            None => Ok(None),
            Some(JsonV::Null) => Ok(None),
            Some(j) => match InlineKeyboardMarkup::decoded(j) {
                Err(e) => Err(e),
                Ok(v) => Ok(Some(v)),
            },
        }
    }

    /// Decode an optional member.
    pub fn opt_field(entries: &Vec<(String, Json)>, key: &str) -> (r: Result<
        Option<InlineKeyboardMarkup>,
        DecodeError,
    >)
        ensures
            match r {
                Ok(None) => InlineKeyboardMarkup::sp_opt_field(entries_view(entries@), key@)
                    == Ok::<Option<InlineKeyboardMarkupV>, DecodeError>(None),
                Ok(Some(v)) => InlineKeyboardMarkup::sp_opt_field(entries_view(entries@), key@)
                    == Ok::<_, DecodeError>(Some(v@)),
                Err(e) => InlineKeyboardMarkup::sp_opt_field(entries_view(entries@), key@)
                    == Err::<Option<InlineKeyboardMarkupV>, _>(e),
            },
    {
        match obj_get(entries, key) {
            None => Ok(None),
            Some(Json::Null) => Ok(None),
            Some(j) => match InlineKeyboardMarkup::from_json(j) {
                Err(e) => Err(e),
                Ok(v) => Ok(Some(v)),
            },
        }
    }
}

/// The model of a custom reply keyboard.
pub struct ReplyKeyboardMarkupV {
    pub keyboard: Seq<Seq<KeyboardButtonV>>,
    pub resize_keyboard: Option<bool>,
    pub one_time_keyboard: Option<bool>,
    pub selective: Option<bool>,
}

/// A custom keyboard with reply options, as rows of buttons.
#[derive(Debug, Clone, PartialEq)]
pub struct ReplyKeyboardMarkup {
    /// Array of button rows
    pub keyboard: Vec<Vec<KeyboardButton>>,
    /// Requests clients to resize the keyboard vertically for optimal fit
    pub resize_keyboard: Option<bool>,
    /// Requests clients to hide the keyboard as soon as it has been used
    pub one_time_keyboard: Option<bool>,
    /// Show the keyboard to specific users only
    pub selective: Option<bool>,
}

impl View for ReplyKeyboardMarkup {
    type V = ReplyKeyboardMarkupV;

    open spec fn view(&self) -> ReplyKeyboardMarkupV {
        ReplyKeyboardMarkupV {
            keyboard: KeyboardButton::rows_view(self.keyboard@),
            resize_keyboard: self.resize_keyboard,
            one_time_keyboard: self.one_time_keyboard,
            selective: self.selective,
        }
    }
}

impl ReplyKeyboardMarkup {
    /// The wire form.
    pub open spec fn encoded_v(v: ReplyKeyboardMarkupV) -> JsonV {
        JsonV::Obj(
            seq![
                ("keyboard"@, JsonV::Arr(KeyboardButton::sp_enc_rows(v.keyboard))),
                ("resize_keyboard"@, nullable(opt_bool_v(v.resize_keyboard))),
                ("one_time_keyboard"@, nullable(opt_bool_v(v.one_time_keyboard))),
                ("selective"@, nullable(opt_bool_v(v.selective))),
            ],
        )
    }

    /// What the members of an object denote; a missing keyboard member is
    /// an empty keyboard.
    pub open spec fn decoded_fields(es: Seq<(Seq<char>, JsonV)>) -> Result<
        ReplyKeyboardMarkupV,
        DecodeError,
    > {
        if KeyboardButton::sp_rows_field(es, "keyboard"@) is Err {
            Err(KeyboardButton::sp_rows_field(es, "keyboard"@)->Err_0)
        } else if sp_opt_bool(es, "resize_keyboard"@) is Err {
            Err(sp_opt_bool(es, "resize_keyboard"@)->Err_0)
        } else if sp_opt_bool(es, "one_time_keyboard"@) is Err {
            Err(sp_opt_bool(es, "one_time_keyboard"@)->Err_0)
        } else if sp_opt_bool(es, "selective"@) is Err {
            Err(sp_opt_bool(es, "selective"@)->Err_0)
        } else {
            Ok(
                ReplyKeyboardMarkupV {
                    keyboard: KeyboardButton::sp_rows_field(es, "keyboard"@)->Ok_0,
                    resize_keyboard: sp_opt_bool(es, "resize_keyboard"@)->Ok_0,
                    one_time_keyboard: sp_opt_bool(es, "one_time_keyboard"@)->Ok_0,
                    selective: sp_opt_bool(es, "selective"@)->Ok_0,
                },
            )
        }
    }

    /// What a document denotes.
    pub open spec fn decoded(j: JsonV) -> Result<ReplyKeyboardMarkupV, DecodeError> {
        match j {
            JsonV::Obj(es) => ReplyKeyboardMarkup::decoded_fields(es),
            _ => Err(DecodeError::WrongType),
        }
    }

    /// Encode as an object.
    pub fn to_json(&self) -> (r: Json)
        ensures
            r@ == ReplyKeyboardMarkup::encoded_v(self@),
    {
        let j_resize = match &self.resize_keyboard {
            None => Json::Null,
            Some(b) => Json::Bool(*b),
        };
        let j_one_time = match &self.one_time_keyboard {
            None => Json::Null,
            Some(b) => Json::Bool(*b),
        };
        let j_selective = match &self.selective {
            None => Json::Null,
            Some(b) => Json::Bool(*b),
        };
        let out: Vec<(String, Json)> = vec![
            (String::from_str("keyboard"), KeyboardButton::rows_to_json(&self.keyboard)),
            (String::from_str("resize_keyboard"), j_resize),
            (String::from_str("one_time_keyboard"), j_one_time),
            (String::from_str("selective"), j_selective),
        ];
        proof {
            crate::json::lemma_entries_view_len(out@);
            crate::json::lemma_entries_view_index(out@, 0);
            crate::json::lemma_entries_view_index(out@, 1);
            crate::json::lemma_entries_view_index(out@, 2);
            crate::json::lemma_entries_view_index(out@, 3);
            assert(entries_view(out@) =~= ReplyKeyboardMarkup::encoded_v(self@)->Obj_0);
        }
        Json::Obj(out)
    }

    /// Decode from an object.
    pub fn from_json(j: &Json) -> (r: Result<ReplyKeyboardMarkup, DecodeError>)
        ensures
            match r {
                Ok(v) => ReplyKeyboardMarkup::decoded(j@) == Ok::<_, DecodeError>(v@),
                Err(e) => ReplyKeyboardMarkup::decoded(j@) == Err::<ReplyKeyboardMarkupV, _>(
                    e,
                ),
            },
    {
        match j {
            Json::Obj(entries) => {
                let keyboard = match KeyboardButton::rows_field(entries, "keyboard") {
                    Err(e) => {
                        return Err(e);
                    },
                    Ok(v) => v,
                };
                let resize_keyboard = match opt_bool(entries, "resize_keyboard") {
                    Err(e) => {
                        return Err(e);
                    },
                    Ok(v) => v,
                };
                let one_time_keyboard = match opt_bool(entries, "one_time_keyboard") {
                    Err(e) => {
                        return Err(e);
                    },
                    Ok(v) => v,
                };
                let selective = match opt_bool(entries, "selective") {
                    Err(e) => {
                        return Err(e);
                    },
                    Ok(v) => v,
                };
                Ok(
                    ReplyKeyboardMarkup {
                        keyboard,
                        resize_keyboard,
                        one_time_keyboard,
                        selective,
                    },
                )
            },
            _ => Err(DecodeError::WrongType),
        }
    }
}

/// The model of a sticker.
pub struct StickerV {
    pub file_id: Seq<char>,
    pub width: int,
    pub height: int,
    pub thumb: Option<PhotoSizeV>,
    pub emoji: Option<Seq<char>>,
    pub set_name: Option<Seq<char>>,
    pub mask_position: Option<JsonV>,
    pub file_size: int,
}

/// A sticker.
#[derive(Debug, Clone, PartialEq)]
pub struct Sticker {
    pub file_id: FileId,
    pub width: i32,
    pub height: i32,
    pub thumb: Option<PhotoSize>,
    /// Emoji associated with the sticker
    pub emoji: Option<String>,
    /// Name of the sticker set to which the sticker belongs
    pub set_name: Option<String>,
    /// For mask stickers, the position where the mask should be placed, carried through as a raw document (its coordinates are fractional)
    pub mask_position: Option<Json>,
    pub file_size: i32,
}

impl View for Sticker {
    type V = StickerV;

    open spec fn view(&self) -> StickerV {
        StickerV {
            file_id: self.file_id.0@,
            width: self.width as int,
            height: self.height as int,
            thumb: match &self.thumb {
                None => None,
                Some(x) => Some(x@),
            },
            emoji: match &self.emoji {
                None => None,
                Some(x) => Some(x@),
            },
            set_name: match &self.set_name {
                None => None,
                Some(x) => Some(x@),
            },
            mask_position: match &self.mask_position {
                None => None,
                Some(x) => Some(x@),
            },
            file_size: self.file_size as int,
        }
    }
}

impl Sticker {
    /// The wire form.
    pub open spec fn encoded_v(v: StickerV) -> JsonV {
        JsonV::Obj(
            seq![
                ("file_id"@, JsonV::Str(v.file_id)),
                ("width"@, JsonV::Int(v.width)),
                ("height"@, JsonV::Int(v.height)),
                ("thumb"@, nullable(match v.thumb {
                    None => None,
                    Some(x) => Some(PhotoSize::encoded_v(x)),
                })),
                ("emoji"@, nullable(opt_str_v(v.emoji))),
                ("set_name"@, nullable(opt_str_v(v.set_name))),
                ("mask_position"@, nullable(v.mask_position)),
                ("file_size"@, JsonV::Int(v.file_size)),
            ],
        )
    }

    /// What the members of an object denote.
    pub open spec fn decoded_fields(es: Seq<(Seq<char>, JsonV)>) -> Result<
        StickerV,
        DecodeError,
    > {
        if sp_req_str(es, "file_id"@) is Err {
            Err(sp_req_str(es, "file_id"@)->Err_0)
        } else if sp_req_i32(es, "width"@) is Err {
            Err(sp_req_i32(es, "width"@)->Err_0)
        } else if sp_req_i32(es, "height"@) is Err {
            Err(sp_req_i32(es, "height"@)->Err_0)
        } else if PhotoSize::sp_opt_field(es, "thumb"@) is Err {
            Err(PhotoSize::sp_opt_field(es, "thumb"@)->Err_0)
        } else if sp_opt_str(es, "emoji"@) is Err {
            Err(sp_opt_str(es, "emoji"@)->Err_0)
        } else if sp_opt_str(es, "set_name"@) is Err {
            Err(sp_opt_str(es, "set_name"@)->Err_0)
        } else if sp_req_i32(es, "file_size"@) is Err {
            Err(sp_req_i32(es, "file_size"@)->Err_0)
        } else {
            Ok(
                StickerV {
                    file_id: sp_req_str(es, "file_id"@)->Ok_0,
                    width: sp_req_i32(es, "width"@)->Ok_0,
                    height: sp_req_i32(es, "height"@)->Ok_0,
                    thumb: PhotoSize::sp_opt_field(es, "thumb"@)->Ok_0,
                    emoji: sp_opt_str(es, "emoji"@)->Ok_0,
                    set_name: sp_opt_str(es, "set_name"@)->Ok_0,
                    mask_position: sp_opt_raw(es, "mask_position"@),
                    file_size: sp_req_i32(es, "file_size"@)->Ok_0,
                },
            )
        }
    }

    /// What a document denotes.
    pub open spec fn decoded(j: JsonV) -> Result<StickerV, DecodeError> {
        match j {
            JsonV::Obj(es) => Sticker::decoded_fields(es),
            _ => Err(DecodeError::WrongType),
        }
    }

    /// Encode as an object.
    pub fn to_json(&self) -> (r: Json)
        ensures
            r@ == Sticker::encoded_v(self@),
    {
        let j_thumb = match &self.thumb {
                    None => Json::Null,
                    Some(x) => x.to_json(),
                };
        let j_emoji = match &self.emoji {
                    None => Json::Null,
                    Some(x) => Json::Str(x.clone()),
                };
        let j_set_name = match &self.set_name {
                    None => Json::Null,
                    Some(x) => Json::Str(x.clone()),
                };
        let j_mask_position = match &self.mask_position {
                    None => Json::Null,
                    Some(x) => x.deep_clone(),
                };
        let out: Vec<(String, Json)> = vec![
            (String::from_str("file_id"), Json::Str(self.file_id.0.clone())),
            (String::from_str("width"), Json::Int(self.width as i64)),
            (String::from_str("height"), Json::Int(self.height as i64)),
            (String::from_str("thumb"), j_thumb),
            (String::from_str("emoji"), j_emoji),
            (String::from_str("set_name"), j_set_name),
            (String::from_str("mask_position"), j_mask_position),
            (String::from_str("file_size"), Json::Int(self.file_size as i64)),
        ];
        proof {
            crate::json::lemma_entries_view_len(out@);
            crate::json::lemma_entries_view_index(out@, 0);
            crate::json::lemma_entries_view_index(out@, 1);
            crate::json::lemma_entries_view_index(out@, 2);
            crate::json::lemma_entries_view_index(out@, 3);
            crate::json::lemma_entries_view_index(out@, 4);
            crate::json::lemma_entries_view_index(out@, 5);
            crate::json::lemma_entries_view_index(out@, 6);
            crate::json::lemma_entries_view_index(out@, 7);
            assert(entries_view(out@) =~= Sticker::encoded_v(self@)->Obj_0);
        }
        Json::Obj(out)
    }

    /// Decode from an object.
    pub fn from_json(j: &Json) -> (r: Result<Sticker, DecodeError>)
        ensures
            match r {
                Ok(v) => Sticker::decoded(j@) == Ok::<_, DecodeError>(v@),
                Err(e) => Sticker::decoded(j@) == Err::<StickerV, _>(e),
            },
    {
        match j {
            Json::Obj(entries) => {
                let file_id = match req_str(entries, "file_id") {
                                    Err(e) => {
                                        return Err(e);
                                    },
                                    Ok(s) => FileId(s),
                                };
                let width = match req_i32(entries, "width") {
                                    Err(e) => {
                                        return Err(e);
                                    },
                                    Ok(n) => n,
                                };
                let height = match req_i32(entries, "height") {
                                    Err(e) => {
                                        return Err(e);
                                    },
                                    Ok(n) => n,
                                };
                let thumb = match PhotoSize::opt_field(entries, "thumb") {
                                    Err(e) => {
                                        return Err(e);
                                    },
                                    Ok(v) => v,
                                };
                let emoji = match opt_str(entries, "emoji") {
                                    Err(e) => {
                                        return Err(e);
                                    },
                                    Ok(v) => v,
                                };
                let set_name = match opt_str(entries, "set_name") {
                                    Err(e) => {
                                        return Err(e);
                                    },
                                    Ok(v) => v,
                                };
                let mask_position = crate::json::opt_raw(entries, "mask_position");
                let file_size = match req_i32(entries, "file_size") {
                                    Err(e) => {
                                        return Err(e);
                                    },
                                    Ok(n) => n,
                                };
                Ok(Sticker { file_id, width, height, thumb, emoji, set_name, mask_position, file_size })
            },
            _ => Err(DecodeError::WrongType),
        }
    }
}

impl Sticker {
    /// What an optional member denotes.
    pub open spec fn sp_opt_field(es: Seq<(Seq<char>, JsonV)>, key: Seq<char>) -> Result<
        Option<StickerV>,
        DecodeError,
    > {
        match lookup(es, key) {
            None => Ok(None),
            Some(JsonV::Null) => Ok(None),
            Some(j) => match Sticker::decoded(j) {
                Err(e) => Err(e),
                Ok(v) => Ok(Some(v)),
            },
        }
    }

    /// Decode an optional member.
    pub fn opt_field(entries: &Vec<(String, Json)>, key: &str) -> (r: Result<
        Option<Sticker>,
        DecodeError,
    >)
        ensures
            match r {
                Ok(None) => Sticker::sp_opt_field(entries_view(entries@), key@) == Ok::<
                    Option<StickerV>,
                    DecodeError,
                >(None),
                Ok(Some(v)) => Sticker::sp_opt_field(entries_view(entries@), key@) == Ok::<
                    _,
                    DecodeError,
                >(Some(v@)),
                Err(e) => Sticker::sp_opt_field(entries_view(entries@), key@) == Err::<
                    Option<StickerV>,
                    _,
                >(e),
            },
    {
        match obj_get(entries, key) {
            None => Ok(None),
            Some(Json::Null) => Ok(None),
            Some(j) => match Sticker::from_json(j) {
                Err(e) => Err(e),
                Ok(v) => Ok(Some(v)),
            },
        }
    }
}

impl Sticker {
    /// What a sequence of documents denotes.
    pub open spec fn sp_dec_seq(items: Seq<JsonV>) -> Result<Seq<StickerV>, DecodeError>
        decreases items.len(),
    {
        if items.len() == 0 {
            Ok(Seq::empty())
        } else {
            match Sticker::decoded(items[0]) {
                Err(e) => Err(e),
                Ok(h) => match Sticker::sp_dec_seq(items.drop_first()) {
                    Err(e) => Err(e),
                    Ok(t) => Ok(seq![h] + t),
                },
            }
        }
    }

    /// The model of a sequence of values.
    pub open spec fn seq_view(s: Seq<Sticker>) -> Seq<StickerV> {
        Seq::new(s.len(), |i: int| s[i]@)
    }

    /// The wire form of a sequence of values.
    pub open spec fn sp_enc_seq(s: Seq<StickerV>) -> Seq<JsonV> {
        Seq::new(s.len(), |i: int| Sticker::encoded_v(s[i]))
    }

    /// What an array member that defaults to empty denotes.
    pub open spec fn sp_vec_field(es: Seq<(Seq<char>, JsonV)>, key: Seq<char>) -> Result<
        Seq<StickerV>,
        DecodeError,
    > {
        match lookup(es, key) {
            None => Ok(Seq::empty()),
            Some(JsonV::Arr(items)) => Sticker::sp_dec_seq(items),
            Some(_) => Err(DecodeError::WrongType),
        }
    }

    /// Decode an array member that defaults to empty.
    pub fn vec_field(entries: &Vec<(String, Json)>, key: &str) -> (r: Result<
        Vec<Sticker>,
        DecodeError,
    >)
        ensures
            match r {
                Ok(v) => Sticker::sp_vec_field(entries_view(entries@), key@) == Ok::<
                    _,
                    DecodeError,
                >(Sticker::seq_view(v@)),
                Err(e) => Sticker::sp_vec_field(entries_view(entries@), key@) == Err::<
                    Seq<StickerV>,
                    _,
                >(e),
            },
    {
        match obj_get(entries, key) {
            None => {
                let empty: Vec<Sticker> = Vec::new();
                proof {
                    assert(Sticker::seq_view(empty@) =~= Seq::<StickerV>::empty());
                }
                Ok(empty)
            },
            Some(Json::Arr(items)) => Sticker::vec_from_json(items),
            Some(_) => Err(DecodeError::WrongType),
        }
    }

    /// Decode an array of values.
    #[verifier::loop_isolation(false)]
    pub fn vec_from_json(items: &Vec<Json>) -> (r: Result<Vec<Sticker>, DecodeError>)
        ensures
            match r {
                Ok(v) => Sticker::sp_dec_seq(elems_view(items@)) == Ok::<_, DecodeError>(
                    Sticker::seq_view(v@),
                ),
                Err(e) => Sticker::sp_dec_seq(elems_view(items@)) == Err::<Seq<StickerV>, _>(
                    e,
                ),
            },
    {
        let ghost iv = elems_view(items@);
        proof {
            lemma_elems_view_len(items@);
        }
        let mut out: Vec<Sticker> = Vec::new();
        let mut i: usize = 0;
        while i < items.len()
            invariant
                i <= items@.len(),
                out@.len() == i,
                forall|k: int|
                    0 <= k < i ==> Sticker::decoded(iv[k]) == Ok::<_, DecodeError>(out@[k]@),
            decreases items@.len() - i,
        {
            proof {
                lemma_elems_view_index(items@, i as int);
            }
            match Sticker::from_json(&items[i]) {
                Err(e) => {
                    proof {
                        Sticker::lemma_sp_dec_seq_err(iv, i as int);
                    }
                    return Err(e);
                },
                Ok(v) => {
                    out.push(v);
                },
            }
            i += 1;
        }
        proof {
            Sticker::lemma_sp_dec_seq_ok(iv, out@);
        }
        Ok(out)
    }

    /// A failing element fails the whole sequence with its error.
    proof fn lemma_sp_dec_seq_err(items: Seq<JsonV>, i: int)
        requires
            0 <= i < items.len(),
            Sticker::decoded(items[i]) is Err,
            forall|k: int| 0 <= k < i ==> Sticker::decoded(items[k]) is Ok,
        ensures
            Sticker::sp_dec_seq(items) == Err::<Seq<StickerV>, _>(
                Sticker::decoded(items[i])->Err_0,
            ),
        decreases items.len(),
    {
        if i > 0 {
            assert(items.drop_first()[i - 1] == items[i]);
            assert(forall|k: int|
                0 <= k < i - 1 ==> items.drop_first()[k] == items[k + 1]
                    && Sticker::decoded(items.drop_first()[k]) is Ok);
            Sticker::lemma_sp_dec_seq_err(items.drop_first(), i - 1);
        }
    }

    /// Elementwise success decodes the whole sequence.
    proof fn lemma_sp_dec_seq_ok(items: Seq<JsonV>, out: Seq<Sticker>)
        requires
            out.len() == items.len(),
            forall|k: int|
                0 <= k < items.len() ==> Sticker::decoded(items[k]) == Ok::<_, DecodeError>(
                    out[k]@,
                ),
        ensures
            Sticker::sp_dec_seq(items) == Ok::<_, DecodeError>(Sticker::seq_view(out)),
        decreases items.len(),
    {
        if items.len() == 0 {
            assert(Sticker::seq_view(out) =~= Seq::<StickerV>::empty());
        } else {
            assert(forall|k: int|
                0 <= k < items.drop_first().len() ==> items.drop_first()[k] == items[k + 1]
                    && Sticker::decoded(items.drop_first()[k]) == Ok::<_, DecodeError>(
                    out.drop_first()[k]@,
                ));
            Sticker::lemma_sp_dec_seq_ok(items.drop_first(), out.drop_first());
            assert(Sticker::seq_view(out) =~= seq![out[0]@] + Sticker::seq_view(
                out.drop_first(),
            ));
        }
    }

    /// Encode a sequence of values as an array.
    #[verifier::loop_isolation(false)]
    pub fn vec_to_json(v: &Vec<Sticker>) -> (r: Json)
        ensures
            r@ == JsonV::Arr(Sticker::sp_enc_seq(Sticker::seq_view(v@))),
    {
        let mut out: Vec<Json> = Vec::new();
        let mut i: usize = 0;
        while i < v.len()
            invariant
                i <= v@.len(),
                elems_view(out@) =~= Sticker::sp_enc_seq(Sticker::seq_view(v@)).subrange(
                    0,
                    i as int,
                ),
            decreases v@.len() - i,
        {
            let e = v[i].to_json();
            let ghost prev = out@;
            out.push(e);
            proof {
                lemma_elems_view_push(prev, e);
                assert(elems_view(out@) =~= Sticker::sp_enc_seq(Sticker::seq_view(
                    v@,
                )).subrange(0, i + 1));
            }
            i += 1;
        }
        proof {
            assert(elems_view(out@) =~= Sticker::sp_enc_seq(Sticker::seq_view(v@)));
        }
        Json::Arr(out)
    }
}

/// The model of a sticker set.
pub struct StickerSetV {
    pub name: Seq<char>,
    pub title: Seq<char>,
    pub contains_masks: bool,
    pub stickers: Seq<StickerV>,
}

/// A sticker set.
#[derive(Debug, Clone, PartialEq)]
pub struct StickerSet {
    pub name: String,
    pub title: String,
    pub contains_masks: bool,
    pub stickers: Vec<Sticker>,
}

impl View for StickerSet {
    type V = StickerSetV;

    open spec fn view(&self) -> StickerSetV {
        StickerSetV {
            name: self.name@,
            title: self.title@,
            contains_masks: self.contains_masks,
            stickers: Sticker::seq_view(self.stickers@),
        }
    }
}

impl StickerSet {
    /// The wire form.
    pub open spec fn encoded_v(v: StickerSetV) -> JsonV {
        JsonV::Obj(
            seq![
                ("name"@, JsonV::Str(v.name)),
                ("title"@, JsonV::Str(v.title)),
                ("contains_masks"@, JsonV::Bool(v.contains_masks)),
                ("stickers"@, JsonV::Arr(Sticker::sp_enc_seq(v.stickers))),
            ],
        )
    }

    /// What the members of an object denote.
    pub open spec fn decoded_fields(es: Seq<(Seq<char>, JsonV)>) -> Result<
        StickerSetV,
        DecodeError,
    > {
        if sp_req_str(es, "name"@) is Err {
            Err(sp_req_str(es, "name"@)->Err_0)
        } else if sp_req_str(es, "title"@) is Err {
            Err(sp_req_str(es, "title"@)->Err_0)
        } else if sp_req_bool(es, "contains_masks"@) is Err {
            Err(sp_req_bool(es, "contains_masks"@)->Err_0)
        } else if Sticker::sp_vec_field(es, "stickers"@) is Err {
            Err(Sticker::sp_vec_field(es, "stickers"@)->Err_0)
        } else {
            Ok(
                StickerSetV {
                    name: sp_req_str(es, "name"@)->Ok_0,
                    title: sp_req_str(es, "title"@)->Ok_0,
                    contains_masks: sp_req_bool(es, "contains_masks"@)->Ok_0,
                    stickers: Sticker::sp_vec_field(es, "stickers"@)->Ok_0,
                },
            )
        }
    }

    /// What a document denotes.
    pub open spec fn decoded(j: JsonV) -> Result<StickerSetV, DecodeError> {
        match j {
            JsonV::Obj(es) => StickerSet::decoded_fields(es),
            _ => Err(DecodeError::WrongType),
        }
    }

    /// Encode as an object.
    pub fn to_json(&self) -> (r: Json)
        ensures
            r@ == StickerSet::encoded_v(self@),
    {
        let out: Vec<(String, Json)> = vec![
            (String::from_str("name"), Json::Str(self.name.clone())),
            (String::from_str("title"), Json::Str(self.title.clone())),
            (String::from_str("contains_masks"), Json::Bool(self.contains_masks)),
            (String::from_str("stickers"), Sticker::vec_to_json(&self.stickers)),
        ];
        proof {
            crate::json::lemma_entries_view_len(out@);
            crate::json::lemma_entries_view_index(out@, 0);
            crate::json::lemma_entries_view_index(out@, 1);
            crate::json::lemma_entries_view_index(out@, 2);
            crate::json::lemma_entries_view_index(out@, 3);
            assert(entries_view(out@) =~= StickerSet::encoded_v(self@)->Obj_0);
        }
        Json::Obj(out)
    }

    /// Decode from an object.
    pub fn from_json(j: &Json) -> (r: Result<StickerSet, DecodeError>)
        ensures
            match r {
                Ok(v) => StickerSet::decoded(j@) == Ok::<_, DecodeError>(v@),
                Err(e) => StickerSet::decoded(j@) == Err::<StickerSetV, _>(e),
            },
    {
        match j {
            Json::Obj(entries) => {
                let name = match req_str(entries, "name") {
                                    Err(e) => {
                                        return Err(e);
                                    },
                                    Ok(s) => s,
                                };
                let title = match req_str(entries, "title") {
                                    Err(e) => {
                                        return Err(e);
                                    },
                                    Ok(s) => s,
                                };
                let contains_masks = match req_bool(entries, "contains_masks") {
                                    Err(e) => {
                                        return Err(e);
                                    },
                                    Ok(b) => b,
                                };
                let stickers = match Sticker::vec_field(entries, "stickers") {
                                    Err(e) => {
                                        return Err(e);
                                    },
                                    Ok(v) => v,
                                };
                Ok(StickerSet { name, title, contains_masks, stickers })
            },
            _ => Err(DecodeError::WrongType),
        }
    }
}

/// The model of information about one member of a chat.
pub struct ChatMemberV {
    pub user: UserV,
    pub status: ChatMemberStatus,
    pub until_date: Option<int>,
    pub can_be_edited: Option<bool>,
    pub can_change_info: Option<bool>,
    pub can_post_messages: Option<bool>,
    pub can_edit_messages: Option<bool>,
    pub can_delete_messages: Option<bool>,
    pub can_invite_users: Option<bool>,
    pub can_restrict_members: Option<bool>,
    pub can_pin_messages: Option<bool>,
    pub can_promote_members: Option<bool>,
    pub is_member: Option<bool>,
    pub can_send_messages: Option<bool>,
    pub can_send_media_messages: Option<bool>,
    pub can_send_other_messages: Option<bool>,
    pub can_add_web_page_previews: Option<bool>,
}

/// Information about one member of a chat.
#[derive(Debug, Clone, PartialEq)]
pub struct ChatMember {
    pub user: Box<User>,
    pub status: ChatMemberStatus,
    pub until_date: Option<Time>,
    pub can_be_edited: Option<bool>,
    pub can_change_info: Option<bool>,
    pub can_post_messages: Option<bool>,
    pub can_edit_messages: Option<bool>,
    pub can_delete_messages: Option<bool>,
    pub can_invite_users: Option<bool>,
    pub can_restrict_members: Option<bool>,
    pub can_pin_messages: Option<bool>,
    pub can_promote_members: Option<bool>,
    pub is_member: Option<bool>,
    pub can_send_messages: Option<bool>,
    pub can_send_media_messages: Option<bool>,
    pub can_send_other_messages: Option<bool>,
    pub can_add_web_page_previews: Option<bool>,
}

impl View for ChatMember {
    type V = ChatMemberV;

    open spec fn view(&self) -> ChatMemberV {
        ChatMemberV {
            user: self.user@,
            status: self.status,
            until_date: match self.until_date {
                None => None,
                Some(t) => Some(t.0 as int),
            },
            can_be_edited: self.can_be_edited,
            can_change_info: self.can_change_info,
            can_post_messages: self.can_post_messages,
            can_edit_messages: self.can_edit_messages,
            can_delete_messages: self.can_delete_messages,
            can_invite_users: self.can_invite_users,
            can_restrict_members: self.can_restrict_members,
            can_pin_messages: self.can_pin_messages,
            can_promote_members: self.can_promote_members,
            is_member: self.is_member,
            can_send_messages: self.can_send_messages,
            can_send_media_messages: self.can_send_media_messages,
            can_send_other_messages: self.can_send_other_messages,
            can_add_web_page_previews: self.can_add_web_page_previews,
        }
    }
}

impl ChatMember {
    /// The timestamps fit the wire's signed 64-bit number line.
    pub open spec fn wf_v(v: ChatMemberV) -> bool {
        (v.until_date matches Some(t) ==> t <= i64::MAX)
    }

    /// The first half of the wire members.
    pub open spec fn encoded_head(v: ChatMemberV) -> Seq<(Seq<char>, JsonV)> {
        seq![
            ("user"@, User::encoded_v(v.user)),
            ("status"@, v.status.encoded()),
            ("until_date"@, nullable(opt_int_v(v.until_date))),
            ("can_be_edited"@, nullable(opt_bool_v(v.can_be_edited))),
            ("can_change_info"@, nullable(opt_bool_v(v.can_change_info))),
            ("can_post_messages"@, nullable(opt_bool_v(v.can_post_messages))),
            ("can_edit_messages"@, nullable(opt_bool_v(v.can_edit_messages))),
            ("can_delete_messages"@, nullable(opt_bool_v(v.can_delete_messages))),
        ]
    }

    /// The second half of the wire members.
    pub open spec fn encoded_tail(v: ChatMemberV) -> Seq<(Seq<char>, JsonV)> {
        seq![
            ("can_invite_users"@, nullable(opt_bool_v(v.can_invite_users))),
            ("can_restrict_members"@, nullable(opt_bool_v(v.can_restrict_members))),
            ("can_pin_messages"@, nullable(opt_bool_v(v.can_pin_messages))),
            ("can_promote_members"@, nullable(opt_bool_v(v.can_promote_members))),
            ("is_member"@, nullable(opt_bool_v(v.is_member))),
            ("can_send_messages"@, nullable(opt_bool_v(v.can_send_messages))),
            ("can_send_media_messages"@, nullable(opt_bool_v(v.can_send_media_messages))),
            ("can_send_other_messages"@, nullable(opt_bool_v(v.can_send_other_messages))),
            ("can_add_web_page_previews"@, nullable(opt_bool_v(v.can_add_web_page_previews))),
        ]
    }

    /// The wire form.
    pub open spec fn encoded_v(v: ChatMemberV) -> JsonV {
        JsonV::Obj(ChatMember::encoded_head(v) + ChatMember::encoded_tail(v))
    }

    /// What the members of an object denote.
    pub open spec fn decoded_fields(es: Seq<(Seq<char>, JsonV)>) -> Result<
        ChatMemberV,
        DecodeError,
    > {
        if User::sp_req_field(es, "user"@) is Err {
            Err(User::sp_req_field(es, "user"@)->Err_0)
        } else if ChatMemberStatus::sp_req_field(es, "status"@) is Err {
            Err(ChatMemberStatus::sp_req_field(es, "status"@)->Err_0)
        } else if sp_opt_u64(es, "until_date"@) is Err {
            Err(sp_opt_u64(es, "until_date"@)->Err_0)
        } else if sp_opt_bool(es, "can_be_edited"@) is Err {
            Err(sp_opt_bool(es, "can_be_edited"@)->Err_0)
        } else if sp_opt_bool(es, "can_change_info"@) is Err {
            Err(sp_opt_bool(es, "can_change_info"@)->Err_0)
        } else if sp_opt_bool(es, "can_post_messages"@) is Err {
            Err(sp_opt_bool(es, "can_post_messages"@)->Err_0)
        } else if sp_opt_bool(es, "can_edit_messages"@) is Err {
            Err(sp_opt_bool(es, "can_edit_messages"@)->Err_0)
        } else if sp_opt_bool(es, "can_delete_messages"@) is Err {
            Err(sp_opt_bool(es, "can_delete_messages"@)->Err_0)
        } else if sp_opt_bool(es, "can_invite_users"@) is Err {
            Err(sp_opt_bool(es, "can_invite_users"@)->Err_0)
        } else if sp_opt_bool(es, "can_restrict_members"@) is Err {
            Err(sp_opt_bool(es, "can_restrict_members"@)->Err_0)
        } else if sp_opt_bool(es, "can_pin_messages"@) is Err {
            Err(sp_opt_bool(es, "can_pin_messages"@)->Err_0)
        } else if sp_opt_bool(es, "can_promote_members"@) is Err {
            Err(sp_opt_bool(es, "can_promote_members"@)->Err_0)
        } else if sp_opt_bool(es, "is_member"@) is Err {
            Err(sp_opt_bool(es, "is_member"@)->Err_0)
        } else if sp_opt_bool(es, "can_send_messages"@) is Err {
            Err(sp_opt_bool(es, "can_send_messages"@)->Err_0)
        } else if sp_opt_bool(es, "can_send_media_messages"@) is Err {
            Err(sp_opt_bool(es, "can_send_media_messages"@)->Err_0)
        } else if sp_opt_bool(es, "can_send_other_messages"@) is Err {
            Err(sp_opt_bool(es, "can_send_other_messages"@)->Err_0)
        } else if sp_opt_bool(es, "can_add_web_page_previews"@) is Err {
            Err(sp_opt_bool(es, "can_add_web_page_previews"@)->Err_0)
        } else {
            Ok(
                ChatMemberV {
                    user: User::sp_req_field(es, "user"@)->Ok_0,
                    status: ChatMemberStatus::sp_req_field(es, "status"@)->Ok_0,
                    until_date: sp_opt_u64(es, "until_date"@)->Ok_0,
                    can_be_edited: sp_opt_bool(es, "can_be_edited"@)->Ok_0,
                    can_change_info: sp_opt_bool(es, "can_change_info"@)->Ok_0,
                    can_post_messages: sp_opt_bool(es, "can_post_messages"@)->Ok_0,
                    can_edit_messages: sp_opt_bool(es, "can_edit_messages"@)->Ok_0,
                    can_delete_messages: sp_opt_bool(es, "can_delete_messages"@)->Ok_0,
                    can_invite_users: sp_opt_bool(es, "can_invite_users"@)->Ok_0,
                    can_restrict_members: sp_opt_bool(es, "can_restrict_members"@)->Ok_0,
                    can_pin_messages: sp_opt_bool(es, "can_pin_messages"@)->Ok_0,
                    can_promote_members: sp_opt_bool(es, "can_promote_members"@)->Ok_0,
                    is_member: sp_opt_bool(es, "is_member"@)->Ok_0,
                    can_send_messages: sp_opt_bool(es, "can_send_messages"@)->Ok_0,
                    can_send_media_messages: sp_opt_bool(es, "can_send_media_messages"@)->Ok_0,
                    can_send_other_messages: sp_opt_bool(es, "can_send_other_messages"@)->Ok_0,
                    can_add_web_page_previews: sp_opt_bool(es, "can_add_web_page_previews"@)->Ok_0,
                },
            )
        }
    }

    /// What a document denotes.
    pub open spec fn decoded(j: JsonV) -> Result<ChatMemberV, DecodeError> {
        match j {
            JsonV::Obj(es) => ChatMember::decoded_fields(es),
            _ => Err(DecodeError::WrongType),
        }
    }

    /// The first half of the wire members.
    #[verifier::rlimit(60)]
    fn head_entries(&self) -> (r: Vec<(String, Json)>)
        requires
            ChatMember::wf_v(self@),
        ensures
            entries_view(r@) =~= ChatMember::encoded_head(self@),
    {
        let ghost spec_es = ChatMember::encoded_head(self@);
        let mut out: Vec<(String, Json)> = Vec::new();
        let j_user = self.user.to_json();
        let ghost prev = out@;
        out.push((String::from_str("user"), j_user));
        proof {
            lemma_entries_view_push(prev, out@.last());
            assert(entries_view(out@) =~= spec_es.subrange(0, 1));
        }
        let j_status = self.status.to_json();
        let ghost prev = out@;
        out.push((String::from_str("status"), j_status));
        proof {
            lemma_entries_view_push(prev, out@.last());
            assert(entries_view(out@) =~= spec_es.subrange(0, 2));
        }
        let j_until_date = match &self.until_date {
            None => Json::Null,
            Some(t) => Json::Int(t.0 as i64),
        };
        let ghost prev = out@;
        out.push((String::from_str("until_date"), j_until_date));
        proof {
            lemma_entries_view_push(prev, out@.last());
            assert(entries_view(out@) =~= spec_es.subrange(0, 3));
        }
        let j_can_be_edited = match &self.can_be_edited {
            None => Json::Null,
            Some(b) => Json::Bool(*b),
        };
        let ghost prev = out@;
        out.push((String::from_str("can_be_edited"), j_can_be_edited));
        proof {
            lemma_entries_view_push(prev, out@.last());
            assert(entries_view(out@) =~= spec_es.subrange(0, 4));
        }
        let j_can_change_info = match &self.can_change_info {
            None => Json::Null,
            Some(b) => Json::Bool(*b),
        };
        let ghost prev = out@;
        out.push((String::from_str("can_change_info"), j_can_change_info));
        proof {
            lemma_entries_view_push(prev, out@.last());
            assert(entries_view(out@) =~= spec_es.subrange(0, 5));
        }
        let j_can_post_messages = match &self.can_post_messages {
            None => Json::Null,
            Some(b) => Json::Bool(*b),
        };
        let ghost prev = out@;
        out.push((String::from_str("can_post_messages"), j_can_post_messages));
        proof {
            lemma_entries_view_push(prev, out@.last());
            assert(entries_view(out@) =~= spec_es.subrange(0, 6));
        }
        let j_can_edit_messages = match &self.can_edit_messages {
            None => Json::Null,
            Some(b) => Json::Bool(*b),
        };
        let ghost prev = out@;
        out.push((String::from_str("can_edit_messages"), j_can_edit_messages));
        proof {
            lemma_entries_view_push(prev, out@.last());
            assert(entries_view(out@) =~= spec_es.subrange(0, 7));
        }
        let j_can_delete_messages = match &self.can_delete_messages {
            None => Json::Null,
            Some(b) => Json::Bool(*b),
        };
        let ghost prev = out@;
        out.push((String::from_str("can_delete_messages"), j_can_delete_messages));
        proof {
            lemma_entries_view_push(prev, out@.last());
            assert(entries_view(out@) =~= spec_es.subrange(0, 8));
        }
        proof {
            assert(entries_view(out@) =~= spec_es);
        }
        out
    }

    /// The third quarter of the wire members.
    #[verifier::rlimit(60)]
    fn tail_a_entries(&self) -> (r: Vec<(String, Json)>)
        ensures
            entries_view(r@) =~= ChatMember::encoded_tail(self@).subrange(0, 4),
    {
        let ghost spec_es = ChatMember::encoded_tail(self@).subrange(0, 4);
        let mut out: Vec<(String, Json)> = Vec::new();
        let j_can_invite_users = match &self.can_invite_users {
            None => Json::Null,
            Some(b) => Json::Bool(*b),
        };
        let ghost prev = out@;
        out.push((String::from_str("can_invite_users"), j_can_invite_users));
        proof {
            lemma_entries_view_push(prev, out@.last());
            assert(entries_view(out@) =~= spec_es.subrange(0, 1));
        }
        let j_can_restrict_members = match &self.can_restrict_members {
            None => Json::Null,
            Some(b) => Json::Bool(*b),
        };
        let ghost prev = out@;
        out.push((String::from_str("can_restrict_members"), j_can_restrict_members));
        proof {
            lemma_entries_view_push(prev, out@.last());
            assert(entries_view(out@) =~= spec_es.subrange(0, 2));
        }
        let j_can_pin_messages = match &self.can_pin_messages {
            None => Json::Null,
            Some(b) => Json::Bool(*b),
        };
        let ghost prev = out@;
        out.push((String::from_str("can_pin_messages"), j_can_pin_messages));
        proof {
            lemma_entries_view_push(prev, out@.last());
            assert(entries_view(out@) =~= spec_es.subrange(0, 3));
        }
        let j_can_promote_members = match &self.can_promote_members {
            None => Json::Null,
            Some(b) => Json::Bool(*b),
        };
        let ghost prev = out@;
        out.push((String::from_str("can_promote_members"), j_can_promote_members));
        proof {
            lemma_entries_view_push(prev, out@.last());
            assert(entries_view(out@) =~= spec_es.subrange(0, 4));
        }
        proof {
            assert(entries_view(out@) =~= spec_es);
        }
        out
    }

    /// The last quarter of the wire members.
    #[verifier::rlimit(60)]
    fn tail_b_entries(&self) -> (r: Vec<(String, Json)>)
        ensures
            entries_view(r@) =~= ChatMember::encoded_tail(self@).subrange(4, 9),
    {
        let ghost spec_es = ChatMember::encoded_tail(self@).subrange(4, 9);
        let mut out: Vec<(String, Json)> = Vec::new();
        let j_is_member = match &self.is_member {
            None => Json::Null,
            Some(b) => Json::Bool(*b),
        };
        let ghost prev = out@;
        out.push((String::from_str("is_member"), j_is_member));
        proof {
            lemma_entries_view_push(prev, out@.last());
            assert(entries_view(out@) =~= spec_es.subrange(0, 1));
        }
        let j_can_send_messages = match &self.can_send_messages {
            None => Json::Null,
            Some(b) => Json::Bool(*b),
        };
        let ghost prev = out@;
        out.push((String::from_str("can_send_messages"), j_can_send_messages));
        proof {
            lemma_entries_view_push(prev, out@.last());
            assert(entries_view(out@) =~= spec_es.subrange(0, 2));
        }
        let j_can_send_media_messages = match &self.can_send_media_messages {
            None => Json::Null,
            Some(b) => Json::Bool(*b),
        };
        let ghost prev = out@;
        out.push((String::from_str("can_send_media_messages"), j_can_send_media_messages));
        proof {
            lemma_entries_view_push(prev, out@.last());
            assert(entries_view(out@) =~= spec_es.subrange(0, 3));
        }
        let j_can_send_other_messages = match &self.can_send_other_messages {
            None => Json::Null,
            Some(b) => Json::Bool(*b),
        };
        let ghost prev = out@;
        out.push((String::from_str("can_send_other_messages"), j_can_send_other_messages));
        proof {
            lemma_entries_view_push(prev, out@.last());
            assert(entries_view(out@) =~= spec_es.subrange(0, 4));
        }
        let j_can_add_web_page_previews = match &self.can_add_web_page_previews {
            None => Json::Null,
            Some(b) => Json::Bool(*b),
        };
        let ghost prev = out@;
        out.push((String::from_str("can_add_web_page_previews"), j_can_add_web_page_previews));
        proof {
            lemma_entries_view_push(prev, out@.last());
            assert(entries_view(out@) =~= spec_es.subrange(0, 5));
        }
        proof {
            assert(entries_view(out@) =~= spec_es);
        }
        out
    }

    /// Encode as an object.
    pub fn to_json(&self) -> (r: Json)
        requires
            ChatMember::wf_v(self@),
        ensures
            r@ == ChatMember::encoded_v(self@),
    {
        let mut out = self.head_entries();
        let mut tail_a = self.tail_a_entries();
        let mut tail_b = self.tail_b_entries();
        let ghost out_a = out@;
        let ghost ta = tail_a@;
        let ghost tb = tail_b@;
        out.append(&mut tail_a);
        out.append(&mut tail_b);
        proof {
            crate::json::lemma_entries_view_concat(out_a, ta);
            crate::json::lemma_entries_view_concat(out_a + ta, tb);
            assert(out@ =~= (out_a + ta) + tb);
            assert(entries_view(ta) + entries_view(tb) =~= ChatMember::encoded_tail(self@));
            assert(entries_view(out@) =~= ChatMember::encoded_v(self@)->Obj_0);
        }
        Json::Obj(out)
    }

    /// Decode from an object.
    pub fn from_json(j: &Json) -> (r: Result<ChatMember, DecodeError>)
        ensures
            match r {
                Ok(v) => ChatMember::decoded(j@) == Ok::<_, DecodeError>(v@),
                Err(e) => ChatMember::decoded(j@) == Err::<ChatMemberV, _>(e),
            },
    {
        match j {
            Json::Obj(entries) => {
                let user = match User::req_field(entries, "user") {
                                    Err(e) => {
                                        return Err(e);
                                    },
                                    Ok(v) => Box::new(v),
                                };
                let status = match ChatMemberStatus::req_field(entries, "status") {
                                    Err(e) => {
                                        return Err(e);
                                    },
                                    Ok(v) => v,
                                };
                let until_date = match opt_u64(entries, "until_date") {
                                    Err(e) => {
                                        return Err(e);
                                    },
                                    Ok(None) => None,
                                    Ok(Some(n)) => Some(Time(n)),
                                };
                let can_be_edited = match opt_bool(entries, "can_be_edited") {
                                    Err(e) => {
                                        return Err(e);
                                    },
                                    Ok(v) => v,
                                };
                let can_change_info = match opt_bool(entries, "can_change_info") {
                                    Err(e) => {
                                        return Err(e);
                                    },
                                    Ok(v) => v,
                                };
                let can_post_messages = match opt_bool(entries, "can_post_messages") {
                                    Err(e) => {
                                        return Err(e);
                                    },
                                    Ok(v) => v,
                                };
                let can_edit_messages = match opt_bool(entries, "can_edit_messages") {
                                    Err(e) => {
                                        return Err(e);
                                    },
                                    Ok(v) => v,
                                };
                let can_delete_messages = match opt_bool(entries, "can_delete_messages") {
                                    Err(e) => {
                                        return Err(e);
                                    },
                                    Ok(v) => v,
                                };
                let can_invite_users = match opt_bool(entries, "can_invite_users") {
                                    Err(e) => {
                                        return Err(e);
                                    },
                                    Ok(v) => v,
                                };
                let can_restrict_members = match opt_bool(entries, "can_restrict_members") {
                                    Err(e) => {
                                        return Err(e);
                                    },
                                    Ok(v) => v,
                                };
                let can_pin_messages = match opt_bool(entries, "can_pin_messages") {
                                    Err(e) => {
                                        return Err(e);
                                    },
                                    Ok(v) => v,
                                };
                let can_promote_members = match opt_bool(entries, "can_promote_members") {
                                    Err(e) => {
                                        return Err(e);
                                    },
                                    Ok(v) => v,
                                };
                let is_member = match opt_bool(entries, "is_member") {
                                    Err(e) => {
                                        return Err(e);
                                    },
                                    Ok(v) => v,
                                };
                let can_send_messages = match opt_bool(entries, "can_send_messages") {
                                    Err(e) => {
                                        return Err(e);
                                    },
                                    Ok(v) => v,
                                };
                let can_send_media_messages = match opt_bool(entries, "can_send_media_messages") {
                                    Err(e) => {
                                        return Err(e);
                                    },
                                    Ok(v) => v,
                                };
                let can_send_other_messages = match opt_bool(entries, "can_send_other_messages") {
                                    Err(e) => {
                                        return Err(e);
                                    },
                                    Ok(v) => v,
                                };
                let can_add_web_page_previews = match opt_bool(entries, "can_add_web_page_previews") {
                                    Err(e) => {
                                        return Err(e);
                                    },
                                    Ok(v) => v,
                                };
                Ok(ChatMember { user, status, until_date, can_be_edited, can_change_info, can_post_messages, can_edit_messages, can_delete_messages, can_invite_users, can_restrict_members, can_pin_messages, can_promote_members, is_member, can_send_messages, can_send_media_messages, can_send_other_messages, can_add_web_page_previews })
            },
            _ => Err(DecodeError::WrongType),
        }
    }
}

impl ChatMember {
    /// What a sequence of documents denotes.
    pub open spec fn sp_dec_seq(items: Seq<JsonV>) -> Result<Seq<ChatMemberV>, DecodeError>
        decreases items.len(),
    {
        if items.len() == 0 {
            Ok(Seq::empty())
        } else {
            match ChatMember::decoded(items[0]) {
                Err(e) => Err(e),
                Ok(h) => match ChatMember::sp_dec_seq(items.drop_first()) {
                    Err(e) => Err(e),
                    Ok(t) => Ok(seq![h] + t),
                },
            }
        }
    }

    /// The model of a sequence of values.
    pub open spec fn seq_view(s: Seq<ChatMember>) -> Seq<ChatMemberV> {
        Seq::new(s.len(), |i: int| s[i]@)
    }

    /// The wire form of a sequence of values.
    pub open spec fn sp_enc_seq(s: Seq<ChatMemberV>) -> Seq<JsonV> {
        Seq::new(s.len(), |i: int| ChatMember::encoded_v(s[i]))
    }

    /// What an array member that defaults to empty denotes.
    pub open spec fn sp_vec_field(es: Seq<(Seq<char>, JsonV)>, key: Seq<char>) -> Result<
        Seq<ChatMemberV>,
        DecodeError,
    > {
        match lookup(es, key) {
            None => Ok(Seq::empty()),
            Some(JsonV::Arr(items)) => ChatMember::sp_dec_seq(items),
            Some(_) => Err(DecodeError::WrongType),
        }
    }

    /// Decode an array member that defaults to empty.
    pub fn vec_field(entries: &Vec<(String, Json)>, key: &str) -> (r: Result<
        Vec<ChatMember>,
        DecodeError,
    >)
        ensures
            match r {
                Ok(v) => ChatMember::sp_vec_field(entries_view(entries@), key@) == Ok::<
                    _,
                    DecodeError,
                >(ChatMember::seq_view(v@)),
                Err(e) => ChatMember::sp_vec_field(entries_view(entries@), key@) == Err::<
                    Seq<ChatMemberV>,
                    _,
                >(e),
            },
    {
        match obj_get(entries, key) {
            None => {
                let empty: Vec<ChatMember> = Vec::new();
                proof {
                    assert(ChatMember::seq_view(empty@) =~= Seq::<ChatMemberV>::empty());
                }
                Ok(empty)
            },
            Some(Json::Arr(items)) => ChatMember::vec_from_json(items),
            Some(_) => Err(DecodeError::WrongType),
        }
    }

    /// Decode an array of values.
    #[verifier::loop_isolation(false)]
    pub fn vec_from_json(items: &Vec<Json>) -> (r: Result<Vec<ChatMember>, DecodeError>)
        ensures
            match r {
                Ok(v) => ChatMember::sp_dec_seq(elems_view(items@)) == Ok::<_, DecodeError>(
                    ChatMember::seq_view(v@),
                ),
                Err(e) => ChatMember::sp_dec_seq(elems_view(items@)) == Err::<Seq<ChatMemberV>, _>(
                    e,
                ),
            },
    {
        let ghost iv = elems_view(items@);
        proof {
            lemma_elems_view_len(items@);
        }
        let mut out: Vec<ChatMember> = Vec::new();
        let mut i: usize = 0;
        while i < items.len()
            invariant
                i <= items@.len(),
                out@.len() == i,
                forall|k: int|
                    0 <= k < i ==> ChatMember::decoded(iv[k]) == Ok::<_, DecodeError>(out@[k]@),
            decreases items@.len() - i,
        {
            proof {
                lemma_elems_view_index(items@, i as int);
            }
            match ChatMember::from_json(&items[i]) {
                Err(e) => {
                    proof {
                        ChatMember::lemma_sp_dec_seq_err(iv, i as int);
                    }
                    return Err(e);
                },
                Ok(v) => {
                    out.push(v);
                },
            }
            i += 1;
        }
        proof {
            ChatMember::lemma_sp_dec_seq_ok(iv, out@);
        }
        Ok(out)
    }

    /// A failing element fails the whole sequence with its error.
    proof fn lemma_sp_dec_seq_err(items: Seq<JsonV>, i: int)
        requires
            0 <= i < items.len(),
            ChatMember::decoded(items[i]) is Err,
            forall|k: int| 0 <= k < i ==> ChatMember::decoded(items[k]) is Ok,
        ensures
            ChatMember::sp_dec_seq(items) == Err::<Seq<ChatMemberV>, _>(
                ChatMember::decoded(items[i])->Err_0,
            ),
        decreases items.len(),
    {
        if i > 0 {
            assert(items.drop_first()[i - 1] == items[i]);
            assert(forall|k: int|
                0 <= k < i - 1 ==> items.drop_first()[k] == items[k + 1]
                    && ChatMember::decoded(items.drop_first()[k]) is Ok);
            ChatMember::lemma_sp_dec_seq_err(items.drop_first(), i - 1);
        }
    }

    /// Elementwise success decodes the whole sequence.
    proof fn lemma_sp_dec_seq_ok(items: Seq<JsonV>, out: Seq<ChatMember>)
        requires
            out.len() == items.len(),
            forall|k: int|
                0 <= k < items.len() ==> ChatMember::decoded(items[k]) == Ok::<_, DecodeError>(
                    out[k]@,
                ),
        ensures
            ChatMember::sp_dec_seq(items) == Ok::<_, DecodeError>(ChatMember::seq_view(out)),
        decreases items.len(),
    {
        if items.len() == 0 {
            assert(ChatMember::seq_view(out) =~= Seq::<ChatMemberV>::empty());
        } else {
            assert(forall|k: int|
                0 <= k < items.drop_first().len() ==> items.drop_first()[k] == items[k + 1]
                    && ChatMember::decoded(items.drop_first()[k]) == Ok::<_, DecodeError>(
                    out.drop_first()[k]@,
                ));
            ChatMember::lemma_sp_dec_seq_ok(items.drop_first(), out.drop_first());
            assert(ChatMember::seq_view(out) =~= seq![out[0]@] + ChatMember::seq_view(
                out.drop_first(),
            ));
        }
    }


}

/// The model of a message.
pub struct MessageV {
    pub message_id: int,
    pub from: Option<UserV>,
    pub sender_chat: Option<ChatV>,
    pub date: int,
    pub chat: ChatV,
    pub forward_from: Option<UserV>,
    pub forward_from_chat: Option<ChatV>,
    pub forward_from_message_id: Option<int>,
    pub forward_signature: Option<Seq<char>>,
    pub forward_sender_name: Option<Seq<char>>,
    pub forward_date: Option<int>,
    pub reply_to_message: Option<Box<MessageV>>,
    pub edit_date: Option<int>,
    pub media_group_id: Option<Seq<char>>,
    pub author_signature: Option<Seq<char>>,
    pub text: Option<Seq<char>>,
    pub sticker: Option<StickerV>,
    pub audio: Option<AudioV>,
    pub document: Option<DocumentV>,
    pub photo: Seq<PhotoSizeV>,
    pub entities: Seq<MessageEntityV>,
    pub voice: Option<VoiceV>,
    pub video: Option<VideoV>,
    pub video_note: Option<VideoNoteV>,
    pub animation: Option<AnimationV>,
    pub caption_entities: Seq<MessageEntityV>,
    pub caption: Option<Seq<char>>,
    pub contact: Option<ContactV>,
    pub location: Option<JsonV>,
    pub venue: Option<JsonV>,
    pub new_chat_members: Seq<UserV>,
    pub left_chat_member: Option<UserV>,
    pub new_chat_title: Option<Seq<char>>,
    pub new_chat_photo: Seq<PhotoSizeV>,
    pub delete_chat_photo: bool,
    pub group_chat_created: bool,
    pub supergroup_chat_created: bool,
    pub channel_chat_created: bool,
    pub migrate_to_chat_id: Option<int>,
    pub migrate_from_chat_id: Option<int>,
    pub pinned_message: Option<Box<MessageV>>,
    pub connected_website: Option<Seq<char>>,
    pub reply_markup: Option<InlineKeyboardMarkupV>,
}

/// The model of a chat.
pub struct ChatV {
    pub id: int,
    pub photo: Option<ChatPhotoV>,
    pub kind: ChatTypeV,
}

/// The model of a chat kind and its kind-specific attributes.
pub enum ChatTypeV {
    Private {
        username: Option<Seq<char>>,
        first_name: Seq<char>,
        last_name: Option<Seq<char>>,
    },
    Group {
        title: Seq<char>,
        username: Option<Seq<char>>,
        all_members_are_administrators: bool,
    },
    Supergroup {
        title: Seq<char>,
        username: Option<Seq<char>>,
        all_members_are_administrators: bool,
        pinned_message: Option<Box<MessageV>>,
        sticker_set_name: Option<Seq<char>>,
        can_set_sticker_set: Option<bool>,
        invite_link: Option<Seq<char>>,
        description: Option<Seq<char>>,
    },
    Channel {
        title: Seq<char>,
        username: Option<Seq<char>>,
        pinned_message: Option<Box<MessageV>>,
        invite_link: Option<Seq<char>>,
        description: Option<Seq<char>>,
    },
    Unknown,
}

/// Type of chat, with the attributes specific to each kind.
///
/// On the wire the kind and its attributes sit beside the common chat
/// members, named by the `type` member; an unrecognized kind decodes to
/// `Unknown` rather than failing.
#[derive(Debug, PartialEq)]
pub enum ChatType {
    Private {
        username: Option<String>,
        /// First name of the other party in a private chat
        first_name: String,
        /// Last name of the other party in a private chat
        last_name: Option<String>,
    },
    Group {
        title: String,
        username: Option<String>,
        /// True if a group has every member as an administrator.
        all_members_are_administrators: bool,
    },
    Supergroup {
        title: String,
        username: Option<String>,
        /// True if a group has every member as an administrator.
        all_members_are_administrators: bool,
        /// Pinned message, returned only when the whole chat is fetched.
        pinned_message: Option<Box<Message>>,
        /// Name of the group sticker set.
        sticker_set_name: Option<String>,
        /// True, if the bot can change the group sticker set.
        can_set_sticker_set: Option<bool>,
        /// Chat invite link.
        invite_link: Option<String>,
        /// Description of the chat.
        description: Option<String>,
    },
    Channel {
        title: String,
        username: Option<String>,
        /// Pinned message, returned only when the whole chat is fetched.
        pinned_message: Option<Box<Message>>,
        /// Chat invite link.
        invite_link: Option<String>,
        /// Description of the chat.
        description: Option<String>,
    },
    /// Unknown upstream data type.
    Unknown,
}

/// A chat: its identifier, its photo, and its kind with the attributes
/// specific to that kind, all in one flat object on the wire.
#[derive(Debug, PartialEq)]
pub struct Chat {
    /// Unique identifier for this chat.
    pub id: ChatId,
    /// Chat photo, returned only when the whole chat is fetched.
    pub photo: Option<ChatPhoto>,
    /// Type of chat
    pub kind: ChatType,
}

/// A message: its identifier, where and when it was sent, and at most
/// one payload among the many optional content members.
#[derive(Debug, PartialEq)]
pub struct Message {
    pub message_id: MessageId,
    pub from: Option<Box<User>>,
    pub sender_chat: Option<Chat>,
    pub date: Time,
    pub chat: Box<Chat>,
    pub forward_from: Option<Box<User>>,
    pub forward_from_chat: Option<Box<Chat>>,
    pub forward_from_message_id: Option<MessageId>,
    pub forward_signature: Option<String>,
    pub forward_sender_name: Option<String>,
    pub forward_date: Option<Time>,
    pub reply_to_message: Option<Box<Message>>,
    pub edit_date: Option<Time>,
    pub media_group_id: Option<String>,
    pub author_signature: Option<String>,
    pub text: Option<String>,
    pub sticker: Option<Box<Sticker>>,
    pub audio: Option<Audio>,
    pub document: Option<Box<Document>>,
    pub photo: Vec<PhotoSize>,
    pub entities: Vec<MessageEntity>,
    pub voice: Option<Box<Voice>>,
    pub video: Option<Video>,
    pub video_note: Option<Box<VideoNote>>,
    pub animation: Option<Box<Animation>>,
    pub caption_entities: Vec<MessageEntity>,
    pub caption: Option<String>,
    pub contact: Option<Box<Contact>>,
    pub location: Option<Json>,
    pub venue: Option<Json>,
    pub new_chat_members: Vec<User>,
    pub left_chat_member: Option<Box<User>>,
    pub new_chat_title: Option<String>,
    pub new_chat_photo: Vec<PhotoSize>,
    pub delete_chat_photo: bool,
    pub group_chat_created: bool,
    pub supergroup_chat_created: bool,
    pub channel_chat_created: bool,
    pub migrate_to_chat_id: Option<ChatId>,
    pub migrate_from_chat_id: Option<ChatId>,
    pub pinned_message: Option<Box<Message>>,
    pub connected_website: Option<String>,
    pub reply_markup: Option<InlineKeyboardMarkup>,
}

/// The model a message denotes.
pub open spec fn msg_view(m: Message) -> MessageV
    decreases m,
{
    MessageV {
        message_id: m.message_id.0 as int,
        from: match &m.from {
                None => None,
                Some(x) => Some(x@),
            },
        sender_chat: match &m.sender_chat {
                None => None,
                Some(c) => Some(chat_view(*c)),
            },
        date: m.date.0 as int,
        chat: chat_view(*m.chat),
        forward_from: match &m.forward_from {
                None => None,
                Some(x) => Some(x@),
            },
        forward_from_chat: match &m.forward_from_chat {
                None => None,
                Some(b) => Some(chat_view(**b)),
            },
        forward_from_message_id: match m.forward_from_message_id {
                None => None,
                Some(x) => Some(x.0 as int),
            },
        forward_signature: match &m.forward_signature {
                None => None,
                Some(x) => Some(x@),
            },
        forward_sender_name: match &m.forward_sender_name {
                None => None,
                Some(x) => Some(x@),
            },
        forward_date: match m.forward_date {
                None => None,
                Some(t) => Some(t.0 as int),
            },
        reply_to_message: match &m.reply_to_message {
                None => None,
                Some(b) => Some(Box::new(msg_view(**b))),
            },
        edit_date: match m.edit_date {
                None => None,
                Some(t) => Some(t.0 as int),
            },
        media_group_id: match &m.media_group_id {
                None => None,
                Some(x) => Some(x@),
            },
        author_signature: match &m.author_signature {
                None => None,
                Some(x) => Some(x@),
            },
        text: match &m.text {
                None => None,
                Some(x) => Some(x@),
            },
        sticker: match &m.sticker {
                None => None,
                Some(x) => Some(x@),
            },
        audio: match &m.audio {
                None => None,
                Some(x) => Some(x@),
            },
        document: match &m.document {
                None => None,
                Some(x) => Some(x@),
            },
        photo: PhotoSize::seq_view(m.photo@),
        entities: MessageEntity::seq_view(m.entities@),
        voice: match &m.voice {
                None => None,
                Some(x) => Some(x@),
            },
        video: match &m.video {
                None => None,
                Some(x) => Some(x@),
            },
        video_note: match &m.video_note {
                None => None,
                Some(x) => Some(x@),
            },
        animation: match &m.animation {
                None => None,
                Some(x) => Some(x@),
            },
        caption_entities: MessageEntity::seq_view(m.caption_entities@),
        caption: match &m.caption {
                None => None,
                Some(x) => Some(x@),
            },
        contact: match &m.contact {
                None => None,
                Some(x) => Some(x@),
            },
        location: match &m.location {
                None => None,
                Some(x) => Some(x@),
            },
        venue: match &m.venue {
                None => None,
                Some(x) => Some(x@),
            },
        new_chat_members: User::seq_view(m.new_chat_members@),
        left_chat_member: match &m.left_chat_member {
                None => None,
                Some(x) => Some(x@),
            },
        new_chat_title: match &m.new_chat_title {
                None => None,
                Some(x) => Some(x@),
            },
        new_chat_photo: PhotoSize::seq_view(m.new_chat_photo@),
        delete_chat_photo: m.delete_chat_photo,
        group_chat_created: m.group_chat_created,
        supergroup_chat_created: m.supergroup_chat_created,
        channel_chat_created: m.channel_chat_created,
        migrate_to_chat_id: match m.migrate_to_chat_id {
                None => None,
                Some(x) => Some(x.0 as int),
            },
        migrate_from_chat_id: match m.migrate_from_chat_id {
                None => None,
                Some(x) => Some(x.0 as int),
            },
        pinned_message: match &m.pinned_message {
                None => None,
                Some(b) => Some(Box::new(msg_view(**b))),
            },
        connected_website: match &m.connected_website {
                None => None,
                Some(x) => Some(x@),
            },
        reply_markup: match &m.reply_markup {
                None => None,
                Some(x) => Some(x@),
            },
    }
}

/// The model a chat denotes.
pub open spec fn chat_view(c: Chat) -> ChatV
    decreases c,
{
    ChatV {
        id: c.id.0 as int,
        photo: match c.photo {
            None => None,
            Some(p) => Some(p@),
        },
        kind: chat_type_view(c.kind),
    }
}

/// The model a chat kind denotes.
pub open spec fn chat_type_view(k: ChatType) -> ChatTypeV
    decreases k,
{
    match k {
        ChatType::Private { username, first_name, last_name } => ChatTypeV::Private {
            username: match username {
                None => None,
                Some(s) => Some(s@),
            },
            first_name: first_name@,
            last_name: match last_name {
                None => None,
                Some(s) => Some(s@),
            },
        },
        ChatType::Group { title, username, all_members_are_administrators } => ChatTypeV::Group {
            title: title@,
            username: match username {
                None => None,
                Some(s) => Some(s@),
            },
            all_members_are_administrators,
        },
        ChatType::Supergroup {
            title,
            username,
            all_members_are_administrators,
            pinned_message,
            sticker_set_name,
            can_set_sticker_set,
            invite_link,
            description,
        } => ChatTypeV::Supergroup {
            title: title@,
            username: match username {
                None => None,
                Some(s) => Some(s@),
            },
            all_members_are_administrators,
            pinned_message: match pinned_message {
                None => None,
                Some(b) => Some(Box::new(msg_view(*b))),
            },
            sticker_set_name: match sticker_set_name {
                None => None,
                Some(s) => Some(s@),
            },
            can_set_sticker_set,
            invite_link: match invite_link {
                None => None,
                Some(s) => Some(s@),
            },
            description: match description {
                None => None,
                Some(s) => Some(s@),
            },
        },
        ChatType::Channel { title, username, pinned_message, invite_link, description } => ChatTypeV::Channel {
            title: title@,
            username: match username {
                None => None,
                Some(s) => Some(s@),
            },
            pinned_message: match pinned_message {
                None => None,
                Some(b) => Some(Box::new(msg_view(*b))),
            },
            invite_link: match invite_link {
                None => None,
                Some(s) => Some(s@),
            },
            description: match description {
                None => None,
                Some(s) => Some(s@),
            },
        },
        ChatType::Unknown => ChatTypeV::Unknown,
    }
}

impl View for Message {
    type V = MessageV;

    open spec fn view(&self) -> MessageV {
        msg_view(*self)
    }
}

impl View for Chat {
    type V = ChatV;

    open spec fn view(&self) -> ChatV {
        chat_view(*self)
    }
}

impl View for ChatType {
    type V = ChatTypeV;

    open spec fn view(&self) -> ChatTypeV {
        chat_type_view(*self)
    }
}

/// The model of the `core` group of message members, decoded together.
pub struct MessageCoreV {
    pub message_id: int,
    pub from: Option<UserV>,
    pub sender_chat: Option<ChatV>,
    pub date: int,
    pub chat: ChatV,
    pub forward_from: Option<UserV>,
    pub forward_from_chat: Option<ChatV>,
    pub forward_from_message_id: Option<int>,
    pub forward_signature: Option<Seq<char>>,
    pub forward_sender_name: Option<Seq<char>>,
    pub forward_date: Option<int>,
    pub reply_to_message: Option<Box<MessageV>>,
    pub edit_date: Option<int>,
    pub media_group_id: Option<Seq<char>>,
    pub author_signature: Option<Seq<char>>,
}

/// The `core` group of message members, decoded together.
#[derive(Debug, PartialEq)]
pub struct MessageCore {
    pub message_id: MessageId,
    pub from: Option<Box<User>>,
    pub sender_chat: Option<Chat>,
    pub date: Time,
    pub chat: Box<Chat>,
    pub forward_from: Option<Box<User>>,
    pub forward_from_chat: Option<Box<Chat>>,
    pub forward_from_message_id: Option<MessageId>,
    pub forward_signature: Option<String>,
    pub forward_sender_name: Option<String>,
    pub forward_date: Option<Time>,
    pub reply_to_message: Option<Box<Message>>,
    pub edit_date: Option<Time>,
    pub media_group_id: Option<String>,
    pub author_signature: Option<String>,
}

impl View for MessageCore {
    type V = MessageCoreV;

    open spec fn view(&self) -> MessageCoreV {
        MessageCoreV {
            message_id: self.message_id.0 as int,
            from: match &self.from {
                None => None,
                Some(x) => Some(x@),
            },
            sender_chat: match &self.sender_chat {
                None => None,
                Some(c) => Some(chat_view(*c)),
            },
            date: self.date.0 as int,
            chat: chat_view(*self.chat),
            forward_from: match &self.forward_from {
                None => None,
                Some(x) => Some(x@),
            },
            forward_from_chat: match &self.forward_from_chat {
                None => None,
                Some(b) => Some(chat_view(**b)),
            },
            forward_from_message_id: match self.forward_from_message_id {
                None => None,
                Some(x) => Some(x.0 as int),
            },
            forward_signature: match &self.forward_signature {
                None => None,
                Some(x) => Some(x@),
            },
            forward_sender_name: match &self.forward_sender_name {
                None => None,
                Some(x) => Some(x@),
            },
            forward_date: match self.forward_date {
                None => None,
                Some(t) => Some(t.0 as int),
            },
            reply_to_message: match &self.reply_to_message {
                None => None,
                Some(b) => Some(Box::new(msg_view(**b))),
            },
            edit_date: match self.edit_date {
                None => None,
                Some(t) => Some(t.0 as int),
            },
            media_group_id: match &self.media_group_id {
                None => None,
                Some(x) => Some(x@),
            },
            author_signature: match &self.author_signature {
                None => None,
                Some(x) => Some(x@),
            },
        }
    }
}

/// The model of the `payload` group of message members, decoded together.
pub struct MessagePayloadV {
    pub text: Option<Seq<char>>,
    pub sticker: Option<StickerV>,
    pub audio: Option<AudioV>,
    pub document: Option<DocumentV>,
    pub photo: Seq<PhotoSizeV>,
    pub entities: Seq<MessageEntityV>,
    pub voice: Option<VoiceV>,
    pub video: Option<VideoV>,
    pub video_note: Option<VideoNoteV>,
    pub animation: Option<AnimationV>,
    pub caption_entities: Seq<MessageEntityV>,
    pub caption: Option<Seq<char>>,
    pub contact: Option<ContactV>,
    pub location: Option<JsonV>,
    pub venue: Option<JsonV>,
}

/// The `payload` group of message members, decoded together.
#[derive(Debug, PartialEq)]
pub struct MessagePayload {
    pub text: Option<String>,
    pub sticker: Option<Box<Sticker>>,
    pub audio: Option<Audio>,
    pub document: Option<Box<Document>>,
    pub photo: Vec<PhotoSize>,
    pub entities: Vec<MessageEntity>,
    pub voice: Option<Box<Voice>>,
    pub video: Option<Video>,
    pub video_note: Option<Box<VideoNote>>,
    pub animation: Option<Box<Animation>>,
    pub caption_entities: Vec<MessageEntity>,
    pub caption: Option<String>,
    pub contact: Option<Box<Contact>>,
    pub location: Option<Json>,
    pub venue: Option<Json>,
}

impl View for MessagePayload {
    type V = MessagePayloadV;

    open spec fn view(&self) -> MessagePayloadV {
        MessagePayloadV {
            text: match &self.text {
                None => None,
                Some(x) => Some(x@),
            },
            sticker: match &self.sticker {
                None => None,
                Some(x) => Some(x@),
            },
            audio: match &self.audio {
                None => None,
                Some(x) => Some(x@),
            },
            document: match &self.document {
                None => None,
                Some(x) => Some(x@),
            },
            photo: PhotoSize::seq_view(self.photo@),
            entities: MessageEntity::seq_view(self.entities@),
            voice: match &self.voice {
                None => None,
                Some(x) => Some(x@),
            },
            video: match &self.video {
                None => None,
                Some(x) => Some(x@),
            },
            video_note: match &self.video_note {
                None => None,
                Some(x) => Some(x@),
            },
            animation: match &self.animation {
                None => None,
                Some(x) => Some(x@),
            },
            caption_entities: MessageEntity::seq_view(self.caption_entities@),
            caption: match &self.caption {
                None => None,
                Some(x) => Some(x@),
            },
            contact: match &self.contact {
                None => None,
                Some(x) => Some(x@),
            },
            location: match &self.location {
                None => None,
                Some(x) => Some(x@),
            },
            venue: match &self.venue {
                None => None,
                Some(x) => Some(x@),
            },
        }
    }
}

/// The model of the `service` group of message members, decoded together.
pub struct MessageServiceV {
    pub new_chat_members: Seq<UserV>,
    pub left_chat_member: Option<UserV>,
    pub new_chat_title: Option<Seq<char>>,
    pub new_chat_photo: Seq<PhotoSizeV>,
    pub delete_chat_photo: bool,
    pub group_chat_created: bool,
    pub supergroup_chat_created: bool,
    pub channel_chat_created: bool,
    pub migrate_to_chat_id: Option<int>,
    pub migrate_from_chat_id: Option<int>,
    pub pinned_message: Option<Box<MessageV>>,
    pub connected_website: Option<Seq<char>>,
    pub reply_markup: Option<InlineKeyboardMarkupV>,
}

/// The `service` group of message members, decoded together.
#[derive(Debug, PartialEq)]
pub struct MessageService {
    pub new_chat_members: Vec<User>,
    pub left_chat_member: Option<Box<User>>,
    pub new_chat_title: Option<String>,
    pub new_chat_photo: Vec<PhotoSize>,
    pub delete_chat_photo: bool,
    pub group_chat_created: bool,
    pub supergroup_chat_created: bool,
    pub channel_chat_created: bool,
    pub migrate_to_chat_id: Option<ChatId>,
    pub migrate_from_chat_id: Option<ChatId>,
    pub pinned_message: Option<Box<Message>>,
    pub connected_website: Option<String>,
    pub reply_markup: Option<InlineKeyboardMarkup>,
}

impl View for MessageService {
    type V = MessageServiceV;

    open spec fn view(&self) -> MessageServiceV {
        MessageServiceV {
            new_chat_members: User::seq_view(self.new_chat_members@),
            left_chat_member: match &self.left_chat_member {
                None => None,
                Some(x) => Some(x@),
            },
            new_chat_title: match &self.new_chat_title {
                None => None,
                Some(x) => Some(x@),
            },
            new_chat_photo: PhotoSize::seq_view(self.new_chat_photo@),
            delete_chat_photo: self.delete_chat_photo,
            group_chat_created: self.group_chat_created,
            supergroup_chat_created: self.supergroup_chat_created,
            channel_chat_created: self.channel_chat_created,
            migrate_to_chat_id: match self.migrate_to_chat_id {
                None => None,
                Some(x) => Some(x.0 as int),
            },
            migrate_from_chat_id: match self.migrate_from_chat_id {
                None => None,
                Some(x) => Some(x.0 as int),
            },
            pinned_message: match &self.pinned_message {
                None => None,
                Some(b) => Some(Box::new(msg_view(**b))),
            },
            connected_website: match &self.connected_website {
                None => None,
                Some(x) => Some(x@),
            },
            reply_markup: match &self.reply_markup {
                None => None,
                Some(x) => Some(x@),
            },
        }
    }
}

impl Message {
    /// What the `core` group of members denotes.
    pub open spec fn decoded_core(es: Seq<(Seq<char>, JsonV)>) -> Result<
        MessageCoreV,
        DecodeError,
    >
        decreases es, 1int,
    {
        if sp_req_i64(es, "message_id"@) is Err {
            Err(sp_req_i64(es, "message_id"@)->Err_0)
        } else if User::sp_opt_field(es, "from"@) is Err {
            Err(User::sp_opt_field(es, "from"@)->Err_0)
        } else if Chat::sp_opt_field(es, "sender_chat"@) is Err {
            Err(Chat::sp_opt_field(es, "sender_chat"@)->Err_0)
        } else if sp_req_u64(es, "date"@) is Err {
            Err(sp_req_u64(es, "date"@)->Err_0)
        } else if Chat::sp_req_field(es, "chat"@) is Err {
            Err(Chat::sp_req_field(es, "chat"@)->Err_0)
        } else if User::sp_opt_field(es, "forward_from"@) is Err {
            Err(User::sp_opt_field(es, "forward_from"@)->Err_0)
        } else if Chat::sp_opt_field(es, "forward_from_chat"@) is Err {
            Err(Chat::sp_opt_field(es, "forward_from_chat"@)->Err_0)
        } else if sp_opt_i64(es, "forward_from_message_id"@) is Err {
            Err(sp_opt_i64(es, "forward_from_message_id"@)->Err_0)
        } else if sp_opt_str(es, "forward_signature"@) is Err {
            Err(sp_opt_str(es, "forward_signature"@)->Err_0)
        } else if sp_opt_str(es, "forward_sender_name"@) is Err {
            Err(sp_opt_str(es, "forward_sender_name"@)->Err_0)
        } else if sp_opt_u64(es, "forward_date"@) is Err {
            Err(sp_opt_u64(es, "forward_date"@)->Err_0)
        } else if Message::sp_opt_field(es, "reply_to_message"@) is Err {
            Err(Message::sp_opt_field(es, "reply_to_message"@)->Err_0)
        } else if sp_opt_u64(es, "edit_date"@) is Err {
            Err(sp_opt_u64(es, "edit_date"@)->Err_0)
        } else if sp_opt_str(es, "media_group_id"@) is Err {
            Err(sp_opt_str(es, "media_group_id"@)->Err_0)
        } else if sp_opt_str(es, "author_signature"@) is Err {
            Err(sp_opt_str(es, "author_signature"@)->Err_0)
        } else {
            Ok(
                MessageCoreV {
                    message_id: sp_req_i64(es, "message_id"@)->Ok_0,
                    from: User::sp_opt_field(es, "from"@)->Ok_0,
                    sender_chat: Chat::sp_opt_field(es, "sender_chat"@)->Ok_0,
                    date: sp_req_u64(es, "date"@)->Ok_0,
                    chat: Chat::sp_req_field(es, "chat"@)->Ok_0,
                    forward_from: User::sp_opt_field(es, "forward_from"@)->Ok_0,
                    forward_from_chat: Chat::sp_opt_field(es, "forward_from_chat"@)->Ok_0,
                    forward_from_message_id: sp_opt_i64(es, "forward_from_message_id"@)->Ok_0,
                    forward_signature: sp_opt_str(es, "forward_signature"@)->Ok_0,
                    forward_sender_name: sp_opt_str(es, "forward_sender_name"@)->Ok_0,
                    forward_date: sp_opt_u64(es, "forward_date"@)->Ok_0,
                    reply_to_message: match Message::sp_opt_field(es, "reply_to_message"@)->Ok_0 {
                        None => None,
                        Some(m) => Some(Box::new(m)),
                    },
                    edit_date: sp_opt_u64(es, "edit_date"@)->Ok_0,
                    media_group_id: sp_opt_str(es, "media_group_id"@)->Ok_0,
                    author_signature: sp_opt_str(es, "author_signature"@)->Ok_0,
                },
            )
        }
    }

    /// Decode the `core` group of members.
    #[verifier::rlimit(60)]
    fn dec_core(entries: &Vec<(String, Json)>) -> (r: Result<MessageCore, DecodeError>)
        ensures
            match r {
                Ok(v) => Message::decoded_core(entries_view(entries@)) == Ok::<
                    _,
                    DecodeError,
                >(v@),
                Err(e) => Message::decoded_core(entries_view(entries@)) == Err::<
                    MessageCoreV,
                    _,
                >(e),
            },
        decreases *entries, 2int,
    {
        let message_id = match req_i64(entries, "message_id") {
                            Err(e) => {
                                return Err(e);
                            },
                            Ok(n) => MessageId(n),
                        };
        let from = match User::opt_field(entries, "from") {
                            Err(e) => {
                                return Err(e);
                            },
                            Ok(None) => None,
                            Ok(Some(v)) => Some(Box::new(v)),
                        };
        let sender_chat = match Chat::opt_field(entries, "sender_chat") {
                            Err(e) => {
                                return Err(e);
                            },
                            Ok(v) => v,
                        };
        let date = match req_u64(entries, "date") {
                            Err(e) => {
                                return Err(e);
                            },
                            Ok(n) => Time(n),
                        };
        let chat = match Chat::req_field(entries, "chat") {
                            Err(e) => {
                                return Err(e);
                            },
                            Ok(v) => Box::new(v),
                        };
        let forward_from = match User::opt_field(entries, "forward_from") {
                            Err(e) => {
                                return Err(e);
                            },
                            Ok(None) => None,
                            Ok(Some(v)) => Some(Box::new(v)),
                        };
        let forward_from_chat = match Chat::opt_field(entries, "forward_from_chat") {
                            Err(e) => {
                                return Err(e);
                            },
                            Ok(None) => None,
                            Ok(Some(v)) => Some(Box::new(v)),
                        };
        let forward_from_message_id = match opt_i64(entries, "forward_from_message_id") {
                            Err(e) => {
                                return Err(e);
                            },
                            Ok(None) => None,
                            Ok(Some(n)) => Some(MessageId(n)),
                        };
        let forward_signature = match opt_str(entries, "forward_signature") {
                            Err(e) => {
                                return Err(e);
                            },
                            Ok(v) => v,
                        };
        let forward_sender_name = match opt_str(entries, "forward_sender_name") {
                            Err(e) => {
                                return Err(e);
                            },
                            Ok(v) => v,
                        };
        let forward_date = match opt_u64(entries, "forward_date") {
                            Err(e) => {
                                return Err(e);
                            },
                            Ok(None) => None,
                            Ok(Some(n)) => Some(Time(n)),
                        };
        let reply_to_message = match Message::opt_field(entries, "reply_to_message") {
                            Err(e) => {
                                return Err(e);
                            },
                            Ok(None) => None,
                            Ok(Some(v)) => Some(Box::new(v)),
                        };
        let edit_date = match opt_u64(entries, "edit_date") {
                            Err(e) => {
                                return Err(e);
                            },
                            Ok(None) => None,
                            Ok(Some(n)) => Some(Time(n)),
                        };
        let media_group_id = match opt_str(entries, "media_group_id") {
                            Err(e) => {
                                return Err(e);
                            },
                            Ok(v) => v,
                        };
        let author_signature = match opt_str(entries, "author_signature") {
                            Err(e) => {
                                return Err(e);
                            },
                            Ok(v) => v,
                        };
        Ok(MessageCore { message_id, from, sender_chat, date, chat, forward_from, forward_from_chat, forward_from_message_id, forward_signature, forward_sender_name, forward_date, reply_to_message, edit_date, media_group_id, author_signature })
    }

    /// What the `payload` group of members denotes.
    pub open spec fn decoded_payload(es: Seq<(Seq<char>, JsonV)>) -> Result<
        MessagePayloadV,
        DecodeError,
    >
        decreases es, 1int,
    {
        if sp_opt_str(es, "text"@) is Err {
            Err(sp_opt_str(es, "text"@)->Err_0)
        } else if Sticker::sp_opt_field(es, "sticker"@) is Err {
            Err(Sticker::sp_opt_field(es, "sticker"@)->Err_0)
        } else if Audio::sp_opt_field(es, "audio"@) is Err {
            Err(Audio::sp_opt_field(es, "audio"@)->Err_0)
        } else if Document::sp_opt_field(es, "document"@) is Err {
            Err(Document::sp_opt_field(es, "document"@)->Err_0)
        } else if PhotoSize::sp_vec_field(es, "photo"@) is Err {
            Err(PhotoSize::sp_vec_field(es, "photo"@)->Err_0)
        } else if MessageEntity::sp_vec_field(es, "entities"@) is Err {
            Err(MessageEntity::sp_vec_field(es, "entities"@)->Err_0)
        } else if Voice::sp_opt_field(es, "voice"@) is Err {
            Err(Voice::sp_opt_field(es, "voice"@)->Err_0)
        } else if Video::sp_opt_field(es, "video"@) is Err {
            Err(Video::sp_opt_field(es, "video"@)->Err_0)
        } else if VideoNote::sp_opt_field(es, "video_note"@) is Err {
            Err(VideoNote::sp_opt_field(es, "video_note"@)->Err_0)
        } else if Animation::sp_opt_field(es, "animation"@) is Err {
            Err(Animation::sp_opt_field(es, "animation"@)->Err_0)
        } else if MessageEntity::sp_vec_field(es, "caption_entities"@) is Err {
            Err(MessageEntity::sp_vec_field(es, "caption_entities"@)->Err_0)
        } else if sp_opt_str(es, "caption"@) is Err {
            Err(sp_opt_str(es, "caption"@)->Err_0)
        } else if Contact::sp_opt_field(es, "contact"@) is Err {
            Err(Contact::sp_opt_field(es, "contact"@)->Err_0)
        } else {
            Ok(
                MessagePayloadV {
                    text: sp_opt_str(es, "text"@)->Ok_0,
                    sticker: Sticker::sp_opt_field(es, "sticker"@)->Ok_0,
                    audio: Audio::sp_opt_field(es, "audio"@)->Ok_0,
                    document: Document::sp_opt_field(es, "document"@)->Ok_0,
                    photo: PhotoSize::sp_vec_field(es, "photo"@)->Ok_0,
                    entities: MessageEntity::sp_vec_field(es, "entities"@)->Ok_0,
                    voice: Voice::sp_opt_field(es, "voice"@)->Ok_0,
                    video: Video::sp_opt_field(es, "video"@)->Ok_0,
                    video_note: VideoNote::sp_opt_field(es, "video_note"@)->Ok_0,
                    animation: Animation::sp_opt_field(es, "animation"@)->Ok_0,
                    caption_entities: MessageEntity::sp_vec_field(es, "caption_entities"@)->Ok_0,
                    caption: sp_opt_str(es, "caption"@)->Ok_0,
                    contact: Contact::sp_opt_field(es, "contact"@)->Ok_0,
                    location: sp_opt_raw(es, "location"@),
                    venue: sp_opt_raw(es, "venue"@),
                },
            )
        }
    }

    /// Decode the `payload` group of members.
    #[verifier::rlimit(60)]
    fn dec_payload(entries: &Vec<(String, Json)>) -> (r: Result<MessagePayload, DecodeError>)
        ensures
            match r {
                Ok(v) => Message::decoded_payload(entries_view(entries@)) == Ok::<
                    _,
                    DecodeError,
                >(v@),
                Err(e) => Message::decoded_payload(entries_view(entries@)) == Err::<
                    MessagePayloadV,
                    _,
                >(e),
            },
        decreases *entries, 2int,
    {
        let text = match opt_str(entries, "text") {
                            Err(e) => {
                                return Err(e);
                            },
                            Ok(v) => v,
                        };
        let sticker = match Sticker::opt_field(entries, "sticker") {
                            Err(e) => {
                                return Err(e);
                            },
                            Ok(None) => None,
                            Ok(Some(v)) => Some(Box::new(v)),
                        };
        let audio = match Audio::opt_field(entries, "audio") {
                            Err(e) => {
                                return Err(e);
                            },
                            Ok(v) => v,
                        };
        let document = match Document::opt_field(entries, "document") {
                            Err(e) => {
                                return Err(e);
                            },
                            Ok(None) => None,
                            Ok(Some(v)) => Some(Box::new(v)),
                        };
        let photo = match PhotoSize::vec_field(entries, "photo") {
                            Err(e) => {
                                return Err(e);
                            },
                            Ok(v) => v,
                        };
        let entities = match MessageEntity::vec_field(entries, "entities") {
                            Err(e) => {
                                return Err(e);
                            },
                            Ok(v) => v,
                        };
        let voice = match Voice::opt_field(entries, "voice") {
                            Err(e) => {
                                return Err(e);
                            },
                            Ok(None) => None,
                            Ok(Some(v)) => Some(Box::new(v)),
                        };
        let video = match Video::opt_field(entries, "video") {
                            Err(e) => {
                                return Err(e);
                            },
                            Ok(v) => v,
                        };
        let video_note = match VideoNote::opt_field(entries, "video_note") {
                            Err(e) => {
                                return Err(e);
                            },
                            Ok(None) => None,
                            Ok(Some(v)) => Some(Box::new(v)),
                        };
        let animation = match Animation::opt_field(entries, "animation") {
                            Err(e) => {
                                return Err(e);
                            },
                            Ok(None) => None,
                            Ok(Some(v)) => Some(Box::new(v)),
                        };
        let caption_entities = match MessageEntity::vec_field(entries, "caption_entities") {
                            Err(e) => {
                                return Err(e);
                            },
                            Ok(v) => v,
                        };
        let caption = match opt_str(entries, "caption") {
                            Err(e) => {
                                return Err(e);
                            },
                            Ok(v) => v,
                        };
        let contact = match Contact::opt_field(entries, "contact") {
                            Err(e) => {
                                return Err(e);
                            },
                            Ok(None) => None,
                            Ok(Some(v)) => Some(Box::new(v)),
                        };
        let location = crate::json::opt_raw(entries, "location");
        let venue = crate::json::opt_raw(entries, "venue");
        Ok(MessagePayload { text, sticker, audio, document, photo, entities, voice, video, video_note, animation, caption_entities, caption, contact, location, venue })
    }

    /// What the `service` group of members denotes.
    pub open spec fn decoded_service(es: Seq<(Seq<char>, JsonV)>) -> Result<
        MessageServiceV,
        DecodeError,
    >
        decreases es, 1int,
    {
        if User::sp_vec_field(es, "new_chat_members"@) is Err {
            Err(User::sp_vec_field(es, "new_chat_members"@)->Err_0)
        } else if User::sp_opt_field(es, "left_chat_member"@) is Err {
            Err(User::sp_opt_field(es, "left_chat_member"@)->Err_0)
        } else if sp_opt_str(es, "new_chat_title"@) is Err {
            Err(sp_opt_str(es, "new_chat_title"@)->Err_0)
        } else if PhotoSize::sp_vec_field(es, "new_chat_photo"@) is Err {
            Err(PhotoSize::sp_vec_field(es, "new_chat_photo"@)->Err_0)
        } else if sp_bool_or_false(es, "delete_chat_photo"@) is Err {
            Err(sp_bool_or_false(es, "delete_chat_photo"@)->Err_0)
        } else if sp_bool_or_false(es, "group_chat_created"@) is Err {
            Err(sp_bool_or_false(es, "group_chat_created"@)->Err_0)
        } else if sp_bool_or_false(es, "supergroup_chat_created"@) is Err {
            Err(sp_bool_or_false(es, "supergroup_chat_created"@)->Err_0)
        } else if sp_bool_or_false(es, "channel_chat_created"@) is Err {
            Err(sp_bool_or_false(es, "channel_chat_created"@)->Err_0)
        } else if sp_opt_i64(es, "migrate_to_chat_id"@) is Err {
            Err(sp_opt_i64(es, "migrate_to_chat_id"@)->Err_0)
        } else if sp_opt_i64(es, "migrate_from_chat_id"@) is Err {
            Err(sp_opt_i64(es, "migrate_from_chat_id"@)->Err_0)
        } else if Message::sp_opt_field(es, "pinned_message"@) is Err {
            Err(Message::sp_opt_field(es, "pinned_message"@)->Err_0)
        } else if sp_opt_str(es, "connected_website"@) is Err {
            Err(sp_opt_str(es, "connected_website"@)->Err_0)
        } else if InlineKeyboardMarkup::sp_opt_field(es, "reply_markup"@) is Err {
            Err(InlineKeyboardMarkup::sp_opt_field(es, "reply_markup"@)->Err_0)
        } else {
            Ok(
                MessageServiceV {
                    new_chat_members: User::sp_vec_field(es, "new_chat_members"@)->Ok_0,
                    left_chat_member: User::sp_opt_field(es, "left_chat_member"@)->Ok_0,
                    new_chat_title: sp_opt_str(es, "new_chat_title"@)->Ok_0,
                    new_chat_photo: PhotoSize::sp_vec_field(es, "new_chat_photo"@)->Ok_0,
                    delete_chat_photo: sp_bool_or_false(es, "delete_chat_photo"@)->Ok_0,
                    group_chat_created: sp_bool_or_false(es, "group_chat_created"@)->Ok_0,
                    supergroup_chat_created: sp_bool_or_false(es, "supergroup_chat_created"@)->Ok_0,
                    channel_chat_created: sp_bool_or_false(es, "channel_chat_created"@)->Ok_0,
                    migrate_to_chat_id: sp_opt_i64(es, "migrate_to_chat_id"@)->Ok_0,
                    migrate_from_chat_id: sp_opt_i64(es, "migrate_from_chat_id"@)->Ok_0,
                    pinned_message: match Message::sp_opt_field(es, "pinned_message"@)->Ok_0 {
                        None => None,
                        Some(m) => Some(Box::new(m)),
                    },
                    connected_website: sp_opt_str(es, "connected_website"@)->Ok_0,
                    reply_markup: InlineKeyboardMarkup::sp_opt_field(es, "reply_markup"@)->Ok_0,
                },
            )
        }
    }

    /// Decode the `service` group of members.
    #[verifier::rlimit(60)]
    fn dec_service(entries: &Vec<(String, Json)>) -> (r: Result<MessageService, DecodeError>)
        ensures
            match r {
                Ok(v) => Message::decoded_service(entries_view(entries@)) == Ok::<
                    _,
                    DecodeError,
                >(v@),
                Err(e) => Message::decoded_service(entries_view(entries@)) == Err::<
                    MessageServiceV,
                    _,
                >(e),
            },
        decreases *entries, 2int,
    {
        let new_chat_members = match User::vec_field(entries, "new_chat_members") {
                            Err(e) => {
                                return Err(e);
                            },
                            Ok(v) => v,
                        };
        let left_chat_member = match User::opt_field(entries, "left_chat_member") {
                            Err(e) => {
                                return Err(e);
                            },
                            Ok(None) => None,
                            Ok(Some(v)) => Some(Box::new(v)),
                        };
        let new_chat_title = match opt_str(entries, "new_chat_title") {
                            Err(e) => {
                                return Err(e);
                            },
                            Ok(v) => v,
                        };
        let new_chat_photo = match PhotoSize::vec_field(entries, "new_chat_photo") {
                            Err(e) => {
                                return Err(e);
                            },
                            Ok(v) => v,
                        };
        let delete_chat_photo = match bool_or_false(entries, "delete_chat_photo") {
                            Err(e) => {
                                return Err(e);
                            },
                            Ok(b) => b,
                        };
        let group_chat_created = match bool_or_false(entries, "group_chat_created") {
                            Err(e) => {
                                return Err(e);
                            },
                            Ok(b) => b,
                        };
        let supergroup_chat_created = match bool_or_false(entries, "supergroup_chat_created") {
                            Err(e) => {
                                return Err(e);
                            },
                            Ok(b) => b,
                        };
        let channel_chat_created = match bool_or_false(entries, "channel_chat_created") {
                            Err(e) => {
                                return Err(e);
                            },
                            Ok(b) => b,
                        };
        let migrate_to_chat_id = match opt_i64(entries, "migrate_to_chat_id") {
                            Err(e) => {
                                return Err(e);
                            },
                            Ok(None) => None,
                            Ok(Some(n)) => Some(ChatId(n)),
                        };
        let migrate_from_chat_id = match opt_i64(entries, "migrate_from_chat_id") {
                            Err(e) => {
                                return Err(e);
                            },
                            Ok(None) => None,
                            Ok(Some(n)) => Some(ChatId(n)),
                        };
        let pinned_message = match Message::opt_field(entries, "pinned_message") {
                            Err(e) => {
                                return Err(e);
                            },
                            Ok(None) => None,
                            Ok(Some(v)) => Some(Box::new(v)),
                        };
        let connected_website = match opt_str(entries, "connected_website") {
                            Err(e) => {
                                return Err(e);
                            },
                            Ok(v) => v,
                        };
        let reply_markup = match InlineKeyboardMarkup::opt_field(entries, "reply_markup") {
                            Err(e) => {
                                return Err(e);
                            },
                            Ok(v) => v,
                        };
        Ok(MessageService { new_chat_members, left_chat_member, new_chat_title, new_chat_photo, delete_chat_photo, group_chat_created, supergroup_chat_created, channel_chat_created, migrate_to_chat_id, migrate_from_chat_id, pinned_message, connected_website, reply_markup })
    }

    /// What the members of an object denote, group by group.
    pub open spec fn decoded_fields(es: Seq<(Seq<char>, JsonV)>) -> Result<
        MessageV,
        DecodeError,
    >
        decreases es, 2int,
    {
        match Message::decoded_core(es) {
            Err(e) => Err(e),
            Ok(core) => match Message::decoded_payload(es) {
                Err(e) => Err(e),
                Ok(payload) => match Message::decoded_service(es) {
                    Err(e) => Err(e),
                    Ok(service) => Ok(Message::assemble(core, payload, service)),
                },
            },
        }
    }

    /// A message model from its three decoded groups.
    pub open spec fn assemble(
        core: MessageCoreV,
        payload: MessagePayloadV,
        service: MessageServiceV,
    ) -> MessageV {
        MessageV {
            message_id: core.message_id,
            from: core.from,
            sender_chat: core.sender_chat,
            date: core.date,
            chat: core.chat,
            forward_from: core.forward_from,
            forward_from_chat: core.forward_from_chat,
            forward_from_message_id: core.forward_from_message_id,
            forward_signature: core.forward_signature,
            forward_sender_name: core.forward_sender_name,
            forward_date: core.forward_date,
            reply_to_message: core.reply_to_message,
            edit_date: core.edit_date,
            media_group_id: core.media_group_id,
            author_signature: core.author_signature,
            text: payload.text,
            sticker: payload.sticker,
            audio: payload.audio,
            document: payload.document,
            photo: payload.photo,
            entities: payload.entities,
            voice: payload.voice,
            video: payload.video,
            video_note: payload.video_note,
            animation: payload.animation,
            caption_entities: payload.caption_entities,
            caption: payload.caption,
            contact: payload.contact,
            location: payload.location,
            venue: payload.venue,
            new_chat_members: service.new_chat_members,
            left_chat_member: service.left_chat_member,
            new_chat_title: service.new_chat_title,
            new_chat_photo: service.new_chat_photo,
            delete_chat_photo: service.delete_chat_photo,
            group_chat_created: service.group_chat_created,
            supergroup_chat_created: service.supergroup_chat_created,
            channel_chat_created: service.channel_chat_created,
            migrate_to_chat_id: service.migrate_to_chat_id,
            migrate_from_chat_id: service.migrate_from_chat_id,
            pinned_message: service.pinned_message,
            connected_website: service.connected_website,
            reply_markup: service.reply_markup,
        }
    }

    /// What a document denotes.
    pub open spec fn decoded(j: JsonV) -> Result<MessageV, DecodeError>
        decreases j, 3int,
    {
        match j {
            JsonV::Obj(es) => Message::decoded_fields(es),
            _ => Err(DecodeError::WrongType),
        }
    }

    /// A message from its three decoded groups.
    #[verifier::rlimit(100)]
    fn assemble_exec(core: MessageCore, payload: MessagePayload, service: MessageService) -> (m:
        Message)
        ensures
            m@ == Message::assemble(core@, payload@, service@),
    {
        Message {
            message_id: core.message_id,
            from: core.from,
            sender_chat: core.sender_chat,
            date: core.date,
            chat: core.chat,
            forward_from: core.forward_from,
            forward_from_chat: core.forward_from_chat,
            forward_from_message_id: core.forward_from_message_id,
            forward_signature: core.forward_signature,
            forward_sender_name: core.forward_sender_name,
            forward_date: core.forward_date,
            reply_to_message: core.reply_to_message,
            edit_date: core.edit_date,
            media_group_id: core.media_group_id,
            author_signature: core.author_signature,
            text: payload.text,
            sticker: payload.sticker,
            audio: payload.audio,
            document: payload.document,
            photo: payload.photo,
            entities: payload.entities,
            voice: payload.voice,
            video: payload.video,
            video_note: payload.video_note,
            animation: payload.animation,
            caption_entities: payload.caption_entities,
            caption: payload.caption,
            contact: payload.contact,
            location: payload.location,
            venue: payload.venue,
            new_chat_members: service.new_chat_members,
            left_chat_member: service.left_chat_member,
            new_chat_title: service.new_chat_title,
            new_chat_photo: service.new_chat_photo,
            delete_chat_photo: service.delete_chat_photo,
            group_chat_created: service.group_chat_created,
            supergroup_chat_created: service.supergroup_chat_created,
            channel_chat_created: service.channel_chat_created,
            migrate_to_chat_id: service.migrate_to_chat_id,
            migrate_from_chat_id: service.migrate_from_chat_id,
            pinned_message: service.pinned_message,
            connected_website: service.connected_website,
            reply_markup: service.reply_markup,
        }
    }

    /// Decode from a flat object.
    pub fn from_json(j: &Json) -> (r: Result<Message, DecodeError>)
        ensures
            match r {
                Ok(v) => Message::decoded(j@) == Ok::<_, DecodeError>(v@),
                Err(e) => Message::decoded(j@) == Err::<MessageV, _>(e),
            },
        decreases *j, 3int,
    {
        match j {
            Json::Obj(entries) => {
                let core = match Message::dec_core(entries) {
                    Err(e) => {
                        return Err(e);
                    },
                    Ok(v) => v,
                };
                let payload = match Message::dec_payload(entries) {
                    Err(e) => {
                        return Err(e);
                    },
                    Ok(v) => v,
                };
                let service = match Message::dec_service(entries) {
                    Err(e) => {
                        return Err(e);
                    },
                    Ok(v) => v,
                };
                Ok(Message::assemble_exec(core, payload, service))
            },
            _ => Err(DecodeError::WrongType),
        }
    }

}

impl Message {
    /// The timestamps fit the wire's signed 64-bit number line, here and
    /// in every nested message and chat.
    pub open spec fn wf_v(v: MessageV) -> bool
        decreases v,
    {
        &&& v.date <= i64::MAX
        &&& (v.forward_date matches Some(t) ==> t <= i64::MAX)
        &&& (v.edit_date matches Some(t) ==> t <= i64::MAX)
        &&& Chat::wf_v(v.chat)
        &&& (v.sender_chat matches Some(c) ==> Chat::wf_v(c))
        &&& (v.forward_from_chat matches Some(c) ==> Chat::wf_v(c))
        &&& (v.reply_to_message matches Some(b) ==> Message::wf_v(*b))
        &&& (v.pinned_message matches Some(b) ==> Message::wf_v(*b))
    }
}

impl Chat {
    /// The timestamps in any pinned message fit the wire's number line.
    pub open spec fn wf_v(v: ChatV) -> bool
        decreases v,
    {
        ChatType::wf_v(v.kind)
    }
}

impl ChatType {
    /// The timestamps in any pinned message fit the wire's number line.
    pub open spec fn wf_v(v: ChatTypeV) -> bool
        decreases v,
    {
        match v {
            ChatTypeV::Supergroup { pinned_message, .. } => pinned_message matches Some(b)
                ==> Message::wf_v(*b),
            ChatTypeV::Channel { pinned_message, .. } => pinned_message matches Some(b)
                ==> Message::wf_v(*b),
            _ => true,
        }
    }
}

impl ChatType {
    /// The members the kind adds to the flat chat object: the `type` tag,
    /// then the attributes of the branch.
    pub open spec fn encoded_entries(v: ChatTypeV) -> Seq<(Seq<char>, JsonV)>
        decreases v, 1int,
    {
        match v {
            ChatTypeV::Private { username, first_name, last_name } => seq![
                ("type"@, JsonV::Str("private"@)),
                ("username"@, nullable(opt_str_v(username))),
                ("first_name"@, JsonV::Str(first_name)),
                ("last_name"@, nullable(opt_str_v(last_name))),
            ],
            ChatTypeV::Group { title, username, all_members_are_administrators } => seq![
                ("type"@, JsonV::Str("group"@)),
                ("title"@, JsonV::Str(title)),
                ("username"@, nullable(opt_str_v(username))),
                ("all_members_are_administrators"@, JsonV::Bool(all_members_are_administrators)),
            ],
            ChatTypeV::Supergroup {
                title,
                username,
                all_members_are_administrators,
                pinned_message,
                sticker_set_name,
                can_set_sticker_set,
                invite_link,
                description,
            } => seq![
                ("type"@, JsonV::Str("supergroup"@)),
                ("title"@, JsonV::Str(title)),
                ("username"@, nullable(opt_str_v(username))),
                ("all_members_are_administrators"@, JsonV::Bool(all_members_are_administrators)),
                (
                    "pinned_message"@,
                    nullable(
                        match pinned_message {
                            None => None,
                            Some(b) => Some(Message::encoded_v(*b)),
                        },
                    ),
                ),
                ("sticker_set_name"@, nullable(opt_str_v(sticker_set_name))),
                ("can_set_sticker_set"@, nullable(opt_bool_v(can_set_sticker_set))),
                ("invite_link"@, nullable(opt_str_v(invite_link))),
                ("description"@, nullable(opt_str_v(description))),
            ],
            ChatTypeV::Channel { title, username, pinned_message, invite_link, description } => seq![
                ("type"@, JsonV::Str("channel"@)),
                ("title"@, JsonV::Str(title)),
                ("username"@, nullable(opt_str_v(username))),
                (
                    "pinned_message"@,
                    nullable(
                        match pinned_message {
                            None => None,
                            Some(b) => Some(Message::encoded_v(*b)),
                        },
                    ),
                ),
                ("invite_link"@, nullable(opt_str_v(invite_link))),
                ("description"@, nullable(opt_str_v(description))),
            ],
            ChatTypeV::Unknown => seq![("type"@, JsonV::Str("unknown"@))],
        }
    }

    /// What the members of the flat chat object denote as a kind: the
    /// `type` tag names the branch, an unrecognized tag is `Unknown`, and
    /// a missing tag is an error.
    pub open spec fn decoded_fields(es: Seq<(Seq<char>, JsonV)>) -> Result<
        ChatTypeV,
        DecodeError,
    >
        decreases es, 1int,
    {
        match sp_req_str(es, "type"@) {
            Err(e) => Err(e),
            Ok(tag) => if tag == "private"@ {
                if sp_opt_str(es, "username"@) is Err {
                    Err(sp_opt_str(es, "username"@)->Err_0)
                } else if sp_req_str(es, "first_name"@) is Err {
                    Err(sp_req_str(es, "first_name"@)->Err_0)
                } else if sp_opt_str(es, "last_name"@) is Err {
                    Err(sp_opt_str(es, "last_name"@)->Err_0)
                } else {
                    Ok(
                        ChatTypeV::Private {
                            username: sp_opt_str(es, "username"@)->Ok_0,
                            first_name: sp_req_str(es, "first_name"@)->Ok_0,
                            last_name: sp_opt_str(es, "last_name"@)->Ok_0,
                        },
                    )
                }
            } else if tag == "group"@ {
                if sp_req_str(es, "title"@) is Err {
                    Err(sp_req_str(es, "title"@)->Err_0)
                } else if sp_opt_str(es, "username"@) is Err {
                    Err(sp_opt_str(es, "username"@)->Err_0)
                } else if sp_bool_or_false(es, "all_members_are_administrators"@) is Err {
                    Err(sp_bool_or_false(es, "all_members_are_administrators"@)->Err_0)
                } else {
                    Ok(
                        ChatTypeV::Group {
                            title: sp_req_str(es, "title"@)->Ok_0,
                            username: sp_opt_str(es, "username"@)->Ok_0,
                            all_members_are_administrators: sp_bool_or_false(
                                es,
                                "all_members_are_administrators"@,
                            )->Ok_0,
                        },
                    )
                }
            } else if tag == "supergroup"@ {
                if sp_req_str(es, "title"@) is Err {
                    Err(sp_req_str(es, "title"@)->Err_0)
                } else if sp_opt_str(es, "username"@) is Err {
                    Err(sp_opt_str(es, "username"@)->Err_0)
                } else if sp_bool_or_false(es, "all_members_are_administrators"@) is Err {
                    Err(sp_bool_or_false(es, "all_members_are_administrators"@)->Err_0)
                } else if Message::sp_opt_field(es, "pinned_message"@) is Err {
                    Err(Message::sp_opt_field(es, "pinned_message"@)->Err_0)
                } else if sp_opt_str(es, "sticker_set_name"@) is Err {
                    Err(sp_opt_str(es, "sticker_set_name"@)->Err_0)
                } else if sp_opt_bool(es, "can_set_sticker_set"@) is Err {
                    Err(sp_opt_bool(es, "can_set_sticker_set"@)->Err_0)
                } else if sp_opt_str(es, "invite_link"@) is Err {
                    Err(sp_opt_str(es, "invite_link"@)->Err_0)
                } else if sp_opt_str(es, "description"@) is Err {
                    Err(sp_opt_str(es, "description"@)->Err_0)
                } else {
                    Ok(
                        ChatTypeV::Supergroup {
                            title: sp_req_str(es, "title"@)->Ok_0,
                            username: sp_opt_str(es, "username"@)->Ok_0,
                            all_members_are_administrators: sp_bool_or_false(
                                es,
                                "all_members_are_administrators"@,
                            )->Ok_0,
                            pinned_message: match Message::sp_opt_field(
                                es,
                                "pinned_message"@,
                            )->Ok_0 {
                                None => None,
                                Some(m) => Some(Box::new(m)),
                            },
                            sticker_set_name: sp_opt_str(es, "sticker_set_name"@)->Ok_0,
                            can_set_sticker_set: sp_opt_bool(es, "can_set_sticker_set"@)->Ok_0,
                            invite_link: sp_opt_str(es, "invite_link"@)->Ok_0,
                            description: sp_opt_str(es, "description"@)->Ok_0,
                        },
                    )
                }
            } else if tag == "channel"@ {
                if sp_req_str(es, "title"@) is Err {
                    Err(sp_req_str(es, "title"@)->Err_0)
                } else if sp_opt_str(es, "username"@) is Err {
                    Err(sp_opt_str(es, "username"@)->Err_0)
                } else if Message::sp_opt_field(es, "pinned_message"@) is Err {
                    Err(Message::sp_opt_field(es, "pinned_message"@)->Err_0)
                } else if sp_opt_str(es, "invite_link"@) is Err {
                    Err(sp_opt_str(es, "invite_link"@)->Err_0)
                } else if sp_opt_str(es, "description"@) is Err {
                    Err(sp_opt_str(es, "description"@)->Err_0)
                } else {
                    Ok(
                        ChatTypeV::Channel {
                            title: sp_req_str(es, "title"@)->Ok_0,
                            username: sp_opt_str(es, "username"@)->Ok_0,
                            pinned_message: match Message::sp_opt_field(
                                es,
                                "pinned_message"@,
                            )->Ok_0 {
                                None => None,
                                Some(m) => Some(Box::new(m)),
                            },
                            invite_link: sp_opt_str(es, "invite_link"@)->Ok_0,
                            description: sp_opt_str(es, "description"@)->Ok_0,
                        },
                    )
                }
            } else {
                Ok(ChatTypeV::Unknown)
            },
        }
    }
}

impl Message {
    /// The `origin` group of wire members.
    pub open spec fn enc_origin(v: MessageV) -> Seq<(Seq<char>, JsonV)>
        decreases v, 0int,
    {
        seq![
            ("message_id"@, JsonV::Int(v.message_id)),
            ("from"@, nullable(match v.from {
                    None => None,
                    Some(x) => Some(User::encoded_v(x)),
                })),
            ("sender_chat"@, nullable(
                match v.sender_chat {
                    None => None,
                    Some(c) => Some(Chat::encoded_v(c)),
                },
            )),
            ("date"@, JsonV::Int(v.date)),
            ("chat"@, Chat::encoded_v(v.chat)),
        ]
    }

    /// The `forwarding` group of wire members.
    pub open spec fn enc_forwarding(v: MessageV) -> Seq<(Seq<char>, JsonV)>
        decreases v, 0int,
    {
        seq![
            ("forward_from"@, nullable(match v.forward_from {
                    None => None,
                    Some(x) => Some(User::encoded_v(x)),
                })),
            ("forward_from_chat"@, nullable(
                match v.forward_from_chat {
                    None => None,
                    Some(c) => Some(Chat::encoded_v(c)),
                },
            )),
            ("forward_from_message_id"@, nullable(opt_int_v(v.forward_from_message_id))),
            ("forward_signature"@, nullable(opt_str_v(v.forward_signature))),
            ("forward_sender_name"@, nullable(opt_str_v(v.forward_sender_name))),
        ]
    }

    /// The `revision` group of wire members.
    pub open spec fn enc_revision(v: MessageV) -> Seq<(Seq<char>, JsonV)>
        decreases v, 0int,
    {
        seq![
            ("forward_date"@, nullable(opt_int_v(v.forward_date))),
            ("reply_to_message"@, nullable(
                match v.reply_to_message {
                    None => None,
                    Some(b) => Some(Message::encoded_v(*b)),
                },
            )),
            ("edit_date"@, nullable(opt_int_v(v.edit_date))),
            ("media_group_id"@, nullable(opt_str_v(v.media_group_id))),
            ("author_signature"@, nullable(opt_str_v(v.author_signature))),
        ]
    }

    /// The `payload` group of wire members.
    pub open spec fn enc_payload(v: MessageV) -> Seq<(Seq<char>, JsonV)>
        decreases v, 0int,
    {
        seq![
            ("text"@, nullable(opt_str_v(v.text))),
            ("sticker"@, nullable(match v.sticker {
                    None => None,
                    Some(x) => Some(Sticker::encoded_v(x)),
                })),
            ("audio"@, nullable(match v.audio {
                    None => None,
                    Some(x) => Some(Audio::encoded_v(x)),
                })),
            ("document"@, nullable(match v.document {
                    None => None,
                    Some(x) => Some(Document::encoded_v(x)),
                })),
            ("photo"@, JsonV::Arr(PhotoSize::sp_enc_seq(v.photo))),
        ]
    }

    /// The `media` group of wire members.
    pub open spec fn enc_media(v: MessageV) -> Seq<(Seq<char>, JsonV)>
        decreases v, 0int,
    {
        seq![
            ("entities"@, JsonV::Arr(MessageEntity::sp_enc_seq(v.entities))),
            ("voice"@, nullable(match v.voice {
                    None => None,
                    Some(x) => Some(Voice::encoded_v(x)),
                })),
            ("video"@, nullable(match v.video {
                    None => None,
                    Some(x) => Some(Video::encoded_v(x)),
                })),
            ("video_note"@, nullable(match v.video_note {
                    None => None,
                    Some(x) => Some(VideoNote::encoded_v(x)),
                })),
            ("animation"@, nullable(match v.animation {
                    None => None,
                    Some(x) => Some(Animation::encoded_v(x)),
                })),
        ]
    }

    /// The `caption` group of wire members.
    pub open spec fn enc_caption_part(v: MessageV) -> Seq<(Seq<char>, JsonV)>
        decreases v, 0int,
    {
        seq![
            ("caption_entities"@, JsonV::Arr(MessageEntity::sp_enc_seq(v.caption_entities))),
            ("caption"@, nullable(opt_str_v(v.caption))),
            ("contact"@, nullable(match v.contact {
                    None => None,
                    Some(x) => Some(Contact::encoded_v(x)),
                })),
            ("location"@, nullable(v.location)),
            ("venue"@, nullable(v.venue)),
        ]
    }

    /// The `membership` group of wire members.
    pub open spec fn enc_membership(v: MessageV) -> Seq<(Seq<char>, JsonV)>
        decreases v, 0int,
    {
        seq![
            ("new_chat_members"@, JsonV::Arr(User::sp_enc_seq(v.new_chat_members))),
            ("left_chat_member"@, nullable(match v.left_chat_member {
                    None => None,
                    Some(x) => Some(User::encoded_v(x)),
                })),
            ("new_chat_title"@, nullable(opt_str_v(v.new_chat_title))),
            ("new_chat_photo"@, JsonV::Arr(PhotoSize::sp_enc_seq(v.new_chat_photo))),
            ("delete_chat_photo"@, JsonV::Bool(v.delete_chat_photo)),
        ]
    }

    /// The `service` group of wire members.
    pub open spec fn enc_service(v: MessageV) -> Seq<(Seq<char>, JsonV)>
        decreases v, 0int,
    {
        seq![
            ("group_chat_created"@, JsonV::Bool(v.group_chat_created)),
            ("supergroup_chat_created"@, JsonV::Bool(v.supergroup_chat_created)),
            ("channel_chat_created"@, JsonV::Bool(v.channel_chat_created)),
            ("migrate_to_chat_id"@, nullable(opt_int_v(v.migrate_to_chat_id))),
            ("migrate_from_chat_id"@, nullable(opt_int_v(v.migrate_from_chat_id))),
        ]
    }

    /// The `trailer` group of wire members.
    pub open spec fn enc_trailer(v: MessageV) -> Seq<(Seq<char>, JsonV)>
        decreases v, 0int,
    {
        seq![
            ("pinned_message"@, nullable(
                match v.pinned_message {
                    None => None,
                    Some(b) => Some(Message::encoded_v(*b)),
                },
            )),
            ("connected_website"@, nullable(opt_str_v(v.connected_website))),
            ("reply_markup"@, nullable(match v.reply_markup {
                    None => None,
                    Some(x) => Some(InlineKeyboardMarkup::encoded_v(x)),
                })),
        ]
    }

    /// The wire form: a flat object with every member group in order.
    pub open spec fn encoded_v(v: MessageV) -> JsonV
        decreases v, 1int,
    {
        JsonV::Obj(
            Message::enc_origin(v)
                + Message::enc_forwarding(v)
                + Message::enc_revision(v)
                + Message::enc_payload(v)
                + Message::enc_media(v)
                + Message::enc_caption_part(v)
                + Message::enc_membership(v)
                + Message::enc_service(v)
                + Message::enc_trailer(v),
        )
    }

    /// What an optional member denotes as a message.
    pub open spec fn sp_opt_field(es: Seq<(Seq<char>, JsonV)>, key: Seq<char>) -> Result<
        Option<MessageV>,
        DecodeError,
    >
        decreases es, 0int,
    {
        match lookup(es, key) {
            None => Ok(None),
            Some(JsonV::Null) => Ok(None),
            Some(j) => {
                proof {
                    crate::json::lemma_lookup_decreases(es, key);
                }
                match Message::decoded(j) {
                    Err(e) => Err(e),
                    Ok(v) => Ok(Some(v)),
                }
            },
        }
    }

    /// Encode the `origin` group of members.
    #[verifier::rlimit(60)]
    fn origin_entries(&self) -> (r: Vec<(String, Json)>)
        requires
            Message::wf_v(self@),
        ensures
            entries_view(r@) =~= Message::enc_origin(self@),
        decreases *self, 0int,
    {
        let ghost spec_es = Message::enc_origin(self@);
        let mut out: Vec<(String, Json)> = Vec::new();
        let ghost prev = out@;
        out.push((String::from_str("message_id"), Json::Int(self.message_id.0)));
        proof {
            lemma_entries_view_push(prev, out@.last());
            assert(entries_view(out@) =~= spec_es.subrange(0, 1));
        }
        let j_from = match &self.from {
                    None => Json::Null,
                    Some(x) => x.to_json(),
                };
        let ghost prev = out@;
        out.push((String::from_str("from"), j_from));
        proof {
            lemma_entries_view_push(prev, out@.last());
            assert(entries_view(out@) =~= spec_es.subrange(0, 2));
        }
        let j_sender_chat = match &self.sender_chat {
                    None => Json::Null,
                    Some(c) => c.to_json(),
                };
        let ghost prev = out@;
        out.push((String::from_str("sender_chat"), j_sender_chat));
        proof {
            lemma_entries_view_push(prev, out@.last());
            assert(entries_view(out@) =~= spec_es.subrange(0, 3));
        }
        let ghost prev = out@;
        out.push((String::from_str("date"), Json::Int(self.date.0 as i64)));
        proof {
            lemma_entries_view_push(prev, out@.last());
            assert(entries_view(out@) =~= spec_es.subrange(0, 4));
        }
        let ghost prev = out@;
        out.push((String::from_str("chat"), self.chat.to_json()));
        proof {
            lemma_entries_view_push(prev, out@.last());
            assert(entries_view(out@) =~= spec_es.subrange(0, 5));
        }
        proof {
            assert(entries_view(out@) =~= spec_es);
        }
        out
    }

    /// Encode the `forwarding` group of members.
    #[verifier::rlimit(60)]
    fn forwarding_entries(&self) -> (r: Vec<(String, Json)>)
        requires
            Message::wf_v(self@),
        ensures
            entries_view(r@) =~= Message::enc_forwarding(self@),
        decreases *self, 0int,
    {
        let ghost spec_es = Message::enc_forwarding(self@);
        let mut out: Vec<(String, Json)> = Vec::new();
        let j_forward_from = match &self.forward_from {
                    None => Json::Null,
                    Some(x) => x.to_json(),
                };
        let ghost prev = out@;
        out.push((String::from_str("forward_from"), j_forward_from));
        proof {
            lemma_entries_view_push(prev, out@.last());
            assert(entries_view(out@) =~= spec_es.subrange(0, 1));
        }
        let j_forward_from_chat = match &self.forward_from_chat {
                    None => Json::Null,
                    Some(b) => b.to_json(),
                };
        let ghost prev = out@;
        out.push((String::from_str("forward_from_chat"), j_forward_from_chat));
        proof {
            lemma_entries_view_push(prev, out@.last());
            assert(entries_view(out@) =~= spec_es.subrange(0, 2));
        }
        let j_forward_from_message_id = match &self.forward_from_message_id {
                    None => Json::Null,
                    Some(x) => Json::Int(x.0),
                };
        let ghost prev = out@;
        out.push((String::from_str("forward_from_message_id"), j_forward_from_message_id));
        proof {
            lemma_entries_view_push(prev, out@.last());
            assert(entries_view(out@) =~= spec_es.subrange(0, 3));
        }
        let j_forward_signature = match &self.forward_signature {
                    None => Json::Null,
                    Some(x) => Json::Str(x.clone()),
                };
        let ghost prev = out@;
        out.push((String::from_str("forward_signature"), j_forward_signature));
        proof {
            lemma_entries_view_push(prev, out@.last());
            assert(entries_view(out@) =~= spec_es.subrange(0, 4));
        }
        let j_forward_sender_name = match &self.forward_sender_name {
                    None => Json::Null,
                    Some(x) => Json::Str(x.clone()),
                };
        let ghost prev = out@;
        out.push((String::from_str("forward_sender_name"), j_forward_sender_name));
        proof {
            lemma_entries_view_push(prev, out@.last());
            assert(entries_view(out@) =~= spec_es.subrange(0, 5));
        }
        proof {
            assert(entries_view(out@) =~= spec_es);
        }
        out
    }

    /// Encode the `revision` group of members.
    #[verifier::rlimit(60)]
    fn revision_entries(&self) -> (r: Vec<(String, Json)>)
        requires
            Message::wf_v(self@),
        ensures
            entries_view(r@) =~= Message::enc_revision(self@),
        decreases *self, 0int,
    {
        let ghost spec_es = Message::enc_revision(self@);
        let mut out: Vec<(String, Json)> = Vec::new();
        let j_forward_date = match &self.forward_date {
                    None => Json::Null,
                    Some(t) => Json::Int(t.0 as i64),
                };
        let ghost prev = out@;
        out.push((String::from_str("forward_date"), j_forward_date));
        proof {
            lemma_entries_view_push(prev, out@.last());
            assert(entries_view(out@) =~= spec_es.subrange(0, 1));
        }
        let j_reply_to_message = match &self.reply_to_message {
                    None => Json::Null,
                    Some(b) => b.to_json(),
                };
        let ghost prev = out@;
        out.push((String::from_str("reply_to_message"), j_reply_to_message));
        proof {
            lemma_entries_view_push(prev, out@.last());
            assert(entries_view(out@) =~= spec_es.subrange(0, 2));
        }
        let j_edit_date = match &self.edit_date {
                    None => Json::Null,
                    Some(t) => Json::Int(t.0 as i64),
                };
        let ghost prev = out@;
        out.push((String::from_str("edit_date"), j_edit_date));
        proof {
            lemma_entries_view_push(prev, out@.last());
            assert(entries_view(out@) =~= spec_es.subrange(0, 3));
        }
        let j_media_group_id = match &self.media_group_id {
                    None => Json::Null,
                    Some(x) => Json::Str(x.clone()),
                };
        let ghost prev = out@;
        out.push((String::from_str("media_group_id"), j_media_group_id));
        proof {
            lemma_entries_view_push(prev, out@.last());
            assert(entries_view(out@) =~= spec_es.subrange(0, 4));
        }
        let j_author_signature = match &self.author_signature {
                    None => Json::Null,
                    Some(x) => Json::Str(x.clone()),
                };
        let ghost prev = out@;
        out.push((String::from_str("author_signature"), j_author_signature));
        proof {
            lemma_entries_view_push(prev, out@.last());
            assert(entries_view(out@) =~= spec_es.subrange(0, 5));
        }
        proof {
            assert(entries_view(out@) =~= spec_es);
        }
        out
    }

    /// Encode the `payload` group of members.
    #[verifier::rlimit(60)]
    fn payload_entries(&self) -> (r: Vec<(String, Json)>)
        requires
            Message::wf_v(self@),
        ensures
            entries_view(r@) =~= Message::enc_payload(self@),
        decreases *self, 0int,
    {
        let ghost spec_es = Message::enc_payload(self@);
        let mut out: Vec<(String, Json)> = Vec::new();
        let j_text = match &self.text {
                    None => Json::Null,
                    Some(x) => Json::Str(x.clone()),
                };
        let ghost prev = out@;
        out.push((String::from_str("text"), j_text));
        proof {
            lemma_entries_view_push(prev, out@.last());
            assert(entries_view(out@) =~= spec_es.subrange(0, 1));
        }
        let j_sticker = match &self.sticker {
                    None => Json::Null,
                    Some(x) => x.to_json(),
                };
        let ghost prev = out@;
        out.push((String::from_str("sticker"), j_sticker));
        proof {
            lemma_entries_view_push(prev, out@.last());
            assert(entries_view(out@) =~= spec_es.subrange(0, 2));
        }
        let j_audio = match &self.audio {
                    None => Json::Null,
                    Some(x) => x.to_json(),
                };
        let ghost prev = out@;
        out.push((String::from_str("audio"), j_audio));
        proof {
            lemma_entries_view_push(prev, out@.last());
            assert(entries_view(out@) =~= spec_es.subrange(0, 3));
        }
        let j_document = match &self.document {
                    None => Json::Null,
                    Some(x) => x.to_json(),
                };
        let ghost prev = out@;
        out.push((String::from_str("document"), j_document));
        proof {
            lemma_entries_view_push(prev, out@.last());
            assert(entries_view(out@) =~= spec_es.subrange(0, 4));
        }
        let ghost prev = out@;
        out.push((String::from_str("photo"), PhotoSize::vec_to_json(&self.photo)));
        proof {
            lemma_entries_view_push(prev, out@.last());
            assert(entries_view(out@) =~= spec_es.subrange(0, 5));
        }
        proof {
            assert(entries_view(out@) =~= spec_es);
        }
        out
    }

    /// Encode the `media` group of members.
    #[verifier::rlimit(60)]
    fn media_entries(&self) -> (r: Vec<(String, Json)>)
        requires
            Message::wf_v(self@),
        ensures
            entries_view(r@) =~= Message::enc_media(self@),
        decreases *self, 0int,
    {
        let ghost spec_es = Message::enc_media(self@);
        let mut out: Vec<(String, Json)> = Vec::new();
        let ghost prev = out@;
        out.push((String::from_str("entities"), MessageEntity::vec_to_json(&self.entities)));
        proof {
            lemma_entries_view_push(prev, out@.last());
            assert(entries_view(out@) =~= spec_es.subrange(0, 1));
        }
        let j_voice = match &self.voice {
                    None => Json::Null,
                    Some(x) => x.to_json(),
                };
        let ghost prev = out@;
        out.push((String::from_str("voice"), j_voice));
        proof {
            lemma_entries_view_push(prev, out@.last());
            assert(entries_view(out@) =~= spec_es.subrange(0, 2));
        }
        let j_video = match &self.video {
                    None => Json::Null,
                    Some(x) => x.to_json(),
                };
        let ghost prev = out@;
        out.push((String::from_str("video"), j_video));
        proof {
            lemma_entries_view_push(prev, out@.last());
            assert(entries_view(out@) =~= spec_es.subrange(0, 3));
        }
        let j_video_note = match &self.video_note {
                    None => Json::Null,
                    Some(x) => x.to_json(),
                };
        let ghost prev = out@;
        out.push((String::from_str("video_note"), j_video_note));
        proof {
            lemma_entries_view_push(prev, out@.last());
            assert(entries_view(out@) =~= spec_es.subrange(0, 4));
        }
        let j_animation = match &self.animation {
                    None => Json::Null,
                    Some(x) => x.to_json(),
                };
        let ghost prev = out@;
        out.push((String::from_str("animation"), j_animation));
        proof {
            lemma_entries_view_push(prev, out@.last());
            assert(entries_view(out@) =~= spec_es.subrange(0, 5));
        }
        proof {
            assert(entries_view(out@) =~= spec_es);
        }
        out
    }

    /// Encode the `caption` group of members.
    #[verifier::rlimit(60)]
    fn caption_part_entries(&self) -> (r: Vec<(String, Json)>)
        requires
            Message::wf_v(self@),
        ensures
            entries_view(r@) =~= Message::enc_caption_part(self@),
        decreases *self, 0int,
    {
        let ghost spec_es = Message::enc_caption_part(self@);
        let mut out: Vec<(String, Json)> = Vec::new();
        let ghost prev = out@;
        out.push((String::from_str("caption_entities"), MessageEntity::vec_to_json(&self.caption_entities)));
        proof {
            lemma_entries_view_push(prev, out@.last());
            assert(entries_view(out@) =~= spec_es.subrange(0, 1));
        }
        let j_caption = match &self.caption {
                    None => Json::Null,
                    Some(x) => Json::Str(x.clone()),
                };
        let ghost prev = out@;
        out.push((String::from_str("caption"), j_caption));
        proof {
            lemma_entries_view_push(prev, out@.last());
            assert(entries_view(out@) =~= spec_es.subrange(0, 2));
        }
        let j_contact = match &self.contact {
                    None => Json::Null,
                    Some(x) => x.to_json(),
                };
        let ghost prev = out@;
        out.push((String::from_str("contact"), j_contact));
        proof {
            lemma_entries_view_push(prev, out@.last());
            assert(entries_view(out@) =~= spec_es.subrange(0, 3));
        }
        let j_location = match &self.location {
                    None => Json::Null,
                    Some(x) => x.deep_clone(),
                };
        let ghost prev = out@;
        out.push((String::from_str("location"), j_location));
        proof {
            lemma_entries_view_push(prev, out@.last());
            assert(entries_view(out@) =~= spec_es.subrange(0, 4));
        }
        let j_venue = match &self.venue {
                    None => Json::Null,
                    Some(x) => x.deep_clone(),
                };
        let ghost prev = out@;
        out.push((String::from_str("venue"), j_venue));
        proof {
            lemma_entries_view_push(prev, out@.last());
            assert(entries_view(out@) =~= spec_es.subrange(0, 5));
        }
        proof {
            assert(entries_view(out@) =~= spec_es);
        }
        out
    }

    /// Encode the `membership` group of members.
    #[verifier::rlimit(60)]
    fn membership_entries(&self) -> (r: Vec<(String, Json)>)
        requires
            Message::wf_v(self@),
        ensures
            entries_view(r@) =~= Message::enc_membership(self@),
        decreases *self, 0int,
    {
        let ghost spec_es = Message::enc_membership(self@);
        let mut out: Vec<(String, Json)> = Vec::new();
        let ghost prev = out@;
        out.push((String::from_str("new_chat_members"), User::vec_to_json(&self.new_chat_members)));
        proof {
            lemma_entries_view_push(prev, out@.last());
            assert(entries_view(out@) =~= spec_es.subrange(0, 1));
        }
        let j_left_chat_member = match &self.left_chat_member {
                    None => Json::Null,
                    Some(x) => x.to_json(),
                };
        let ghost prev = out@;
        out.push((String::from_str("left_chat_member"), j_left_chat_member));
        proof {
            lemma_entries_view_push(prev, out@.last());
            assert(entries_view(out@) =~= spec_es.subrange(0, 2));
        }
        let j_new_chat_title = match &self.new_chat_title {
                    None => Json::Null,
                    Some(x) => Json::Str(x.clone()),
                };
        let ghost prev = out@;
        out.push((String::from_str("new_chat_title"), j_new_chat_title));
        proof {
            lemma_entries_view_push(prev, out@.last());
            assert(entries_view(out@) =~= spec_es.subrange(0, 3));
        }
        let ghost prev = out@;
        out.push((String::from_str("new_chat_photo"), PhotoSize::vec_to_json(&self.new_chat_photo)));
        proof {
            lemma_entries_view_push(prev, out@.last());
            assert(entries_view(out@) =~= spec_es.subrange(0, 4));
        }
        let ghost prev = out@;
        out.push((String::from_str("delete_chat_photo"), Json::Bool(self.delete_chat_photo)));
        proof {
            lemma_entries_view_push(prev, out@.last());
            assert(entries_view(out@) =~= spec_es.subrange(0, 5));
        }
        proof {
            assert(entries_view(out@) =~= spec_es);
        }
        out
    }

    /// Encode the `service` group of members.
    #[verifier::rlimit(60)]
    fn service_entries(&self) -> (r: Vec<(String, Json)>)
        requires
            Message::wf_v(self@),
        ensures
            entries_view(r@) =~= Message::enc_service(self@),
        decreases *self, 0int,
    {
        let ghost spec_es = Message::enc_service(self@);
        let mut out: Vec<(String, Json)> = Vec::new();
        let ghost prev = out@;
        out.push((String::from_str("group_chat_created"), Json::Bool(self.group_chat_created)));
        proof {
            lemma_entries_view_push(prev, out@.last());
            assert(entries_view(out@) =~= spec_es.subrange(0, 1));
        }
        let ghost prev = out@;
        out.push((String::from_str("supergroup_chat_created"), Json::Bool(self.supergroup_chat_created)));
        proof {
            lemma_entries_view_push(prev, out@.last());
            assert(entries_view(out@) =~= spec_es.subrange(0, 2));
        }
        let ghost prev = out@;
        out.push((String::from_str("channel_chat_created"), Json::Bool(self.channel_chat_created)));
        proof {
            lemma_entries_view_push(prev, out@.last());
            assert(entries_view(out@) =~= spec_es.subrange(0, 3));
        }
        let j_migrate_to_chat_id = match &self.migrate_to_chat_id {
                    None => Json::Null,
                    Some(x) => Json::Int(x.0),
                };
        let ghost prev = out@;
        out.push((String::from_str("migrate_to_chat_id"), j_migrate_to_chat_id));
        proof {
            lemma_entries_view_push(prev, out@.last());
            assert(entries_view(out@) =~= spec_es.subrange(0, 4));
        }
        let j_migrate_from_chat_id = match &self.migrate_from_chat_id {
                    None => Json::Null,
                    Some(x) => Json::Int(x.0),
                };
        let ghost prev = out@;
        out.push((String::from_str("migrate_from_chat_id"), j_migrate_from_chat_id));
        proof {
            lemma_entries_view_push(prev, out@.last());
            assert(entries_view(out@) =~= spec_es.subrange(0, 5));
        }
        proof {
            assert(entries_view(out@) =~= spec_es);
        }
        out
    }

    /// Encode the `trailer` group of members.
    #[verifier::rlimit(60)]
    fn trailer_entries(&self) -> (r: Vec<(String, Json)>)
        requires
            Message::wf_v(self@),
        ensures
            entries_view(r@) =~= Message::enc_trailer(self@),
        decreases *self, 0int,
    {
        let ghost spec_es = Message::enc_trailer(self@);
        let mut out: Vec<(String, Json)> = Vec::new();
        let j_pinned_message = match &self.pinned_message {
                    None => Json::Null,
                    Some(b) => b.to_json(),
                };
        let ghost prev = out@;
        out.push((String::from_str("pinned_message"), j_pinned_message));
        proof {
            lemma_entries_view_push(prev, out@.last());
            assert(entries_view(out@) =~= spec_es.subrange(0, 1));
        }
        let j_connected_website = match &self.connected_website {
                    None => Json::Null,
                    Some(x) => Json::Str(x.clone()),
                };
        let ghost prev = out@;
        out.push((String::from_str("connected_website"), j_connected_website));
        proof {
            lemma_entries_view_push(prev, out@.last());
            assert(entries_view(out@) =~= spec_es.subrange(0, 2));
        }
        let j_reply_markup = match &self.reply_markup {
                    None => Json::Null,
                    Some(x) => x.to_json(),
                };
        let ghost prev = out@;
        out.push((String::from_str("reply_markup"), j_reply_markup));
        proof {
            lemma_entries_view_push(prev, out@.last());
            assert(entries_view(out@) =~= spec_es.subrange(0, 3));
        }
        proof {
            assert(entries_view(out@) =~= spec_es);
        }
        out
    }

    /// Encode as a flat object.
    #[verifier::rlimit(60)]
    pub fn to_json(&self) -> (r: Json)
        requires
            Message::wf_v(self@),
        ensures
            r@ == Message::encoded_v(self@),
        decreases *self, 1int,
    {
        let mut out = self.origin_entries();
        let ghost mut acc = out@;
        let mut part_forwarding = self.forwarding_entries();
        let ghost part_forwarding_v = part_forwarding@;
        out.append(&mut part_forwarding);
        proof {
            crate::json::lemma_entries_view_concat(acc, part_forwarding_v);
            acc = acc + part_forwarding_v;
        }
        let mut part_revision = self.revision_entries();
        let ghost part_revision_v = part_revision@;
        out.append(&mut part_revision);
        proof {
            crate::json::lemma_entries_view_concat(acc, part_revision_v);
            acc = acc + part_revision_v;
        }
        let mut part_payload = self.payload_entries();
        let ghost part_payload_v = part_payload@;
        out.append(&mut part_payload);
        proof {
            crate::json::lemma_entries_view_concat(acc, part_payload_v);
            acc = acc + part_payload_v;
        }
        let mut part_media = self.media_entries();
        let ghost part_media_v = part_media@;
        out.append(&mut part_media);
        proof {
            crate::json::lemma_entries_view_concat(acc, part_media_v);
            acc = acc + part_media_v;
        }
        let mut part_caption_part = self.caption_part_entries();
        let ghost part_caption_part_v = part_caption_part@;
        out.append(&mut part_caption_part);
        proof {
            crate::json::lemma_entries_view_concat(acc, part_caption_part_v);
            acc = acc + part_caption_part_v;
        }
        let mut part_membership = self.membership_entries();
        let ghost part_membership_v = part_membership@;
        out.append(&mut part_membership);
        proof {
            crate::json::lemma_entries_view_concat(acc, part_membership_v);
            acc = acc + part_membership_v;
        }
        let mut part_service = self.service_entries();
        let ghost part_service_v = part_service@;
        out.append(&mut part_service);
        proof {
            crate::json::lemma_entries_view_concat(acc, part_service_v);
            acc = acc + part_service_v;
        }
        let mut part_trailer = self.trailer_entries();
        let ghost part_trailer_v = part_trailer@;
        out.append(&mut part_trailer);
        proof {
            crate::json::lemma_entries_view_concat(acc, part_trailer_v);
            acc = acc + part_trailer_v;
        }
        proof {
            assert(entries_view(out@) =~= Message::encoded_v(self@)->Obj_0);
        }
        Json::Obj(out)
    }

    /// Decode an optional member as a message.
    pub fn opt_field(entries: &Vec<(String, Json)>, key: &str) -> (r: Result<
        Option<Message>,
        DecodeError,
    >)
        ensures
            match r {
                Ok(None) => Message::sp_opt_field(entries_view(entries@), key@) == Ok::<
                    Option<MessageV>,
                    DecodeError,
                >(None),
                Ok(Some(v)) => Message::sp_opt_field(entries_view(entries@), key@) == Ok::<
                    _,
                    DecodeError,
                >(Some(v@)),
                Err(e) => Message::sp_opt_field(entries_view(entries@), key@) == Err::<
                    Option<MessageV>,
                    _,
                >(e),
            },
        decreases *entries, 0int,
    {
        match obj_get(entries, key) {
            None => Ok(None),
            Some(Json::Null) => Ok(None),
            Some(j) => match Message::from_json(j) {
                Err(e) => Err(e),
                Ok(v) => Ok(Some(v)),
            },
        }
    }
}

impl ChatType {
    /// The members the kind adds to the flat chat object.
    #[verifier::rlimit(100)]
    pub fn entries_json(&self) -> (r: Vec<(String, Json)>)
        requires
            ChatType::wf_v(self@),
        ensures
            entries_view(r@) =~= ChatType::encoded_entries(self@),
        decreases *self, 1int,
    {
        let ghost spec_es = ChatType::encoded_entries(self@);
        let mut out: Vec<(String, Json)> = Vec::new();
        match self {
            ChatType::Private { username, first_name, last_name } => {
                let j_username = match username {
                    None => Json::Null,
                    Some(s) => Json::Str(s.clone()),
                };
                let j_last = match last_name {
                    None => Json::Null,
                    Some(s) => Json::Str(s.clone()),
                };
                out.push((String::from_str("type"), Json::Str(String::from_str("private"))));
                out.push((String::from_str("username"), j_username));
                out.push((String::from_str("first_name"), Json::Str(first_name.clone())));
                out.push((String::from_str("last_name"), j_last));
                proof {
                    crate::json::lemma_entries_view_len(out@);
                    crate::json::lemma_entries_view_index(out@, 0);
                    crate::json::lemma_entries_view_index(out@, 1);
                    crate::json::lemma_entries_view_index(out@, 2);
                    crate::json::lemma_entries_view_index(out@, 3);
                    assert(entries_view(out@) =~= spec_es);
                }
            },
            ChatType::Group { title, username, all_members_are_administrators } => {
                let j_username = match username {
                    None => Json::Null,
                    Some(s) => Json::Str(s.clone()),
                };
                out.push((String::from_str("type"), Json::Str(String::from_str("group"))));
                out.push((String::from_str("title"), Json::Str(title.clone())));
                out.push((String::from_str("username"), j_username));
                out.push(
                    (
                        String::from_str("all_members_are_administrators"),
                        Json::Bool(*all_members_are_administrators),
                    ),
                );
                proof {
                    crate::json::lemma_entries_view_len(out@);
                    crate::json::lemma_entries_view_index(out@, 0);
                    crate::json::lemma_entries_view_index(out@, 1);
                    crate::json::lemma_entries_view_index(out@, 2);
                    crate::json::lemma_entries_view_index(out@, 3);
                    assert(entries_view(out@) =~= spec_es);
                }
            },
            ChatType::Supergroup {
                title,
                username,
                all_members_are_administrators,
                pinned_message,
                sticker_set_name,
                can_set_sticker_set,
                invite_link,
                description,
            } => {
                let j_username = match username {
                    None => Json::Null,
                    Some(s) => Json::Str(s.clone()),
                };
                let j_pinned = match pinned_message {
                    None => Json::Null,
                    Some(b) => b.to_json(),
                };
                let j_sticker_set = match sticker_set_name {
                    None => Json::Null,
                    Some(s) => Json::Str(s.clone()),
                };
                let j_can_set = match can_set_sticker_set {
                    None => Json::Null,
                    Some(b) => Json::Bool(*b),
                };
                let j_invite = match invite_link {
                    None => Json::Null,
                    Some(s) => Json::Str(s.clone()),
                };
                let j_description = match description {
                    None => Json::Null,
                    Some(s) => Json::Str(s.clone()),
                };
                let ghost p0 = out@;
                out.push((String::from_str("type"), Json::Str(String::from_str("supergroup"))));
                proof {
                    lemma_entries_view_push(p0, out@.last());
                    assert(entries_view(out@) =~= spec_es.subrange(0, 1));
                }
                let ghost p1 = out@;
                out.push((String::from_str("title"), Json::Str(title.clone())));
                proof {
                    lemma_entries_view_push(p1, out@.last());
                    assert(entries_view(out@) =~= spec_es.subrange(0, 2));
                }
                let ghost p2 = out@;
                out.push((String::from_str("username"), j_username));
                proof {
                    lemma_entries_view_push(p2, out@.last());
                    assert(entries_view(out@) =~= spec_es.subrange(0, 3));
                }
                let ghost p3 = out@;
                out.push(
                    (
                        String::from_str("all_members_are_administrators"),
                        Json::Bool(*all_members_are_administrators),
                    ),
                );
                proof {
                    lemma_entries_view_push(p3, out@.last());
                    assert(entries_view(out@) =~= spec_es.subrange(0, 4));
                }
                let ghost p4 = out@;
                out.push((String::from_str("pinned_message"), j_pinned));
                proof {
                    lemma_entries_view_push(p4, out@.last());
                    assert(entries_view(out@) =~= spec_es.subrange(0, 5));
                }
                let ghost p5 = out@;
                out.push((String::from_str("sticker_set_name"), j_sticker_set));
                proof {
                    lemma_entries_view_push(p5, out@.last());
                    assert(entries_view(out@) =~= spec_es.subrange(0, 6));
                }
                let ghost p6 = out@;
                out.push((String::from_str("can_set_sticker_set"), j_can_set));
                proof {
                    lemma_entries_view_push(p6, out@.last());
                    assert(entries_view(out@) =~= spec_es.subrange(0, 7));
                }
                let ghost p7 = out@;
                out.push((String::from_str("invite_link"), j_invite));
                proof {
                    lemma_entries_view_push(p7, out@.last());
                    assert(entries_view(out@) =~= spec_es.subrange(0, 8));
                }
                let ghost p8 = out@;
                out.push((String::from_str("description"), j_description));
                proof {
                    lemma_entries_view_push(p8, out@.last());
                    assert(entries_view(out@) =~= spec_es.subrange(0, 9));
                    assert(entries_view(out@) =~= spec_es);
                }
            },
            ChatType::Channel { title, username, pinned_message, invite_link, description } => {
                let j_username = match username {
                    None => Json::Null,
                    Some(s) => Json::Str(s.clone()),
                };
                let j_pinned = match pinned_message {
                    None => Json::Null,
                    Some(b) => b.to_json(),
                };
                let j_invite = match invite_link {
                    None => Json::Null,
                    Some(s) => Json::Str(s.clone()),
                };
                let j_description = match description {
                    None => Json::Null,
                    Some(s) => Json::Str(s.clone()),
                };
                out.push((String::from_str("type"), Json::Str(String::from_str("channel"))));
                out.push((String::from_str("title"), Json::Str(title.clone())));
                out.push((String::from_str("username"), j_username));
                out.push((String::from_str("pinned_message"), j_pinned));
                out.push((String::from_str("invite_link"), j_invite));
                out.push((String::from_str("description"), j_description));
                proof {
                    crate::json::lemma_entries_view_len(out@);
                    crate::json::lemma_entries_view_index(out@, 0);
                    crate::json::lemma_entries_view_index(out@, 1);
                    crate::json::lemma_entries_view_index(out@, 2);
                    crate::json::lemma_entries_view_index(out@, 3);
                    crate::json::lemma_entries_view_index(out@, 4);
                    crate::json::lemma_entries_view_index(out@, 5);
                    assert(entries_view(out@) =~= spec_es);
                }
            },
            ChatType::Unknown => {
                out.push((String::from_str("type"), Json::Str(String::from_str("unknown"))));
                proof {
                    crate::json::lemma_entries_view_len(out@);
                    crate::json::lemma_entries_view_index(out@, 0);
                    assert(entries_view(out@) =~= spec_es);
                }
            },
        }
        out
    }

    /// Decode a kind from the members of the flat chat object.
    #[verifier::rlimit(100)]
    pub fn from_fields(entries: &Vec<(String, Json)>) -> (r: Result<ChatType, DecodeError>)
        ensures
            match r {
                Ok(v) => ChatType::decoded_fields(entries_view(entries@)) == Ok::<
                    _,
                    DecodeError,
                >(v@),
                Err(e) => ChatType::decoded_fields(entries_view(entries@)) == Err::<
                    ChatTypeV,
                    _,
                >(e),
            },
        decreases *entries, 1int,
    {
        let tag = match req_str(entries, "type") {
            Err(e) => {
                return Err(e);
            },
            Ok(s) => s,
        };
        if crate::json::str_eq(tag.as_str(), "private") {
            let username = match opt_str(entries, "username") {
                Err(e) => {
                    return Err(e);
                },
                Ok(v) => v,
            };
            let first_name = match req_str(entries, "first_name") {
                Err(e) => {
                    return Err(e);
                },
                Ok(s) => s,
            };
            let last_name = match opt_str(entries, "last_name") {
                Err(e) => {
                    return Err(e);
                },
                Ok(v) => v,
            };
            Ok(ChatType::Private { username, first_name, last_name })
        } else if crate::json::str_eq(tag.as_str(), "group") {
            let title = match req_str(entries, "title") {
                Err(e) => {
                    return Err(e);
                },
                Ok(s) => s,
            };
            let username = match opt_str(entries, "username") {
                Err(e) => {
                    return Err(e);
                },
                Ok(v) => v,
            };
            let all_members = match crate::json::bool_or_false(
                entries,
                "all_members_are_administrators",
            ) {
                Err(e) => {
                    return Err(e);
                },
                Ok(b) => b,
            };
            Ok(
                ChatType::Group {
                    title,
                    username,
                    all_members_are_administrators: all_members,
                },
            )
        } else if crate::json::str_eq(tag.as_str(), "supergroup") {
            let title = match req_str(entries, "title") {
                Err(e) => {
                    return Err(e);
                },
                Ok(s) => s,
            };
            let username = match opt_str(entries, "username") {
                Err(e) => {
                    return Err(e);
                },
                Ok(v) => v,
            };
            let all_members = match crate::json::bool_or_false(
                entries,
                "all_members_are_administrators",
            ) {
                Err(e) => {
                    return Err(e);
                },
                Ok(b) => b,
            };
            let pinned_message = match Message::opt_field(entries, "pinned_message") {
                Err(e) => {
                    return Err(e);
                },
                Ok(None) => None,
                Ok(Some(m)) => Some(Box::new(m)),
            };
            let sticker_set_name = match opt_str(entries, "sticker_set_name") {
                Err(e) => {
                    return Err(e);
                },
                Ok(v) => v,
            };
            let can_set_sticker_set = match opt_bool(entries, "can_set_sticker_set") {
                Err(e) => {
                    return Err(e);
                },
                Ok(v) => v,
            };
            let invite_link = match opt_str(entries, "invite_link") {
                Err(e) => {
                    return Err(e);
                },
                Ok(v) => v,
            };
            let description = match opt_str(entries, "description") {
                Err(e) => {
                    return Err(e);
                },
                Ok(v) => v,
            };
            Ok(
                ChatType::Supergroup {
                    title,
                    username,
                    all_members_are_administrators: all_members,
                    pinned_message,
                    sticker_set_name,
                    can_set_sticker_set,
                    invite_link,
                    description,
                },
            )
        } else if crate::json::str_eq(tag.as_str(), "channel") {
            let title = match req_str(entries, "title") {
                Err(e) => {
                    return Err(e);
                },
                Ok(s) => s,
            };
            let username = match opt_str(entries, "username") {
                Err(e) => {
                    return Err(e);
                },
                Ok(v) => v,
            };
            let pinned_message = match Message::opt_field(entries, "pinned_message") {
                Err(e) => {
                    return Err(e);
                },
                Ok(None) => None,
                Ok(Some(m)) => Some(Box::new(m)),
            };
            let invite_link = match opt_str(entries, "invite_link") {
                Err(e) => {
                    return Err(e);
                },
                Ok(v) => v,
            };
            let description = match opt_str(entries, "description") {
                Err(e) => {
                    return Err(e);
                },
                Ok(v) => v,
            };
            Ok(
                ChatType::Channel {
                    title,
                    username,
                    pinned_message,
                    invite_link,
                    description,
                },
            )
        } else {
            Ok(ChatType::Unknown)
        }
    }
}

impl Chat {
    /// The wire form: the identifier and photo beside the kind members,
    /// all in one flat object.
    pub open spec fn encoded_v(v: ChatV) -> JsonV
        decreases v, 1int,
    {
        JsonV::Obj(
            seq![
                ("id"@, JsonV::Int(v.id)),
                (
                    "photo"@,
                    nullable(
                        match v.photo {
                            None => None,
                            Some(p) => Some(ChatPhoto::encoded_v(p)),
                        },
                    ),
                ),
            ] + ChatType::encoded_entries(v.kind),
        )
    }

    /// What the members of an object denote.
    pub open spec fn decoded_fields(es: Seq<(Seq<char>, JsonV)>) -> Result<ChatV, DecodeError>
        decreases es, 2int,
    {
        if sp_req_i64(es, "id"@) is Err {
            Err(sp_req_i64(es, "id"@)->Err_0)
        } else if ChatPhoto::sp_opt_field(es, "photo"@) is Err {
            Err(ChatPhoto::sp_opt_field(es, "photo"@)->Err_0)
        } else if ChatType::decoded_fields(es) is Err {
            Err(ChatType::decoded_fields(es)->Err_0)
        } else {
            Ok(
                ChatV {
                    id: sp_req_i64(es, "id"@)->Ok_0,
                    photo: ChatPhoto::sp_opt_field(es, "photo"@)->Ok_0,
                    kind: ChatType::decoded_fields(es)->Ok_0,
                },
            )
        }
    }

    /// What a document denotes.
    pub open spec fn decoded(j: JsonV) -> Result<ChatV, DecodeError>
        decreases j, 3int,
    {
        match j {
            JsonV::Obj(es) => Chat::decoded_fields(es),
            _ => Err(DecodeError::WrongType),
        }
    }

    /// What a required member denotes as a chat.
    pub open spec fn sp_req_field(es: Seq<(Seq<char>, JsonV)>, key: Seq<char>) -> Result<
        ChatV,
        DecodeError,
    >
        decreases es, 0int,
    {
        match lookup(es, key) {
            None => Err(DecodeError::MissingField),
            Some(j) => {
                proof {
                    crate::json::lemma_lookup_decreases(es, key);
                }
                Chat::decoded(j)
            },
        }
    }

    /// What an optional member denotes as a chat.
    pub open spec fn sp_opt_field(es: Seq<(Seq<char>, JsonV)>, key: Seq<char>) -> Result<
        Option<ChatV>,
        DecodeError,
    >
        decreases es, 0int,
    {
        match lookup(es, key) {
            None => Ok(None),
            Some(JsonV::Null) => Ok(None),
            Some(j) => {
                proof {
                    crate::json::lemma_lookup_decreases(es, key);
                }
                match Chat::decoded(j) {
                    Err(e) => Err(e),
                    Ok(v) => Ok(Some(v)),
                }
            },
        }
    }

    /// Encode as a flat object.
    pub fn to_json(&self) -> (r: Json)
        requires
            Chat::wf_v(self@),
        ensures
            r@ == Chat::encoded_v(self@),
        decreases *self, 2int,
    {
        let ghost spec_es = Chat::encoded_v(self@)->Obj_0;
        let j_photo = match &self.photo {
            None => Json::Null,
            Some(p) => p.to_json(),
        };
        let mut out: Vec<(String, Json)> = Vec::new();
        out.push((String::from_str("id"), Json::Int(self.id.0)));
        out.push((String::from_str("photo"), j_photo));
        let ghost head = out@;
        let mut kind_entries = self.kind.entries_json();
        let ghost kv = kind_entries@;
        out.append(&mut kind_entries);
        proof {
            crate::json::lemma_entries_view_len(head);
            crate::json::lemma_entries_view_index(head, 0);
            crate::json::lemma_entries_view_index(head, 1);
            crate::json::lemma_entries_view_concat(head, kv);
            assert(entries_view(out@) =~= spec_es);
        }
        Json::Obj(out)
    }

    /// Decode from a flat object.
    pub fn from_json(j: &Json) -> (r: Result<Chat, DecodeError>)
        ensures
            match r {
                Ok(v) => Chat::decoded(j@) == Ok::<_, DecodeError>(v@),
                Err(e) => Chat::decoded(j@) == Err::<ChatV, _>(e),
            },
        decreases *j, 3int,
    {
        match j {
            Json::Obj(entries) => {
                let id = match req_i64(entries, "id") {
                    Err(e) => {
                        return Err(e);
                    },
                    Ok(n) => ChatId(n),
                };
                let photo = match ChatPhoto::opt_field(entries, "photo") {
                    Err(e) => {
                        return Err(e);
                    },
                    Ok(v) => v,
                };
                let kind = match ChatType::from_fields(entries) {
                    Err(e) => {
                        return Err(e);
                    },
                    Ok(k) => k,
                };
                Ok(Chat { id, photo, kind })
            },
            _ => Err(DecodeError::WrongType),
        }
    }

    /// Decode a required member as a chat.
    pub fn req_field(entries: &Vec<(String, Json)>, key: &str) -> (r: Result<
        Chat,
        DecodeError,
    >)
        ensures
            match r {
                Ok(v) => Chat::sp_req_field(entries_view(entries@), key@) == Ok::<
                    _,
                    DecodeError,
                >(v@),
                Err(e) => Chat::sp_req_field(entries_view(entries@), key@) == Err::<ChatV, _>(
                    e,
                ),
            },
        decreases *entries, 0int,
    {
        match obj_get(entries, key) {
            None => Err(DecodeError::MissingField),
            Some(j) => Chat::from_json(j),
        }
    }

    /// Decode an optional member as a chat.
    pub fn opt_field(entries: &Vec<(String, Json)>, key: &str) -> (r: Result<
        Option<Chat>,
        DecodeError,
    >)
        ensures
            match r {
                Ok(None) => Chat::sp_opt_field(entries_view(entries@), key@) == Ok::<
                    Option<ChatV>,
                    DecodeError,
                >(None),
                Ok(Some(v)) => Chat::sp_opt_field(entries_view(entries@), key@) == Ok::<
                    _,
                    DecodeError,
                >(Some(v@)),
                Err(e) => Chat::sp_opt_field(entries_view(entries@), key@) == Err::<
                    Option<ChatV>,
                    _,
                >(e),
            },
        decreases *entries, 0int,
    {
        match obj_get(entries, key) {
            None => Ok(None),
            Some(Json::Null) => Ok(None),
            Some(j) => match Chat::from_json(j) {
                Err(e) => Err(e),
                Ok(v) => Ok(Some(v)),
            },
        }
    }
}

/// The model of a service-event payload that carries no data this model
/// reads.
pub struct ShippingQueryV {}

/// A shipping query payload; its attributes are not modelled.
#[derive(Debug, Clone, PartialEq)]
pub struct ShippingQuery {}

/// The model of a pre-checkout payload.
pub struct PreCheckoutQueryV {}

/// A pre-checkout query payload; its attributes are not modelled.
#[derive(Debug, Clone, PartialEq)]
pub struct PreCheckoutQuery {}

/// The model of a poll payload.
pub struct PollV {}

/// A poll payload; its attributes are not modelled.
#[derive(Debug, Clone, PartialEq)]
pub struct Poll {}

/// The model of a poll answer payload.
pub struct PollAnswerV {}

/// A poll answer payload; its attributes are not modelled.
#[derive(Debug, Clone, PartialEq)]
pub struct PollAnswer {}

/// The model of a chat member change payload.
pub struct ChatMemberUpdatedV {}

/// A chat member change payload; its attributes are not modelled.
#[derive(Debug, Clone, PartialEq)]
pub struct ChatMemberUpdated {}

impl View for ShippingQuery {
    type V = ShippingQueryV;

    open spec fn view(&self) -> ShippingQueryV {
        ShippingQueryV {}
    }
}

impl View for PreCheckoutQuery {
    type V = PreCheckoutQueryV;

    open spec fn view(&self) -> PreCheckoutQueryV {
        PreCheckoutQueryV {}
    }
}

impl View for Poll {
    type V = PollV;

    open spec fn view(&self) -> PollV {
        PollV {}
    }
}

impl View for PollAnswer {
    type V = PollAnswerV;

    open spec fn view(&self) -> PollAnswerV {
        PollAnswerV {}
    }
}

impl View for ChatMemberUpdated {
    type V = ChatMemberUpdatedV;

    open spec fn view(&self) -> ChatMemberUpdatedV {
        ChatMemberUpdatedV {}
    }
}

/// The model of an incoming callback query.
pub struct CallbackQueryV {
    pub id: Seq<char>,
    pub from: UserV,
    pub message: Option<MessageV>,
    pub inline_message_id: Option<Seq<char>>,
    pub chat_instance: Seq<char>,
    pub data: Option<Seq<char>>,
    pub game_short_name: Option<Seq<char>>,
}

/// An incoming callback query from a callback button in an inline
/// keyboard.
#[derive(Debug, PartialEq)]
pub struct CallbackQuery {
    /// Unique identifier for this query
    pub id: String,
    /// Sender
    pub from: Box<User>,
    /// Message with the callback button that originated the query
    pub message: Option<Box<Message>>,
    /// Identifier of the inline message that originated the query
    pub inline_message_id: Option<String>,
    /// Global identifier of the chat the button's message was sent to
    pub chat_instance: String,
    /// Data associated with the callback button
    pub data: Option<String>,
    /// Short name of a game to be returned
    pub game_short_name: Option<String>,
}

impl View for CallbackQuery {
    type V = CallbackQueryV;

    open spec fn view(&self) -> CallbackQueryV {
        CallbackQueryV {
            id: self.id@,
            from: self.from@,
            message: match &self.message {
                None => None,
                Some(b) => Some(msg_view(**b)),
            },
            inline_message_id: match &self.inline_message_id {
                None => None,
                Some(s) => Some(s@),
            },
            chat_instance: self.chat_instance@,
            data: match &self.data {
                None => None,
                Some(s) => Some(s@),
            },
            game_short_name: match &self.game_short_name {
                None => None,
                Some(s) => Some(s@),
            },
        }
    }
}

impl CallbackQuery {
    /// What the members of an object denote.
    pub open spec fn decoded_fields(es: Seq<(Seq<char>, JsonV)>) -> Result<
        CallbackQueryV,
        DecodeError,
    > {
        if sp_req_str(es, "id"@) is Err {
            Err(sp_req_str(es, "id"@)->Err_0)
        } else if User::sp_req_field(es, "from"@) is Err {
            Err(User::sp_req_field(es, "from"@)->Err_0)
        } else if Message::sp_opt_field(es, "message"@) is Err {
            Err(Message::sp_opt_field(es, "message"@)->Err_0)
        } else if sp_opt_str(es, "inline_message_id"@) is Err {
            Err(sp_opt_str(es, "inline_message_id"@)->Err_0)
        } else if sp_req_str(es, "chat_instance"@) is Err {
            Err(sp_req_str(es, "chat_instance"@)->Err_0)
        } else if sp_opt_str(es, "data"@) is Err {
            Err(sp_opt_str(es, "data"@)->Err_0)
        } else if sp_opt_str(es, "game_short_name"@) is Err {
            Err(sp_opt_str(es, "game_short_name"@)->Err_0)
        } else {
            Ok(
                CallbackQueryV {
                    id: sp_req_str(es, "id"@)->Ok_0,
                    from: User::sp_req_field(es, "from"@)->Ok_0,
                    message: Message::sp_opt_field(es, "message"@)->Ok_0,
                    inline_message_id: sp_opt_str(es, "inline_message_id"@)->Ok_0,
                    chat_instance: sp_req_str(es, "chat_instance"@)->Ok_0,
                    data: sp_opt_str(es, "data"@)->Ok_0,
                    game_short_name: sp_opt_str(es, "game_short_name"@)->Ok_0,
                },
            )
        }
    }

    /// What a document denotes.
    pub open spec fn decoded(j: JsonV) -> Result<CallbackQueryV, DecodeError> {
        match j {
            JsonV::Obj(es) => CallbackQuery::decoded_fields(es),
            _ => Err(DecodeError::WrongType),
        }
    }

    /// Decode from an object.
    pub fn from_json(j: &Json) -> (r: Result<CallbackQuery, DecodeError>)
        ensures
            match r {
                Ok(v) => CallbackQuery::decoded(j@) == Ok::<_, DecodeError>(v@),
                Err(e) => CallbackQuery::decoded(j@) == Err::<CallbackQueryV, _>(e),
            },
    {
        match j {
            Json::Obj(entries) => {
                let id = match req_str(entries, "id") {
                    Err(e) => {
                        return Err(e);
                    },
                    Ok(s) => s,
                };
                let from = match User::req_field(entries, "from") {
                    Err(e) => {
                        return Err(e);
                    },
                    Ok(u) => Box::new(u),
                };
                let message = match Message::opt_field(entries, "message") {
                    Err(e) => {
                        return Err(e);
                    },
                    Ok(None) => None,
                    Ok(Some(m)) => Some(Box::new(m)),
                };
                let inline_message_id = match opt_str(entries, "inline_message_id") {
                    Err(e) => {
                        return Err(e);
                    },
                    Ok(v) => v,
                };
                let chat_instance = match req_str(entries, "chat_instance") {
                    Err(e) => {
                        return Err(e);
                    },
                    Ok(s) => s,
                };
                let data = match opt_str(entries, "data") {
                    Err(e) => {
                        return Err(e);
                    },
                    Ok(v) => v,
                };
                let game_short_name = match opt_str(entries, "game_short_name") {
                    Err(e) => {
                        return Err(e);
                    },
                    Ok(v) => v,
                };
                Ok(
                    CallbackQuery {
                        id,
                        from,
                        message,
                        inline_message_id,
                        chat_instance,
                        data,
                        game_short_name,
                    },
                )
            },
            _ => Err(DecodeError::WrongType),
        }
    }
}

/// The model of the one populated content branch of an update.
pub enum UpdateContentV {
    Message(MessageV),
    EditedMessage(MessageV),
    ChannelPost(MessageV),
    EditedChannelPost(MessageV),
    InlineQuery(crate::bot::inline_mode::InlineQueryV),
    ChosenInlineResult(crate::bot::inline_mode::ChosenInlineResultV),
    CallbackQuery(CallbackQueryV),
    ShippingQuery(ShippingQueryV),
    PreCheckoutQuery(PreCheckoutQueryV),
    Poll(PollV),
    PollAnswer(PollAnswerV),
    MyChatMember(ChatMemberUpdatedV),
    ChatMember(ChatMemberUpdatedV),
    Unknown,
}

/// The one populated content branch of an update.
///
/// On the wire the branch is a single member of the flat update object,
/// named after the branch; an update with none of the known member names
/// decodes to `Unknown` rather than failing, while a known member whose
/// payload does not parse is a hard error.
#[derive(Debug, PartialEq)]
pub enum UpdateContent {
    /// New incoming message of any kind
    Message(Message),
    /// New version of a message that is known to the bot and was edited
    EditedMessage(Message),
    /// New incoming channel post of any kind
    ChannelPost(Message),
    /// New version of a channel post that is known to the bot and was edited
    EditedChannelPost(Message),
    /// New incoming inline query
    InlineQuery(crate::bot::inline_mode::InlineQuery),
    /// The result of an inline query that was chosen by a user
    ChosenInlineResult(crate::bot::inline_mode::ChosenInlineResult),
    /// New incoming callback query
    CallbackQuery(CallbackQuery),
    ShippingQuery(ShippingQuery),
    PreCheckoutQuery(PreCheckoutQuery),
    Poll(Poll),
    PollAnswer(PollAnswer),
    MyChatMember(ChatMemberUpdated),
    ChatMember(ChatMemberUpdated),
    /// Unknown update type
    Unknown,
}

impl View for UpdateContent {
    type V = UpdateContentV;

    open spec fn view(&self) -> UpdateContentV {
        match self {
            UpdateContent::Message(m) => UpdateContentV::Message(m@),
            UpdateContent::EditedMessage(m) => UpdateContentV::EditedMessage(m@),
            UpdateContent::ChannelPost(m) => UpdateContentV::ChannelPost(m@),
            UpdateContent::EditedChannelPost(m) => UpdateContentV::EditedChannelPost(m@),
            UpdateContent::InlineQuery(q) => UpdateContentV::InlineQuery(q@),
            UpdateContent::ChosenInlineResult(c) => UpdateContentV::ChosenInlineResult(c@),
            UpdateContent::CallbackQuery(c) => UpdateContentV::CallbackQuery(c@),
            UpdateContent::ShippingQuery(s) => UpdateContentV::ShippingQuery(s@),
            UpdateContent::PreCheckoutQuery(p) => UpdateContentV::PreCheckoutQuery(p@),
            UpdateContent::Poll(p) => UpdateContentV::Poll(p@),
            UpdateContent::PollAnswer(p) => UpdateContentV::PollAnswer(p@),
            UpdateContent::MyChatMember(c) => UpdateContentV::MyChatMember(c@),
            UpdateContent::ChatMember(c) => UpdateContentV::ChatMember(c@),
            UpdateContent::Unknown => UpdateContentV::Unknown,
        }
    }
}

impl Default for UpdateContent {
    /// The content of an update whose payload carried no recognized member.
    fn default() -> (r: Self)
        ensures
            r is Unknown,
    {
        UpdateContent::Unknown
    }
}

impl UpdateContent {
    /// What an empty-payload member denotes: any object.
    pub open spec fn sp_obj_field(es: Seq<(Seq<char>, JsonV)>, key: Seq<char>) -> Result<
        (),
        DecodeError,
    > {
        match lookup(es, key) {
            None => Err(DecodeError::MissingField),
            Some(JsonV::Obj(inner)) => Ok(()),
            Some(_) => Err(DecodeError::WrongType),
        }
    }

    /// What the members of a flat update object denote as content: the
    /// known member names are tried in declaration order; an update with
    /// none of them has no content.
    pub open spec fn decoded_fields(es: Seq<(Seq<char>, JsonV)>) -> Result<
        Option<UpdateContentV>,
        DecodeError,
    > {
        if lookup(es, "message"@) is Some {
            match Message::sp_opt_field(es, "message"@) {
                Err(e) => Err(e),
                Ok(None) => Err(DecodeError::WrongType),
                Ok(Some(m)) => Ok(Some(UpdateContentV::Message(m))),
            }
        } else if lookup(es, "edited_message"@) is Some {
            match Message::sp_opt_field(es, "edited_message"@) {
                Err(e) => Err(e),
                Ok(None) => Err(DecodeError::WrongType),
                Ok(Some(m)) => Ok(Some(UpdateContentV::EditedMessage(m))),
            }
        } else if lookup(es, "channel_post"@) is Some {
            match Message::sp_opt_field(es, "channel_post"@) {
                Err(e) => Err(e),
                Ok(None) => Err(DecodeError::WrongType),
                Ok(Some(m)) => Ok(Some(UpdateContentV::ChannelPost(m))),
            }
        } else if lookup(es, "edited_channel_post"@) is Some {
            match Message::sp_opt_field(es, "edited_channel_post"@) {
                Err(e) => Err(e),
                Ok(None) => Err(DecodeError::WrongType),
                Ok(Some(m)) => Ok(Some(UpdateContentV::EditedChannelPost(m))),
            }
        } else if lookup(es, "inline_query"@) is Some {
            match crate::bot::inline_mode::InlineQuery::sp_req_field(es, "inline_query"@) {
                Err(e) => Err(e),
                Ok(q) => Ok(Some(UpdateContentV::InlineQuery(q))),
            }
        } else if lookup(es, "chosen_inline_result"@) is Some {
            match crate::bot::inline_mode::ChosenInlineResult::sp_req_field(
                es,
                "chosen_inline_result"@,
            ) {
                Err(e) => Err(e),
                Ok(c) => Ok(Some(UpdateContentV::ChosenInlineResult(c))),
            }
        } else if lookup(es, "callback_query"@) is Some {
            match lookup(es, "callback_query"@)->0 {
                j => match CallbackQuery::decoded(j) {
                    Err(e) => Err(e),
                    Ok(c) => Ok(Some(UpdateContentV::CallbackQuery(c))),
                },
            }
        } else if lookup(es, "shipping_query"@) is Some {
            match UpdateContent::sp_obj_field(es, "shipping_query"@) {
                Err(e) => Err(e),
                Ok(_) => Ok(Some(UpdateContentV::ShippingQuery(ShippingQueryV {  }))),
            }
        } else if lookup(es, "pre_checkout_query"@) is Some {
            match UpdateContent::sp_obj_field(es, "pre_checkout_query"@) {
                Err(e) => Err(e),
                Ok(_) => Ok(Some(UpdateContentV::PreCheckoutQuery(PreCheckoutQueryV {  }))),
            }
        } else if lookup(es, "poll"@) is Some {
            match UpdateContent::sp_obj_field(es, "poll"@) {
                Err(e) => Err(e),
                Ok(_) => Ok(Some(UpdateContentV::Poll(PollV {  }))),
            }
        } else if lookup(es, "poll_answer"@) is Some {
            match UpdateContent::sp_obj_field(es, "poll_answer"@) {
                Err(e) => Err(e),
                Ok(_) => Ok(Some(UpdateContentV::PollAnswer(PollAnswerV {  }))),
            }
        } else if lookup(es, "my_chat_member"@) is Some {
            match UpdateContent::sp_obj_field(es, "my_chat_member"@) {
                Err(e) => Err(e),
                Ok(_) => Ok(Some(UpdateContentV::MyChatMember(ChatMemberUpdatedV {  }))),
            }
        } else if lookup(es, "chat_member"@) is Some {
            match UpdateContent::sp_obj_field(es, "chat_member"@) {
                Err(e) => Err(e),
                Ok(_) => Ok(Some(UpdateContentV::ChatMember(ChatMemberUpdatedV {  }))),
            }
        } else {
            Ok(None)
        }
    }

    /// Decode the content branch from the members of a flat update object.
    #[verifier::rlimit(60)]
    pub fn from_fields(entries: &Vec<(String, Json)>) -> (r: Result<
        Option<UpdateContent>,
        DecodeError,
    >)
        ensures
            match r {
                Ok(None) => UpdateContent::decoded_fields(entries_view(entries@)) == Ok::<
                    Option<UpdateContentV>,
                    DecodeError,
                >(None),
                Ok(Some(v)) => UpdateContent::decoded_fields(entries_view(entries@)) == Ok::<
                    _,
                    DecodeError,
                >(Some(v@)),
                Err(e) => UpdateContent::decoded_fields(entries_view(entries@)) == Err::<
                    Option<UpdateContentV>,
                    _,
                >(e),
            },
    {
        if obj_get(entries, "message").is_some() {
            match Message::opt_field(entries, "message") {
                Err(e) => Err(e),
                Ok(None) => Err(DecodeError::WrongType),
                Ok(Some(m)) => Ok(Some(UpdateContent::Message(m))),
            }
        } else if obj_get(entries, "edited_message").is_some() {
            match Message::opt_field(entries, "edited_message") {
                Err(e) => Err(e),
                Ok(None) => Err(DecodeError::WrongType),
                Ok(Some(m)) => Ok(Some(UpdateContent::EditedMessage(m))),
            }
        } else if obj_get(entries, "channel_post").is_some() {
            match Message::opt_field(entries, "channel_post") {
                Err(e) => Err(e),
                Ok(None) => Err(DecodeError::WrongType),
                Ok(Some(m)) => Ok(Some(UpdateContent::ChannelPost(m))),
            }
        } else if obj_get(entries, "edited_channel_post").is_some() {
            match Message::opt_field(entries, "edited_channel_post") {
                Err(e) => Err(e),
                Ok(None) => Err(DecodeError::WrongType),
                Ok(Some(m)) => Ok(Some(UpdateContent::EditedChannelPost(m))),
            }
        } else if obj_get(entries, "inline_query").is_some() {
            match crate::bot::inline_mode::InlineQuery::req_field(entries, "inline_query") {
                Err(e) => Err(e),
                Ok(q) => Ok(Some(UpdateContent::InlineQuery(q))),
            }
        } else if obj_get(entries, "chosen_inline_result").is_some() {
            match crate::bot::inline_mode::ChosenInlineResult::req_field(
                entries,
                "chosen_inline_result",
            ) {
                Err(e) => Err(e),
                Ok(c) => Ok(Some(UpdateContent::ChosenInlineResult(c))),
            }
        } else if let Some(j) = obj_get(entries, "callback_query") {
            match CallbackQuery::from_json(j) {
                Err(e) => Err(e),
                Ok(c) => Ok(Some(UpdateContent::CallbackQuery(c))),
            }
        } else if let Some(j) = obj_get(entries, "shipping_query") {
            match j {
                Json::Obj(_) => Ok(Some(UpdateContent::ShippingQuery(ShippingQuery {  }))),
                _ => Err(DecodeError::WrongType),
            }
        } else if let Some(j) = obj_get(entries, "pre_checkout_query") {
            match j {
                Json::Obj(_) => Ok(Some(UpdateContent::PreCheckoutQuery(PreCheckoutQuery {  }))),
                _ => Err(DecodeError::WrongType),
            }
        } else if let Some(j) = obj_get(entries, "poll") {
            match j {
                Json::Obj(_) => Ok(Some(UpdateContent::Poll(Poll {  }))),
                _ => Err(DecodeError::WrongType),
            }
        } else if let Some(j) = obj_get(entries, "poll_answer") {
            match j {
                Json::Obj(_) => Ok(Some(UpdateContent::PollAnswer(PollAnswer {  }))),
                _ => Err(DecodeError::WrongType),
            }
        } else if let Some(j) = obj_get(entries, "my_chat_member") {
            match j {
                Json::Obj(_) => Ok(Some(UpdateContent::MyChatMember(ChatMemberUpdated {  }))),
                _ => Err(DecodeError::WrongType),
            }
        } else if let Some(j) = obj_get(entries, "chat_member") {
            match j {
                Json::Obj(_) => Ok(Some(UpdateContent::ChatMember(ChatMemberUpdated {  }))),
                _ => Err(DecodeError::WrongType),
            }
        } else {
            Ok(None)
        }
    }
}

/// The model of an incoming update.
pub struct UpdateV {
    pub update_id: int,
    pub content: Option<UpdateContentV>,
}

/// An incoming update: its identifier, decoded unconditionally, and at
/// most one recognized content branch. An update whose payload carries no
/// recognized member keeps no content; the caller treats that as
/// [`UpdateContent::Unknown`] through [`Default`].
#[derive(Debug, PartialEq)]
pub struct Update {
    /// The update's unique identifier.
    pub update_id: UpdateId,
    /// The one populated content branch, if one was recognized.
    pub content: Option<UpdateContent>,
}

impl View for Update {
    type V = UpdateV;

    open spec fn view(&self) -> UpdateV {
        UpdateV {
            update_id: self.update_id.0 as int,
            content: match &self.content {
                None => None,
                Some(c) => Some(c@),
            },
        }
    }
}

impl Update {
    /// What the members of a flat update object denote: the identifier is
    /// read unconditionally, the content by the first recognized member.
    pub open spec fn decoded_fields(es: Seq<(Seq<char>, JsonV)>) -> Result<UpdateV, DecodeError> {
        if sp_req_i64(es, "update_id"@) is Err {
            Err(sp_req_i64(es, "update_id"@)->Err_0)
        } else if UpdateContent::decoded_fields(es) is Err {
            Err(UpdateContent::decoded_fields(es)->Err_0)
        } else {
            Ok(
                UpdateV {
                    update_id: sp_req_i64(es, "update_id"@)->Ok_0,
                    content: UpdateContent::decoded_fields(es)->Ok_0,
                },
            )
        }
    }

    /// What a document denotes.
    pub open spec fn decoded(j: JsonV) -> Result<UpdateV, DecodeError> {
        match j {
            JsonV::Obj(es) => Update::decoded_fields(es),
            _ => Err(DecodeError::WrongType),
        }
    }

    /// Decode from a flat object.
    pub fn from_json(j: &Json) -> (r: Result<Update, DecodeError>)
        ensures
            match r {
                Ok(v) => Update::decoded(j@) == Ok::<_, DecodeError>(v@),
                Err(e) => Update::decoded(j@) == Err::<UpdateV, _>(e),
            },
    {
        match j {
            Json::Obj(entries) => {
                let update_id = match req_i64(entries, "update_id") {
                    Err(e) => {
                        return Err(e);
                    },
                    Ok(n) => UpdateId(n),
                };
                let content = match UpdateContent::from_fields(entries) {
                    Err(e) => {
                        return Err(e);
                    },
                    Ok(c) => c,
                };
                Ok(Update { update_id, content })
            },
            _ => Err(DecodeError::WrongType),
        }
    }

    /// What a sequence of documents denotes as updates.
    pub open spec fn sp_dec_seq(items: Seq<JsonV>) -> Result<Seq<UpdateV>, DecodeError>
        decreases items.len(),
    {
        if items.len() == 0 {
            Ok(Seq::empty())
        } else {
            match Update::decoded(items[0]) {
                Err(e) => Err(e),
                Ok(h) => match Update::sp_dec_seq(items.drop_first()) {
                    Err(e) => Err(e),
                    Ok(t) => Ok(seq![h] + t),
                },
            }
        }
    }

    /// The model of a sequence of updates.
    pub open spec fn seq_view(s: Seq<Update>) -> Seq<UpdateV> {
        Seq::new(s.len(), |i: int| s[i]@)
    }

    /// Decode an array of updates.
    #[verifier::loop_isolation(false)]
    pub fn vec_from_json(items: &Vec<Json>) -> (r: Result<Vec<Update>, DecodeError>)
        ensures
            match r {
                Ok(v) => Update::sp_dec_seq(elems_view(items@)) == Ok::<_, DecodeError>(
                    Update::seq_view(v@),
                ),
                Err(e) => Update::sp_dec_seq(elems_view(items@)) == Err::<Seq<UpdateV>, _>(
                    e,
                ),
            },
    {
        let ghost iv = elems_view(items@);
        proof {
            lemma_elems_view_len(items@);
        }
        let mut out: Vec<Update> = Vec::new();
        let mut i: usize = 0;
        while i < items.len()
            invariant
                i <= items@.len(),
                out@.len() == i,
                forall|k: int|
                    0 <= k < i ==> Update::decoded(iv[k]) == Ok::<_, DecodeError>(out@[k]@),
            decreases items@.len() - i,
        {
            proof {
                lemma_elems_view_index(items@, i as int);
            }
            match Update::from_json(&items[i]) {
                Err(e) => {
                    proof {
                        Update::lemma_sp_dec_seq_err(iv, i as int);
                    }
                    return Err(e);
                },
                Ok(v) => {
                    out.push(v);
                },
            }
            i += 1;
        }
        proof {
            Update::lemma_sp_dec_seq_ok(iv, out@);
        }
        Ok(out)
    }

    /// A failing element fails the whole sequence with its error.
    proof fn lemma_sp_dec_seq_err(items: Seq<JsonV>, i: int)
        requires
            0 <= i < items.len(),
            Update::decoded(items[i]) is Err,
            forall|k: int| 0 <= k < i ==> Update::decoded(items[k]) is Ok,
        ensures
            Update::sp_dec_seq(items) == Err::<Seq<UpdateV>, _>(
                Update::decoded(items[i])->Err_0,
            ),
        decreases items.len(),
    {
        if i > 0 {
            assert(items.drop_first()[i - 1] == items[i]);
            assert(forall|k: int|
                0 <= k < i - 1 ==> items.drop_first()[k] == items[k + 1]
                    && Update::decoded(items.drop_first()[k]) is Ok);
            Update::lemma_sp_dec_seq_err(items.drop_first(), i - 1);
        }
    }

    /// Elementwise success decodes the whole sequence.
    proof fn lemma_sp_dec_seq_ok(items: Seq<JsonV>, out: Seq<Update>)
        requires
            out.len() == items.len(),
            forall|k: int|
                0 <= k < items.len() ==> Update::decoded(items[k]) == Ok::<_, DecodeError>(
                    out[k]@,
                ),
        ensures
            Update::sp_dec_seq(items) == Ok::<_, DecodeError>(Update::seq_view(out)),
        decreases items.len(),
    {
        if items.len() == 0 {
            assert(Update::seq_view(out) =~= Seq::<UpdateV>::empty());
        } else {
            assert(forall|k: int|
                0 <= k < items.drop_first().len() ==> items.drop_first()[k] == items[k + 1]
                    && Update::decoded(items.drop_first()[k]) == Ok::<_, DecodeError>(
                    out.drop_first()[k]@,
                ));
            Update::lemma_sp_dec_seq_ok(items.drop_first(), out.drop_first());
            assert(Update::seq_view(out) =~= seq![out[0]@] + Update::seq_view(
                out.drop_first(),
            ));
        }
    }
}

} // verus!
