//! Types for working in inline mode: queries, results, and the answer
//! payloads.
use crate::bot::methods::{opt_i32_view, opt_inline_markup_v, opt_str_view};
use crate::bot::types::{InlineKeyboardMarkup, InlineKeyboardMarkupV, ParseMode, User, UserV};
use crate::json::{
    entries_view, json_kind, kind_of, lookup, obj_get, opt_bool, opt_bool_v, opt_entry, opt_i32,
    opt_int_v, opt_str, opt_str_v, push_entry, req_entry, req_str, sp_opt_bool, sp_opt_i32,
    sp_opt_str, sp_req_str, DecodeError, Json, JsonV, UnionKind,
};
use vstd::prelude::*;

verus! {

/// Unique identifier for an answered query.
#[derive(Debug, Clone, PartialEq, Eq, PartialOrd, Ord, Hash)]
pub struct InlineQueryId(pub String);

/// Unique identifier for a result, 1-64 bytes.
#[derive(Debug, Clone, PartialEq, Eq, PartialOrd, Ord, Hash)]
pub struct ResultId(pub String);

/// The model of an incoming inline query.
pub struct InlineQueryV {
    pub id: Seq<char>,
    pub from: UserV,
    pub location: Option<JsonV>,
    pub query: Seq<char>,
    pub offset: Seq<char>,
}

/// An incoming inline query.
#[derive(Debug, Clone, PartialEq)]
pub struct InlineQuery {
    /// Unique identifier for this query
    pub id: InlineQueryId,
    /// Sender
    pub from: Box<User>,
    /// Sender location, only for bots that request user location; its
    /// coordinates are fractional, so it is carried through as a raw
    /// document.
    pub location: Option<Json>,
    /// Text of the query
    pub query: String,
    /// Offset of the results to be returned
    pub offset: String,
}

impl View for InlineQuery {
    type V = InlineQueryV;

    open spec fn view(&self) -> InlineQueryV {
        InlineQueryV {
            id: self.id.0@,
            from: self.from@,
            location: match &self.location {
                None => None,
                Some(x) => Some(x@),
            },
            query: self.query@,
            offset: self.offset@,
        }
    }
}

impl InlineQuery {
    /// What the members of an object denote.
    pub open spec fn decoded_fields(es: Seq<(Seq<char>, JsonV)>) -> Result<
        InlineQueryV,
        DecodeError,
    > {
        if sp_req_str(es, "id"@) is Err {
            Err(sp_req_str(es, "id"@)->Err_0)
        } else if User::sp_req_field(es, "from"@) is Err {
            Err(User::sp_req_field(es, "from"@)->Err_0)
        } else if sp_req_str(es, "query"@) is Err {
            Err(sp_req_str(es, "query"@)->Err_0)
        } else if sp_req_str(es, "offset"@) is Err {
            Err(sp_req_str(es, "offset"@)->Err_0)
        } else {
            Ok(
                InlineQueryV {
                    id: sp_req_str(es, "id"@)->Ok_0,
                    from: User::sp_req_field(es, "from"@)->Ok_0,
                    location: crate::json::sp_opt_raw(es, "location"@),
                    query: sp_req_str(es, "query"@)->Ok_0,
                    offset: sp_req_str(es, "offset"@)->Ok_0,
                },
            )
        }
    }

    /// What a document denotes.
    pub open spec fn decoded(j: JsonV) -> Result<InlineQueryV, DecodeError> {
        match j {
            JsonV::Obj(es) => InlineQuery::decoded_fields(es),
            _ => Err(DecodeError::WrongType),
        }
    }

    /// Decode from an object.
    pub fn from_json(j: &Json) -> (r: Result<InlineQuery, DecodeError>)
        ensures
            match r {
                Ok(v) => InlineQuery::decoded(j@) == Ok::<_, DecodeError>(v@),
                Err(e) => InlineQuery::decoded(j@) == Err::<InlineQueryV, _>(e),
            },
    {
        match j {
            Json::Obj(entries) => {
                let id = match req_str(entries, "id") {
                    Err(e) => {
                        return Err(e);
                    },
                    Ok(s) => InlineQueryId(s),
                };
                let from = match User::req_field(entries, "from") {
                    Err(e) => {
                        return Err(e);
                    },
                    Ok(u) => Box::new(u),
                };
                let location = crate::json::opt_raw(entries, "location");
                let query = match req_str(entries, "query") {
                    Err(e) => {
                        return Err(e);
                    },
                    Ok(s) => s,
                };
                let offset = match req_str(entries, "offset") {
                    Err(e) => {
                        return Err(e);
                    },
                    Ok(s) => s,
                };
                Ok(InlineQuery { id, from, location, query, offset })
            },
            _ => Err(DecodeError::WrongType),
        }
    }

    /// What a required member denotes as an inline query.
    pub open spec fn sp_req_field(es: Seq<(Seq<char>, JsonV)>, key: Seq<char>) -> Result<
        InlineQueryV,
        DecodeError,
    > {
        match lookup(es, key) {
            None => Err(DecodeError::MissingField),
            Some(j) => InlineQuery::decoded(j),
        }
    }

    /// Decode a required member as an inline query.
    pub fn req_field(entries: &Vec<(String, Json)>, key: &str) -> (r: Result<
        InlineQuery,
        DecodeError,
    >)
        ensures
            match r {
                Ok(v) => InlineQuery::sp_req_field(entries_view(entries@), key@) == Ok::<
                    _,
                    DecodeError,
                >(v@),
                Err(e) => InlineQuery::sp_req_field(entries_view(entries@), key@) == Err::<
                    InlineQueryV,
                    _,
                >(e),
            },
    {
        match obj_get(entries, key) {
            None => Err(DecodeError::MissingField),
            Some(j) => InlineQuery::from_json(j),
        }
    }
}

/// The model of a chosen inline result.
pub struct ChosenInlineResultV {
    pub result_id: Seq<char>,
    pub from: UserV,
    pub location: Option<JsonV>,
    pub inline_message_id: Option<Seq<char>>,
    pub query: Seq<char>,
}

/// A result of an inline query that was chosen by the user and sent to
/// their chat partner.
#[derive(Debug, Clone, PartialEq)]
pub struct ChosenInlineResult {
    /// The unique identifier for the result that was chosen
    pub result_id: ResultId,
    /// The user that chose the result
    pub from: User,
    /// Sender location, carried through as a raw document.
    pub location: Option<Json>,
    /// Identifier of the sent inline message, if any
    pub inline_message_id: Option<String>,
    /// The query that was used to obtain the result
    pub query: String,
}

impl View for ChosenInlineResult {
    type V = ChosenInlineResultV;

    open spec fn view(&self) -> ChosenInlineResultV {
        ChosenInlineResultV {
            result_id: self.result_id.0@,
            from: self.from@,
            location: match &self.location {
                None => None,
                Some(x) => Some(x@),
            },
            inline_message_id: match &self.inline_message_id {
                None => None,
                Some(s) => Some(s@),
            },
            query: self.query@,
        }
    }
}

impl ChosenInlineResult {
    /// What the members of an object denote.
    pub open spec fn decoded_fields(es: Seq<(Seq<char>, JsonV)>) -> Result<
        ChosenInlineResultV,
        DecodeError,
    > {
        if sp_req_str(es, "result_id"@) is Err {
            Err(sp_req_str(es, "result_id"@)->Err_0)
        } else if User::sp_req_field(es, "from"@) is Err {
            Err(User::sp_req_field(es, "from"@)->Err_0)
        } else if sp_opt_str(es, "inline_message_id"@) is Err {
            Err(sp_opt_str(es, "inline_message_id"@)->Err_0)
        } else if sp_req_str(es, "query"@) is Err {
            Err(sp_req_str(es, "query"@)->Err_0)
        } else {
            Ok(
                ChosenInlineResultV {
                    result_id: sp_req_str(es, "result_id"@)->Ok_0,
                    from: User::sp_req_field(es, "from"@)->Ok_0,
                    location: crate::json::sp_opt_raw(es, "location"@),
                    inline_message_id: sp_opt_str(es, "inline_message_id"@)->Ok_0,
                    query: sp_req_str(es, "query"@)->Ok_0,
                },
            )
        }
    }

    /// What a document denotes.
    pub open spec fn decoded(j: JsonV) -> Result<ChosenInlineResultV, DecodeError> {
        match j {
            JsonV::Obj(es) => ChosenInlineResult::decoded_fields(es),
            _ => Err(DecodeError::WrongType),
        }
    }

    /// Decode from an object.
    pub fn from_json(j: &Json) -> (r: Result<ChosenInlineResult, DecodeError>)
        ensures
            match r {
                Ok(v) => ChosenInlineResult::decoded(j@) == Ok::<_, DecodeError>(v@),
                Err(e) => ChosenInlineResult::decoded(j@) == Err::<ChosenInlineResultV, _>(e),
            },
    {
        match j {
            Json::Obj(entries) => {
                let result_id = match req_str(entries, "result_id") {
                    Err(e) => {
                        return Err(e);
                    },
                    Ok(s) => ResultId(s),
                };
                let from = match User::req_field(entries, "from") {
                    Err(e) => {
                        return Err(e);
                    },
                    Ok(u) => u,
                };
                let location = crate::json::opt_raw(entries, "location");
                let inline_message_id = match opt_str(entries, "inline_message_id") {
                    Err(e) => {
                        return Err(e);
                    },
                    Ok(v) => v,
                };
                let query = match req_str(entries, "query") {
                    Err(e) => {
                        return Err(e);
                    },
                    Ok(s) => s,
                };
                Ok(ChosenInlineResult { result_id, from, location, inline_message_id, query })
            },
            _ => Err(DecodeError::WrongType),
        }
    }

    /// What a required member denotes as a chosen result.
    pub open spec fn sp_req_field(es: Seq<(Seq<char>, JsonV)>, key: Seq<char>) -> Result<
        ChosenInlineResultV,
        DecodeError,
    > {
        match lookup(es, key) {
            None => Err(DecodeError::MissingField),
            Some(j) => ChosenInlineResult::decoded(j),
        }
    }

    /// Decode a required member as a chosen result.
    pub fn req_field(entries: &Vec<(String, Json)>, key: &str) -> (r: Result<
        ChosenInlineResult,
        DecodeError,
    >)
        ensures
            match r {
                Ok(v) => ChosenInlineResult::sp_req_field(entries_view(entries@), key@) == Ok::<
                    _,
                    DecodeError,
                >(v@),
                Err(e) => ChosenInlineResult::sp_req_field(entries_view(entries@), key@)
                    == Err::<ChosenInlineResultV, _>(e),
            },
    {
        match obj_get(entries, key) {
            None => Err(DecodeError::MissingField),
            Some(j) => ChosenInlineResult::from_json(j),
        }
    }
}

/// The model of the content of a text message answering an inline query.
pub struct InputTextMessageContentV {
    pub message_text: Seq<char>,
    pub parse_mode: Option<ParseMode>,
    pub disable_web_page_preview: Option<bool>,
}

/// The content of a text message to be sent as the result of an inline
/// query.
#[derive(Debug, Clone, PartialEq)]
pub struct InputTextMessageContent {
    /// Text of the message to be sent
    pub message_text: String,
    /// Formatting language of the text, if any
    pub parse_mode: Option<ParseMode>,
    /// Disables link previews for links in the sent message
    pub disable_web_page_preview: Option<bool>,
}

impl View for InputTextMessageContent {
    type V = InputTextMessageContentV;

    open spec fn view(&self) -> InputTextMessageContentV {
        InputTextMessageContentV {
            message_text: self.message_text@,
            parse_mode: self.parse_mode,
            disable_web_page_preview: self.disable_web_page_preview,
        }
    }
}

impl InputTextMessageContent {
    /// The wire form: an absent optional member is written not at all.
    pub open spec fn encoded_v(v: InputTextMessageContentV) -> JsonV {
        JsonV::Obj(
            req_entry("message_text"@, JsonV::Str(v.message_text)) + opt_entry(
                "parse_mode"@,
                ParseMode::opt_encoded(v.parse_mode),
            ) + opt_entry(
                "disable_web_page_preview"@,
                opt_bool_v(v.disable_web_page_preview),
            ),
        )
    }

    /// What the members of an object denote.
    pub open spec fn decoded_fields(es: Seq<(Seq<char>, JsonV)>) -> Result<
        InputTextMessageContentV,
        DecodeError,
    > {
        if sp_req_str(es, "message_text"@) is Err {
            Err(sp_req_str(es, "message_text"@)->Err_0)
        } else if ParseMode::sp_opt_field(es, "parse_mode"@) is Err {
            Err(ParseMode::sp_opt_field(es, "parse_mode"@)->Err_0)
        } else if sp_opt_bool(es, "disable_web_page_preview"@) is Err {
            Err(sp_opt_bool(es, "disable_web_page_preview"@)->Err_0)
        } else {
            Ok(
                InputTextMessageContentV {
                    message_text: sp_req_str(es, "message_text"@)->Ok_0,
                    parse_mode: ParseMode::sp_opt_field(es, "parse_mode"@)->Ok_0,
                    disable_web_page_preview: sp_opt_bool(es, "disable_web_page_preview"@)->Ok_0,
                },
            )
        }
    }

    /// What a document denotes.
    pub open spec fn decoded(j: JsonV) -> Result<InputTextMessageContentV, DecodeError> {
        match j {
            JsonV::Obj(es) => InputTextMessageContent::decoded_fields(es),
            _ => Err(DecodeError::WrongType),
        }
    }

    /// Encode as an object.
    pub fn to_json(&self) -> (r: Json)
        ensures
            r@ == InputTextMessageContent::encoded_v(self@),
    {
        let mut out: Vec<(String, Json)> = Vec::new();
        push_entry(&mut out, "message_text", Json::Str(self.message_text.clone()));
        match &self.parse_mode {
            None => {},
            Some(m) => push_entry(&mut out, "parse_mode", m.to_json()),
        }
        match &self.disable_web_page_preview {
            None => {},
            Some(b) => push_entry(&mut out, "disable_web_page_preview", Json::Bool(*b)),
        }
        proof {
            assert(entries_view(out@) =~= InputTextMessageContent::encoded_v(self@)->Obj_0);
        }
        Json::Obj(out)
    }

    /// Decode from an object.
    pub fn from_json(j: &Json) -> (r: Result<InputTextMessageContent, DecodeError>)
        ensures
            match r {
                Ok(v) => InputTextMessageContent::decoded(j@) == Ok::<_, DecodeError>(v@),
                Err(e) => InputTextMessageContent::decoded(j@) == Err::<
                    InputTextMessageContentV,
                    _,
                >(e),
            },
    {
        match j {
            Json::Obj(entries) => {
                let message_text = match req_str(entries, "message_text") {
                    Err(e) => {
                        return Err(e);
                    },
                    Ok(s) => s,
                };
                let parse_mode = match ParseMode::opt_field(entries, "parse_mode") {
                    Err(e) => {
                        return Err(e);
                    },
                    Ok(v) => v,
                };
                let disable_web_page_preview = match opt_bool(
                    entries,
                    "disable_web_page_preview",
                ) {
                    Err(e) => {
                        return Err(e);
                    },
                    Ok(v) => v,
                };
                Ok(InputTextMessageContent { message_text, parse_mode, disable_web_page_preview })
            },
            _ => Err(DecodeError::WrongType),
        }
    }
}

/// The model of the content of a contact message answering an inline query.
pub struct InputContactMessageContentV {
    pub phone_number: Seq<char>,
    pub first_name: Seq<char>,
    pub last_name: Option<Seq<char>>,
    pub vcard: Option<Seq<char>>,
}

/// The content of a contact message to be sent as the result of an inline
/// query.
#[derive(Debug, Clone, PartialEq)]
pub struct InputContactMessageContent {
    /// Contact's phone number
    pub phone_number: String,
    /// Contact's first name
    pub first_name: String,
    /// Contact's last name
    pub last_name: Option<String>,
    /// Additional data about the contact in the form of a vCard
    pub vcard: Option<String>,
}

impl View for InputContactMessageContent {
    type V = InputContactMessageContentV;

    open spec fn view(&self) -> InputContactMessageContentV {
        InputContactMessageContentV {
            phone_number: self.phone_number@,
            first_name: self.first_name@,
            last_name: opt_str_view(&self.last_name),
            vcard: opt_str_view(&self.vcard),
        }
    }
}

impl InputContactMessageContent {
    /// The wire form: an absent optional member is written not at all.
    pub open spec fn encoded_v(v: InputContactMessageContentV) -> JsonV {
        JsonV::Obj(
            req_entry("phone_number"@, JsonV::Str(v.phone_number)) + req_entry(
                "first_name"@,
                JsonV::Str(v.first_name),
            ) + opt_entry("last_name"@, opt_str_v(v.last_name)) + opt_entry(
                "vcard"@,
                opt_str_v(v.vcard),
            ),
        )
    }

    /// What the members of an object denote.
    pub open spec fn decoded_fields(es: Seq<(Seq<char>, JsonV)>) -> Result<
        InputContactMessageContentV,
        DecodeError,
    > {
        if sp_req_str(es, "phone_number"@) is Err {
            Err(sp_req_str(es, "phone_number"@)->Err_0)
        } else if sp_req_str(es, "first_name"@) is Err {
            Err(sp_req_str(es, "first_name"@)->Err_0)
        } else if sp_opt_str(es, "last_name"@) is Err {
            Err(sp_opt_str(es, "last_name"@)->Err_0)
        } else if sp_opt_str(es, "vcard"@) is Err {
            Err(sp_opt_str(es, "vcard"@)->Err_0)
        } else {
            Ok(
                InputContactMessageContentV {
                    phone_number: sp_req_str(es, "phone_number"@)->Ok_0,
                    first_name: sp_req_str(es, "first_name"@)->Ok_0,
                    last_name: sp_opt_str(es, "last_name"@)->Ok_0,
                    vcard: sp_opt_str(es, "vcard"@)->Ok_0,
                },
            )
        }
    }

    /// What a document denotes.
    pub open spec fn decoded(j: JsonV) -> Result<InputContactMessageContentV, DecodeError> {
        match j {
            JsonV::Obj(es) => InputContactMessageContent::decoded_fields(es),
            _ => Err(DecodeError::WrongType),
        }
    }

    /// Encode as an object.
    pub fn to_json(&self) -> (r: Json)
        ensures
            r@ == InputContactMessageContent::encoded_v(self@),
    {
        let mut out: Vec<(String, Json)> = Vec::new();
        push_entry(&mut out, "phone_number", Json::Str(self.phone_number.clone()));
        push_entry(&mut out, "first_name", Json::Str(self.first_name.clone()));
        match &self.last_name {
            None => {},
            Some(s) => push_entry(&mut out, "last_name", Json::Str(s.clone())),
        }
        match &self.vcard {
            None => {},
            Some(s) => push_entry(&mut out, "vcard", Json::Str(s.clone())),
        }
        proof {
            assert(entries_view(out@) =~= InputContactMessageContent::encoded_v(self@)->Obj_0);
        }
        Json::Obj(out)
    }

    /// Decode from an object.
    pub fn from_json(j: &Json) -> (r: Result<InputContactMessageContent, DecodeError>)
        ensures
            match r {
                Ok(v) => InputContactMessageContent::decoded(j@) == Ok::<_, DecodeError>(v@),
                Err(e) => InputContactMessageContent::decoded(j@) == Err::<
                    InputContactMessageContentV,
                    _,
                >(e),
            },
    {
        match j {
            Json::Obj(entries) => {
                let phone_number = match req_str(entries, "phone_number") {
                    Err(e) => {
                        return Err(e);
                    },
                    Ok(s) => s,
                };
                let first_name = match req_str(entries, "first_name") {
                    Err(e) => {
                        return Err(e);
                    },
                    Ok(s) => s,
                };
                let last_name = match opt_str(entries, "last_name") {
                    Err(e) => {
                        return Err(e);
                    },
                    Ok(v) => v,
                };
                let vcard = match opt_str(entries, "vcard") {
                    Err(e) => {
                        return Err(e);
                    },
                    Ok(v) => v,
                };
                Ok(InputContactMessageContent { phone_number, first_name, last_name, vcard })
            },
            _ => Err(DecodeError::WrongType),
        }
    }
}

/// The model of an inline answer payload.
pub enum InputMessageContentV {
    Text(InputTextMessageContentV),
    Location(JsonV),
    Venue(JsonV),
    Contact(InputContactMessageContentV),
}

/// The content of a message to be sent as a result of an inline query;
/// the branch is inferred from the shape on the wire, with the text branch
/// tried first. A location or venue payload carries fractional
/// coordinates, so those branches are raw documents here.
#[derive(Debug, Clone, PartialEq)]
pub enum InputMessageContent {
    Text(InputTextMessageContent),
    Location(Json),
    Venue(Json),
    Contact(InputContactMessageContent),
}

impl View for InputMessageContent {
    type V = InputMessageContentV;

    open spec fn view(&self) -> InputMessageContentV {
        match self {
            InputMessageContent::Text(t) => InputMessageContentV::Text(t@),
            InputMessageContent::Location(d) => InputMessageContentV::Location(d@),
            InputMessageContent::Venue(d) => InputMessageContentV::Venue(d@),
            InputMessageContent::Contact(c) => InputMessageContentV::Contact(c@),
        }
    }
}

/// A value that a fractional wire coordinate may take: any number literal.
pub open spec fn sp_is_number(v: JsonV) -> bool {
    v is Int || v is BigNum
}

/// Whether a member holds a number literal.
fn member_is_number(entries: &Vec<(String, Json)>, key: &str) -> (r: bool)
    ensures
        r == (match lookup(entries_view(entries@), key@) {
            Some(v) => sp_is_number(v),
            None => false,
        }),
{
    match obj_get(entries, key) {
        None => false,
        Some(Json::Int(_)) => true,
        Some(Json::BigNum(_)) => true,
        Some(_) => false,
    }
}

impl InputMessageContent {
    /// The members of an object match the location branch: numeric
    /// coordinates, and a well-typed optional live period.
    pub open spec fn location_fields_ok(es: Seq<(Seq<char>, JsonV)>) -> bool {
        &&& (match lookup(es, "latitude"@) {
            Some(v) => sp_is_number(v),
            None => false,
        })
        &&& (match lookup(es, "longitude"@) {
            Some(v) => sp_is_number(v),
            None => false,
        })
        &&& sp_opt_i32(es, "live_period"@) is Ok
    }

    /// The members of an object match the venue branch: numeric
    /// coordinates, a title and an address, and well-typed optional
    /// venue attributes.
    pub open spec fn venue_fields_ok(es: Seq<(Seq<char>, JsonV)>) -> bool {
        &&& (match lookup(es, "latitude"@) {
            Some(v) => sp_is_number(v),
            None => false,
        })
        &&& (match lookup(es, "longitude"@) {
            Some(v) => sp_is_number(v),
            None => false,
        })
        &&& sp_req_str(es, "title"@) is Ok
        &&& sp_req_str(es, "address"@) is Ok
        &&& sp_opt_str(es, "foursquare_id"@) is Ok
        &&& sp_opt_str(es, "foursquare_type"@) is Ok
    }

    /// The wire form: the inner value's form, carrying no tag; the
    /// location and venue branches are raw documents.
    pub open spec fn encoded_v(v: InputMessageContentV) -> JsonV {
        match v {
            InputMessageContentV::Text(t) => InputTextMessageContent::encoded_v(t),
            InputMessageContentV::Location(d) => d,
            InputMessageContentV::Venue(d) => d,
            InputMessageContentV::Contact(c) => InputContactMessageContent::encoded_v(c),
        }
    }

    /// What a document denotes: the branches are tried in declaration
    /// order — text, location, venue, contact — and the first whose shape
    /// matches wins; when none does, the error names this union and the
    /// JSON type of the value. A venue object also carries the location
    /// branch's coordinate members, so it decodes as a raw location: the
    /// venue branch is reached only when the location branch's optional
    /// members are ill-typed. That residual ambiguity is part of the wire
    /// format.
    pub open spec fn decoded(j: JsonV) -> Result<InputMessageContentV, DecodeError> {
        if InputTextMessageContent::decoded(j) is Ok {
            Ok(InputMessageContentV::Text(InputTextMessageContent::decoded(j)->Ok_0))
        } else {
            match j {
                JsonV::Obj(es) => if InputMessageContent::location_fields_ok(es) {
                    Ok(InputMessageContentV::Location(j))
                } else if InputMessageContent::venue_fields_ok(es) {
                    Ok(InputMessageContentV::Venue(j))
                } else if InputContactMessageContent::decoded_fields(es) is Ok {
                    Ok(
                        InputMessageContentV::Contact(
                            InputContactMessageContent::decoded_fields(es)->Ok_0,
                        ),
                    )
                } else {
                    Err(DecodeError::NoVariantMatched(UnionKind::InputMessageContent, kind_of(j)))
                },
                _ => Err(
                    DecodeError::NoVariantMatched(UnionKind::InputMessageContent, kind_of(j)),
                ),
            }
        }
    }

    /// Encode as the inner value, with no tag.
    pub fn to_json(&self) -> (r: Json)
        ensures
            r@ == InputMessageContent::encoded_v(self@),
    {
        match self {
            InputMessageContent::Text(t) => t.to_json(),
            InputMessageContent::Location(d) => d.deep_clone(),
            InputMessageContent::Venue(d) => d.deep_clone(),
            InputMessageContent::Contact(c) => c.to_json(),
        }
    }

    /// Decode by trying the branches in declaration order.
    pub fn from_json(j: &Json) -> (r: Result<InputMessageContent, DecodeError>)
        ensures
            match r {
                Ok(v) => InputMessageContent::decoded(j@) == Ok::<_, DecodeError>(v@),
                Err(e) => InputMessageContent::decoded(j@) == Err::<InputMessageContentV, _>(e),
            },
    {
        match InputTextMessageContent::from_json(j) {
            Ok(t) => {
                return Ok(InputMessageContent::Text(t));
            },
            Err(_) => {},
        }
        let entries = match j {
            Json::Obj(entries) => entries,
            _ => {
                return Err(
                    DecodeError::NoVariantMatched(UnionKind::InputMessageContent, json_kind(j)),
                );
            },
        };
        let coords = member_is_number(entries, "latitude") && member_is_number(
            entries,
            "longitude",
        );
        if coords && opt_i32(entries, "live_period").is_ok() {
            return Ok(InputMessageContent::Location(j.deep_clone()));
        }
        if coords && req_str(entries, "title").is_ok() && req_str(entries, "address").is_ok()
            && opt_str(entries, "foursquare_id").is_ok() && opt_str(
            entries,
            "foursquare_type",
        ).is_ok() {
            return Ok(InputMessageContent::Venue(j.deep_clone()));
        }
        match InputContactMessageContent::from_json(j) {
            Ok(c) => Ok(InputMessageContent::Contact(c)),
            Err(_) => Err(
                DecodeError::NoVariantMatched(UnionKind::InputMessageContent, json_kind(j)),
            ),
        }
    }
}

/// The model of an article result.
pub struct InlineQueryResultArticleV {
    pub id: Seq<char>,
    pub title: Seq<char>,
    pub input_message_content: InputMessageContentV,
    pub reply_markup: Option<InlineKeyboardMarkupV>,
    pub url: Option<Seq<char>>,
    pub hide_url: Option<bool>,
    pub description: Option<Seq<char>>,
    pub thumb_url: Option<Seq<char>>,
    pub thumb_width: Option<int>,
    pub thumb_height: Option<int>,
}

/// A link to an article or web page, as one result of an inline query.
#[derive(Debug, Clone, PartialEq)]
pub struct InlineQueryResultArticle {
    /// Unique identifier for this result
    pub id: ResultId,
    /// Title of the result
    pub title: String,
    /// Content of the message to be sent
    pub input_message_content: InputMessageContent,
    /// Inline keyboard attached to the message
    pub reply_markup: Option<InlineKeyboardMarkup>,
    /// URL of the result
    pub url: Option<String>,
    /// Pass true to hide the URL in the message
    pub hide_url: Option<bool>,
    /// Short description of the result
    pub description: Option<String>,
    /// Url of the thumbnail for the result
    pub thumb_url: Option<String>,
    /// Thumbnail width
    pub thumb_width: Option<i32>,
    /// Thumbnail height
    pub thumb_height: Option<i32>,
}

impl View for InlineQueryResultArticle {
    type V = InlineQueryResultArticleV;

    open spec fn view(&self) -> InlineQueryResultArticleV {
        InlineQueryResultArticleV {
            id: self.id.0@,
            title: self.title@,
            input_message_content: self.input_message_content@,
            reply_markup: match &self.reply_markup {
                None => None,
                Some(k) => Some(k@),
            },
            url: opt_str_view(&self.url),
            hide_url: self.hide_url,
            description: opt_str_view(&self.description),
            thumb_url: opt_str_view(&self.thumb_url),
            thumb_width: opt_i32_view(&self.thumb_width),
            thumb_height: opt_i32_view(&self.thumb_height),
        }
    }
}

/// The model of one result of an inline query.
pub enum InlineQueryResultV {
    Article(InlineQueryResultArticleV),
}

/// One result of an inline query, tagged by its `type` member on the wire.
#[derive(Debug, Clone, PartialEq)]
pub enum InlineQueryResult {
    Article(InlineQueryResultArticle),
}

impl View for InlineQueryResult {
    type V = InlineQueryResultV;

    open spec fn view(&self) -> InlineQueryResultV {
        match self {
            InlineQueryResult::Article(a) => InlineQueryResultV::Article(a@),
        }
    }
}

impl InlineQueryResult {
    /// The wire form: an object whose `type` member names the branch and
    /// whose other members are the branch's attributes; an absent
    /// optional member is written not at all.
    pub open spec fn encoded_v(v: InlineQueryResultV) -> JsonV {
        match v {
            InlineQueryResultV::Article(a) => JsonV::Obj(
                req_entry("type"@, JsonV::Str("article"@)) + req_entry("id"@, JsonV::Str(a.id))
                    + req_entry("title"@, JsonV::Str(a.title)) + req_entry(
                    "input_message_content"@,
                    InputMessageContent::encoded_v(a.input_message_content),
                ) + opt_entry("reply_markup"@, match a.reply_markup {
                    None => None,
                    Some(k) => Some(InlineKeyboardMarkup::encoded_v(k)),
                }) + opt_entry("url"@, opt_str_v(a.url)) + opt_entry(
                    "hide_url"@,
                    opt_bool_v(a.hide_url),
                ) + opt_entry("description"@, opt_str_v(a.description)) + opt_entry(
                    "thumb_url"@,
                    opt_str_v(a.thumb_url),
                ) + opt_entry("thumb_width"@, opt_int_v(a.thumb_width)) + opt_entry(
                    "thumb_height"@,
                    opt_int_v(a.thumb_height),
                ),
            ),
        }
    }

    /// What the members of an object denote once the tag named the
    /// article branch.
    pub open spec fn decoded_article(es: Seq<(Seq<char>, JsonV)>) -> Result<
        InlineQueryResultV,
        DecodeError,
    > {
        if sp_req_str(es, "id"@) is Err {
            Err(sp_req_str(es, "id"@)->Err_0)
        } else if sp_req_str(es, "title"@) is Err {
            Err(sp_req_str(es, "title"@)->Err_0)
        } else if InlineQueryResult::sp_content_field(es) is Err {
            Err(InlineQueryResult::sp_content_field(es)->Err_0)
        } else if InlineKeyboardMarkup::sp_opt_field(es, "reply_markup"@) is Err {
            Err(InlineKeyboardMarkup::sp_opt_field(es, "reply_markup"@)->Err_0)
        } else if sp_opt_str(es, "url"@) is Err {
            Err(sp_opt_str(es, "url"@)->Err_0)
        } else if sp_opt_bool(es, "hide_url"@) is Err {
            Err(sp_opt_bool(es, "hide_url"@)->Err_0)
        } else if sp_opt_str(es, "description"@) is Err {
            Err(sp_opt_str(es, "description"@)->Err_0)
        } else if sp_opt_str(es, "thumb_url"@) is Err {
            Err(sp_opt_str(es, "thumb_url"@)->Err_0)
        } else if sp_opt_i32(es, "thumb_width"@) is Err {
            Err(sp_opt_i32(es, "thumb_width"@)->Err_0)
        } else if sp_opt_i32(es, "thumb_height"@) is Err {
            Err(sp_opt_i32(es, "thumb_height"@)->Err_0)
        } else {
            Ok(
                InlineQueryResultV::Article(
                    InlineQueryResultArticleV {
                        id: sp_req_str(es, "id"@)->Ok_0,
                        title: sp_req_str(es, "title"@)->Ok_0,
                        input_message_content: InlineQueryResult::sp_content_field(es)->Ok_0,
                        reply_markup: InlineKeyboardMarkup::sp_opt_field(
                            es,
                            "reply_markup"@,
                        )->Ok_0,
                        url: sp_opt_str(es, "url"@)->Ok_0,
                        hide_url: sp_opt_bool(es, "hide_url"@)->Ok_0,
                        description: sp_opt_str(es, "description"@)->Ok_0,
                        thumb_url: sp_opt_str(es, "thumb_url"@)->Ok_0,
                        thumb_width: sp_opt_i32(es, "thumb_width"@)->Ok_0,
                        thumb_height: sp_opt_i32(es, "thumb_height"@)->Ok_0,
                    },
                ),
            )
        }
    }

    /// What the required answer-payload member denotes.
    pub open spec fn sp_content_field(es: Seq<(Seq<char>, JsonV)>) -> Result<
        InputMessageContentV,
        DecodeError,
    > {
        match lookup(es, "input_message_content"@) {
            None => Err(DecodeError::MissingField),
            Some(x) => InputMessageContent::decoded(x),
        }
    }

    /// What a document denotes: the `type` tag names the branch; a tag
    /// that names no branch matches no variant, and the error says so.
    pub open spec fn decoded(j: JsonV) -> Result<InlineQueryResultV, DecodeError> {
        match j {
            JsonV::Obj(es) => match sp_req_str(es, "type"@) {
                Err(e) => Err(e),
                Ok(tag) => if tag == "article"@ {
                    InlineQueryResult::decoded_article(es)
                } else {
                    Err(
                        DecodeError::NoVariantMatched(
                            UnionKind::InlineQueryResult,
                            kind_of(j),
                        ),
                    )
                },
            },
            _ => Err(DecodeError::WrongType),
        }
    }

    /// Encode as a tagged object.
    pub fn to_json(&self) -> (r: Json)
        ensures
            r@ == InlineQueryResult::encoded_v(self@),
    {
        let InlineQueryResult::Article(a) = self;
        let mut out: Vec<(String, Json)> = Vec::new();
        push_entry(&mut out, "type", Json::Str(String::from_str("article")));
        push_entry(&mut out, "id", Json::Str(a.id.0.clone()));
        push_entry(&mut out, "title", Json::Str(a.title.clone()));
        push_entry(&mut out, "input_message_content", a.input_message_content.to_json());
        match &a.reply_markup {
            None => {},
            Some(k) => push_entry(&mut out, "reply_markup", k.to_json()),
        }
        match &a.url {
            None => {},
            Some(s) => push_entry(&mut out, "url", Json::Str(s.clone())),
        }
        match &a.hide_url {
            None => {},
            Some(b) => push_entry(&mut out, "hide_url", Json::Bool(*b)),
        }
        match &a.description {
            None => {},
            Some(s) => push_entry(&mut out, "description", Json::Str(s.clone())),
        }
        match &a.thumb_url {
            None => {},
            Some(s) => push_entry(&mut out, "thumb_url", Json::Str(s.clone())),
        }
        match &a.thumb_width {
            None => {},
            Some(n) => push_entry(&mut out, "thumb_width", Json::Int(*n as i64)),
        }
        match &a.thumb_height {
            None => {},
            Some(n) => push_entry(&mut out, "thumb_height", Json::Int(*n as i64)),
        }
        proof {
            assert(entries_view(out@) =~= InlineQueryResult::encoded_v(self@)->Obj_0);
        }
        Json::Obj(out)
    }

    /// Decode from a tagged object.
    #[verifier::rlimit(100)]
    pub fn from_json(j: &Json) -> (r: Result<InlineQueryResult, DecodeError>)
        ensures
            match r {
                Ok(v) => InlineQueryResult::decoded(j@) == Ok::<_, DecodeError>(v@),
                Err(e) => InlineQueryResult::decoded(j@) == Err::<InlineQueryResultV, _>(e),
            },
    {
        let entries = match j {
            Json::Obj(entries) => entries,
            _ => {
                return Err(DecodeError::WrongType);
            },
        };
        let tag = match req_str(entries, "type") {
            Err(e) => {
                return Err(e);
            },
            Ok(s) => s,
        };
        if !crate::json::str_eq(tag.as_str(), "article") {
            return Err(
                DecodeError::NoVariantMatched(UnionKind::InlineQueryResult, json_kind(j)),
            );
        }
        let id = match req_str(entries, "id") {
            Err(e) => {
                return Err(e);
            },
            Ok(s) => ResultId(s),
        };
        let title = match req_str(entries, "title") {
            Err(e) => {
                return Err(e);
            },
            Ok(s) => s,
        };
        let input_message_content = match obj_get(entries, "input_message_content") {
            None => {
                return Err(DecodeError::MissingField);
            },
            Some(x) => match InputMessageContent::from_json(x) {
                Err(e) => {
                    return Err(e);
                },
                Ok(v) => v,
            },
        };
        let reply_markup = match InlineKeyboardMarkup::opt_field(entries, "reply_markup") {
            Err(e) => {
                return Err(e);
            },
            Ok(v) => v,
        };
        let url = match opt_str(entries, "url") {
            Err(e) => {
                return Err(e);
            },
            Ok(v) => v,
        };
        let hide_url = match opt_bool(entries, "hide_url") {
            Err(e) => {
                return Err(e);
            },
            Ok(v) => v,
        };
        let description = match opt_str(entries, "description") {
            Err(e) => {
                return Err(e);
            },
            Ok(v) => v,
        };
        let thumb_url = match opt_str(entries, "thumb_url") {
            Err(e) => {
                return Err(e);
            },
            Ok(v) => v,
        };
        let thumb_width = match opt_i32(entries, "thumb_width") {
            Err(e) => {
                return Err(e);
            },
            Ok(v) => v,
        };
        let thumb_height = match opt_i32(entries, "thumb_height") {
            Err(e) => {
                return Err(e);
            },
            Ok(v) => v,
        };
        Ok(
            InlineQueryResult::Article(
                InlineQueryResultArticle {
                    id,
                    title,
                    input_message_content,
                    reply_markup,
                    url,
                    hide_url,
                    description,
                    thumb_url,
                    thumb_width,
                    thumb_height,
                },
            ),
        )
    }

    /// The wire form of a result list.
    pub open spec fn sp_enc_seq(s: Seq<InlineQueryResult>) -> Seq<JsonV> {
        Seq::new(s.len(), |i: int| InlineQueryResult::encoded_v(s[i]@))
    }

    /// Encode a result list as an array of tagged objects.
    #[verifier::loop_isolation(false)]
    pub fn vec_to_json(v: &Vec<InlineQueryResult>) -> (r: Json)
        ensures
            r@ == JsonV::Arr(InlineQueryResult::sp_enc_seq(v@)),
    {
        let mut out: Vec<Json> = Vec::new();
        let mut i: usize = 0;
        while i < v.len()
            invariant
                i <= v@.len(),
                crate::json::elems_view(out@) =~= InlineQueryResult::sp_enc_seq(v@).subrange(
                    0,
                    i as int,
                ),
            decreases v@.len() - i,
        {
            let e = v[i].to_json();
            let ghost prev = out@;
            out.push(e);
            proof {
                crate::json::lemma_elems_view_push(prev, e);
                assert(crate::json::elems_view(out@) =~= InlineQueryResult::sp_enc_seq(
                    v@,
                ).subrange(0, i + 1));
            }
            i += 1;
        }
        proof {
            assert(crate::json::elems_view(out@) =~= InlineQueryResult::sp_enc_seq(v@));
        }
        Json::Arr(out)
    }
}

/// Parameters for answering an inline query.
#[derive(Debug, Clone, PartialEq)]
pub struct AnswerInlineQuery {
    /// Unique identifier for the answered query
    pub inline_query_id: InlineQueryId,
    /// The results for the inline query
    pub results: Vec<InlineQueryResult>,
    /// Seconds the result may be cached on the server
    pub cache_time: Option<i32>,
    /// Cache only for the user that sent the query
    pub is_personal: Option<bool>,
    /// The offset a client sends in the next query with the same text
    pub next_offset: Option<String>,
    /// Label of the switch-to-private-chat button, if any
    pub switch_pm_text: Option<String>,
    /// Deep-linking parameter for the start message
    pub switch_pm_parameter: Option<String>,
}

impl AnswerInlineQuery {
    /// The wire form of the request body: members in declaration order, an
    /// absent optional member written not at all.
    pub open spec fn encoded_v(self) -> JsonV {
        JsonV::Obj(
            req_entry("inline_query_id"@, JsonV::Str(self.inline_query_id.0@)) + req_entry(
                "results"@,
                JsonV::Arr(InlineQueryResult::sp_enc_seq(self.results@)),
            ) + opt_entry("cache_time"@, opt_int_v(opt_i32_view(&self.cache_time))) + opt_entry(
                "is_personal"@,
                opt_bool_v(self.is_personal),
            ) + opt_entry("next_offset"@, opt_str_v(opt_str_view(&self.next_offset)))
                + opt_entry("switch_pm_text"@, opt_str_v(opt_str_view(&self.switch_pm_text)))
                + opt_entry(
                "switch_pm_parameter"@,
                opt_str_v(opt_str_view(&self.switch_pm_parameter)),
            ),
        )
    }

    /// Encode the request body.
    pub fn to_json(&self) -> (r: Json)
        ensures
            r@ == self.encoded_v(),
    {
        let mut out: Vec<(String, Json)> = Vec::new();
        push_entry(&mut out, "inline_query_id", Json::Str(self.inline_query_id.0.clone()));
        push_entry(&mut out, "results", InlineQueryResult::vec_to_json(&self.results));
        match &self.cache_time {
            None => {},
            Some(n) => push_entry(&mut out, "cache_time", Json::Int(*n as i64)),
        }
        match &self.is_personal {
            None => {},
            Some(b) => push_entry(&mut out, "is_personal", Json::Bool(*b)),
        }
        match &self.next_offset {
            None => {},
            Some(s) => push_entry(&mut out, "next_offset", Json::Str(s.clone())),
        }
        match &self.switch_pm_text {
            None => {},
            Some(s) => push_entry(&mut out, "switch_pm_text", Json::Str(s.clone())),
        }
        match &self.switch_pm_parameter {
            None => {},
            Some(s) => push_entry(&mut out, "switch_pm_parameter", Json::Str(s.clone())),
        }
        proof {
            assert(entries_view(out@) =~= self.encoded_v()->Obj_0);
        }
        Json::Obj(out)
    }
}

} // verus!
