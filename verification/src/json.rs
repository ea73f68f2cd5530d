//! A JSON document tree, the mathematical model it denotes, and the
//! object-member lookup the decoders are built on.
use vstd::prelude::*;

verus! {

broadcast use vstd::std_specs::vec::group_vec_axioms;

/// Mathematical model of a JSON document.
///
/// Object members keep their order and may repeat; [`lookup`] takes the
/// first member with a given key.
#[verifier::ext_equal]
pub enum JsonV {
    Null,
    Bool(bool),
    Int(int),
    /// A number literal that is not a plain 64-bit integer (a fraction, an
    /// exponent, or an out-of-range integer), kept as its raw text.
    BigNum(Seq<char>),
    Str(Seq<char>),
    Arr(Seq<JsonV>),
    Obj(Seq<(Seq<char>, JsonV)>),
}

/// A JSON document.
#[derive(Debug, PartialEq)]
pub enum Json {
    Null,
    Bool(bool),
    Int(i64),
    /// A number literal that is not a plain 64-bit integer, as its raw text.
    BigNum(String),
    Str(String),
    Arr(Vec<Json>),
    Obj(Vec<(String, Json)>),
}

/// The model of a sequence of object members.
pub open spec fn entries_view(s: Seq<(String, Json)>) -> Seq<(Seq<char>, JsonV)>
    decreases s,
{
    if s.len() == 0 {
        Seq::empty()
    } else {
        seq![(s[0].0@, json_view(s[0].1))] + entries_view(s.drop_first())
    }
}

/// The model of a sequence of array elements.
pub open spec fn elems_view(s: Seq<Json>) -> Seq<JsonV>
    decreases s,
{
    if s.len() == 0 {
        Seq::empty()
    } else {
        seq![json_view(s[0])] + elems_view(s.drop_first())
    }
}

/// The model a document denotes.
pub open spec fn json_view(j: Json) -> JsonV
    decreases j,
{
    match j {
        Json::Null => JsonV::Null,
        Json::Bool(b) => JsonV::Bool(b),
        Json::Int(n) => JsonV::Int(n as int),
        Json::BigNum(s) => JsonV::BigNum(s@),
        Json::Str(s) => JsonV::Str(s@),
        Json::Arr(items) => JsonV::Arr(elems_view(items@)),
        Json::Obj(entries) => JsonV::Obj(entries_view(entries@)),
    }
}

impl View for Json {
    type V = JsonV;

    open spec fn view(&self) -> JsonV {
        json_view(*self)
    }
}

pub broadcast proof fn lemma_entries_view_len(s: Seq<(String, Json)>)
    ensures
        #[trigger] entries_view(s).len() == s.len(),
    decreases s.len(),
{
    if s.len() > 0 {
        lemma_entries_view_len(s.drop_first());
    }
}

pub broadcast proof fn lemma_entries_view_index(s: Seq<(String, Json)>, i: int)
    requires
        0 <= i < s.len(),
    ensures
        #[trigger] entries_view(s)[i] == (s[i].0@, s[i].1@),
    decreases s.len(),
{
    lemma_entries_view_len(s);
    if i > 0 {
        lemma_entries_view_index(s.drop_first(), i - 1);
    }
}

pub broadcast proof fn lemma_entries_view_push(s: Seq<(String, Json)>, e: (String, Json))
    ensures
        #[trigger] entries_view(s.push(e)) =~= entries_view(s).push((e.0@, e.1@)),
    decreases s.len(),
{
    lemma_entries_view_len(s);
    lemma_entries_view_len(s.push(e));
    if s.len() == 0 {
        assert(s.push(e).drop_first() =~= s);
    } else {
        assert(s.push(e).drop_first() =~= s.drop_first().push(e));
        lemma_entries_view_push(s.drop_first(), e);
    }
}

pub broadcast proof fn lemma_elems_view_len(s: Seq<Json>)
    ensures
        #[trigger] elems_view(s).len() == s.len(),
    decreases s.len(),
{
    if s.len() > 0 {
        lemma_elems_view_len(s.drop_first());
    }
}

pub broadcast proof fn lemma_elems_view_index(s: Seq<Json>, i: int)
    requires
        0 <= i < s.len(),
    ensures
        #[trigger] elems_view(s)[i] == s[i]@,
    decreases s.len(),
{
    lemma_elems_view_len(s);
    if i > 0 {
        lemma_elems_view_index(s.drop_first(), i - 1);
    }
}

pub broadcast proof fn lemma_elems_view_push(s: Seq<Json>, e: Json)
    ensures
        #[trigger] elems_view(s.push(e)) =~= elems_view(s).push(e@),
    decreases s.len(),
{
    lemma_elems_view_len(s);
    lemma_elems_view_len(s.push(e));
    if s.len() == 0 {
        assert(s.push(e).drop_first() =~= s);
    } else {
        assert(s.push(e).drop_first() =~= s.drop_first().push(e));
        lemma_elems_view_push(s.drop_first(), e);
    }
}

/// The model of concatenated members is the concatenation of models.
pub proof fn lemma_entries_view_concat(a: Seq<(String, Json)>, b: Seq<(String, Json)>)
    ensures
        entries_view(a + b) =~= entries_view(a) + entries_view(b),
    decreases a.len(),
{
    lemma_entries_view_len(a);
    lemma_entries_view_len(b);
    lemma_entries_view_len(a + b);
    if a.len() == 0 {
        assert(a + b =~= b);
    } else {
        assert((a + b).drop_first() =~= a.drop_first() + b);
        lemma_entries_view_concat(a.drop_first(), b);
        assert((a + b)[0] == a[0]);
    }
}

/// The first member of `entries` whose key is `key`, if any.
pub open spec fn lookup(entries: Seq<(Seq<char>, JsonV)>, key: Seq<char>) -> Option<JsonV>
    decreases entries.len(),
{
    if entries.len() == 0 {
        None
    } else if entries[0].0 == key {
        Some(entries[0].1)
    } else {
        lookup(entries.drop_first(), key)
    }
}

/// Lookup in concatenated members takes the earlier sequence's member
/// when it has one.
pub broadcast proof fn lemma_lookup_concat(
    a: Seq<(Seq<char>, JsonV)>,
    b: Seq<(Seq<char>, JsonV)>,
    key: Seq<char>,
)
    ensures
        #[trigger] lookup(a + b, key) == (if lookup(a, key) is Some {
            lookup(a, key)
        } else {
            lookup(b, key)
        }),
    decreases a.len(),
{
    if a.len() == 0 {
        assert(a + b =~= b);
    } else {
        assert((a + b).drop_first() =~= a.drop_first() + b);
        assert((a + b)[0] == a[0]);
        lemma_lookup_concat(a.drop_first(), b, key);
    }
}

/// Lookup in a single required member finds it exactly under its key.
pub broadcast proof fn lemma_lookup_req_entry(key: Seq<char>, v: JsonV, k: Seq<char>)
    ensures
        #[trigger] lookup(req_entry(key, v), k) == (if k == key {
            Some(v)
        } else {
            None::<JsonV>
        }),
{
    reveal_with_fuel(lookup, 2);
    assert(req_entry(key, v).drop_first() =~= Seq::empty());
}

/// Lookup in an optional member finds the value exactly under its key and
/// only when the value is present.
pub broadcast proof fn lemma_lookup_opt_entry(key: Seq<char>, v: Option<JsonV>, k: Seq<char>)
    ensures
        #[trigger] lookup(opt_entry(key, v), k) == (if k == key {
            v
        } else {
            None::<JsonV>
        }),
{
    reveal_with_fuel(lookup, 2);
    match v {
        None => {},
        Some(x) => {
            assert(opt_entry(key, v).drop_first() =~= Seq::empty());
        },
    }
}

/// Lookup finds the member at the first index whose key matches.
pub proof fn lemma_lookup_first_match(es: Seq<(Seq<char>, JsonV)>, key: Seq<char>, i: int)
    requires
        0 <= i < es.len(),
        es[i].0 == key,
        forall|k: int| 0 <= k < i ==> es[k].0 != key,
    ensures
        lookup(es, key) == Some(es[i].1),
    decreases i,
{
    if i > 0 {
        assert(forall|k: int| 0 <= k < i - 1 ==> es.drop_first()[k] == es[k + 1]);
        lemma_lookup_first_match(es.drop_first(), key, i - 1);
    }
}

/// A member found by [`lookup`] sits below the member sequence in the
/// structural ordering, so a decoder may recurse into it.
pub proof fn lemma_lookup_decreases(es: Seq<(Seq<char>, JsonV)>, key: Seq<char>)
    requires
        lookup(es, key) is Some,
    ensures
        decreases_to!(es => lookup(es, key)->0),
    decreases es.len(),
{
    if es.len() > 0 {
        if es[0].0 == key {
            assert(decreases_to!(es => es[0]));
            assert(decreases_to!(es[0] => es[0].1));
        } else {
            lemma_lookup_decreases(es.drop_first(), key);
            assert(decreases_to!(es => es.drop_first()));
        }
    }
}

/// The JSON type of a value, as decode errors report it.
#[derive(Debug, Clone, Copy, PartialEq, Eq, Structural)]
pub enum JsonKind {
    Null,
    Bool,
    Number,
    Str,
    Arr,
    Obj,
}

/// The JSON type a value has; integers and other number literals share one.
pub open spec fn kind_of(j: JsonV) -> JsonKind {
    match j {
        JsonV::Null => JsonKind::Null,
        JsonV::Bool(_) => JsonKind::Bool,
        JsonV::Int(_) => JsonKind::Number,
        JsonV::BigNum(_) => JsonKind::Number,
        JsonV::Str(_) => JsonKind::Str,
        JsonV::Arr(_) => JsonKind::Arr,
        JsonV::Obj(_) => JsonKind::Obj,
    }
}

/// The JSON type of a document.
pub fn json_kind(j: &Json) -> (r: JsonKind)
    ensures
        r == kind_of(j@),
{
    match j {
        Json::Null => JsonKind::Null,
        Json::Bool(_) => JsonKind::Bool,
        Json::Int(_) => JsonKind::Number,
        Json::BigNum(_) => JsonKind::Number,
        Json::Str(_) => JsonKind::Str,
        Json::Arr(_) => JsonKind::Arr,
        Json::Obj(_) => JsonKind::Obj,
    }
}

/// The unions of the model, as decode errors name them.
#[derive(Debug, Clone, Copy, PartialEq, Eq, Structural)]
pub enum UnionKind {
    ChatTarget,
    FileToSend,
    ReplyMarkup,
    InputMessageContent,
    InlineQueryResult,
}

/// Why a document failed to decode into a value of the model.
#[derive(Debug, Clone, Copy, PartialEq, Eq, Structural)]
pub enum DecodeError {
    /// The text is not well-formed JSON.
    Syntax,
    /// A value has a different JSON type than the one the model expects.
    WrongType,
    /// A required object member is absent.
    MissingField,
    /// No branch of an untagged union matched the value's shape: the union
    /// tried, and the JSON type of the value that matched no branch.
    NoVariantMatched(UnionKind, JsonKind),
}

/// Character-for-character string equality.
pub fn str_eq(a: &str, b: &str) -> (r: bool)
    ensures
        r == (a@ == b@),
{
    let alen = a.unicode_len();
    let blen = b.unicode_len();
    if alen != blen {
        return false;
    }
    let mut i: usize = 0;
    while i < alen
        invariant
            i <= alen,
            alen == a@.len(),
            blen == b@.len(),
            alen == blen,
            forall|k: int| 0 <= k < i ==> a@[k] == b@[k],
        decreases alen - i,
    {
        if a.get_char(i) != b.get_char(i) {
            return false;
        }
        i += 1;
    }
    proof {
        assert(a@ =~= b@);
    }
    true
}

/// The first member of `entries` named `key`, if any.
pub fn obj_get<'a>(entries: &'a Vec<(String, Json)>, key: &str) -> (r: Option<&'a Json>)
    ensures
        match r {
            Some(v) => lookup(entries_view(entries@), key@) == Some(v@) && (decreases_to!(
                *entries => *v
            )),
            None => lookup(entries_view(entries@), key@) is None,
        },
{
    let ghost ev = entries_view(entries@);
    proof {
        lemma_entries_view_len(entries@);
        assert(ev.subrange(0, ev.len() as int) =~= ev);
    }
    let mut i: usize = 0;
    while i < entries.len()
        invariant
            i <= entries@.len(),
            ev == entries_view(entries@),
            ev.len() == entries@.len(),
            lookup(ev.subrange(i as int, ev.len() as int), key@) == lookup(ev, key@),
        decreases entries@.len() - i,
    {
        proof {
            lemma_entries_view_index(entries@, i as int);
        }
        if str_eq(entries[i].0.as_str(), key) {
            proof {
                assert(ev.subrange(i as int, ev.len() as int)[0] == ev[i as int]);
                assert(decreases_to!(*entries => entries@[i as int]));
            }
            return Some(&entries[i].1);
        }
        proof {
            assert(ev.subrange(i as int, ev.len() as int).drop_first() =~= ev.subrange(
                i + 1,
                ev.len() as int,
            ));
        }
        i += 1;
    }
    proof {
        assert(ev.subrange(ev.len() as int, ev.len() as int) =~= Seq::empty());
    }
    None
}

/// A required string member.
pub open spec fn sp_req_str(es: Seq<(Seq<char>, JsonV)>, key: Seq<char>) -> Result<
    Seq<char>,
    DecodeError,
> {
    match lookup(es, key) {
        None => Err(DecodeError::MissingField),
        Some(JsonV::Str(s)) => Ok(s),
        Some(_) => Err(DecodeError::WrongType),
    }
}

/// An optional string member: absent or `null` is `None`.
pub open spec fn sp_opt_str(es: Seq<(Seq<char>, JsonV)>, key: Seq<char>) -> Result<
    Option<Seq<char>>,
    DecodeError,
> {
    match lookup(es, key) {
        None => Ok(None),
        Some(JsonV::Null) => Ok(None),
        Some(JsonV::Str(s)) => Ok(Some(s)),
        Some(_) => Err(DecodeError::WrongType),
    }
}

/// A required 64-bit integer member.
pub open spec fn sp_req_i64(es: Seq<(Seq<char>, JsonV)>, key: Seq<char>) -> Result<
    int,
    DecodeError,
> {
    match lookup(es, key) {
        None => Err(DecodeError::MissingField),
        Some(JsonV::Int(n)) => Ok(n),
        Some(_) => Err(DecodeError::WrongType),
    }
}

/// An optional 64-bit integer member: absent or `null` is `None`.
pub open spec fn sp_opt_i64(es: Seq<(Seq<char>, JsonV)>, key: Seq<char>) -> Result<
    Option<int>,
    DecodeError,
> {
    match lookup(es, key) {
        None => Ok(None),
        Some(JsonV::Null) => Ok(None),
        Some(JsonV::Int(n)) => Ok(Some(n)),
        Some(_) => Err(DecodeError::WrongType),
    }
}

/// A required 32-bit integer member; an out-of-range integer is a type error.
pub open spec fn sp_req_i32(es: Seq<(Seq<char>, JsonV)>, key: Seq<char>) -> Result<
    int,
    DecodeError,
> {
    match lookup(es, key) {
        None => Err(DecodeError::MissingField),
        Some(JsonV::Int(n)) => if i32::MIN <= n <= i32::MAX {
            Ok(n)
        } else {
            Err(DecodeError::WrongType)
        },
        Some(_) => Err(DecodeError::WrongType),
    }
}

/// An optional 32-bit integer member.
pub open spec fn sp_opt_i32(es: Seq<(Seq<char>, JsonV)>, key: Seq<char>) -> Result<
    Option<int>,
    DecodeError,
> {
    match lookup(es, key) {
        None => Ok(None),
        Some(JsonV::Null) => Ok(None),
        Some(JsonV::Int(n)) => if i32::MIN <= n <= i32::MAX {
            Ok(Some(n))
        } else {
            Err(DecodeError::WrongType)
        },
        Some(_) => Err(DecodeError::WrongType),
    }
}

/// A required non-negative integer member.
pub open spec fn sp_req_u64(es: Seq<(Seq<char>, JsonV)>, key: Seq<char>) -> Result<
    int,
    DecodeError,
> {
    match lookup(es, key) {
        None => Err(DecodeError::MissingField),
        Some(JsonV::Int(n)) => if n >= 0 {
            Ok(n)
        } else {
            Err(DecodeError::WrongType)
        },
        Some(_) => Err(DecodeError::WrongType),
    }
}

/// An optional non-negative integer member.
pub open spec fn sp_opt_u64(es: Seq<(Seq<char>, JsonV)>, key: Seq<char>) -> Result<
    Option<int>,
    DecodeError,
> {
    match lookup(es, key) {
        None => Ok(None),
        Some(JsonV::Null) => Ok(None),
        Some(JsonV::Int(n)) => if n >= 0 {
            Ok(Some(n))
        } else {
            Err(DecodeError::WrongType)
        },
        Some(_) => Err(DecodeError::WrongType),
    }
}

/// A required boolean member.
pub open spec fn sp_req_bool(es: Seq<(Seq<char>, JsonV)>, key: Seq<char>) -> Result<
    bool,
    DecodeError,
> {
    match lookup(es, key) {
        None => Err(DecodeError::MissingField),
        Some(JsonV::Bool(b)) => Ok(b),
        Some(_) => Err(DecodeError::WrongType),
    }
}

/// An optional boolean member: absent or `null` is `None`.
pub open spec fn sp_opt_bool(es: Seq<(Seq<char>, JsonV)>, key: Seq<char>) -> Result<
    Option<bool>,
    DecodeError,
> {
    match lookup(es, key) {
        None => Ok(None),
        Some(JsonV::Null) => Ok(None),
        Some(JsonV::Bool(b)) => Ok(Some(b)),
        Some(_) => Err(DecodeError::WrongType),
    }
}

/// A boolean member that defaults to `false` when absent.
pub open spec fn sp_bool_or_false(es: Seq<(Seq<char>, JsonV)>, key: Seq<char>) -> Result<
    bool,
    DecodeError,
> {
    match lookup(es, key) {
        None => Ok(false),
        Some(JsonV::Bool(b)) => Ok(b),
        Some(_) => Err(DecodeError::WrongType),
    }
}

/// An optional member carried through as a raw document: absent or `null` is `None`.
pub open spec fn sp_opt_raw(es: Seq<(Seq<char>, JsonV)>, key: Seq<char>) -> Option<JsonV> {
    match lookup(es, key) {
        None => None,
        Some(JsonV::Null) => None,
        Some(v) => Some(v),
    }
}

impl Json {
    /// A structurally equal copy of the document.
    #[verifier::loop_isolation(false)]
    pub fn deep_clone(&self) -> (r: Json)
        ensures
            r@ == self@,
        decreases self,
    {
        match self {
            Json::Null => Json::Null,
            Json::Bool(b) => Json::Bool(*b),
            Json::Int(n) => Json::Int(*n),
            Json::BigNum(s) => Json::BigNum(s.clone()),
            Json::Str(s) => Json::Str(s.clone()),
            Json::Arr(items) => {
                let mut out: Vec<Json> = Vec::new();
                let mut i: usize = 0;
                proof {
                    lemma_elems_view_len(items@);
                }
                while i < items.len()
                    invariant
                        i <= items@.len(),
                        elems_view(out@) =~= elems_view(items@).subrange(0, i as int),
                    decreases items@.len() - i,
                {
                    proof {
                        assert(decreases_to!(*items => items@[i as int]));
                        assert(decreases_to!(*self => *items));
                    }
                    let e = items[i].deep_clone();
                    let ghost prev = out@;
                    out.push(e);
                    proof {
                        lemma_elems_view_push(prev, e);
                        lemma_elems_view_index(items@, i as int);
                        assert(elems_view(items@).subrange(0, i + 1) =~= elems_view(
                            items@,
                        ).subrange(0, i as int).push(elems_view(items@)[i as int]));
                        assert(elems_view(out@) =~= elems_view(items@).subrange(0, i + 1));
                    }
                    i += 1;
                }
                proof {
                    assert(elems_view(items@).subrange(0, items@.len() as int) =~= elems_view(
                        items@,
                    ));
                }
                Json::Arr(out)
            },
            Json::Obj(entries) => {
                let mut out: Vec<(String, Json)> = Vec::new();
                let mut i: usize = 0;
                proof {
                    lemma_entries_view_len(entries@);
                }
                while i < entries.len()
                    invariant
                        i <= entries@.len(),
                        entries_view(out@) =~= entries_view(entries@).subrange(0, i as int),
                    decreases entries@.len() - i,
                {
                    proof {
                        assert(decreases_to!(*entries => entries@[i as int]));
                        assert(decreases_to!(entries@[i as int] => entries@[i as int].1));
                        assert(decreases_to!(*self => *entries));
                    }
                    let k = entries[i].0.clone();
                    let v = entries[i].1.deep_clone();
                    let ghost prev = out@;
                    out.push((k, v));
                    proof {
                        lemma_entries_view_push(prev, (k, v));
                        lemma_entries_view_index(entries@, i as int);
                        assert(entries_view(entries@).subrange(0, i + 1) =~= entries_view(
                            entries@,
                        ).subrange(0, i as int).push(entries_view(entries@)[i as int]));
                        assert((k@, v@) == entries_view(entries@)[i as int]);
                        assert(entries_view(out@) =~= entries_view(entries@).subrange(0, i + 1));
                    }
                    i += 1;
                }
                proof {
                    assert(entries_view(entries@).subrange(0, entries@.len() as int)
                        =~= entries_view(entries@));
                }
                Json::Obj(out)
            },
        }
    }
}

impl Clone for Json {
    /// A structurally equal copy of the document.
    fn clone(&self) -> (r: Json)
        ensures
            r@ == self@,
    {
        self.deep_clone()
    }
}

/// A required string member, as an owned string.
pub fn req_str(entries: &Vec<(String, Json)>, key: &str) -> (r: Result<String, DecodeError>)
    ensures
        match r {
            Ok(s) => sp_req_str(entries_view(entries@), key@) == Ok::<_, DecodeError>(s@),
            Err(e) => sp_req_str(entries_view(entries@), key@) == Err::<Seq<char>, _>(e),
        },
{
    match obj_get(entries, key) {
        None => Err(DecodeError::MissingField),
        Some(Json::Str(s)) => Ok(s.clone()),
        Some(_) => Err(DecodeError::WrongType),
    }
}

/// An optional string member, as an owned string.
pub fn opt_str(entries: &Vec<(String, Json)>, key: &str) -> (r: Result<
    Option<String>,
    DecodeError,
>)
    ensures
        match r {
            Ok(None) => sp_opt_str(entries_view(entries@), key@) == Ok::<
                Option<Seq<char>>,
                DecodeError,
            >(None),
            Ok(Some(s)) => sp_opt_str(entries_view(entries@), key@) == Ok::<_, DecodeError>(
                Some(s@),
            ),
            Err(e) => sp_opt_str(entries_view(entries@), key@) == Err::<Option<Seq<char>>, _>(e),
        },
{
    match obj_get(entries, key) {
        None => Ok(None),
        Some(Json::Null) => Ok(None),
        Some(Json::Str(s)) => Ok(Some(s.clone())),
        Some(_) => Err(DecodeError::WrongType),
    }
}

/// A required 64-bit integer member.
pub fn req_i64(entries: &Vec<(String, Json)>, key: &str) -> (r: Result<i64, DecodeError>)
    ensures
        match r {
            Ok(n) => sp_req_i64(entries_view(entries@), key@) == Ok::<_, DecodeError>(n as int),
            Err(e) => sp_req_i64(entries_view(entries@), key@) == Err::<int, _>(e),
        },
{
    match obj_get(entries, key) {
        None => Err(DecodeError::MissingField),
        Some(Json::Int(n)) => Ok(*n),
        Some(_) => Err(DecodeError::WrongType),
    }
}

/// An optional 64-bit integer member.
pub fn opt_i64(entries: &Vec<(String, Json)>, key: &str) -> (r: Result<Option<i64>, DecodeError>)
    ensures
        match r {
            Ok(None) => sp_opt_i64(entries_view(entries@), key@) == Ok::<
                Option<int>,
                DecodeError,
            >(None),
            Ok(Some(n)) => sp_opt_i64(entries_view(entries@), key@) == Ok::<_, DecodeError>(
                Some(n as int),
            ),
            Err(e) => sp_opt_i64(entries_view(entries@), key@) == Err::<Option<int>, _>(e),
        },
{
    match obj_get(entries, key) {
        None => Ok(None),
        Some(Json::Null) => Ok(None),
        Some(Json::Int(n)) => Ok(Some(*n)),
        Some(_) => Err(DecodeError::WrongType),
    }
}

/// A required 32-bit integer member.
pub fn req_i32(entries: &Vec<(String, Json)>, key: &str) -> (r: Result<i32, DecodeError>)
    ensures
        match r {
            Ok(n) => sp_req_i32(entries_view(entries@), key@) == Ok::<_, DecodeError>(n as int),
            Err(e) => sp_req_i32(entries_view(entries@), key@) == Err::<int, _>(e),
        },
{
    match obj_get(entries, key) {
        None => Err(DecodeError::MissingField),
        Some(Json::Int(n)) => {
            let n = *n;
            if -0x8000_0000i64 <= n && n <= 0x7fff_ffffi64 {
                Ok(n as i32)
            } else {
                Err(DecodeError::WrongType)
            }
        },
        Some(_) => Err(DecodeError::WrongType),
    }
}

/// An optional 32-bit integer member.
pub fn opt_i32(entries: &Vec<(String, Json)>, key: &str) -> (r: Result<Option<i32>, DecodeError>)
    ensures
        match r {
            Ok(None) => sp_opt_i32(entries_view(entries@), key@) == Ok::<
                Option<int>,
                DecodeError,
            >(None),
            Ok(Some(n)) => sp_opt_i32(entries_view(entries@), key@) == Ok::<_, DecodeError>(
                Some(n as int),
            ),
            Err(e) => sp_opt_i32(entries_view(entries@), key@) == Err::<Option<int>, _>(e),
        },
{
    match obj_get(entries, key) {
        None => Ok(None),
        Some(Json::Null) => Ok(None),
        Some(Json::Int(n)) => {
            let n = *n;
            if -0x8000_0000i64 <= n && n <= 0x7fff_ffffi64 {
                Ok(Some(n as i32))
            } else {
                Err(DecodeError::WrongType)
            }
        },
        Some(_) => Err(DecodeError::WrongType),
    }
}

/// A required non-negative integer member.
pub fn req_u64(entries: &Vec<(String, Json)>, key: &str) -> (r: Result<u64, DecodeError>)
    ensures
        match r {
            Ok(n) => sp_req_u64(entries_view(entries@), key@) == Ok::<_, DecodeError>(n as int),
            Err(e) => sp_req_u64(entries_view(entries@), key@) == Err::<int, _>(e),
        },
{
    match obj_get(entries, key) {
        None => Err(DecodeError::MissingField),
        Some(Json::Int(n)) => {
            let n = *n;
            if n >= 0 {
                Ok(n as u64)
            } else {
                Err(DecodeError::WrongType)
            }
        },
        Some(_) => Err(DecodeError::WrongType),
    }
}

/// An optional non-negative integer member.
pub fn opt_u64(entries: &Vec<(String, Json)>, key: &str) -> (r: Result<Option<u64>, DecodeError>)
    ensures
        match r {
            Ok(None) => sp_opt_u64(entries_view(entries@), key@) == Ok::<
                Option<int>,
                DecodeError,
            >(None),
            Ok(Some(n)) => sp_opt_u64(entries_view(entries@), key@) == Ok::<_, DecodeError>(
                Some(n as int),
            ),
            Err(e) => sp_opt_u64(entries_view(entries@), key@) == Err::<Option<int>, _>(e),
        },
{
    match obj_get(entries, key) {
        None => Ok(None),
        Some(Json::Null) => Ok(None),
        Some(Json::Int(n)) => {
            let n = *n;
            if n >= 0 {
                Ok(Some(n as u64))
            } else {
                Err(DecodeError::WrongType)
            }
        },
        Some(_) => Err(DecodeError::WrongType),
    }
}

/// A required boolean member.
pub fn req_bool(entries: &Vec<(String, Json)>, key: &str) -> (r: Result<bool, DecodeError>)
    ensures
        match r {
            Ok(b) => sp_req_bool(entries_view(entries@), key@) == Ok::<_, DecodeError>(b),
            Err(e) => sp_req_bool(entries_view(entries@), key@) == Err::<bool, _>(e),
        },
{
    match obj_get(entries, key) {
        None => Err(DecodeError::MissingField),
        Some(Json::Bool(b)) => Ok(*b),
        Some(_) => Err(DecodeError::WrongType),
    }
}

/// An optional boolean member.
pub fn opt_bool(entries: &Vec<(String, Json)>, key: &str) -> (r: Result<Option<bool>, DecodeError>)
    ensures
        match r {
            Ok(b) => sp_opt_bool(entries_view(entries@), key@) == Ok::<_, DecodeError>(b),
            Err(e) => sp_opt_bool(entries_view(entries@), key@) == Err::<Option<bool>, _>(e),
        },
{
    match obj_get(entries, key) {
        None => Ok(None),
        Some(Json::Null) => Ok(None),
        Some(Json::Bool(b)) => Ok(Some(*b)),
        Some(_) => Err(DecodeError::WrongType),
    }
}

/// A boolean member that defaults to `false` when absent.
pub fn bool_or_false(entries: &Vec<(String, Json)>, key: &str) -> (r: Result<bool, DecodeError>)
    ensures
        match r {
            Ok(b) => sp_bool_or_false(entries_view(entries@), key@) == Ok::<_, DecodeError>(b),
            Err(e) => sp_bool_or_false(entries_view(entries@), key@) == Err::<bool, _>(e),
        },
{
    match obj_get(entries, key) {
        None => Ok(crate::bot::utils::falsum()),
        Some(Json::Bool(b)) => Ok(*b),
        Some(_) => Err(DecodeError::WrongType),
    }
}

/// An optional member carried through as a raw document.
pub fn opt_raw(entries: &Vec<(String, Json)>, key: &str) -> (r: Option<Json>)
    ensures
        match r {
            None => sp_opt_raw(entries_view(entries@), key@) is None,
            Some(v) => sp_opt_raw(entries_view(entries@), key@) == Some(v@),
        },
{
    match obj_get(entries, key) {
        None => None,
        Some(Json::Null) => None,
        Some(v) => Some(v.deep_clone()),
    }
}

/// An object member for a value, as a singleton member sequence.
pub open spec fn req_entry(key: Seq<char>, v: JsonV) -> Seq<(Seq<char>, JsonV)> {
    seq![(key, v)]
}

/// An object member that is written only when the value is present.
pub open spec fn opt_entry(key: Seq<char>, v: Option<JsonV>) -> Seq<(Seq<char>, JsonV)> {
    match v {
        None => Seq::empty(),
        Some(x) => seq![(key, x)],
    }
}

/// An optional value written as `null` when absent.
pub open spec fn nullable(v: Option<JsonV>) -> JsonV {
    match v {
        None => JsonV::Null,
        Some(x) => x,
    }
}

/// An optional integer as an optional number value.
pub open spec fn opt_int_v(v: Option<int>) -> Option<JsonV> {
    match v {
        None => None,
        Some(n) => Some(JsonV::Int(n)),
    }
}

/// An optional string as an optional string value.
pub open spec fn opt_str_v(v: Option<Seq<char>>) -> Option<JsonV> {
    match v {
        None => None,
        Some(s) => Some(JsonV::Str(s)),
    }
}

/// An optional boolean as an optional boolean value.
pub open spec fn opt_bool_v(v: Option<bool>) -> Option<JsonV> {
    match v {
        None => None,
        Some(b) => Some(JsonV::Bool(b)),
    }
}

/// The model of a sequence of strings.
pub open spec fn strs_view(s: Seq<String>) -> Seq<Seq<char>> {
    Seq::new(s.len(), |i: int| s[i]@)
}

/// The wire form of a sequence of strings.
pub open spec fn sp_enc_strs(s: Seq<Seq<char>>) -> Seq<JsonV> {
    Seq::new(s.len(), |i: int| JsonV::Str(s[i]))
}

/// What a sequence of documents denotes as strings.
pub open spec fn sp_dec_strs(items: Seq<JsonV>) -> Result<Seq<Seq<char>>, DecodeError>
    decreases items.len(),
{
    if items.len() == 0 {
        Ok(Seq::empty())
    } else {
        match items[0] {
            JsonV::Str(s) => match sp_dec_strs(items.drop_first()) {
                Err(e) => Err(e),
                Ok(t) => Ok(seq![s] + t),
            },
            _ => Err(DecodeError::WrongType),
        }
    }
}

/// An optional member holding an array of strings: absent or `null` is `None`.
pub open spec fn sp_opt_strs(es: Seq<(Seq<char>, JsonV)>, key: Seq<char>) -> Result<
    Option<Seq<Seq<char>>>,
    DecodeError,
> {
    match lookup(es, key) {
        None => Ok(None),
        Some(JsonV::Null) => Ok(None),
        Some(JsonV::Arr(items)) => match sp_dec_strs(items) {
            Err(e) => Err(e),
            Ok(v) => Ok(Some(v)),
        },
        Some(_) => Err(DecodeError::WrongType),
    }
}

/// A failing element fails a string sequence with its error.
proof fn lemma_sp_dec_strs_err(items: Seq<JsonV>, i: int)
    requires
        0 <= i < items.len(),
        !(items[i] is Str),
        forall|k: int| 0 <= k < i ==> items[k] is Str,
    ensures
        sp_dec_strs(items) == Err::<Seq<Seq<char>>, _>(DecodeError::WrongType),
    decreases items.len(),
{
    if i > 0 {
        assert(items.drop_first()[i - 1] == items[i]);
        assert(forall|k: int|
            0 <= k < i - 1 ==> items.drop_first()[k] == items[k + 1] && items.drop_first()[k]
                is Str);
        lemma_sp_dec_strs_err(items.drop_first(), i - 1);
    }
}

/// Elementwise strings decode the whole sequence.
proof fn lemma_sp_dec_strs_ok(items: Seq<JsonV>, out: Seq<String>)
    requires
        out.len() == items.len(),
        forall|k: int| 0 <= k < items.len() ==> items[k] == JsonV::Str(out[k]@),
    ensures
        sp_dec_strs(items) == Ok::<_, DecodeError>(strs_view(out)),
    decreases items.len(),
{
    if items.len() == 0 {
        assert(strs_view(out) =~= Seq::<Seq<char>>::empty());
    } else {
        assert(forall|k: int|
            0 <= k < items.drop_first().len() ==> items.drop_first()[k] == items[k + 1]
                && items.drop_first()[k] == JsonV::Str(out.drop_first()[k]@));
        lemma_sp_dec_strs_ok(items.drop_first(), out.drop_first());
        assert(strs_view(out) =~= seq![out[0]@] + strs_view(out.drop_first()));
    }
}

/// Decode an optional member holding an array of strings.
#[verifier::loop_isolation(false)]
pub fn opt_strs(entries: &Vec<(String, Json)>, key: &str) -> (r: Result<
    Option<Vec<String>>,
    DecodeError,
>)
    ensures
        match r {
            Ok(None) => sp_opt_strs(entries_view(entries@), key@) == Ok::<
                Option<Seq<Seq<char>>>,
                DecodeError,
            >(None),
            Ok(Some(v)) => sp_opt_strs(entries_view(entries@), key@) == Ok::<_, DecodeError>(
                Some(strs_view(v@)),
            ),
            Err(e) => sp_opt_strs(entries_view(entries@), key@) == Err::<
                Option<Seq<Seq<char>>>,
                _,
            >(e),
        },
{
    match obj_get(entries, key) {
        None => Ok(None),
        Some(Json::Null) => Ok(None),
        Some(Json::Arr(items)) => {
            let ghost iv = elems_view(items@);
            proof {
                lemma_elems_view_len(items@);
            }
            let mut out: Vec<String> = Vec::new();
            let mut i: usize = 0;
            while i < items.len()
                invariant
                    i <= items@.len(),
                    out@.len() == i,
                    forall|k: int| 0 <= k < i ==> iv[k] == JsonV::Str(out@[k]@),
                decreases items@.len() - i,
            {
                proof {
                    lemma_elems_view_index(items@, i as int);
                }
                match &items[i] {
                    Json::Str(s) => {
                        out.push(s.clone());
                    },
                    _ => {
                        proof {
                            lemma_sp_dec_strs_err(iv, i as int);
                        }
                        return Err(DecodeError::WrongType);
                    },
                }
                i += 1;
            }
            proof {
                lemma_sp_dec_strs_ok(iv, out@);
            }
            Ok(Some(out))
        },
        Some(_) => Err(DecodeError::WrongType),
    }
}

/// Append one member to an object under construction.
pub fn push_entry(out: &mut Vec<(String, Json)>, key: &str, v: Json)
    ensures
        entries_view(final(out)@) == entries_view(old(out)@) + req_entry(key@, v@),
{
    let ghost prev = out@;
    let ghost vv = v@;
    let k = key.to_owned();
    let ghost kk = k@;
    out.push((k, v));
    proof {
        lemma_entries_view_push(prev, (out@.last().0, out@.last().1));
        assert(entries_view(out@) =~= entries_view(prev) + req_entry(kk, vv));
    }
}

/// The document tree of serde_json, declared so that a parsed tree can
/// pass through verified code on its way into the library's own model.
#[verifier::external_type_specification]
#[verifier::external_body]
pub struct ExValue(serde_json::Value);

/// The document that a well-formed JSON text denotes, as serde_json reads
/// it: `None` exactly on text that is not well-formed JSON.
pub uninterp spec fn parsed_doc(s: Seq<char>) -> Option<JsonV>;

/// What a parsed serde_json tree holds, in the library's document model.
pub uninterp spec fn tree_doc(v: serde_json::Value) -> JsonV;

/// Relies on serde_json::from_str::<serde_json::Value>: it returns `Ok`
/// exactly on well-formed JSON text, and the tree a given text yields is a
/// function of the text alone.
#[verifier::external_body]
fn value_from_str(s: &str) -> (r: Option<serde_json::Value>)
    ensures
        match r {
            Some(v) => parsed_doc(s@) == Some(tree_doc(v)),
            None => parsed_doc(s@) is None,
        },
{
    serde_json::from_str::<serde_json::Value>(s).ok()
}

/// Relies on the public variants of serde_json::Value: each maps one-for-one
/// onto this library's document tree. A number in the signed 64-bit range
/// becomes an integer; any other number keeps serde_json's text for it.
#[verifier::external_body]
fn value_to_doc(v: serde_json::Value) -> (r: Json)
    ensures
        r@ == tree_doc(v),
{
    match v {
        serde_json::Value::Null => Json::Null,
        serde_json::Value::Bool(b) => Json::Bool(b),
        serde_json::Value::Number(n) => match n.as_i64() {
            Some(i) => Json::Int(i),
            None => Json::BigNum(n.to_string()),
        },
        serde_json::Value::String(s) => Json::Str(s),
        serde_json::Value::Array(a) => Json::Arr(a.into_iter().map(value_to_doc).collect()),
        serde_json::Value::Object(m) => Json::Obj(
            m.into_iter().map(|(k, x)| (k, value_to_doc(x))).collect(),
        ),
    }
}

/// Parse JSON text into a document: the decoders' binding to raw bytes.
/// Text that is not well-formed JSON is a syntax error; the shape of what
/// the text describes is judged later, by the decoders.
pub fn parse_document(s: &str) -> (r: Result<Json, DecodeError>)
    ensures
        match r {
            Ok(j) => parsed_doc(s@) == Some(j@),
            Err(e) => parsed_doc(s@) is None && e == DecodeError::Syntax,
        },
{
    match value_from_str(s) {
        Some(v) => Ok(value_to_doc(v)),
        None => Err(DecodeError::Syntax),
    }
}

/// Encode a sequence of strings as an array.
#[verifier::loop_isolation(false)]
pub fn strs_to_json(v: &Vec<String>) -> (r: Json)
    ensures
        r@ == JsonV::Arr(sp_enc_strs(strs_view(v@))),
{
    let mut out: Vec<Json> = Vec::new();
    let mut i: usize = 0;
    while i < v.len()
        invariant
            i <= v@.len(),
            elems_view(out@) =~= sp_enc_strs(strs_view(v@)).subrange(0, i as int),
        decreases v@.len() - i,
    {
        let e = Json::Str(v[i].clone());
        let ghost prev = out@;
        out.push(e);
        proof {
            lemma_elems_view_push(prev, e);
            assert(elems_view(out@) =~= sp_enc_strs(strs_view(v@)).subrange(0, i + 1));
        }
        i += 1;
    }
    proof {
        assert(elems_view(out@) =~= sp_enc_strs(strs_view(v@)));
    }
    Json::Arr(out)
}

} // verus!
