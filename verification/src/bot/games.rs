//! Game-related object types.
use crate::json::{DecodeError, Json, JsonV};
use vstd::prelude::*;

verus! {

/// The model of a game placeholder.
pub struct CallbackGameV {}

/// A placeholder for a game to be launched; it carries no information.
#[derive(Debug, Clone, PartialEq, Eq)]
pub struct CallbackGame {}

impl View for CallbackGame {
    type V = CallbackGameV;

    open spec fn view(&self) -> CallbackGameV {
        CallbackGameV {}
    }
}

impl CallbackGame {
    /// The wire form: an empty object.
    pub open spec fn encoded_v(v: CallbackGameV) -> JsonV {
        JsonV::Obj(Seq::empty())
    }

    /// What a document denotes: any object is the placeholder.
    pub open spec fn decoded(j: JsonV) -> Result<CallbackGameV, DecodeError> {
        match j {
            JsonV::Obj(es) => Ok(CallbackGameV {}),
            _ => Err(DecodeError::WrongType),
        }
    }

    /// Encode as an empty object.
    pub fn to_json(&self) -> (r: Json)
        ensures
            r@ == CallbackGame::encoded_v(self@),
    {
        let out: Vec<(String, Json)> = Vec::new();
        proof {
            assert(crate::json::entries_view(out@) =~= Seq::<(Seq<char>, JsonV)>::empty());
        }
        Json::Obj(out)
    }

    /// Decode from any object.
    pub fn from_json(j: &Json) -> (r: Result<CallbackGame, DecodeError>)
        ensures
            match r {
                Ok(v) => CallbackGame::decoded(j@) == Ok::<_, DecodeError>(v@),
                Err(e) => CallbackGame::decoded(j@) == Err::<CallbackGameV, _>(e),
            },
    {
        match j {
            Json::Obj(_) => Ok(CallbackGame {}),
            _ => Err(DecodeError::WrongType),
        }
    }
}

} // verus!
