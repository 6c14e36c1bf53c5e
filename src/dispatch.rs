//! The request dispatcher and the service façade: which route a request
//! takes, what storage work a decoded request asks for, and the status and
//! body that answer each outcome.
use vstd::prelude::*;

use crate::models::{LoadValueRequest, LoadValueResponse, SaveValueRequest, SaveValueResponse};
use crate::store::{StorageCall, StoreError};

verus! {

/// The path of the save operation.
pub const SAVE_VALUE_PATH: &'static str = "/twirp/kv.KVService/SaveValue";

/// The path of the load operation.
pub const LOAD_VALUE_PATH: &'static str = "/twirp/kv.KVService/LoadValue";

/// The one method that both operations take.
pub const POST_METHOD: &'static str = "POST";

pub const STATUS_OK: u16 = 200;

pub const STATUS_BAD_REQUEST: u16 = 400;

pub const STATUS_NOT_FOUND: u16 = 404;

pub const STATUS_INTERNAL_ERROR: u16 = 500;

/// The body of a failed load: generic, with no detail of the failure.
pub const LOAD_FAILED_TEXT: &'static str = "Failed to load value";

/// The body of a request that matches no route.
pub const NOT_FOUND_TEXT: &'static str = "Not Found";

/// The operations that requests are routed to.
#[derive(Clone, Copy, Debug, PartialEq, Eq, Structural)]
pub enum Route {
    SaveValue,
    LoadValue,
}

/// The route of a request with this method and path, if it has one.
pub open spec fn route_spec(method: Seq<char>, path: Seq<char>) -> Option<Route> {
    if method != POST_METHOD@ {
        None
    } else if path == SAVE_VALUE_PATH@ {
        Some(Route::SaveValue)
    } else if path == LOAD_VALUE_PATH@ {
        Some(Route::LoadValue)
    } else {
        None
    }
}

/// The body of a reply.
pub enum ReplyBody {
    /// `{"success": ...}`
    Saved(SaveValueResponse),
    /// `{"value": ..., "found": ...}`
    Loaded(LoadValueResponse),
    /// Plain text.
    Text(String),
}

/// A status code and the body that goes with it.
pub struct Reply {
    pub status: u16,
    pub body: ReplyBody,
}

/// What to do next for a decoded request: answer at once, or run a statement
/// against the store and answer from its outcome.
pub enum Step {
    Respond(Reply),
    Call(StorageCall),
}

/// Whether two strings hold the same characters.
fn same_text(a: &str, b: &str) -> (r: bool)
    ensures
        r == (a@ == b@),
{
    let n = a.unicode_len();
    if n != b.unicode_len() {
        return false;
    }
    let mut i: usize = 0;
    while i < n
        invariant
            n == a@.len(),
            n == b@.len(),
            i <= n,
            a@.subrange(0, i as int) == b@.subrange(0, i as int),
        decreases n - i,
    {
        if a.get_char(i) != b.get_char(i) {
            assert(a@[i as int] != b@[i as int]);
            return false;
        }
        assert(a@.subrange(0, i + 1) =~= a@.subrange(0, i as int).push(a@[i as int]));
        assert(b@.subrange(0, i + 1) =~= b@.subrange(0, i as int).push(b@[i as int]));
        i = i + 1;
    }
    assert(a@ =~= a@.subrange(0, n as int));
    assert(b@ =~= b@.subrange(0, n as int));
    true
}

/// Picks the route of a request; `None` means that no route matches.
pub fn route_of(method: &str, path: &str) -> (r: Option<Route>)
    ensures
        r == route_spec(method@, path@),
{
    if !same_text(method, POST_METHOD) {
        None
    } else if same_text(path, SAVE_VALUE_PATH) {
        Some(Route::SaveValue)
    } else if same_text(path, LOAD_VALUE_PATH) {
        Some(Route::LoadValue)
    } else {
        None
    }
}

/// The reply to a request that matches no route.
pub fn not_found() -> (r: Reply)
    ensures
        r.status == STATUS_NOT_FOUND,
        r.body is Text,
        r.body->Text_0@ == NOT_FOUND_TEXT@,
{
    Reply { status: STATUS_NOT_FOUND, body: ReplyBody::Text(String::from_str(NOT_FOUND_TEXT)) }
}

/// The reply to a body that could not be decoded: the diagnostic, as text.
pub fn bad_request(diagnostic: String) -> (r: Reply)
    ensures
        r.status == STATUS_BAD_REQUEST,
        r.body == ReplyBody::Text(diagnostic),
{
    Reply { status: STATUS_BAD_REQUEST, body: ReplyBody::Text(diagnostic) }
}

/// The next step for a save request, given the outcome of decoding its body.
/// A body that did not decode is answered with 400 and never reaches the store.
pub fn plan_save(decoded: Result<SaveValueRequest, String>) -> (r: Step)
    ensures
        decoded is Ok ==> r == Step::Call(StorageCall::upsert_of(decoded->Ok_0)),
        decoded is Err ==> r == Step::Respond(
            Reply { status: STATUS_BAD_REQUEST, body: ReplyBody::Text(decoded->Err_0) },
        ),
{
    match decoded {
        Ok(req) => Step::Call(StorageCall::Upsert { key: req.key, value: req.value }),
        Err(diagnostic) => Step::Respond(bad_request(diagnostic)),
    }
}

/// The next step for a load request, given the outcome of decoding its body.
/// A body that did not decode is answered with 400 and never reaches the store.
pub fn plan_load(decoded: Result<LoadValueRequest, String>) -> (r: Step)
    ensures
        decoded is Ok ==> r == Step::Call(StorageCall::lookup_of(decoded->Ok_0)),
        decoded is Err ==> r == Step::Respond(
            Reply { status: STATUS_BAD_REQUEST, body: ReplyBody::Text(decoded->Err_0) },
        ),
{
    match decoded {
        Ok(req) => Step::Call(StorageCall::Lookup { key: req.key }),
        Err(diagnostic) => Step::Respond(bad_request(diagnostic)),
    }
}

/// The reply to a save, from the outcome of its upsert: success with 200 when
/// the write committed, no success with 500 when it did not.
pub fn save_value(outcome: Result<(), StoreError>) -> (r: Reply)
    ensures
        r.status == (if outcome is Ok {
            STATUS_OK
        } else {
            STATUS_INTERNAL_ERROR
        }),
        r.body == ReplyBody::Saved(SaveValueResponse { success: outcome is Ok }),
{
    match outcome {
        Ok(()) => Reply { status: STATUS_OK, body: ReplyBody::Saved(SaveValueResponse { success: true }) },
        Err(_) => Reply {
            status: STATUS_INTERNAL_ERROR,
            body: ReplyBody::Saved(SaveValueResponse { success: false }),
        },
    }
}

/// The reply to a load, from the outcome of its lookup: 200 with the value and
/// whether it was found (absence is no error), or 500 with a generic text.
pub fn load_value(outcome: Result<Option<String>, StoreError>) -> (r: Reply)
    ensures
        outcome is Ok ==> r.status == STATUS_OK && r.body == ReplyBody::Loaded(
            LoadValueResponse { value: outcome->Ok_0, found: outcome->Ok_0 is Some },
        ),
        outcome is Err ==> r.status == STATUS_INTERNAL_ERROR && r.body is Text
            && r.body->Text_0@ == LOAD_FAILED_TEXT@,
{
    match outcome {
        Ok(Some(value)) => Reply {
            status: STATUS_OK,
            body: ReplyBody::Loaded(LoadValueResponse { value: Some(value), found: true }),
        },
        Ok(None) => Reply {
            status: STATUS_OK,
            body: ReplyBody::Loaded(LoadValueResponse { value: None, found: false }),
        },
        Err(_) => Reply {
            status: STATUS_INTERNAL_ERROR,
            body: ReplyBody::Text(String::from_str(LOAD_FAILED_TEXT)),
        },
    }
}

} // verus!
