use vstd::prelude::*;

verus! {

/// One stored record: a key and the value it currently holds.
pub struct KeyValue {
    pub key: String,
    pub value: String,
}

/// The decoded body of a save request: `{"key": ..., "value": ...}`.
/// Both strings are opaque: an empty key or value is stored like any other.
pub struct SaveValueRequest {
    pub key: String,
    pub value: String,
}

/// The decoded body of a load request: `{"key": ...}`.
pub struct LoadValueRequest {
    pub key: String,
}

/// The body answered to a save request: `{"success": ...}`.
pub struct SaveValueResponse {
    pub success: bool,
}

/// The body answered to a load request: `{"value": ..., "found": ...}`.
pub struct LoadValueResponse {
    pub value: Option<String>,
    pub found: bool,
}

impl KeyValue {
    pub fn new(key: String, value: String) -> (r: KeyValue)
        ensures
            r.key == key,
            r.value == value,
    {
        KeyValue { key, value }
    }
}

impl SaveValueRequest {
    pub fn new(key: String, value: String) -> (r: SaveValueRequest)
        ensures
            r.key == key,
            r.value == value,
    {
        SaveValueRequest { key, value }
    }
}

impl LoadValueRequest {
    pub fn new(key: String) -> (r: LoadValueRequest)
        ensures
            r.key == key,
    {
        LoadValueRequest { key }
    }
}

} // verus!
