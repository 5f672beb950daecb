use vstd::prelude::*;

verus! {

/// A write of one key. `prev_kv` asks the store to return the value that the
/// write replaced.
pub struct PutRequest {
    pub key: Vec<u8>,
    pub value: Vec<u8>,
    pub prev_kv: bool,
}

/// A read of one key or of a half-open key interval. An empty `range_end`
/// names the single key `key`; otherwise the interval is `[key, range_end)`.
pub struct RangeRequest {
    pub key: Vec<u8>,
    pub range_end: Vec<u8>,
}

/// A delete over the same kind of scope as [`RangeRequest`].
pub struct DeleteRangeRequest {
    pub key: Vec<u8>,
    pub range_end: Vec<u8>,
}

/// The request that opens a watch: one key, no interval and no start
/// revision, so the feed starts from now.
pub struct WatchCreateRequest {
    pub key: Vec<u8>,
}

/// One record of a read answer, as raw bytes.
pub struct KeyValue {
    pub key: Vec<u8>,
    pub value: Vec<u8>,
}

/// The kind of a change reported by a watch.
#[derive(Debug, Clone, Copy, PartialEq, Eq, Structural)]
pub enum EventType {
    Put,
    Delete,
}

/// One change reported by a watch.
pub struct Event {
    pub kind: EventType,
    pub kv: KeyValue,
}

/// A description of one node of the store's cluster.
pub struct Member {
    pub id: u64,
    pub name: String,
    pub peer_urls: Vec<String>,
    pub client_urls: Vec<String>,
}

} // verus!
