use vstd::prelude::*;
use vstd::utf8::encode_utf8;
use tonic::transport::Endpoint;
use crate::error::EtcdError;
use crate::text::text_bytes;
use crate::wire::{DeleteRangeRequest, PutRequest, RangeRequest};

verus! {

/// tonic's Endpoint, the parsed destination a channel is opened to; carried
/// through unread.
#[verifier::external_type_specification]
#[verifier::external_body]
pub struct ExEndpoint(tonic::transport::Endpoint);

/// Whether a destination address parses as a URI that an endpoint can be
/// built from.
pub uninterp spec fn is_endpoint_uri(dst: Seq<char>) -> bool;

/// Relies on tonic's Endpoint::from_shared: it parses the destination as a
/// URI and fails exactly when the text is not one.
#[verifier::external_body]
fn endpoint_from(dst: String) -> (r: Option<Endpoint>)
    ensures
        r is Some <==> is_endpoint_uri(dst@),
{
    Endpoint::from_shared(dst).ok()
}

/// The wire form of an optional end key: the empty byte string when there is
/// none, which the wire reads as "the start key alone".
pub open spec fn wire_end(end: Option<Seq<char>>) -> Seq<u8> {
    match end {
        Some(e) => encode_utf8(e),
        None => Seq::empty(),
    }
}

/// One connection to the store, of transport type `T`, shared by every
/// service stub and by every handle borrowed from it.
pub struct EtcdClient<T> {
    channel: T,
}

impl<T> EtcdClient<T> {
    /// Parses a destination address into an endpoint to connect to.
    pub fn endpoint(dst: String) -> (r: Result<Endpoint, EtcdError>)
        ensures
            r is Ok <==> is_endpoint_uri(dst@),
            r is Err ==> r == Err::<Endpoint, EtcdError>(EtcdError::Connection),
    {
        match endpoint_from(dst) {
            Some(e) => Ok(e),
            None => Err(EtcdError::Connection),
        }
    }

    /// A session over a connected channel.
    pub fn new(channel: T) -> (r: Self)
        ensures
            r.channel() == channel,
    {
        EtcdClient { channel }
    }

    pub closed spec fn channel(&self) -> T {
        self.channel
    }

    /// The channel that every call of this session goes through.
    pub fn shared_channel(&self) -> (r: &T)
        ensures
            *r == self.channel(),
    {
        &self.channel
    }

    /// A handle on the key `start`, or on the interval `[start, end)` when an
    /// end key is given. The session is borrowed, not consumed.
    pub fn range<'a>(&'a self, start: &'a str, end: Option<&'a str>) -> (r: Range<'a, T>)
        ensures
            r.start_key() == start@,
            r.end_key() == (match end {
                Some(e) => Some(e@),
                None => None::<Seq<char>>,
            }),
            r.session() == self,
    {
        Range { start, end, client: self }
    }

    /// A handle for membership queries. The session is borrowed, not
    /// consumed.
    pub fn cluster<'a>(&'a self) -> (r: Cluster<'a, T>)
        ensures
            r.session() == self,
    {
        Cluster { client: self }
    }
}

/// A short-lived view of a session scoped to one key or to a half-open key
/// interval.
pub struct Range<'a, T> {
    start: &'a str,
    end: Option<&'a str>,
    client: &'a EtcdClient<T>,
}

impl<'a, T> Range<'a, T> {
    pub closed spec fn start_key(&self) -> Seq<char> {
        self.start@
    }

    pub closed spec fn end_key(&self) -> Option<Seq<char>> {
        match self.end {
            Some(e) => Some(e@),
            None => None,
        }
    }

    pub closed spec fn session(&self) -> &'a EtcdClient<T> {
        self.client
    }

    /// The key bytes that every request of this handle starts from.
    pub open spec fn wire_key(&self) -> Seq<u8> {
        encode_utf8(self.start_key())
    }

    /// The range end that reads and deletes of this handle carry.
    pub open spec fn wire_range_end(&self) -> Seq<u8> {
        wire_end(self.end_key())
    }

    /// The session this handle borrows.
    pub fn client(&self) -> (r: &'a EtcdClient<T>)
        ensures
            r == self.session(),
    {
        self.client
    }

    fn range_end_bytes(&self) -> (r: Vec<u8>)
        ensures
            r@ == self.wire_range_end(),
    {
        match self.end {
            Some(e) => text_bytes(e),
            None => Vec::new(),
        }
    }

    /// The write of `value` at the start key, asking for the replaced value.
    pub fn put_request(&self, value: &str) -> (r: PutRequest)
        ensures
            r.key@ == self.wire_key(),
            r.value@ == encode_utf8(value@),
            r.prev_kv,
    {
        PutRequest { key: text_bytes(self.start), value: text_bytes(value), prev_kv: true }
    }

    /// The read of this handle's scope.
    pub fn get_request(&self) -> (r: RangeRequest)
        ensures
            r.key@ == self.wire_key(),
            r.range_end@ == self.wire_range_end(),
    {
        RangeRequest { key: text_bytes(self.start), range_end: self.range_end_bytes() }
    }

    /// The delete of this handle's scope. The handle is used up: after a
    /// delete its scope may name nothing.
    pub fn delete_request(self) -> (r: DeleteRangeRequest)
        ensures
            r.key@ == self.wire_key(),
            r.range_end@ == self.wire_range_end(),
    {
        DeleteRangeRequest { key: text_bytes(self.start), range_end: self.range_end_bytes() }
    }
}

/// A short-lived view of a session for membership queries.
pub struct Cluster<'a, T> {
    client: &'a EtcdClient<T>,
}

impl<'a, T> Cluster<'a, T> {
    pub closed spec fn session(&self) -> &'a EtcdClient<T> {
        self.client
    }

    /// The session this handle borrows.
    pub fn client(&self) -> (r: &'a EtcdClient<T>)
        ensures
            r == self.session(),
    {
        self.client
    }
}

} // verus!
