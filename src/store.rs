//! What the store does with the requests of this library, stated over a map
//! from key bytes to value bytes, and what follows for the answers a caller
//! reads back.
use vstd::prelude::*;
use vstd::utf8::{decode_utf8, encode_utf8, encode_utf8_decode_utf8, encode_utf8_valid_utf8};
use crate::key_values::{all_text, decoded};
use crate::session::wire_end;
use crate::wire::KeyValue;

verus! {

/// The store's order on keys: byte strings compared lexicographically.
pub open spec fn bytes_lt(a: Seq<u8>, b: Seq<u8>) -> bool
    decreases a.len(),
{
    if b.len() == 0 {
        false
    } else if a.len() == 0 {
        true
    } else if a[0] != b[0] {
        a[0] < b[0]
    } else {
        bytes_lt(a.drop_first(), b.drop_first())
    }
}

/// Whether `k` lies in the scope of a request with start `key` and range end
/// `range_end`: the key alone when the range end is empty, else the
/// half-open interval `[key, range_end)`.
pub open spec fn in_scope(key: Seq<u8>, range_end: Seq<u8>, k: Seq<u8>) -> bool {
    if range_end.len() == 0 {
        k == key
    } else {
        !bytes_lt(k, key) && bytes_lt(k, range_end)
    }
}

/// The store after a delete over the given scope.
pub open spec fn after_delete(store: Map<Seq<u8>, Seq<u8>>, key: Seq<u8>, range_end: Seq<u8>) -> Map<
    Seq<u8>,
    Seq<u8>,
> {
    Map::new(|k: Seq<u8>| store.contains_key(k) && !in_scope(key, range_end, k), |k: Seq<u8>| store[k])
}

/// Whether `answer` is a read answer for the given scope of `store`: it lists
/// each entry of the store in scope once, and nothing else, in any order.
pub open spec fn lists_scope(
    store: Map<Seq<u8>, Seq<u8>>,
    key: Seq<u8>,
    range_end: Seq<u8>,
    answer: Seq<KeyValue>,
) -> bool {
    &&& forall|i: int, j: int| 0 <= i < j < answer.len() ==> answer[i].key@ != answer[j].key@
    &&& forall|i: int|
        0 <= i < answer.len() ==> in_scope(key, range_end, #[trigger] answer[i].key@)
            && store.contains_key(answer[i].key@) && store[answer[i].key@] == answer[i].value@
    &&& forall|k: Seq<u8>|
        store.contains_key(k) && in_scope(key, range_end, k) ==> exists|i: int|
            0 <= i < answer.len() && #[trigger] answer[i].key@ == k
}

/// A read of the single key `start` is answered by at most one record.
pub proof fn exact_key_read_has_at_most_one_record(
    store: Map<Seq<u8>, Seq<u8>>,
    start: Seq<char>,
    answer: Seq<KeyValue>,
)
    requires
        lists_scope(store, encode_utf8(start), wire_end(None), answer),
    ensures
        answer.len() <= 1,
{
    if answer.len() > 1 {
        assert(answer[0].key@ == encode_utf8(start));
        assert(answer[1].key@ == encode_utf8(start));
    }
}

/// After writing text `v` at text key `k`, a read of the key `k` alone gives
/// back exactly the map `{k: v}`.
pub proof fn put_then_get_round_trip(
    store: Map<Seq<u8>, Seq<u8>>,
    k: Seq<char>,
    v: Seq<char>,
    answer: Seq<KeyValue>,
)
    requires
        lists_scope(store.insert(encode_utf8(k), encode_utf8(v)), encode_utf8(k), wire_end(None), answer),
    ensures
        all_text(answer),
        decoded(answer) == map![k => v],
{
    let written = store.insert(encode_utf8(k), encode_utf8(v));
    exact_key_read_has_at_most_one_record(written, k, answer);
    assert(written.contains_key(encode_utf8(k)) && in_scope(encode_utf8(k), wire_end(None), encode_utf8(k)));
    let i = choose|i: int| 0 <= i < answer.len() && #[trigger] answer[i].key@ == encode_utf8(k);
    assert(i == 0);
    assert(answer[0].value@ == encode_utf8(v));
    encode_utf8_valid_utf8(k);
    encode_utf8_valid_utf8(v);
    encode_utf8_decode_utf8(k);
    encode_utf8_decode_utf8(v);
    assert(answer.drop_last().len() == 0);
    assert(decoded(answer.drop_last()) == Map::<Seq<char>, Seq<char>>::empty());
    assert(decoded(answer) =~= map![k => v]);
}

/// After a delete over a scope, a read of the same scope finds nothing.
pub proof fn delete_then_get_is_empty(
    store: Map<Seq<u8>, Seq<u8>>,
    start: Seq<char>,
    end: Option<Seq<char>>,
    answer: Seq<KeyValue>,
)
    requires
        lists_scope(
            after_delete(store, encode_utf8(start), wire_end(end)),
            encode_utf8(start),
            wire_end(end),
            answer,
        ),
    ensures
        answer.len() == 0,
        all_text(answer),
        decoded(answer) == Map::<Seq<char>, Seq<char>>::empty(),
{
    if answer.len() > 0 {
        let k = answer[0].key@;
        assert(after_delete(store, encode_utf8(start), wire_end(end)).contains_key(k));
    }
}

/// A second delete over a scope that was already deleted changes nothing.
pub proof fn delete_is_idempotent(store: Map<Seq<u8>, Seq<u8>>, start: Seq<char>, end: Option<Seq<char>>)
    ensures
        after_delete(after_delete(store, encode_utf8(start), wire_end(end)), encode_utf8(start), wire_end(end))
            == after_delete(store, encode_utf8(start), wire_end(end)),
{
    assert(after_delete(after_delete(store, encode_utf8(start), wire_end(end)), encode_utf8(start), wire_end(end))
        =~= after_delete(store, encode_utf8(start), wire_end(end)));
}

/// The scope of a handle: with an end key it is every key `b` with
/// `start <= b < end` in the store's order; without one it is the start key
/// alone. An empty end key is left out: on the wire it reads as "no end key".
pub proof fn handle_scope(start: Seq<char>, end: Option<Seq<char>>, b: Seq<u8>)
    requires
        end is Some ==> end->0.len() > 0,
    ensures
        in_scope(encode_utf8(start), wire_end(end), b) <==> match end {
            Some(e) => !bytes_lt(b, encode_utf8(start)) && bytes_lt(b, encode_utf8(e)),
            None => b == encode_utf8(start),
        },
{
    if let Some(e) = end {
        encode_utf8_decode_utf8(e);
        if encode_utf8(e).len() == 0 {
            assert(decode_utf8(encode_utf8(e)) =~= Seq::<char>::empty());
        }
    }
}

} // verus!
