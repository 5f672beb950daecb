use vstd::prelude::*;
use vstd::utf8::{decode_utf8, valid_utf8};
use crate::error::EtcdError;
use crate::text::bytes_text;
use crate::wire::KeyValue;

verus! {

/// Whether every key and every value of the records is valid UTF-8 text.
pub open spec fn all_text(records: Seq<KeyValue>) -> bool {
    forall|i: int|
        0 <= i < records.len() ==> valid_utf8(#[trigger] records[i].key@) && valid_utf8(
            records[i].value@,
        )
}

/// The text map that the records describe; a later record of a key wins.
pub open spec fn decoded(records: Seq<KeyValue>) -> Map<Seq<char>, Seq<char>>
    decreases records.len(),
{
    if records.len() == 0 {
        Map::empty()
    } else {
        decoded(records.drop_last()).insert(
            decode_utf8(records.last().key@),
            decode_utf8(records.last().value@),
        )
    }
}

/// The answer of a read: text keys mapped to text values, each key once.
/// The order of the entries carries no meaning.
pub struct KeyValues {
    entries: Vec<(String, String)>,
    contents: Ghost<Map<Seq<char>, Seq<char>>>,
}

impl View for KeyValues {
    type V = Map<Seq<char>, Seq<char>>;

    closed spec fn view(&self) -> Map<Seq<char>, Seq<char>> {
        self.contents@
    }
}

impl KeyValues {
    /// The entries list each key of the map once, with its value, and nothing
    /// else.
    pub closed spec fn wf(&self) -> bool {
        &&& forall|i: int, j: int|
            0 <= i < j < self.entries@.len() ==> self.entries@[i].0@ != self.entries@[j].0@
        &&& forall|i: int|
            0 <= i < self.entries@.len() ==> #[trigger] self.contents@.contains_key(
                self.entries@[i].0@,
            ) && self.contents@[self.entries@[i].0@] == self.entries@[i].1@
        &&& forall|k: Seq<char>|
            #[trigger] self.contents@.contains_key(k) ==> exists|i: int|
                0 <= i < self.entries@.len() && self.entries@[i].0@ == k
    }

    /// An empty answer.
    pub fn new() -> (r: Self)
        ensures
            r.wf(),
            r@ == Map::<Seq<char>, Seq<char>>::empty(),
    {
        KeyValues { entries: Vec::new(), contents: Ghost(Map::empty()) }
    }

    /// Reads the records of a read answer as text. Fails with
    /// [`EtcdError::Decode`] when a key or a value is not valid UTF-8.
    pub fn from_records(records: &Vec<KeyValue>) -> (r: Result<KeyValues, EtcdError>)
        ensures
            r is Ok <==> all_text(records@),
            r is Ok ==> r->Ok_0.wf() && r->Ok_0@ == decoded(records@),
            r is Err ==> r->Err_0 == EtcdError::Decode,
    {
        let mut out = KeyValues::new();
        let n = records.len();
        let mut i: usize = 0;
        while i < n
            invariant
                n == records@.len(),
                0 <= i <= n,
                out.wf(),
                out@ == decoded(records@.subrange(0, i as int)),
                all_text(records@.subrange(0, i as int)),
            decreases n - i,
        {
            let key = match bytes_text(records[i].key.as_slice()) {
                Some(k) => k,
                None => {
                    assert(!valid_utf8(records@.subrange(0, i + 1)[i as int].key@));
                    return Err(EtcdError::Decode);
                },
            };
            let value = match bytes_text(records[i].value.as_slice()) {
                Some(v) => v,
                None => {
                    assert(!valid_utf8(records@.subrange(0, i + 1)[i as int].value@));
                    return Err(EtcdError::Decode);
                },
            };
            out.insert(key, value);
            proof {
                let next = records@.subrange(0, i + 1);
                assert(next.drop_last() =~= records@.subrange(0, i as int));
                assert(all_text(next)) by {
                    assert forall|j: int| 0 <= j < next.len() implies valid_utf8(
                        #[trigger] next[j].key@,
                    ) && valid_utf8(next[j].value@) by {
                        if j < i {
                            assert(next[j] == records@.subrange(0, i as int)[j]);
                        }
                    }
                }
            }
            i = i + 1;
        }
        assert(records@.subrange(0, n as int) =~= records@);
        Ok(out)
    }

    /// Binds `key` to `value`, replacing an earlier value of `key`.
    pub fn insert(&mut self, key: String, value: String)
        requires
            old(self).wf(),
        ensures
            final(self).wf(),
            final(self)@ == old(self)@.insert(key@, value@),
    {
        let n = self.entries.len();
        let mut i: usize = 0;
        while i < n
            invariant
                n == self.entries@.len(),
                0 <= i <= n,
                *self == *old(self),
                self.wf(),
                forall|j: int| 0 <= j < i ==> self.entries@[j].0@ != key@,
            decreases n - i,
        {
            if self.entries[i].0 == key {
                let ghost before = self.entries@;
                let ghost kv = (key@, value@);
                assert(kv.0 == before[i as int].0@);
                self.entries[i] = (key, value);
                assert(self.entries@ == before.update(i as int, self.entries@[i as int]));
                assert(self.entries@[i as int].0@ == kv.0 && self.entries@[i as int].1@ == kv.1);
                self.contents = Ghost(self.contents@.insert(before[i as int].0@, value@));
                proof {
                    assert forall|k: Seq<char>| #[trigger]
                        self.contents@.contains_key(k) implies exists|j: int|
                        0 <= j < self.entries@.len() && self.entries@[j].0@ == k by {
                        if k != before[i as int].0@ {
                            assert(old(self).contents@.contains_key(k));
                            let j = choose|j: int|
                                0 <= j < before.len() && before[j].0@ == k;
                            assert(self.entries@[j].0@ == k);
                        } else {
                            assert(self.entries@[i as int].0@ == k);
                        }
                    }
                    assert forall|a: int|
                        0 <= a < self.entries@.len() implies #[trigger] self.contents@.contains_key(
                        self.entries@[a].0@,
                    ) && self.contents@[self.entries@[a].0@] == self.entries@[a].1@ by {
                        if a != i {
                            assert(self.entries@[a] == before[a]);
                            assert(before[a].0@ != before[i as int].0@);
                        }
                    }
                }
                return;
            }
            i = i + 1;
        }
        let ghost before = self.entries@;
        let ghost k = key@;
        self.entries.push((key, value));
        self.contents = Ghost(self.contents@.insert(k, value@));
        proof {
            assert forall|c: Seq<char>| #[trigger]
                self.contents@.contains_key(c) implies exists|j: int|
                0 <= j < self.entries@.len() && self.entries@[j].0@ == c by {
                if c != k {
                    assert(old(self).contents@.contains_key(c));
                    let j = choose|j: int| 0 <= j < before.len() && before[j].0@ == c;
                    assert(self.entries@[j].0@ == c);
                } else {
                    assert(self.entries@[n as int].0@ == c);
                }
            }
            assert forall|a: int|
                0 <= a < self.entries@.len() implies #[trigger] self.contents@.contains_key(
                self.entries@[a].0@,
            ) && self.contents@[self.entries@[a].0@] == self.entries@[a].1@ by {
                if a < n {
                    assert(before[a].0@ != k);
                }
            }
        }
    }

    /// The value bound to `key`, if any.
    pub fn get(&self, key: &str) -> (r: Option<&String>)
        requires
            self.wf(),
        ensures
            r is Some <==> self@.contains_key(key@),
            r is Some ==> r->0@ == self@[key@],
    {
        let wanted = key.to_string();
        let n = self.entries.len();
        let mut i: usize = 0;
        while i < n
            invariant
                n == self.entries@.len(),
                0 <= i <= n,
                self.wf(),
                wanted@ == key@,
                forall|j: int| 0 <= j < i ==> self.entries@[j].0@ != key@,
            decreases n - i,
        {
            if self.entries[i].0 == wanted {
                return Some(&self.entries[i].1);
            }
            i = i + 1;
        }
        proof {
            if self@.contains_key(key@) {
                let j = choose|j: int| 0 <= j < n && self.entries@[j].0@ == key@;
                assert(self.entries@[j].0@ == key@);
            }
        }
        None
    }

    /// Whether no key is bound.
    pub fn is_empty(&self) -> (r: bool)
        requires
            self.wf(),
        ensures
            r <==> self@ == Map::<Seq<char>, Seq<char>>::empty(),
    {
        proof {
            if self.entries@.len() == 0 {
                assert(self@ =~= Map::<Seq<char>, Seq<char>>::empty());
            } else {
                assert(self@.contains_key(self.entries@[0].0@));
            }
        }
        self.entries.len() == 0
    }

    /// The entries, each key once, in no particular order.
    pub fn into_entries(self) -> (r: Vec<(String, String)>)
        requires
            self.wf(),
        ensures
            forall|i: int|
                0 <= i < r@.len() ==> #[trigger] self@.contains_key(r@[i].0@) && self@[r@[i].0@]
                    == r@[i].1@,
            forall|k: Seq<char>| #[trigger]
                self@.contains_key(k) ==> exists|i: int| 0 <= i < r@.len() && r@[i].0@ == k,
            forall|i: int, j: int| 0 <= i < j < r@.len() ==> r@[i].0@ != r@[j].0@,
    {
        assert forall|i: int| 0 <= i < self.entries@.len() implies #[trigger] self@.contains_key(
            self.entries@[i].0@,
        ) && self@[self.entries@[i].0@] == self.entries@[i].1@ by {
            assert(self.contents@.contains_key(self.entries@[i].0@));
        }
        self.entries
    }
}

} // verus!
