//! Header inference.  Only the first ingested record determines the header
//! list: the keys of its object, in their iteration order, duplicates
//! collapsed to the first occurrence.  A non-object first record leaves the
//! sheet without headers — and therefore without data columns.

use vstd::prelude::*;

verus! {

use crate::json::{Record, RecordV};

/// The view of a vector of strings: each string as its character sequence.
pub open spec fn strings_view(v: Seq<String>) -> Seq<Seq<char>> {
    Seq::new(v.len(), |i: int| v[i]@)
}

/// The distinct elements of `keys`, each at its first occurrence, in order.
pub open spec fn dedup_first(keys: Seq<Seq<char>>) -> Seq<Seq<char>>
    decreases keys.len(),
{
    if keys.len() == 0 {
        Seq::empty()
    } else {
        let rest = dedup_first(keys.drop_last());
        if rest.contains(keys.last()) {
            rest
        } else {
            rest.push(keys.last())
        }
    }
}

/// The keys of an object-shaped record, in order, duplicates included.
pub open spec fn record_keys(pairs: Seq<(Seq<char>, crate::json::FieldV)>) -> Seq<Seq<char>> {
    Seq::new(pairs.len(), |i: int| pairs[i].0)
}

/// The header list a record determines.
pub open spec fn headers_model(r: RecordV) -> Seq<Seq<char>> {
    match r {
        RecordV::Obj(pairs) => dedup_first(record_keys(pairs)),
        RecordV::Other => Seq::empty(),
    }
}

/// Whether `key` already occurs among the collected headers.
fn contains_key(headers: &Vec<String>, key: &String) -> (r: bool)
    ensures
        r <==> strings_view(headers@).contains(key@),
{
    let mut j: usize = 0;
    while j < headers.len()
        invariant
            0 <= j <= headers@.len(),
            forall|k: int| 0 <= k < j ==> #[trigger] strings_view(headers@)[k] != key@,
        decreases headers@.len() - j,
    {
        if headers[j] == *key {
            proof {
                assert(strings_view(headers@)[j as int] == key@);
            }
            return true;
        }
        j += 1;
    }
    proof {
        if strings_view(headers@).contains(key@) {
            let w = choose|k: int|
                0 <= k < strings_view(headers@).len() && strings_view(headers@)[k] == key@;
            assert(strings_view(headers@)[w] != key@);
        }
    }
    false
}

/// Collect the header list from the first record: its keys in order, the
/// first occurrence of each.
pub fn infer_headers(first: &Record) -> (r: Vec<String>)
    ensures
        strings_view(r@) == headers_model(first@),
{
    match first {
        Record::Other => {
            let r: Vec<String> = Vec::new();
            proof {
                assert(strings_view(r@) =~= headers_model(first@));
            }
            r
        },
        Record::Obj(pairs) => {
            let ghost keys = Seq::new(pairs@.len(), |k: int| pairs@[k].0@);
            let mut headers: Vec<String> = Vec::new();
            let mut i: usize = 0;
            while i < pairs.len()
                invariant
                    keys == Seq::new(pairs@.len(), |k: int| pairs@[k].0@),
                    0 <= i <= pairs@.len(),
                    strings_view(headers@) == dedup_first(keys.take(i as int)),
                decreases pairs@.len() - i,
            {
                proof {
                    assert(keys[i as int] == pairs@[i as int].0@);
                    assert(keys.take(i as int + 1).drop_last() =~= keys.take(i as int));
                    assert(keys.take(i as int + 1).last() == keys[i as int]);
                }
                if !contains_key(&headers, &pairs[i].0) {
                    headers.push(pairs[i].0.clone());
                    proof {
                        assert(strings_view(headers@) =~= dedup_first(keys.take(i as int)).push(
                            pairs@[i as int].0@,
                        ));
                    }
                }
                i += 1;
            }
            proof {
                assert(keys.take(pairs@.len() as int) =~= keys);
                assert(record_keys(first@->Obj_0) =~= keys);
            }
            headers
        },
    }
}

} // verus!
