//! Dropping what did not parse: the store and the bus may both hand over
//! records that are not ours to read, and one bad record never fails the
//! rest.

use vstd::prelude::*;

verus! {

/// The records that parsed, in the order they came in.
pub open spec fn parsed<T>(records: Seq<Option<T>>) -> Seq<T>
    decreases records.len(),
{
    if records.len() == 0 {
        Seq::empty()
    } else {
        let earlier = parsed(records.drop_last());
        match records.last() {
            Some(record) => earlier.push(record),
            None => earlier,
        }
    }
}

/// Nothing is invented and nothing that parsed is lost: a record is kept
/// if and only if it came in.
pub proof fn lemma_parsed_contains<T>(records: Seq<Option<T>>, record: T)
    ensures
        parsed(records).contains(record) <==> records.contains(Some(record)),
    decreases records.len(),
{
    if records.len() == 0 {
    } else {
        let earlier = records.drop_last();
        lemma_parsed_contains(earlier, record);
        if parsed(records).contains(record) {
            let i = choose|i: int| 0 <= i < parsed(records).len() && parsed(records)[i] == record;
            if i < parsed(earlier).len() {
                assert(parsed(earlier)[i] == record);
                let j = choose|j: int| 0 <= j < earlier.len() && earlier[j] == Some(record);
                assert(records[j] == Some(record));
            } else {
                assert(records[records.len() - 1] == Some(record));
            }
        }
        if records.contains(Some(record)) {
            let j = choose|j: int| 0 <= j < records.len() && records[j] == Some(record);
            if j < earlier.len() {
                assert(earlier[j] == Some(record));
                let i = choose|i: int| 0 <= i < parsed(earlier).len() && parsed(earlier)[i] == record;
                assert(parsed(records)[i] == record);
            } else {
                assert(parsed(records)[parsed(records).len() - 1] == record);
            }
        }
    }
}

/// No more records are kept than came in, and all of them when all parsed.
pub proof fn lemma_parsed_len<T>(records: Seq<Option<T>>)
    ensures
        parsed(records).len() <= records.len(),
        (forall|i: int| 0 <= i < records.len() ==> records[i] is Some) ==> parsed(records).len()
            == records.len(),
    decreases records.len(),
{
    if records.len() > 0 {
        let earlier = records.drop_last();
        lemma_parsed_len(earlier);
        if forall|i: int| 0 <= i < records.len() ==> records[i] is Some {
            assert forall|i: int| 0 <= i < earlier.len() implies earlier[i] is Some by {
                assert(records[i] is Some);
            }
        }
    }
}

/// Keeps the records that parsed and drops the others, preserving order.
pub fn keep_parsed<T>(records: Vec<Option<T>>) -> (kept: Vec<T>)
    ensures
        kept@ == parsed(records@),
{
    let ghost all = records@;
    let mut kept: Vec<T> = Vec::new();
    for record in it: records
        invariant
            it.seq() == all,
            kept@ == parsed(all.take(it.index() as int)),
    {
        assert(all.take(it.index() + 1).drop_last() =~= all.take(it.index() as int));
        if let Some(value) = record {
            kept.push(value);
        }
    }
    assert(all.take(all.len() as int) =~= all);
    kept
}

} // verus!
