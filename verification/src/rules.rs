use vstd::prelude::*;
use vstd::seq_lib::group_to_multiset_ensures;

verus! {

/// One persisted rule: its source text and its load order. Records are
/// loaded in ascending `order`; the explicit `order` is authoritative, not
/// the order of insertion into the store. Callers must not rely on the
/// relative order of records whose `order` values are equal.
#[derive(Debug)]
pub struct RuleRecord {
    pub source: String,
    pub order: i64,
}

impl Clone for RuleRecord {
    fn clone(&self) -> (r: Self)
        ensures
            r.source@ == self.source@,
            r.order == self.order,
    {
        RuleRecord { source: self.source.clone(), order: self.order }
    }
}

/// Whether a record sequence is sorted ascending by `order`.
pub open spec fn sorted_by_order(s: Seq<RuleRecord>) -> bool {
    forall|i: int, j: int| 0 <= i < j < s.len() ==> s[i].order <= s[j].order
}

/// Sorts rule records ascending by `order`. The result is a permutation of
/// the input; ties keep no promised relative order.
pub fn sort_rules(records: Vec<RuleRecord>) -> (r: Vec<RuleRecord>)
    ensures
        sorted_by_order(r@),
        r@.to_multiset() == records@.to_multiset(),
        r@.len() == records@.len(),
{
    broadcast use group_to_multiset_ensures;

    let mut src = records;
    let mut out: Vec<RuleRecord> = Vec::new();
    let ghost all = src@.to_multiset();
    proof {
        assert(out@.to_multiset().add(src@.to_multiset()) =~= all);
        assert(all.len() == src@.len());
    }
    while src.len() > 0
        invariant
            sorted_by_order(out@),
            out@.to_multiset().add(src@.to_multiset()) == all,
            out@.len() + src@.len() == all.len(),
            forall|i: int, j: int|
                0 <= i < out@.len() && 0 <= j < src@.len() ==> out@[i].order <= src@[j].order,
        decreases src@.len(),
    {
        let mut m: usize = 0;
        let mut k: usize = 1;
        while k < src.len()
            invariant
                0 <= m < src@.len(),
                k <= src@.len(),
                forall|j: int| 0 <= j < k ==> src@[m as int].order <= src@[j].order,
            decreases src@.len() - k,
        {
            if src[k].order < src[m].order {
                m = k;
            }
            k = k + 1;
        }
        let ghost pre = src@;
        let ghost pre_out = out@;
        let x = src.remove(m);
        proof {
            broadcast use group_to_multiset_ensures;

            assert(pre.contains(x)) by {
                assert(0 <= m < pre.len() && pre[m as int] == x);
            }
            assert(pre.to_multiset().count(x) > 0);
            assert(pre.remove(m as int).to_multiset() =~= pre.to_multiset().remove(x));
        }
        out.push(x);
        proof {
            broadcast use group_to_multiset_ensures;

            assert(pre_out.push(x).to_multiset() =~= pre_out.to_multiset().insert(x));
            assert(out@.to_multiset().add(src@.to_multiset()) =~= all) by {
                assert forall|r: RuleRecord|
                    out@.to_multiset().add(src@.to_multiset()).count(r) == all.count(r) by {
                    assert(out@.to_multiset().count(r) == pre_out.to_multiset().insert(x).count(
                        r,
                    ));
                    assert(src@.to_multiset().count(r) == pre.to_multiset().remove(x).count(r));
                    assert(all.count(r) == pre_out.to_multiset().count(r) + pre.to_multiset().count(
                        r,
                    ));
                }
            }
            assert forall|j: int| 0 <= j < src@.len() implies x.order <= src@[j].order by {
                if j < m {
                    assert(src@[j] == pre[j]);
                } else {
                    assert(src@[j] == pre[j + 1]);
                }
            }
        }
    }
    proof {
        assert(out@.to_multiset() =~= all);
        assert(out@.to_multiset().len() == out@.len());
    }
    out
}

/// The concatenation of the rule sources in sequence order, each followed by
/// a newline: the text handed to the oracle in one load.
pub open spec fn joined_sources(s: Seq<RuleRecord>) -> Seq<char>
    decreases s.len(),
{
    if s.len() == 0 {
        Seq::empty()
    } else {
        joined_sources(s.drop_last()) + s.last().source@ + seq!['\n']
    }
}

/// Concatenates the records' sources in sequence order, one per line.
pub fn join_sources(records: &Vec<RuleRecord>) -> (r: String)
    ensures
        r@ == joined_sources(records@),
{
    let mut s = String::new();
    let mut i: usize = 0;
    while i < records.len()
        invariant
            i <= records@.len(),
            s@ == joined_sources(records@.take(i as int)),
        decreases records@.len() - i,
    {
        s.append(records[i].source.as_str());
        s.append("\n");
        proof {
            reveal_strlit("\n");
            assert(records@.take(i + 1 as int).drop_last() =~= records@.take(i as int));
            assert(records@.take(i + 1 as int).last() == records@[i as int]);
            assert("\n"@ =~= seq!['\n']);
        }
        i = i + 1;
    }
    proof {
        assert(records@.take(records@.len() as int) =~= records@);
    }
    s
}

/// Law: sorting loads the strictly lowest-ordered rule first. If `x` lies in
/// the store and every other stored record has a strictly greater `order`,
/// then any order-sorted permutation of the store puts `x` at the front —
/// so a rule inserted with a lower `order` than all existing records is
/// loaded before the others on the next reload.
pub proof fn lemma_lowest_order_loads_first(sorted: Seq<RuleRecord>, store: Seq<RuleRecord>, x: RuleRecord)
    requires
        sorted_by_order(sorted),
        sorted.to_multiset() == store.to_multiset(),
        store.to_multiset().count(x) > 0,
        forall|y: RuleRecord| store.to_multiset().count(y) > 0 && y != x ==> x.order < y.order,
    ensures
        sorted.len() > 0,
        sorted[0] == x,
{
    broadcast use group_to_multiset_ensures;

    assert(sorted.to_multiset().count(x) > 0);
    assert(sorted.contains(x));
    let i = choose|i: int| 0 <= i < sorted.len() && sorted[i] == x;
    assert(sorted.len() > 0);
    assert(sorted.to_multiset().count(sorted[0]) > 0) by {
        assert(sorted.contains(sorted[0]));
    }
    if sorted[0] != x {
        assert(x.order < sorted[0].order);
        assert(sorted[0].order <= sorted[i].order);
        assert(false);
    }
}

} // verus!
