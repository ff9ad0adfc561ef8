//! Range reconciler: from the set of already-fetched block numbers and the
//! window `[start, current)`, compute the minimal ordered list of contiguous
//! `(low, high)` block ranges (both ends inclusive) that are still missing.

use vstd::prelude::*;
use std::collections::BTreeSet;

verus! {

broadcast use vstd::std_specs::btree::group_btree_axioms, vstd::laws_cmp::group_laws_cmp;

/// A block number `x` lies inside one of the ranges (each inclusive on both
/// ends).
pub open spec fn in_ranges(rs: Seq<(u64, u64)>, x: u64) -> bool {
    exists|i: int| #![trigger rs[i]] 0 <= i < rs.len() && rs[i].0 <= x <= rs[i].1
}

/// The ranges are well formed: each has `low <= high`, and consecutive
/// ranges are in ascending order, disjoint, and separated by at least one
/// block (so every range is a maximal run).
pub open spec fn ranges_wf(rs: Seq<(u64, u64)>) -> bool {
    &&& forall|i: int| 0 <= i < rs.len() ==> #[trigger] rs[i].0 <= rs[i].1
    &&& forall|i: int| 0 <= i < rs.len() - 1 ==> #[trigger] rs[i].1 + 1 < rs[i + 1].0
}

/// Block `x` is missing from the window: it lies in `[start, current)` and
/// is not among the fetched block numbers.
pub open spec fn block_missing(fetched: Set<u64>, start: u64, current: u64, x: u64) -> bool {
    start <= x < current && !fetched.contains(x)
}

/// In a well-formed range list the lower bounds are strictly increasing
/// across any pair of indices, with a gap of at least one block.
pub proof fn lemma_ranges_wf_ordered(rs: Seq<(u64, u64)>, i: int, j: int)
    requires
        ranges_wf(rs),
        0 <= i < j < rs.len(),
    ensures
        rs[i].1 + 1 < rs[j].0,
    decreases j - i,
{
    if j == i + 1 {
    } else {
        lemma_ranges_wf_ordered(rs, i + 1, j);
        assert(rs[i].1 + 1 < rs[i + 1].0);
        assert(rs[i + 1].0 <= rs[i + 1].1);
    }
}

/// Retrieves the block ranges for which transactions have not yet been
/// fetched.
///
/// The result lists the maximal contiguous runs of missing blocks of the
/// half-open window `[starting_block_number, current_block_number)`,
/// ascending, disjoint, each with `low <= high`.
pub fn get_block_ranges_for_unfetched_transactions(
    fetched: &BTreeSet<u64>,
    starting_block_number: u64,
    current_block_number: u64,
) -> (ranges: Vec<(u64, u64)>)
    requires
        starting_block_number <= current_block_number,
    ensures
        ranges_wf(ranges@),
        forall|x: u64|
            #[trigger] in_ranges(ranges@, x) <==> block_missing(
                fetched@,
                starting_block_number,
                current_block_number,
                x,
            ),
{
    let mut ranges: Vec<(u64, u64)> = Vec::new();
    let mut run_start: Option<u64> = None;
    let mut b = starting_block_number;
    while b < current_block_number
        invariant
            starting_block_number <= b <= current_block_number,
            ranges_wf(ranges@),
            match run_start {
                Option::Some(rs) => {
                    &&& starting_block_number <= rs < b
                    &&& (ranges@.len() > 0 ==> ranges@.last().1 + 1 < rs)
                    &&& forall|x: u64| rs <= x < b ==> block_missing(
                        fetched@,
                        starting_block_number,
                        current_block_number,
                        x,
                    )
                    &&& forall|x: u64|
                        #[trigger] in_ranges(ranges@, x) <==> (block_missing(
                            fetched@,
                            starting_block_number,
                            current_block_number,
                            x,
                        ) && x < rs)
                },
                Option::None => {
                    &&& (ranges@.len() > 0 ==> ranges@.last().1 + 1 < b)
                    &&& forall|x: u64|
                        #[trigger] in_ranges(ranges@, x) <==> (block_missing(
                            fetched@,
                            starting_block_number,
                            current_block_number,
                            x,
                        ) && x < b)
                },
            },
        decreases current_block_number - b,
    {
        let is_fetched = fetched.contains(&b);
        proof {
            assert(is_fetched == fetched@.contains(b));
        }
        if !is_fetched {
            if run_start.is_none() {
                run_start = Some(b);
            }
        } else {
            if let Some(rs) = run_start {
                let r = (rs, b - 1);
                let ghost old_ranges = ranges@;
                ranges.push(r);
                proof {
                    assert forall|x: u64| #[trigger]
                        in_ranges(ranges@, x) <==> (block_missing(
                        fetched@,
                        starting_block_number,
                        current_block_number,
                        x,
                    ) && x < b + 1) by {
                        if in_ranges(ranges@, x) {
                            let i = choose|i: int| #![trigger ranges@[i]]
                                0 <= i < ranges@.len() && ranges@[i].0 <= x <= ranges@[i].1;
                            if i < old_ranges.len() {
                                assert(in_ranges(old_ranges, x));
                            }
                        }
                        if block_missing(
                            fetched@,
                            starting_block_number,
                            current_block_number,
                            x,
                        ) && x < b + 1 {
                            if x < rs {
                                assert(in_ranges(old_ranges, x));
                                let i = choose|i: int| #![trigger old_ranges[i]]
                                    0 <= i < old_ranges.len() && old_ranges[i].0 <= x
                                        <= old_ranges[i].1;
                                assert(ranges@[i].0 <= x <= ranges@[i].1);
                            } else {
                                assert(x != b);
                                let i = ranges@.len() - 1;
                                assert(ranges@[i].0 <= x <= ranges@[i].1);
                            }
                        }
                    }
                }
                run_start = None;
            }
        }
        b += 1;
    }
    if let Some(rs) = run_start {
        let r = (rs, current_block_number - 1);
        let ghost old_ranges = ranges@;
        ranges.push(r);
        proof {
            assert forall|x: u64| #[trigger]
                in_ranges(ranges@, x) <==> block_missing(
                fetched@,
                starting_block_number,
                current_block_number,
                x,
            ) by {
                if in_ranges(ranges@, x) {
                    let i = choose|i: int| #![trigger ranges@[i]]
                        0 <= i < ranges@.len() && ranges@[i].0 <= x <= ranges@[i].1;
                    if i < old_ranges.len() {
                        assert(in_ranges(old_ranges, x));
                    }
                }
                if block_missing(fetched@, starting_block_number, current_block_number, x) {
                    if x < rs {
                        assert(in_ranges(old_ranges, x));
                        let i = choose|i: int| #![trigger old_ranges[i]]
                            0 <= i < old_ranges.len() && old_ranges[i].0 <= x <= old_ranges[i].1;
                        assert(ranges@[i].0 <= x <= ranges@[i].1);
                    } else {
                        let i = ranges@.len() - 1;
                        assert(ranges@[i].0 <= x <= ranges@[i].1);
                    }
                }
            }
        }
    }
    ranges
}

/// If the fetched set covers the whole window, no range is missing: the
/// reconciler's output is empty.
pub proof fn lemma_covered_window_yields_no_ranges(
    rs: Seq<(u64, u64)>,
    fetched: Set<u64>,
    start: u64,
    current: u64,
)
    requires
        ranges_wf(rs),
        forall|x: u64| #[trigger] in_ranges(rs, x) <==> block_missing(fetched, start, current, x),
        forall|x: u64| start <= x < current ==> fetched.contains(x),
    ensures
        rs.len() == 0,
{
    if rs.len() > 0 {
        let x = rs[0].0;
        assert(rs[0].0 <= x <= rs[0].1);
        assert(in_ranges(rs, x));
        assert(block_missing(fetched, start, current, x));
        assert(fetched.contains(x));
        assert(false);
    }
}

/// If nothing has been fetched yet and the window is non-empty, the
/// reconciler's output is exactly the single range
/// `(start, current - 1)`.
pub proof fn lemma_empty_fetched_yields_single_range(
    rs: Seq<(u64, u64)>,
    fetched: Set<u64>,
    start: u64,
    current: u64,
)
    requires
        ranges_wf(rs),
        forall|x: u64| #[trigger] in_ranges(rs, x) <==> block_missing(fetched, start, current, x),
        forall|x: u64| !fetched.contains(x),
        start < current,
    ensures
        rs.len() == 1,
        rs[0] == (start, (current - 1) as u64),
{
    // The window is non-empty, so at least one range exists.
    assert(block_missing(fetched, start, current, start));
    assert(in_ranges(rs, start));
    assert(rs.len() >= 1);
    // Two or more ranges would leave the separating block unaccounted for.
    if rs.len() >= 2 {
        assert(in_ranges(rs, rs[0].1)) by {
            assert(rs[0].0 <= rs[0].1 <= rs[0].1);
        }
        assert(rs[0].1 < current);
        assert(in_ranges(rs, rs[1].0)) by {
            assert(rs[1].0 <= rs[1].0 <= rs[1].1);
        }
        assert(start <= rs[1].0 < current);
        let g = (rs[0].1 + 1) as u64;
        assert(g < rs[1].0);
        assert(in_ranges(rs, rs[0].0));
        assert(start <= rs[0].0);
        assert(block_missing(fetched, start, current, g));
        assert(in_ranges(rs, g));
        let i = choose|i: int| #![trigger rs[i]] 0 <= i < rs.len() && rs[i].0 <= g <= rs[i].1;
        if i == 0 {
            assert(g <= rs[0].1);
            assert(false);
        } else if i == 1 {
            assert(false);
        } else {
            lemma_ranges_wf_ordered(rs, 1, i);
            assert(rs[1].0 <= rs[1].1);
            assert(false);
        }
    }
    // The single range's endpoints pin down to the window's ends.
    let lo = rs[0].0;
    let hi = rs[0].1;
    assert(in_ranges(rs, lo)) by {
        assert(rs[0].0 <= lo <= rs[0].1);
    }
    assert(in_ranges(rs, hi)) by {
        assert(rs[0].0 <= hi <= rs[0].1);
    }
    assert(start <= lo);
    assert(hi < current);
    let i0 = choose|i: int| #![trigger rs[i]] 0 <= i < rs.len() && rs[i].0 <= start <= rs[i].1;
    assert(i0 == 0);
    assert(lo <= start);
    assert(block_missing(fetched, start, current, (current - 1) as u64));
    assert(in_ranges(rs, (current - 1) as u64));
    let i1 = choose|i: int| #![trigger rs[i]] 0 <= i < rs.len() && rs[i].0 <= (current - 1) as u64 <= rs[i].1;
    assert(i1 == 0);
    assert((current - 1) as u64 <= hi);
    assert(lo == start && hi == (current - 1) as u64);
}

} // verus!
