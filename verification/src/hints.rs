//! Run-length clues of a line of cells.
//!
//! A line is a sequence of booleans, `true` for a filled cell.  Its clue is the
//! ordered sequence of the lengths of its maximal runs of filled cells; a line
//! without filled cells has the empty clue.

use vstd::prelude::*;

verus! {

/// The clue of `line`, defined by what its last cell does to the clue of the
/// cells before it: an empty cell leaves the clue as it is, a filled cell
/// behind a filled cell lengthens the last run by one, and a filled cell
/// anywhere else opens a new run of length one.
pub open spec fn runs(line: Seq<bool>) -> Seq<nat>
    decreases line.len(),
{
    if line.len() == 0 {
        Seq::empty()
    } else if !line.last() {
        runs(line.drop_last())
    } else if line.len() >= 2 && line[line.len() - 2] {
        let before = runs(line.drop_last());
        before.update(before.len() - 1, before.last() + 1)
    } else {
        runs(line.drop_last()).push(1)
    }
}

/// The number of filled cells of `line`.
pub open spec fn filled_count(line: Seq<bool>) -> nat
    decreases line.len(),
{
    if line.len() == 0 {
        0
    } else {
        filled_count(line.drop_last()) + if line.last() {
            1nat
        } else {
            0nat
        }
    }
}

/// The sum of the entries of `s`.
pub open spec fn total(s: Seq<nat>) -> nat
    decreases s.len(),
{
    if s.len() == 0 {
        0
    } else {
        total(s.drop_last()) + s.last()
    }
}

/// The numbers that a stored clue stands for.
pub open spec fn clue_values(stored: Seq<u8>) -> Seq<nat> {
    Seq::new(stored.len(), |i: int| stored[i] as nat)
}

/// A line that ends in a filled cell has a clue that ends in a run.
pub proof fn lemma_runs_nonempty(line: Seq<bool>)
    requires
        line.len() > 0,
        line.last(),
    ensures
        runs(line).len() > 0,
    decreases line.len(),
{
    if line.len() >= 2 && line[line.len() - 2] {
        lemma_runs_nonempty(line.drop_last());
    }
}

/// A clue has at most as many runs as the line has cells, and no run is empty
/// or longer than the line.
pub proof fn lemma_runs_bounds(line: Seq<bool>)
    ensures
        runs(line).len() <= line.len(),
        forall|k: int| 0 <= k < runs(line).len() ==> 1 <= #[trigger] runs(line)[k] <= line.len(),
    decreases line.len(),
{
    if line.len() > 0 {
        lemma_runs_bounds(line.drop_last());
        if line.last() && line.len() >= 2 && line[line.len() - 2] {
            lemma_runs_nonempty(line.drop_last());
        }
    }
}

/// Replacing the last entry of a sequence changes its sum by the difference.
proof fn lemma_total_update_last(s: Seq<nat>, v: nat)
    requires
        s.len() > 0,
    ensures
        total(s.update(s.len() - 1, v)) + s.last() == total(s) + v,
{
    let t = s.update(s.len() - 1, v);
    assert(t.drop_last() =~= s.drop_last());
}

/// The runs of a line add up to the number of its filled cells.
pub proof fn lemma_runs_total(line: Seq<bool>)
    ensures
        total(runs(line)) == filled_count(line),
    decreases line.len(),
{
    if line.len() > 0 {
        let before = runs(line.drop_last());
        lemma_runs_total(line.drop_last());
        if !line.last() {
        } else if line.len() >= 2 && line[line.len() - 2] {
            lemma_runs_nonempty(line.drop_last());
            lemma_total_update_last(before, before.last() + 1);
        } else {
            assert(before.push(1).drop_last() =~= before);
        }
    }
}

/// Computes the clue of a line in one pass from its first cell to its last.
pub fn line_hints(line: &Vec<bool>) -> (hints: Vec<u8>)
    requires
        line.len() <= u8::MAX,
    ensures
        clue_values(hints@) == runs(line@),
{
    let mut hints: Vec<u8> = Vec::new();
    let mut in_run = false;
    let mut i: usize = 0;
    while i < line.len()
        invariant
            i <= line.len() <= u8::MAX,
            clue_values(hints@) == runs(line@.take(i as int)),
            in_run == (i > 0 && line@[i - 1]),
        decreases line.len() - i,
    {
        let ghost seen = line@.take(i as int);
        let ghost next = line@.take(i + 1);
        proof {
            assert(next.drop_last() =~= seen);
            lemma_runs_bounds(seen);
        }
        if line[i] {
            if in_run {
                proof {
                    lemma_runs_nonempty(seen);
                }
                let last = hints.len() - 1;
                assert(runs(seen)[last as int] <= seen.len());
                let grown: u8 = hints[last] + 1;
                hints.set(last, grown);
            } else {
                hints.push(1);
            }
            in_run = true;
        } else {
            in_run = false;
        }
        i += 1;
    }
    assert(line@.take(i as int) =~= line@);
    hints
}

} // verus!
