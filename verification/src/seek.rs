use vstd::prelude::*;

verus! {

/// The position of the loop-close instruction that matches the loop-open
/// at `pos`, scanning forward from `pos` with `depth` additional unmatched
/// loop-opens already seen, or `None` if the scan runs off the end of the
/// program.
///
/// Each loop-open encountered deepens the nesting; a loop-close at depth
/// zero is the match, and at positive depth it closes one nested loop.
pub open spec fn forward_seek(p: Seq<char>, pos: int, depth: nat) -> Option<int>
    decreases p.len() - pos,
{
    if pos + 1 >= p.len() {
        None
    } else if p[pos + 1] == '[' {
        forward_seek(p, pos + 1, depth + 1)
    } else if p[pos + 1] == ']' {
        if depth > 0 {
            forward_seek(p, pos + 1, (depth - 1) as nat)
        } else {
            Some(pos + 1)
        }
    } else {
        forward_seek(p, pos + 1, depth)
    }
}

/// The position of the loop-open instruction that matches the loop-close
/// at `pos`, scanning backward from `pos` with `depth` additional
/// unmatched loop-closes already seen, or `None` if the scan runs off the
/// start of the program.
pub open spec fn backward_seek(p: Seq<char>, pos: int, depth: nat) -> Option<int>
    decreases pos,
{
    if pos <= 0 {
        None
    } else if p[pos - 1] == ']' {
        backward_seek(p, pos - 1, depth + 1)
    } else if p[pos - 1] == '[' {
        if depth > 0 {
            backward_seek(p, pos - 1, (depth - 1) as nat)
        } else {
            Some(pos - 1)
        }
    } else {
        backward_seek(p, pos - 1, depth)
    }
}

/// A successful forward seek lands strictly between the seek position and
/// the end of the program.
pub proof fn lemma_forward_seek_in_bounds(p: Seq<char>, pos: int, depth: nat)
    ensures
        forward_seek(p, pos, depth) matches Some(j) ==> pos < j < p.len(),
    decreases p.len() - pos,
{
    if pos + 1 < p.len() {
        lemma_forward_seek_in_bounds(p, pos + 1, depth + 1);
        lemma_forward_seek_in_bounds(p, pos + 1, depth);
        if depth > 0 {
            lemma_forward_seek_in_bounds(p, pos + 1, (depth - 1) as nat);
        }
    }
}

/// A successful backward seek lands strictly between the start of the
/// program and the seek position.
pub proof fn lemma_backward_seek_in_bounds(p: Seq<char>, pos: int, depth: nat)
    ensures
        backward_seek(p, pos, depth) matches Some(j) ==> 0 <= j < pos,
    decreases pos,
{
    if pos > 0 {
        lemma_backward_seek_in_bounds(p, pos - 1, depth + 1);
        lemma_backward_seek_in_bounds(p, pos - 1, depth);
        if depth > 0 {
            lemma_backward_seek_in_bounds(p, pos - 1, (depth - 1) as nat);
        }
    }
}

/// Bracket resolution is idempotent: a forward seek is a pure function of
/// the program text and the seek position, so re-running it from the same
/// inputs always yields the same resulting position or the same failure —
/// no hidden mutable state influences the outcome.
pub proof fn lemma_forward_seek_deterministic(p1: Seq<char>, pos1: int, p2: Seq<char>, pos2: int)
    requires
        p1 == p2,
        pos1 == pos2,
    ensures
        forward_seek(p1, pos1, 0) == forward_seek(p2, pos2, 0),
{
}

/// Bracket resolution is idempotent: a backward seek is a pure function of
/// the program text and the seek position, so re-running it from the same
/// inputs always yields the same resulting position or the same failure —
/// no hidden mutable state influences the outcome.
pub proof fn lemma_backward_seek_deterministic(p1: Seq<char>, pos1: int, p2: Seq<char>, pos2: int)
    requires
        p1 == p2,
        pos1 == pos2,
    ensures
        backward_seek(p1, pos1, 0) == backward_seek(p2, pos2, 0),
{
}

} // verus!
