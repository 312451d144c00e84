use vstd::prelude::*;

use crate::error::{AppError, is_not_found};
use crate::text::owned;

verus! {

/// The rank of a whole percentage: 6 for 90 to 100, 5 for the eighties, 4 for the
/// seventies, 3 for the sixties, 2 for the fifties, 1 for the forties, 0 otherwise
/// (below 40, or above 100).
pub open spec fn grade_rank(percent: u32) -> nat {
    if 90 <= percent <= 100 {
        6
    } else if 80 <= percent <= 89 {
        5
    } else if 70 <= percent <= 79 {
        4
    } else if 60 <= percent <= 69 {
        3
    } else if 50 <= percent <= 59 {
        2
    } else if 40 <= percent <= 49 {
        1
    } else {
        0
    }
}

/// The letter of a rank.
pub open spec fn rank_letter(rank: nat) -> Seq<char> {
    if rank == 6 {
        "A+"@
    } else if rank == 5 {
        "A"@
    } else if rank == 4 {
        "B+"@
    } else if rank == 3 {
        "B"@
    } else if rank == 2 {
        "C"@
    } else if rank == 1 {
        "D"@
    } else {
        "F"@
    }
}

/// The grade of a whole percentage (the mark's percentage with its fraction dropped).
pub fn grade_for_percentage(percent: u32) -> (r: String)
    ensures
        r@ == rank_letter(grade_rank(percent)),
{
    if 90 <= percent && percent <= 100 {
        owned("A+")
    } else if 80 <= percent && percent <= 89 {
        owned("A")
    } else if 70 <= percent && percent <= 79 {
        owned("B+")
    } else if 60 <= percent && percent <= 69 {
        owned("B")
    } else if 50 <= percent && percent <= 59 {
        owned("C")
    } else if 40 <= percent && percent <= 49 {
        owned("D")
    } else {
        owned("F")
    }
}

/// Up to 100, a higher percentage never earns a lower grade.
pub proof fn law_grade_monotone(p: u32, q: u32)
    requires
        p <= q <= 100,
    ensures
        grade_rank(p) <= grade_rank(q),
{
}

/// Distinct ranks carry distinct letters, so the letter tells the rank.
pub proof fn law_letters_tell_ranks(a: nat, b: nat)
    requires
        a <= 6,
        b <= 6,
        rank_letter(a) == rank_letter(b),
    ensures
        a == b,
{
    reveal_strlit("A+");
    reveal_strlit("A");
    reveal_strlit("B+");
    reveal_strlit("B");
    reveal_strlit("C");
    reveal_strlit("D");
    reveal_strlit("F");
    assert(rank_letter(6).len() == 2 && rank_letter(6)[0] == 'A');
    assert(rank_letter(5).len() == 1 && rank_letter(5)[0] == 'A');
    assert(rank_letter(4).len() == 2 && rank_letter(4)[0] == 'B');
    assert(rank_letter(3).len() == 1 && rank_letter(3)[0] == 'B');
    assert(rank_letter(2).len() == 1 && rank_letter(2)[0] == 'C');
    assert(rank_letter(1).len() == 1 && rank_letter(1)[0] == 'D');
    assert(rank_letter(0).len() == 1 && rank_letter(0)[0] == 'F');
    assert(rank_letter(a).len() == rank_letter(b).len() && rank_letter(a)[0] == rank_letter(
        b,
    )[0]);
}

/// The exam that results are uploaded for: refused with `NotFound("Exam not found")` when
/// it does not exist.
pub fn exam_found<T>(exam: Option<T>) -> (r: Result<T, AppError>)
    ensures
        match exam {
            Some(x) => r == Ok::<T, AppError>(x),
            None => r matches Err(e) && is_not_found(e, "Exam not found"@),
        },
{
    match exam {
        Some(x) => Ok(x),
        None => Err(AppError::NotFound(owned("Exam not found"))),
    }
}

} // verus!
