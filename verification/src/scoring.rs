//! The score aggregator: four bounded sub-scores to a total and a grade.
//!
//! `total = floor((name + image + likeness + essence) / 4)`, and the grade is
//! the fixed bucket the total falls in. Both are pure, total computations;
//! range validation is the caller's duty (see the submit-score operation).

use vstd::prelude::*;

verus! {

/// The letter bucket derived from an aggregate score.
#[derive(Clone, Copy, Debug, PartialEq, Eq, Structural)]
pub enum Grade {
    APlus,
    A,
    B,
    C,
    D,
    F,
}

/// The aggregate of four sub-scores: the floor of their mean.
pub open spec fn total_of(name: int, image: int, likeness: int, essence: int) -> int {
    (name + image + likeness + essence) / 4
}

/// The fixed grade buckets: `[90,100] -> A+`, `[80,89] -> A`, `[70,79] -> B`,
/// `[60,69] -> C`, `[50,59] -> D`, anything else `-> F`.
pub open spec fn grade_of(total: int) -> Grade {
    if 90 <= total <= 100 {
        Grade::APlus
    } else if 80 <= total <= 89 {
        Grade::A
    } else if 70 <= total <= 79 {
        Grade::B
    } else if 60 <= total <= 69 {
        Grade::C
    } else if 50 <= total <= 59 {
        Grade::D
    } else {
        Grade::F
    }
}

/// Computes the aggregate score of four sub-scores, each weighted equally,
/// in widened arithmetic so the sum cannot overflow.
pub fn compute_total(name_score: u8, image_score: u8, likeness_score: u8, essence_score: u8) -> (total: u8)
    requires
        name_score <= 100,
        image_score <= 100,
        likeness_score <= 100,
        essence_score <= 100,
    ensures
        total == total_of(name_score as int, image_score as int, likeness_score as int, essence_score as int),
        total <= 100,
{
    let sum: u16 = name_score as u16 + image_score as u16 + likeness_score as u16 + essence_score as u16;
    (sum / 4) as u8
}

/// Maps an aggregate score to its grade bucket.
pub fn grade_for(total: u8) -> (grade: Grade)
    ensures
        grade == grade_of(total as int),
{
    if total > 100 {
        Grade::F
    } else if 90 <= total {
        Grade::APlus
    } else if 80 <= total {
        Grade::A
    } else if 70 <= total {
        Grade::B
    } else if 60 <= total {
        Grade::C
    } else if 50 <= total {
        Grade::D
    } else {
        Grade::F
    }
}

} // verus!
