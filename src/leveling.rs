//! The level curve and the roll-over of experience into levels.
use vstd::prelude::*;

verus! {

/// Highest level whose requirement still fits in an `i32`.
pub const MAX_LEVEL: i32 = 214_748_355;

/// Experience needed to advance out of `level`.
pub open spec fn required(level: int) -> int {
    100 + (level - 1) * 10
}

/// The `(level, experience)` pair reached from `level` with `total` experience
/// in hand: whole requirements are spent, one level at a time, until what is
/// left is below the requirement of the level reached.
pub open spec fn settle(level: int, total: int) -> (int, int)
    decreases total,
{
    if level >= 1 && total >= required(level) && total > 0 {
        settle(level + 1, total - required(level))
    } else {
        (level, total)
    }
}

/// Whether the level reached from `level` with `total` experience stays within
/// `MAX_LEVEL`.
pub open spec fn settle_fits(level: int, total: int) -> bool {
    settle(level, total).0 <= MAX_LEVEL
}

/// Settling never lowers the level.
pub proof fn lemma_settle_level_grows(level: int, total: int)
    ensures
        settle(level, total).0 >= level,
    decreases total,
{
    if level >= 1 && total >= required(level) && total > 0 {
        lemma_settle_level_grows(level + 1, total - required(level));
    }
}

/// From a level of at least one and a total that is not negative, settling
/// ends below the requirement of the level reached.
pub proof fn lemma_settle_below_requirement(level: int, total: int)
    requires
        level >= 1,
        total >= 0,
    ensures
        0 <= settle(level, total).1 < required(settle(level, total).0),
    decreases total,
{
    if total >= required(level) {
        lemma_settle_below_requirement(level + 1, total - required(level));
    }
}

/// The requirement is 100 at level one and grows by 10 per level, so it is
/// strictly increasing and always positive.
pub proof fn lemma_required_strictly_increasing(a: int, b: int)
    requires
        1 <= a < b,
    ensures
        required(a) < required(b),
        required(1) == 100,
        required(a) >= 100,
        required(b) - required(a) == (b - a) * 10,
{
}

/// For a well-formed pair and a gain that is not negative, settling gives a
/// well-formed pair again, at a level no lower than before.
pub proof fn lemma_gain_keeps_pair_valid(level: int, experience: int, gained: int)
    requires
        level >= 1,
        0 <= experience < required(level),
        gained >= 0,
    ensures
        0 <= settle(level, experience + gained).1 < required(settle(level, experience + gained).0),
        settle(level, experience + gained).0 >= level,
{
    lemma_settle_below_requirement(level, experience + gained);
    lemma_settle_level_grows(level, experience + gained);
}

/// A gain of zero leaves a well-formed pair as it is.
pub proof fn lemma_zero_gain_is_identity(level: int, experience: int)
    requires
        level >= 1,
        0 <= experience < required(level),
    ensures
        settle(level, experience + 0) == (level, experience),
{
}

} // verus!
