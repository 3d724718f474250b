//! A small consumer of the memoizing cache: a workout planner whose
//! expensive intensity computation is resolved through the cache, so that
//! asking twice with the same tiredness computes it only once.

use vstd::prelude::*;
use crate::cache::MemoizingCache;

verus! {

/// What a workout session should do next.
pub enum WorkoutAdvice {
    /// It is early: do this many situps, and as many pushups.
    SitupsAndPushups { situps: u32, pushups: u32 },
    /// Too tired: take a break.
    TakeBreak,
    /// There is energy left: cool down for this long.
    Cooldown { minutes: u32 },
}

/// Plans a workout from the minute of the hour and a tiredness level. The
/// intensity `calculation` runs behind a memoizing cache: in the early-hour
/// branch it is asked for twice but runs once, so the situps and pushups
/// counts are equal by construction.
pub fn problem_function<F: Fn(u32) -> u32>(calculation: F, min: u32, tired: u32) -> (advice:
    WorkoutAdvice)
    requires
        call_requires(calculation, (tired,)),
    ensures
        match advice {
            WorkoutAdvice::SitupsAndPushups { situps, pushups } => {
                &&& min < 25
                &&& pushups == situps
                &&& call_ensures(calculation, (tired,), situps)
            },
            WorkoutAdvice::TakeBreak => min >= 25 && tired == 0,
            WorkoutAdvice::Cooldown { minutes } => {
                &&& min >= 25
                &&& tired != 0
                &&& call_ensures(calculation, (tired,), minutes)
            },
        },
{
    let mut struct_closure = MemoizingCache::new(calculation);
    if min < 25 {
        let situps = struct_closure.get_or_compute(tired);
        let pushups = struct_closure.get_or_compute(tired);
        WorkoutAdvice::SitupsAndPushups { situps, pushups }
    } else if tired == 0 {
        WorkoutAdvice::TakeBreak
    } else {
        WorkoutAdvice::Cooldown { minutes: struct_closure.get_or_compute(tired) }
    }
}

} // verus!
