//! A memoizing wrapper around an expensive calculation, and the workout
//! planner built on top of it.
//!
//! The cache remembers the first value it ever computes and returns it for
//! every later argument as well — the contracts below state exactly that.

use vstd::prelude::*;

verus! {

/// Caches the result of a calculation from `u32` to `u32`: the calculation
/// runs at most once, on the first argument asked for.
pub struct Cacher<T> where T: Fn(u32) -> u32 {
    calculation: T,
    value: Option<u32>,
}

impl<T> Cacher<T> where T: Fn(u32) -> u32 {
    /// The cached value, if the calculation has run.
    pub closed spec fn cached(&self) -> Option<u32> {
        self.value
    }

    /// The wrapped calculation.
    pub closed spec fn calculation_spec(&self) -> T {
        self.calculation
    }

    /// Wraps a calculation with an empty cache.
    pub fn new(calculation: T) -> (c: Cacher<T>)
        ensures
            c.cached() is None,
            c.calculation_spec() == calculation,
    {
        Cacher { calculation, value: None }
    }

    /// The cached value if there is one; otherwise runs the calculation on
    /// `arg` and caches its result. Once filled, the cache answers every
    /// argument with the same stored value.
    pub fn value(&mut self, arg: u32) -> (v: u32)
        requires
            old(self).cached() is None ==> call_requires(old(self).calculation_spec(), (arg,)),
        ensures
            final(self).calculation_spec() == old(self).calculation_spec(),
            final(self).cached() == Some(v),
            old(self).cached() matches Some(cached) ==> v == cached,
            old(self).cached() is None ==> call_ensures(old(self).calculation_spec(), (arg,), v),
    {
        match self.value {
            Some(v) => v,
            None => {
                let v = (self.calculation)(arg);
                self.value = Some(v);
                v
            },
        }
    }
}

/// What a day's workout should be.
#[derive(Debug, PartialEq, Eq, Structural, Clone, Copy)]
pub enum WorkoutPlan {
    /// Low intensity: do the computed number of pushups, then situps.
    Exercises,
    /// High intensity on the lucky number: rest and hydrate.
    TakeBreak,
    /// High intensity otherwise: run for the computed number of minutes.
    Run,
}

/// The workout decision: low intensity (below 25) means exercises; at high
/// intensity, a random number of 3 grants a break, anything else a run.
pub open spec fn workout_plan_spec(intensity: u32, random_number: u32) -> WorkoutPlan {
    if intensity < 25 {
        WorkoutPlan::Exercises
    } else if random_number == 3 {
        WorkoutPlan::TakeBreak
    } else {
        WorkoutPlan::Run
    }
}

/// Decides the day's workout from the intensity and the trainer's random
/// number.
pub fn workout_plan(intensity: u32, random_number: u32) -> (plan: WorkoutPlan)
    ensures
        plan == workout_plan_spec(intensity, random_number),
{
    if intensity < 25 {
        WorkoutPlan::Exercises
    } else if random_number == 3 {
        WorkoutPlan::TakeBreak
    } else {
        WorkoutPlan::Run
    }
}

} // verus!
