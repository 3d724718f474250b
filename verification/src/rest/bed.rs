use vstd::prelude::*;

verus! {

/// A night's sleep: how long, and when it started.
pub struct Sleep {
    hours: i32,
    time: String,
}

/// Loose change found under the pillow.
pub enum Coin {
    Penny,
    Dime,
}

impl Sleep {
    /// How many hours this sleep lasted.
    pub closed spec fn spec_hours(&self) -> i32 {
        self.hours
    }

    /// When this sleep started.
    pub closed spec fn spec_time(&self) -> Seq<char> {
        self.time@
    }

    /// Records a sleep of `hours` hours starting at `time`.
    pub fn new(hours: i32, time: String) -> (sleep: Sleep)
        ensures
            sleep.spec_hours() == hours,
            sleep.spec_time() == time@,
    {
        Sleep { hours, time }
    }
}

} // verus!
