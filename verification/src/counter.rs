//! A counter whose steps never wrap.

use vstd::prelude::*;

verus! {

/// A count of users. Stepping it past either end of `u64` is refused.
#[derive(Debug)]
pub struct UserCounter {
    pub count: u64,
}

impl UserCounter {
    /// A counter at zero.
    pub fn new() -> (counter: Self)
        ensures
            counter.count == 0,
    {
        Self { count: 0 }
    }

    /// Adds one. At `u64::MAX` the count stays and the call fails.
    pub fn increment(&mut self) -> (outcome: Result<(), &'static str>)
        ensures
            outcome is Ok <==> old(self).count < u64::MAX,
            outcome is Ok ==> final(self).count == old(self).count + 1,
            outcome is Err ==> final(self).count == old(self).count,
            outcome is Err ==> outcome->Err_0@ == "Counter overflow"@,
    {
        match self.count.checked_add(1) {
            Some(next) => {
                self.count = next;
                Ok(())
            },
            None => Err("Counter overflow"),
        }
    }

    /// Takes one away. At zero the count stays and the call fails.
    pub fn decrement(&mut self) -> (outcome: Result<(), &'static str>)
        ensures
            outcome is Ok <==> old(self).count > 0,
            outcome is Ok ==> final(self).count == old(self).count - 1,
            outcome is Err ==> final(self).count == old(self).count,
            outcome is Err ==> outcome->Err_0@ == "Counter underflow"@,
    {
        match self.count.checked_sub(1) {
            Some(previous) => {
                self.count = previous;
                Ok(())
            },
            None => Err("Counter underflow"),
        }
    }
}

} // verus!
