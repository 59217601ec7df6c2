use vstd::prelude::*;

verus! {

/// Abstraction of both timers of the Chip8 CPU
#[derive(Debug)]
pub struct Timer {
    /// Current count of the timer
    pub count: u8,
}

impl Timer {
    /// Decreases the timer value; a timer never goes below zero.
    pub fn decrease(&mut self)
        ensures
            final(self).count == if old(self).count > 0 { (old(self).count - 1) as u8 } else { 0u8 },
    {
        if self.count > 0 {
            self.count = self.count - 1;
        }
    }

    /// Sets the current count of the timer.
    pub fn set(&mut self, value: u8)
        ensures
            final(self).count == value,
    {
        self.count = value;
    }

    /// Returns the current count of the timer.
    pub fn get(&self) -> (count: u8)
        ensures
            count == self.count,
    {
        self.count
    }
}

impl Default for Timer {
    fn default() -> (timer: Self)
        ensures
            timer.count == 0,
    {
        Timer { count: 0 }
    }
}

} // verus!
