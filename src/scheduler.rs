//! Process identifiers for machines that run side by side.
use vstd::prelude::*;

verus! {

/// The largest process identifier handed out.
pub const MAX_PID: u32 = 50000;

pub struct Scheduler {
    pub max_pid: u32,
    pub next_pid: u32,
}

impl Scheduler {
    pub fn new() -> (r: Scheduler)
        ensures
            r.next_pid == 0,
            r.max_pid == MAX_PID,
    {
        Scheduler { next_pid: 0, max_pid: MAX_PID }
    }

    pub fn get_next_pid(&self) -> (r: u32)
        ensures
            r == self.next_pid,
    {
        self.next_pid
    }

    pub fn get_max_pid(&self) -> (r: u32)
        ensures
            r == self.max_pid,
    {
        self.max_pid
    }

    /// Hands out the next process identifier.
    #[allow(dead_code)]
    fn _next_pid(&mut self) -> (r: u32)
        requires
            old(self).next_pid < u32::MAX,
        ensures
            r == old(self).next_pid,
            final(self).next_pid == old(self).next_pid + 1,
            final(self).max_pid == old(self).max_pid,
    {
        let result = self.next_pid;
        self.next_pid = self.next_pid + 1;
        result
    }
}

} // verus!
