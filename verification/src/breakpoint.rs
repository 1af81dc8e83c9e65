//! A breakpoint: an address at which execution must pause before the
//! instruction there runs, with an enabled flag and a hit counter.

use vstd::prelude::*;

use crate::cpu::CPU;
use crate::optimizer::sat_add64;

verus! {

/// One breakpoint, owned by the debugger's address-keyed collection.
#[derive(Debug, Clone)]
pub struct Breakpoint {
    pub address: u16,
    /// Condition text held verbatim for the host's own bookkeeping; the
    /// trigger logic stores it and never evaluates it.
    pub condition: Option<String>,
    pub enabled: bool,
    pub hit_count: u64,
}

impl Breakpoint {
    /// A fresh breakpoint: enabled, never hit.
    pub fn new(address: u16, condition: Option<String>) -> (r: Breakpoint)
        ensures
            r.address == address,
            r.condition == condition,
            r.enabled,
            r.hit_count == 0,
    {
        Breakpoint { address, condition, enabled: true, hit_count: 0 }
    }

    /// Whether the breakpoint fires for the machine's current program
    /// counter: exactly when it is enabled and the address matches. A firing
    /// check raises the hit counter by one; a non-firing check changes
    /// nothing.
    pub fn should_trigger(&mut self, cpu: &CPU) -> (r: bool)
        ensures
            r == (old(self).enabled && cpu.pc == old(self).address),
            r ==> *final(self) == (Breakpoint {
                hit_count: sat_add64(old(self).hit_count, 1),
                ..*old(self)
            }),
            !r ==> *final(self) == *old(self),
    {
        self.should_trigger_simple(cpu.pc)
    }

    /// `should_trigger` against a bare program-counter value.
    pub fn should_trigger_simple(&mut self, pc: u16) -> (r: bool)
        ensures
            r == (old(self).enabled && pc == old(self).address),
            r ==> *final(self) == (Breakpoint {
                hit_count: sat_add64(old(self).hit_count, 1),
                ..*old(self)
            }),
            !r ==> *final(self) == *old(self),
    {
        if !self.enabled {
            return false;
        }
        if pc == self.address {
            self.hit_count = if self.hit_count > u64::MAX - 1 {
                u64::MAX
            } else {
                self.hit_count + 1
            };
            true
        } else {
            false
        }
    }

    /// Arms the breakpoint.
    pub fn enable(&mut self)
        ensures
            *final(self) == (Breakpoint { enabled: true, ..*old(self) }),
    {
        self.enabled = true;
    }

    /// Disarms the breakpoint; a disabled breakpoint never fires and its
    /// hit counter stands still.
    pub fn disable(&mut self)
        ensures
            *final(self) == (Breakpoint { enabled: false, ..*old(self) }),
    {
        self.enabled = false;
    }
}

} // verus!
