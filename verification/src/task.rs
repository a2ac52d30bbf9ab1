//! Ownership of one in-flight request per component: a slot holding at most
//! one task handle, with a counter that makes every handle it ever issues
//! distinct. A completion is accepted only when it carries the handle the
//! slot currently owns, so a superseded request can never speak again.

use vstd::prelude::*;

verus! {

/// The single task slot of one component instance. `current` is the handle
/// of the request in flight, if any; `next` is the handle the next request
/// will get. Handles are never reused: every issued handle is below `next`.
pub struct TaskSlot {
    pub current: Option<u64>,
    pub next: u64,
}

impl TaskSlot {
    /// Every handle the slot owns was issued by it.
    pub open spec fn wf(self) -> bool {
        self.current is Some ==> self.current->0 < self.next
    }

    /// How many tasks the slot keeps alive: zero or one, by construction.
    pub open spec fn alive(self) -> nat {
        if self.current is Some {
            1
        } else {
            0
        }
    }

    /// The slot owns exactly this handle.
    pub open spec fn owns(self, h: u64) -> bool {
        self.current == Some(h)
    }

    /// The slot after starting a new task, and the handle that task gets.
    /// Whatever was owned before is discarded.
    pub open spec fn spec_start(self) -> (TaskSlot, u64) {
        (TaskSlot { current: Some(self.next), next: (self.next + 1) as u64 }, self.next)
    }

    /// The slot after its task finished or was abandoned.
    pub open spec fn spec_clear(self) -> TaskSlot {
        TaskSlot { current: None, next: self.next }
    }

    /// A fresh slot: nothing in flight, handles start at zero.
    pub fn new() -> (s: TaskSlot)
        ensures
            s.wf(),
            s.current is None,
            s.next == 0,
    {
        TaskSlot { current: None, next: 0 }
    }

    /// Issue a handle for a new request, discarding interest in any previous
    /// one.
    pub fn start(&mut self) -> (h: u64)
        requires
            old(self).wf(),
            old(self).next < u64::MAX,
        ensures
            final(self).wf(),
            (*final(self), h) == old(self).spec_start(),
            final(self).owns(h),
    {
        let h = self.next;
        self.current = Some(h);
        self.next = self.next + 1;
        h
    }

    /// Drop the task in flight, if any.
    pub fn clear(&mut self)
        requires
            old(self).wf(),
        ensures
            final(self).wf(),
            *final(self) == old(self).spec_clear(),
    {
        self.current = None;
    }

    /// Is this completion from the request currently owned?
    pub fn accepts(&self, h: u64) -> (r: bool)
        ensures
            r == self.owns(h),
    {
        match self.current {
            Some(c) => c == h,
            None => false,
        }
    }

    /// Once a handle is superseded — no longer owned, though already issued —
    /// no later start can bring it back: new handles are always fresh.
    pub proof fn lemma_superseded_stays_dead(self, h: u64)
        requires
            self.wf(),
            self.next < u64::MAX,
            !self.owns(h),
            h < self.next,
        ensures
            !self.spec_start().0.owns(h),
            !self.spec_clear().owns(h),
            self.spec_start().0.wf(),
            self.spec_clear().wf(),
            h < self.spec_start().0.next,
            h < self.spec_clear().next,
    {
    }
}

} // verus!
