//! The CPU exception dispatch table: 256 fixed slots mapping fault, trap
//! and device vectors to handlers.  The table is built once during boot,
//! loaded into the CPU, and never mutated afterward.

use vstd::prelude::*;

verus! {

/// What a dispatch slot refers to: a CPU exception handler, a device
/// vector handler, or nothing (an unhandled vector raises an
/// unrecoverable kernel fault if triggered).
#[derive(Clone, Copy, Debug, PartialEq, Eq, Structural)]
pub enum Handler {
    Unhandled,
    DivideError,
    Breakpoint,
    DoubleFault,
    InvalidTss,
    SegmentNotPresent,
    StackSegmentFault,
    GeneralProtectionFault,
    PageFault,
    PicTimer,
    Keyboard,
    ApicTimer,
}

/// The handler of slot `i` in the exception-only table: one handler per
/// architecturally defined exception at its fixed vector, every other
/// slot unhandled.
pub open spec fn base_slot(i: int) -> Handler {
    if i == 0 {
        Handler::DivideError
    } else if i == 3 {
        Handler::Breakpoint
    } else if i == 8 {
        Handler::DoubleFault
    } else if i == 10 {
        Handler::InvalidTss
    } else if i == 11 {
        Handler::SegmentNotPresent
    } else if i == 12 {
        Handler::StackSegmentFault
    } else if i == 13 {
        Handler::GeneralProtectionFault
    } else if i == 14 {
        Handler::PageFault
    } else {
        Handler::Unhandled
    }
}

/// The 256-slot dispatch table with its build/load state.  Slots can be
/// assigned only before the table is loaded; loading is terminal for the
/// kernel's lifetime.
pub struct ExceptionDispatchTable {
    slots: Vec<Handler>,
    loaded: bool,
}

impl ExceptionDispatchTable {
    /// The handlers held by the 256 slots.
    pub closed spec fn spec_slots(self) -> Seq<Handler> {
        self.slots@
    }

    /// Whether the table has been handed to the CPU.
    pub closed spec fn spec_loaded(self) -> bool {
        self.loaded
    }

    pub open spec fn wf(self) -> bool {
        self.spec_slots().len() == 256
    }

    /// A fresh table with every slot unhandled, not yet loaded.
    pub fn new() -> (t: Self)
        ensures
            t.wf(),
            !t.spec_loaded(),
            forall|i: int| 0 <= i < 256 ==> t.spec_slots()[i] == Handler::Unhandled,
    {
        let mut slots: Vec<Handler> = Vec::new();
        let mut i: usize = 0;
        while i < 256
            invariant
                slots@.len() == i,
                i <= 256,
                forall|j: int| 0 <= j < i ==> slots@[j] == Handler::Unhandled,
            decreases 256 - i,
        {
            slots.push(Handler::Unhandled);
            i = i + 1;
        }
        ExceptionDispatchTable { slots, loaded: false }
    }

    pub fn get(&self, vector: u8) -> (r: Handler)
        requires
            self.wf(),
        ensures
            r == self.spec_slots()[vector as int],
    {
        self.slots[vector as usize]
    }

    /// Assign a slot; only possible while the table is still being built.
    pub fn set_handler(&mut self, vector: u8, handler: Handler)
        requires
            old(self).wf(),
            !old(self).spec_loaded(),
        ensures
            final(self).wf(),
            !final(self).spec_loaded(),
            final(self).spec_slots() == old(self).spec_slots().update(vector as int, handler),
    {
        self.slots[vector as usize] = handler;
    }

    /// Hand the built table to the CPU's dispatch mechanism.  Terminal:
    /// no slot can be assigned afterward, and there is no reload path.
    pub fn load(&mut self)
        requires
            old(self).wf(),
        ensures
            final(self).wf(),
            final(self).spec_loaded(),
            final(self).spec_slots() == old(self).spec_slots(),
    {
        self.loaded = true;
    }

    pub fn is_loaded(&self) -> (r: bool)
        ensures
            r == self.spec_loaded(),
    {
        self.loaded
    }
}

/// Build the exception dispatch table: one handler per architecturally
/// defined exception at its fixed vector, everything else unhandled.  The
/// result is not yet loaded.
pub fn init() -> (t: ExceptionDispatchTable)
    ensures
        t.wf(),
        !t.spec_loaded(),
        forall|i: int| 0 <= i < 256 ==> t.spec_slots()[i] == base_slot(i),
{
    let mut t = ExceptionDispatchTable::new();
    t.set_handler(0, Handler::DivideError);
    t.set_handler(3, Handler::Breakpoint);
    t.set_handler(8, Handler::DoubleFault);
    t.set_handler(10, Handler::InvalidTss);
    t.set_handler(11, Handler::SegmentNotPresent);
    t.set_handler(12, Handler::StackSegmentFault);
    t.set_handler(13, Handler::GeneralProtectionFault);
    t.set_handler(14, Handler::PageFault);
    t
}

} // verus!
