use vstd::prelude::*;
use crate::errors::ProfError;
use crate::lifecycle::{after_activate, after_deactivate, can_activate, can_dump};
use crate::naming::{
    dump_file_name, lemma_timestamp_name_safe, now_timestamp, spec_dump_file_name, valid_dump_name,
    valid_name_char, valid_timestamp, ProfKind,
};
use crate::chars::str_eq;

verus! {

// The memory profiling kind.
//
// The allocator's profiling flag can only be toggled through a native,
// process-global control interface, so the work itself is performed by the
// caller; this controller owns the session slot, makes every decision —
// whether a request is permitted, and what the allocator should be asked to
// do — and records the allocator's answer. A failed activation leaves the
// slot inactive, never partially populated.

/// What the caller should ask the allocator to do for a request.
pub enum MemAction {
    /// Raise the allocator's profiling-active flag, then record the outcome
    /// with `MemController::apply_active`.
    RaiseFlag,
    /// Lower the allocator's profiling-active flag, then record the outcome
    /// with `MemController::deactive`.
    LowerFlag,
    /// Have the allocator write its native dump to the file of this name.
    WriteDump(String),
    /// Unknown route: nothing to do.
    Ignore,
}

/// The session slot for memory profiling.
pub struct MemController {
    active: bool,
}

impl MemController {
    /// Whether a memory profiling session is currently active.
    pub closed spec fn is_active(&self) -> bool {
        self.active
    }

    /// A fresh controller; no session is active.
    pub fn new() -> (c: Self)
        ensures
            !c.is_active(),
    {
        MemController { active: false }
    }

    /// Reports whether a session is currently active.
    pub fn currently_active(&self) -> (r: bool)
        ensures
            r == self.is_active(),
    {
        self.active
    }

    /// Gate for an activation request: refused with `AlreadyActive` iff a
    /// session is already active. Read-only; the slot changes only when the
    /// allocator's answer is recorded.
    pub fn active_decision(&self) -> (r: Result<(), ProfError>)
        ensures
            r is Ok <==> can_activate(self.is_active()),
            r matches Err(e) ==> e is AlreadyActive,
    {
        if self.active {
            Err(ProfError::AlreadyActive)
        } else {
            Ok(())
        }
    }

    /// Records the allocator's answer to the flag-raise that a positive
    /// `active_decision` authorised: the session becomes active exactly when
    /// the allocator succeeded.
    pub fn apply_active(&mut self, outcome: Result<(), String>) -> (r: Result<(), ProfError>)
        requires
            can_activate(old(self).is_active()),
        ensures
            final (self).is_active() == after_activate(old(self).is_active(), outcome is Ok),
            final (self).is_active() <==> outcome is Ok,
            r is Ok <==> outcome is Ok,
            outcome matches Err(m) ==> (r matches Err(e) && e matches ProfError::Collaborator(t)
                && t@ == m@),
    {
        match outcome {
            Ok(()) => {
                self.active = true;
                Ok(())
            },
            Err(m) => Err(ProfError::Collaborator(m)),
        }
    }

    /// Clears the slot, given the allocator's answer to the flag-lower
    /// request. Permitted in every state — deactivating an inactive session
    /// is a harmless no-op — and the slot ends inactive whatever the
    /// allocator answered.
    pub fn deactive(&mut self, outcome: Result<(), String>) -> (r: Result<(), ProfError>)
        ensures
            !final (self).is_active(),
            final (self).is_active() == after_deactivate(old(self).is_active()),
            r is Ok <==> outcome is Ok,
            outcome matches Err(m) ==> (r matches Err(e) && e matches ProfError::Collaborator(t)
                && t@ == m@),
    {
        self.active = false;
        match outcome {
            Ok(()) => Ok(()),
            Err(m) => Err(ProfError::Collaborator(m)),
        }
    }

    /// Decides a dump request: refused with `NotActive` while no session is
    /// active; otherwise yields the name of the file the allocator should
    /// write its native dump to. Read-only: dumping never changes the slot.
    pub fn dump_decision(&self, name: &str, ts: &str) -> (r: Result<String, ProfError>)
        requires
            valid_dump_name(name@),
            valid_dump_name(ts@),
        ensures
            r is Ok <==> can_dump(self.is_active()),
            r matches Err(e) ==> e is NotActive,
            r matches Ok(p) ==> p@ == spec_dump_file_name(name@, ts@, ProfKind::Memory),
    {
        if self.active {
            Ok(dump_file_name(name, ts, ProfKind::Memory))
        } else {
            Err(ProfError::NotActive)
        }
    }
}

/// The logical name memory dumps are written under.
pub open spec fn spec_mem_dump_name() -> Seq<char> {
    "mem_prof"@
}

proof fn lemma_mem_dump_name_valid()
    ensures
        valid_dump_name(spec_mem_dump_name()),
{
    reveal_strlit("mem_prof");
    assert forall|i: int| 0 <= i < "mem_prof"@.len() implies valid_name_char(
        "mem_prof"@[i],
    ) by {
        reveal_strlit("mem_prof");
    }
}

/// Maps a `/mem/<path>` route to the allocator action it calls for:
/// `active` asks for the flag to be raised (when permitted), `deactive` for
/// it to be lowered, `dump` for a native dump under the name `mem_prof`,
/// and any other path for nothing.
pub fn handle_mem(st: &MemController, path: &str) -> (r: Result<MemAction, ProfError>)
    ensures
        path@ == "active"@ ==> {
            &&& r is Ok <==> can_activate(st.is_active())
            &&& r matches Ok(a) ==> a is RaiseFlag
            &&& r matches Err(e) ==> e is AlreadyActive
        },
        path@ == "deactive"@ ==> (r matches Ok(a) && a is LowerFlag),
        path@ == "dump"@ ==> {
            &&& r is Ok <==> can_dump(st.is_active())
            &&& r matches Ok(a) ==> (a matches MemAction::WriteDump(p) && exists|ts: Seq<char>|
                valid_timestamp(ts) && p@ == spec_dump_file_name(
                    spec_mem_dump_name(),
                    ts,
                    ProfKind::Memory,
                ))
            &&& r matches Err(e) ==> e is NotActive
        },
        !(path@ == "active"@ || path@ == "deactive"@ || path@ == "dump"@) ==> (r matches Ok(a)
            && a is Ignore),
{
    proof {
        // The three route words are pairwise distinct: their lengths differ.
        reveal_strlit("active");
        reveal_strlit("deactive");
        reveal_strlit("dump");
        assert("active"@.len() == 6);
        assert("deactive"@.len() == 8);
        assert("dump"@.len() == 4);
    }
    if str_eq(path, "active") {
        match st.active_decision() {
            Ok(()) => Ok(MemAction::RaiseFlag),
            Err(e) => Err(e),
        }
    } else if str_eq(path, "deactive") {
        Ok(MemAction::LowerFlag)
    } else if str_eq(path, "dump") {
        let ts = now_timestamp();
        proof {
            lemma_mem_dump_name_valid();
            lemma_timestamp_name_safe(ts@);
        }
        match st.dump_decision("mem_prof", ts.as_str()) {
            Ok(p) => {
                proof {
                    assert(valid_timestamp(ts@) && p@ == spec_dump_file_name(
                        spec_mem_dump_name(),
                        ts@,
                        ProfKind::Memory,
                    ));
                }
                Ok(MemAction::WriteDump(p))
            },
            Err(e) => Err(e),
        }
    } else {
        Ok(MemAction::Ignore)
    }
}

} // verus!
