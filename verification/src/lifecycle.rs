use vstd::prelude::*;

verus! {

// The abstract lifecycle machine shared by every profiling kind.
//
// A session slot is modelled by a single boolean: whether a session of that
// kind is currently active. The machine has two states, `Inactive` (false)
// and `Active` (true), three transitions — `activate`, `dump`, `deactivate` —
// and starts in `Inactive`. Both the CPU and the memory controller state
// their contracts over these functions, so the two kinds are provably
// instances of one machine.

/// `activate` is permitted only while no session of this kind is active;
/// activating an active slot is refused rather than silently replacing the
/// running session.
pub open spec fn can_activate(active: bool) -> bool {
    !active
}

/// The slot after an `activate` whose collaborator call succeeded iff
/// `collaborator_ok`. A refused or failed activation leaves the slot as it
/// was; in particular a failed activation leaves it inactive, never
/// partially populated.
pub open spec fn after_activate(active: bool, collaborator_ok: bool) -> bool {
    if !active && collaborator_ok {
        true
    } else {
        active
    }
}

/// `dump` is permitted only while a session is active.
pub open spec fn can_dump(active: bool) -> bool {
    active
}

/// `dump` never changes the slot: it only reads the running session.
pub open spec fn after_dump(active: bool) -> bool {
    active
}

/// `deactivate` is permitted in every state: deactivating an inactive slot
/// is a harmless no-op, by design an asymmetry with the strict `activate`.
pub open spec fn can_deactivate(active: bool) -> bool {
    true
}

/// The slot after a `deactivate`: always inactive, whatever it held before.
pub open spec fn after_deactivate(active: bool) -> bool {
    false
}

/// Activating twice in a row without an intervening deactivation is refused:
/// after a successful activation the slot is active, a second `activate` is
/// not permitted, and the refused activation leaves the slot — whatever it
/// holds — exactly as it was. Each kind's controller carries the rest of
/// this property in its own contract: a refused CPU `active` ensures
/// `*final(self) == *old(self)`, so the running guard is never replaced,
/// and the memory gate `active_decision` takes the slot by shared
/// reference, so it can change nothing.
pub proof fn lemma_activate_twice_refused(active: bool, collaborator_ok: bool)
    requires
        can_activate(active),
        collaborator_ok,
    ensures
        after_activate(active, collaborator_ok),
        !can_activate(after_activate(active, collaborator_ok)),
        forall|ok: bool|
            after_activate(after_activate(active, collaborator_ok), ok) == after_activate(
                active,
                collaborator_ok,
            ),
{
}

/// `dump` is refused while the slot is inactive, and refusing it changes
/// nothing.
pub proof fn lemma_dump_inactive_refused()
    ensures
        !can_dump(false),
        after_dump(false) == false,
{
}

/// A full round trip: from the initial state, `activate` (with a willing
/// collaborator) is permitted and yields an active slot, `dump` is then
/// permitted and keeps it active, `deactivate` is permitted and fully resets
/// the slot, and a second `activate` is permitted again.
pub proof fn lemma_round_trip()
    ensures
        can_activate(false),
        after_activate(false, true),
        can_dump(after_activate(false, true)),
        can_deactivate(after_dump(after_activate(false, true))),
        !after_deactivate(after_dump(after_activate(false, true))),
        can_activate(after_deactivate(after_dump(after_activate(false, true)))),
        after_activate(after_deactivate(after_dump(after_activate(false, true))), true),
{
}

/// Deactivating is idempotent: it is permitted in every state, always ends
/// in the inactive state, and deactivating an already-inactive slot changes
/// nothing.
pub proof fn lemma_deactivate_idempotent(active: bool)
    ensures
        can_deactivate(active),
        after_deactivate(active) == false,
        after_deactivate(after_deactivate(active)) == after_deactivate(active),
{
}

} // verus!
