use crate::state::ManagedTorrentState;
use parking_lot::RwLock;
use vstd::prelude::*;

verus! {

/// `lock_api::RwLock`, which `parking_lot::RwLock` is made of: nothing is
/// said of what a lock holds but through the functions below.
#[verifier::external_type_specification]
#[verifier::external_body]
#[verifier::reject_recursive_types(R)]
#[verifier::reject_recursive_types(T)]
pub struct ExRwLock<R, T: ?Sized>(parking_lot::lock_api::RwLock<R, T>);

/// `parking_lot::RawRwLock`, the lock inside a `parking_lot::RwLock`.
#[verifier::external_type_specification]
#[verifier::external_body]
pub struct ExRawRwLock(parking_lot::RawRwLock);

/// What the lock of a torrent guards: its current phase.
pub struct ManagedTorrentLocked<C, L> {
    pub state: ManagedTorrentState<C, L>,
}

/// `r` is what `f` returns on some phase that readers may see.
pub open spec fn read_gives<C, L, R, F: FnOnce(&ManagedTorrentState<C, L>) -> R>(
    f: F,
    r: R,
) -> bool {
    exists|s: ManagedTorrentState<C, L>| s.is_visible() && call_ensures(f, (&s,), r)
}

/// `r` is what `f` returns, beside a phase that readers may see, on some
/// phase that readers may see.
pub open spec fn write_gives<
    C,
    L,
    R,
    F: FnOnce(ManagedTorrentState<C, L>) -> (ManagedTorrentState<C, L>, R),
>(f: F, r: R) -> bool {
    exists|s: ManagedTorrentState<C, L>, t: ManagedTorrentState<C, L>|
        s.is_visible() && t.is_visible() && call_ensures(f, (s,), (t, r))
}

/// `parking_lot::RwLock::new`: an unlocked lock around `locked`. The phase
/// it starts with is one that readers may see.
#[verifier::external_body]
pub(crate) fn new_record<C, L>(locked: ManagedTorrentLocked<C, L>) -> (record: RwLock<
    ManagedTorrentLocked<C, L>,
>)
    requires
        locked.state.is_visible(),
{
    RwLock::new(locked)
}

/// `parking_lot::RwLock::read`: waits for shared access, runs `f` on the
/// guarded phase and lets go. The phase is one that readers may see, since
/// the lock starts with one and `write_record` leaves one behind.
/// `f` must not take the same lock again: the call would not return.
#[verifier::external_body]
pub(crate) fn read_record<C, L, R, F>(record: &RwLock<ManagedTorrentLocked<C, L>>, f: F) -> (r:
    R) where F: FnOnce(&ManagedTorrentState<C, L>) -> R
    requires
        forall|s: ManagedTorrentState<C, L>| s.is_visible() ==> call_requires(f, (&s,)),
    ensures
        read_gives(f, r),
{
    f(&record.read().state)
}

/// `parking_lot::RwLock::write`: waits for exclusive access, moves the
/// guarded phase out, leaving `placeholder` in its place, installs the phase
/// that `f` makes of it and lets go. No reader runs in between, so none
/// sees `placeholder`, as long as `f` returns.
/// `f` must not take the same lock again: the call would not return.
#[verifier::external_body]
pub(crate) fn write_record<C, L, R, F>(
    record: &RwLock<ManagedTorrentLocked<C, L>>,
    placeholder: ManagedTorrentState<C, L>,
    f: F,
) -> (r: R) where F: FnOnce(ManagedTorrentState<C, L>) -> (ManagedTorrentState<C, L>, R)
    requires
        forall|s: ManagedTorrentState<C, L>| s.is_visible() ==> call_requires(f, (s,)),
        forall|s: ManagedTorrentState<C, L>, out: (ManagedTorrentState<C, L>, R)|
            s.is_visible() && call_ensures(f, (s,), out) ==> out.0.is_visible(),
    ensures
        write_gives(f, r),
{
    let mut guard = record.write();
    let taken = std::mem::replace(&mut guard.state, placeholder);
    let (next, r) = f(taken);
    guard.state = next;
    r
}

} // verus!
