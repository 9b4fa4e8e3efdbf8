//! The set of descriptors that the event loop waits on.
//!
//! The set is the `FdSet` of the `nix` crate, which the multiplexed wait
//! takes and overwrites. This module fills it before the wait and reads it
//! after.

use vstd::prelude::*;
use nix::sys::select::FdSet;
use crate::mux::Event;

verus! {

/// `nix::sys::select::FdSet`, a set of file descriptors. Its inside is hidden
/// here; [`fd_set_members`] and [`fd_set_capacity`] say what it holds.
#[verifier::external_type_specification]
#[verifier::external_body]
pub struct ExFdSet(nix::sys::select::FdSet);

/// The descriptors that a set holds.
pub uninterp spec fn fd_set_members(set: FdSet) -> Set<int>;

/// The number of descriptors that a set has room for: it can hold the
/// descriptors from 0 up to, and not including, this number.
pub uninterp spec fn fd_set_capacity(set: FdSet) -> int;

/// Whether `set` has room for the descriptor `fd`.
pub open spec fn fits(set: FdSet, fd: i32) -> bool {
    0 <= fd < fd_set_capacity(set)
}

/// `FdSet::clear` of `nix`. Believed, not proved: afterwards the set holds no
/// descriptor, and has the room that it had.
pub assume_specification[ FdSet::clear ](set: &mut FdSet)
    ensures
        fd_set_members(*final(set)) == Set::<int>::empty(),
        fd_set_capacity(*final(set)) == fd_set_capacity(*old(set)),
;

/// `FdSet::insert` of `nix`, which panics on a descriptor that the set has no
/// room for. Believed, not proved: for a descriptor that fits, the set
/// afterwards holds what it held and that descriptor, and has the room that
/// it had.
pub assume_specification[ FdSet::insert ](set: &mut FdSet, fd: i32)
    requires
        fits(*old(set), fd),
    ensures
        fd_set_members(*final(set)) == fd_set_members(*old(set)).insert(fd as int),
        fd_set_capacity(*final(set)) == fd_set_capacity(*old(set)),
;

/// `FdSet::contains` of `nix`, which panics on a descriptor that the set has
/// no room for. Believed, not proved: for a descriptor that fits, it tells
/// whether the set holds it.
pub assume_specification[ FdSet::contains ](set: &FdSet, fd: i32) -> (held: bool)
    requires
        fits(*set, fd),
    ensures
        held == fd_set_members(*set).contains(fd as int),
;

/// Reads `nix::sys::select::FD_SETSIZE`. Believed, not proved: that this
/// constant is the room of `set`, as it is of every `FdSet`.
#[verifier::external_body]
fn capacity(set: &FdSet) -> (room: usize)
    ensures
        room == fd_set_capacity(*set),
{
    nix::sys::select::FD_SETSIZE
}

/// Whether `set` has room for `fd`.
fn has_room(set: &FdSet, fd: i32) -> (fitting: bool)
    ensures
        fitting == fits(*set, fd),
{
    fd >= 0 && (fd as usize) < capacity(set)
}

/// Makes `readable` the interest set of the loop: the descriptor of the
/// pseudoterminal and the descriptor of the display, and nothing else.
///
/// Returns `false`, and leaves the set as it is, where the set has no room
/// for one of the two descriptors.
pub fn watch(readable: &mut FdSet, pty: i32, display: i32) -> (armed: bool)
    ensures
        armed == (fits(*old(readable), pty) && fits(*old(readable), display)),
        armed ==> fd_set_members(*final(readable)) == set![pty as int, display as int],
        armed ==> fd_set_capacity(*final(readable)) == fd_set_capacity(*old(readable)),
        !armed ==> *final(readable) == *old(readable),
{
    if has_room(readable, pty) && has_room(readable, display) {
        readable.clear();
        readable.insert(pty);
        readable.insert(display);
        true
    } else {
        false
    }
}

/// Reads, after the wait, which of the two sources are ready: those whose
/// descriptor the wait left in `readable`.
///
/// Returns `None` where the set has no room for one of the two descriptors.
pub fn readiness(readable: &FdSet, pty: i32, display: i32) -> (event: Option<Event>)
    ensures
        (event is Some) == (fits(*readable, pty) && fits(*readable, display)),
        event matches Some(e) ==> e == (Event::Ready {
            pty: fd_set_members(*readable).contains(pty as int),
            display: fd_set_members(*readable).contains(display as int),
        }),
{
    if has_room(readable, pty) && has_room(readable, display) {
        Some(Event::Ready { pty: readable.contains(pty), display: readable.contains(display) })
    } else {
        None
    }
}

} // verus!
