//! The atomic cell behind the mailbox, taken on trust.
//!
//! The cell has one handle, which this library keeps to itself, and besides
//! it only the signal registry can reach the cell: it gets a handle of its own
//! with every registration, and uses it to store the value that was registered
//! and for nothing else. So at any moment the cell holds either the integer
//! that was stored last through the library's handle, or one that came with a
//! registration. The contracts below say this and no more. In particular they
//! do not say what the cell holds at a given moment: a signal can arrive
//! between any two steps of the program.

use std::sync::atomic::AtomicUsize;
use std::sync::atomic::Ordering;
use std::sync::Arc;
use vstd::prelude::*;

use crate::signal::forbidden;

verus! {

/// The library's handle on the cell: an `Arc<AtomicUsize>` that is never
/// cloned but into the signal registry, by `cell_register`.
#[verifier::external_body]
pub struct Cell {
    flag: Arc<AtomicUsize>,
}

/// The integer that was stored last through this handle, by `cell_store`, or
/// the integer that `cell_new` made the cell with if there was no store yet.
pub uninterp spec fn cell_stored(cell: Cell) -> usize;

/// The registrations that were asked for through this handle: the pairs of a
/// signal's number and the integer that the signal's arrival may store.
pub uninterp spec fn cell_bound(cell: Cell) -> Set<(i32, usize)>;

/// `AtomicUsize::new` inside `Arc::new`: a cell that holds `value` and that no
/// signal stores anything in.
#[verifier::external_body]
pub(crate) fn cell_new(value: usize) -> (cell: Cell)
    ensures
        cell_stored(cell) == value,
        cell_bound(cell) == Set::<(i32, usize)>::empty(),
{
    Cell { flag: Arc::new(AtomicUsize::new(value)) }
}

/// `AtomicUsize::load`, sequentially consistent: what the cell holds at this
/// moment. It is the integer that was stored last through the handle, unless a
/// signal arrived since, and then it is an integer that some signal was
/// registered with.
#[verifier::external_body]
pub(crate) fn cell_load(cell: &Cell) -> (code: usize)
    ensures
        code == cell_stored(*cell) || exists|signal: i32|
            cell_bound(*cell).contains((signal, code)),
{
    cell.flag.load(Ordering::SeqCst)
}

/// `AtomicUsize::store`, sequentially consistent: `value` replaces whatever
/// the cell held. The registrations are as they were. A store does not panic.
#[verifier::external_body]
pub(crate) fn cell_store(cell: &mut Cell, value: usize)
    ensures
        cell_stored(*final(cell)) == value,
        cell_bound(*final(cell)) == cell_bound(*old(cell)),
    no_unwind
{
    cell.flag.store(value, Ordering::SeqCst)
}

/// `signal_hook::flag::register_usize`: asks for `value` to be stored in the
/// cell, sequentially consistent, whenever `signal` arrives. The registry gets
/// a handle of its own on the cell; the identifier it returns, which serves
/// only to take the registration back, is dropped.
///
/// `register_usize` panics on a forbidden signal and on nothing else, so
/// such a signal is left out. Whether the call succeeds is for the operating system to decide, and
/// the contract claims nothing about the result. The registration counts from
/// the call on whatever the result, because after an error `signal_hook` does
/// not promise that the signal is not bound. The call itself stores nothing.
#[verifier::external_body]
pub(crate) fn cell_register(signal: i32, cell: &mut Cell, value: usize) -> (installed: Result<
    (),
    std::io::Error,
>)
    requires
        !forbidden(signal),
    ensures
        cell_stored(*final(cell)) == cell_stored(*old(cell)),
        cell_bound(*final(cell)) == cell_bound(*old(cell)).insert((signal, value)),
    no_unwind
{
    match signal_hook::flag::register_usize(signal, Arc::clone(&cell.flag), value) {
        Ok(_) => Ok(()),
        Err(error) => Err(error),
    }
}

} // verus!
