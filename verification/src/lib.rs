//! The signal mailbox of a backlight popup and the state machine that decides,
//! once per timer tick, whether the popup is redrawn, hidden or shown.
//!
//! Signals arrive at any moment and must not block, allocate or take a lock,
//! so all that a signal does is store one of four messages in an atomic cell.
//! The user interface polls the cell from its timer: each tick loads the
//! message, takes one step of the state machine and acknowledges a request by
//! storing the message that follows it.
//!
//! - [`message`]: the messages, their codes, and the mailbox itself.
//! - [`visibility`]: the state machine, one step at a time.
//! - [`timeline`]: what the mailbox holds after a sequence of stores and
//!   ticks, and the laws that follow.
//! - [`cell`]: the atomic cell, taken on trust.
//! - [`signal`]: what is taken on trust about signals.

pub mod cell;
pub mod message;
pub mod signal;
pub mod timeline;
pub mod visibility;
