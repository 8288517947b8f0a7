//! A cooperative, interrupt-driven task runtime for a single-core
//! microcontroller: a polling primitive, a deadline scheduler over a wrapping
//! millisecond counter, a single-slot event mailbox, an edge-wait primitive
//! for a digital input line, and a small executor with a bounded ready queue.
//!
//! Hardware samples (the current counter value, the instantaneous pin level)
//! enter the library as plain values; the decisions the runtime takes on them
//! (which tasks to wake, what to arm the compare interrupt for, how the client
//! state machines advance) are verified here. The driver loop that reads the
//! hardware and delivers interrupts lives outside the library.

pub mod button;
pub mod led;
pub mod button_interrupt;
pub mod channel;
pub mod executor;
pub mod future;
pub mod ticker;
