//! The console that a board reports a panic on.
use vstd::prelude::*;

verus! {

/// Remembers whether the console's UART has been set up.
///
/// The UART is set up once, before the first text goes out. The writer only
/// decides when that is; the caller owns the UART and does the work.
pub struct Writer {
    initialized: bool,
}

impl Writer {
    /// Whether the UART has been set up.
    pub closed spec fn is_initialized(&self) -> bool {
        self.initialized
    }

    /// A writer whose UART has not been set up.
    pub fn new() -> (writer: Writer)
        ensures
            !writer.is_initialized(),
    {
        Writer { initialized: false }
    }

    /// Called before text is sent. Says whether the caller has to set up the UART
    /// first, which is so for the first call only, and counts the UART as set up
    /// from now on.
    pub fn begin_write(&mut self) -> (set_up_uart: bool)
        ensures
            set_up_uart == !old(self).is_initialized(),
            final(self).is_initialized(),
    {
        if !self.initialized {
            self.initialized = true;
            true
        } else {
            false
        }
    }
}

} // verus!
