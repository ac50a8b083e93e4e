//! Interface for reading, writing and erasing flash storage pages.
//!
//! Operates on single pages; the page representation is chosen by the
//! implementing chip through the associated `Page` type. Completion is
//! asynchronous: the chip driver starts the operation and later calls the
//! registered client back with the page buffer and an outcome. Buffers
//! travel by value, so at any moment exactly one side — caller or driver —
//! owns a page.

use vstd::prelude::*;

verus! {

use crate::returncode::ReturnCode;

/// A peripheral whose completion events go to a registered client.
pub trait HasClient<C> {
    /// Set the client called when operations complete.
    fn set_client(&mut self, client: C);
}

/// Flash outcome reported in the completion callbacks.
#[derive(Clone, Copy, Debug, PartialEq, Eq, Structural)]
pub enum LegacyError {
    /// The operation completed.
    CommandComplete,
    /// An error occurred during the flash operation.
    FlashError,
}

/// A page of writable persistent flash memory.
pub trait LegacyFlash {
    /// One flash page of this chip.
    type Page;

    /// Start reading a page into `buf`; on refusal the buffer comes back
    /// with the code.
    fn read_page(&mut self, page_number: usize, buf: Self::Page) -> Result<
        (),
        (ReturnCode, Self::Page),
    >;

    /// Start writing `buf` into a page; on refusal the buffer comes back
    /// with the code.
    fn write_page(&mut self, page_number: usize, buf: Self::Page) -> Result<
        (),
        (ReturnCode, Self::Page),
    >;

    /// Start erasing a page: every byte becomes `0xFF`.
    fn erase_page(&mut self, page_number: usize) -> ReturnCode;
}

/// Receives the completion callbacks of a [`LegacyFlash`].
pub trait LegacyClient<F: LegacyFlash> {
    /// A read finished; the page buffer comes back.
    fn read_complete(&mut self, read_buffer: F::Page, error: LegacyError);

    /// A write finished; the page buffer comes back.
    fn write_complete(&mut self, write_buffer: F::Page, error: LegacyError);

    /// An erase finished.
    fn erase_complete(&mut self, error: LegacyError);
}

} // verus!
