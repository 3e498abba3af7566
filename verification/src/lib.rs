//! Typed machine addresses for a minimal operating-system support library.
//!
//! Raw machine words are turned into validated, architecture-aware typed
//! addresses. The [`constants`] module supplies the x86-64 paging geometry
//! (page sizes, table-index widths, canonical-bit boundaries) that validation
//! depends on; the [`address`] module enforces canonicality at construction
//! time and offers index arithmetic over page-aligned addresses; the
//! [`syscall`] module holds the numeric vocabulary of the kernel call
//! interface (vector numbers and result decoding).
//!
//! The virtual canonical-bit boundary is not fixed at compile time: it depends
//! on the paging depth (4-level or 5-level translation) discovered once at
//! boot. The geometry and validation functions therefore take an explicit
//! [`constants::PagingDepth`] value, so they stay pure and can be exercised
//! directly; a process-wide cache of the boot-detected depth belongs to the
//! outermost boundary of a program, not to this library.

pub mod address;
pub mod constants;
pub mod math;
pub mod syscall;

pub use address::{Address, Addressable, Frame, NonCanonicalError, Page, Physical, Virtual};
pub use constants::PagingDepth;
