//! Safety layer between a kernel-mode driver and the driver framework's reference-counted
//! object runtime.
//!
//! - [`ntstatus`] and [`ioctl`]: the bit-exact codecs of status values and I/O control codes.
//! - [`object`]: borrowed and owned handles to framework objects. Owned handles stand for one
//!   count each of the runtime's reference count.
//! - [`request`]: the per-request buffer protocol, with typed handling of a request.
//! - [`payload`]: the checked reading of a value from a request buffer.
//! - [`mode`], [`strings`]: processor modes and counted UTF-16 strings.
//!
//! The runtime itself lies outside this crate. Calls into it that need no answer (reference
//! counting, storing output, reporting sizes, completion) are recorded in order in a
//! [`object::Framework`] journal, which the host hands to the runtime. Calls that need an
//! answer (buffer retrieval, the requestor's mode) go through a function the host passes in,
//! and the contracts state what holds for every answer it gives.
use vstd::prelude::*;

pub mod ioctl;
pub mod mode;
pub mod ntstatus;
pub mod object;
pub mod payload;
pub mod request;
pub mod strings;

verus! {

} // verus!
