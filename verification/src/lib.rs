//! The hypercall interface between a Hermit guest and the Uhyve hypervisor: the
//! parameter blocks that a guest hands to the host, and the encoding of their
//! return values as signed integers.
pub mod gdb;
pub mod nonzero;
pub mod parameters;
pub mod v3;
pub mod xtask;

use vstd::prelude::*;

verus! {

/// A guest physical address, as the host sees it in a parameter block.
pub type GuestPhysAddr = u64;

} // verus!
