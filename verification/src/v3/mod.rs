//! The third version of the hypercall interface.
pub mod parameters;
