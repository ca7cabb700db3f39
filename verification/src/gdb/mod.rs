//! State that the GDB stub keeps about the guest's vCPUs.
pub mod resume;
