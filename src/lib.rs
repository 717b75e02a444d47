//! An owner-gated registry of staff identities and payroll batch attestations,
//! each keyed by a 32-byte content hash.
//!
//! The host environment supplies three things per call, and the library takes
//! them as plain values: the identities that authorized the call (`signers`),
//! the current time (`now`), and the stored registry. Each mutating operation
//! returns the event to announce, or the reason it was refused; a refused
//! operation changes nothing.
pub mod laws;
pub mod registry;
pub mod state;
pub mod types;

pub use registry::{is_signed_by, StaffRegistry};
pub use state::RegistryState;
pub use types::{Address, Hash32, PayrollBatch, RegistryError, RegistryEvent, StaffRecord};
