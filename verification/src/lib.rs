//! A single unit of a declarative convergence engine: it inspects what a
//! host reports about a resource, decides whether that diverges from the
//! desired state, and names the change that removes the divergence.
//!
//! The library performs no input or output. The caller inspects the
//! resource, hands the observation in, and carries out the change that
//! comes back.

pub mod atom;
pub mod convergence;
pub mod decimal;
pub mod mode;
pub mod permissions;
pub mod platform;

pub use crate::atom::{settle, settled, Atom, MutationError, RevertError};
pub use crate::permissions::{FilePermissions, FilePermissionsView};
pub use crate::platform::Platform;
