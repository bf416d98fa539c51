//! The operating systems that can be deployed to, and what they can be
//! asked to do with a configuration.
pub mod nixos;

use vstd::prelude::*;

verus! {

/// What an activation script can be asked to do with its configuration.
#[derive(PartialEq, Eq, Clone, Copy, Debug, Structural)]
pub enum Verb {
    /// Activate it now, without making it the boot default.
    Test,
    /// Build it.
    Build,
    /// Make it the boot default, without activating it now.
    Boot,
}

} // verus!
