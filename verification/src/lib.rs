//! Deployment of a pre-built system configuration to remote hosts: what to
//! run, in which order, and what each outcome means.
//!
//! Nothing in this crate touches a host. Every operation is a function that
//! says which command to run next and, once it is told what came of that
//! command, what follows. Whoever drives it owns the sessions, the
//! processes and the clock.
pub mod command;
pub mod deploy;
pub mod destination;
pub mod error;
pub mod fanout;
pub mod flake;
pub mod os;
pub mod path;
pub mod step;
pub mod subprocess;
pub mod system;
pub mod text;

pub use deploy::{Action, Behavior, Delay, Deployment, Event, Phase, Stage};
pub use destination::{Destination, Flavor};
pub use error::{Context, DeployError, Failure};
pub use fanout::FanOut;
pub use flake::{Flake, FlakeInfo, Resolution};
pub use os::nixos::Nixos;
pub use os::Verb;
pub use step::Step;
pub use subprocess::SUBPROCESS_LOG_TARGET;
pub use system::SystemConfiguration;
