//! Sans-I/O core for following the desktop's preferred colour scheme through
//! the settings interface of the XDG Desktop Portal.
//!
//! The crate decides and the embedding code performs: every exchange with the
//! message bus is described by a small state machine that names the next bus
//! operation and is told how it went. [`reader::Reader`] reads the current
//! value across both generations of the portal interface, and
//! [`listener::Listener`] establishes and runs a change subscription.

pub mod error;
pub mod listener;
pub mod mode;
pub mod portal;
pub mod reader;

pub use error::{Error, ErrorKind};
pub use listener::{Command, Event, Listener, SettingChanged};
pub use mode::{mode_from_u32, Mode};
pub use reader::{Reader, Reply, Request};
