//! Identity, declarative configuration, and one-shot commands for the
//! viewports (native windows) of a multi-window GUI runtime.
//!
//! A [`ViewportId`] names one window, a [`ViewportBuilder`] describes the
//! window properties an application wants applied, and a [`ViewportCommand`]
//! asks the windowing backend to perform a single imperative action on an
//! already-created window. All three are plain value types: the backend that
//! consumes them lives outside this crate.

pub mod builder;
pub mod command;
pub mod id;

pub use builder::ViewportBuilder;
pub use command::ViewportCommand;
pub use id::ViewportId;
