//! Event dispatch and managed-lifecycle core for user interfaces.
//!
//! Every primitive is an explicit state value that its owner passes by
//! `&mut`: a callback that may re-enter its dispatcher is handed the
//! dispatcher, and the refusal of a conflicting access is a state transition
//! with a contract.
//!
//! The host stays outside. Where the presentation surface or an event source
//! has to act, the operation takes the host's answer as an argument, or
//! hands back what the host is to be given, and the caller does the talking.
//!
//! - [`events`]: single-handler listeners, groups of subscribers with tokens,
//!   and the bindings of handlers to events of the host.
//! - [`Context`] and [`SharedCell`]: data that several sites work on, with
//!   accesses that are counted, refused on conflict, and reported.
//! - [`errors`]: error handlers and the environment path they report with.
//! - [`Component`]: a piece of user interface with a teardown that runs once.
//! - [`common`]: whole-number geometry and colors.
//! - [`io`]: the way of a loaded or saved file to its listener.

pub mod common;
pub mod errors;
pub mod events;
pub mod io;

mod component;
pub use component::{torn_down, updated, Component, ComponentError, ComponentState};
pub use errors::HostError;

mod component_content;
pub use component_content::ComponentContent;

mod dynamic_component;
pub use dynamic_component::DynamicComponent;

mod context;
pub use context::{
    accessed, accessed_mut, lemma_accesses_exclude_each_other,
    lemma_refused_access_is_reported_once, CellState, Context, ReadGuard, SharedCell, WriteGuard,
};
