//! Working-tree status listing and git-hook protocol rules.
//!
//! The crate holds the decisions of a git client that can be stated over plain
//! values: how backend change signals are classified, how a status listing is
//! ordered, where a hook script is looked for, and what a hook is handed on the
//! command line and on its standard input. Reading a repository and spawning a
//! process are left to the caller, who hands in what was read and carries out
//! what comes back.
//!
//! * [`signals`] and [`status`]: change signals of the backends, their
//!   classification, and the listing of changed paths;
//! * [`order`] and [`listing`]: the order of paths and of a listing;
//! * [`hookspath`]: where a hook is looked for and from where it is run;
//! * [`hook_protocol`]: what each hook is handed and what a run yields;
//! * [`hooks`]: hooks as a client takes them, and the updates of a push;
//! * [`oid`]: object ids and their text form;
//! * [`goto_line`]: the popup that asks for a line to go to.

pub mod error;
pub mod goto_line;
pub mod hook_protocol;
pub mod hooks;
pub mod hookspath;
pub mod listing;
pub mod oid;
pub mod order;
pub mod signals;
pub mod status;
pub mod text;
