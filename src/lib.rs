//! Resolution of where a scaffolded page, component or stylesheet goes and
//! what it holds: layered configuration, path sanitizing, extension choice,
//! template lookup, router-aware paths and collision checks.
use vstd::prelude::*;

pub mod component;
pub mod config;
pub mod error;
pub mod materialize;
pub mod names;
pub mod page;
pub mod react_extension;
pub mod remove;
pub mod resolve;
pub mod sanitize;
pub mod segments;
pub mod template;
pub mod user_config;

verus! {

/// The kinds of file that can be created.
#[derive(Clone, Copy, Debug, PartialEq, Eq, Structural)]
pub enum CreateableFileType {
    Page,
    ApiPage,
    Stylesheet,
    Component,
}

} // verus!
