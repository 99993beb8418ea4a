//! TML, the markdown layout language of the Telera application framework:
//! the keyword pre-pass, the compile-time `calc` arithmetic, the compiler
//! from a parsed markdown document to a flat stream of layout commands, the
//! store of compiled pages and snippets, and the step-by-step run of a
//! command stream that says what the host has to build, ask and replay.
pub mod args;
pub mod binder;
pub mod calc;
pub mod configs;
pub mod ctx;
pub mod decls;
pub mod document;
pub mod elements;
pub mod events;
pub mod ir;
pub mod keywords;
pub mod literals;
pub mod lookup;
pub mod md;
pub mod nesting;
pub mod ordering;
pub mod pending;
pub mod prepass;
pub mod shapes;
pub mod resolve;
pub mod text;
pub mod walker;

use vstd::prelude::*;

verus! {

} // verus!
