//! Visibility control for the application's main window.
//!
//! The library decides which windowing calls a request makes and what it
//! reports; the application performs the calls and feeds their results back.
use vstd::prelude::*;

pub mod window;
pub mod invocation;
pub mod laws;

verus! {

} // verus!
