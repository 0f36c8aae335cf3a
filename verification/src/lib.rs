//! Core logic of a terminal dashboard for an edge-computing device:
//! focus tracking, window layering, dialog and tab routing, and the
//! shared device-state model fed by per-topic status updates.

pub mod action;
pub mod codec;
pub mod dialog;
pub mod focus;
pub mod eve_types;
pub mod geometry;
pub mod homepage;
pub mod input;
pub mod layer_stack;
pub mod model;
pub mod net;
pub mod network;
pub mod tabs;
pub mod text;
pub mod time;

use vstd::prelude::*;

verus! {

} // verus!
