//! Dust requests for the external particle collaborator.
//!
//! The core never draws a particle; it only emits fire-and-forget
//! requests naming where a puff should appear and how many motes it
//! holds. Delivering or dropping such a request is the collaborator's
//! business.

use vstd::prelude::*;
use crate::geometry::Vec2I;

verus! {

/// A fire-and-forget request: spawn `count` dust motes at `position`.
#[derive(Clone, Copy, Debug, PartialEq, Eq, Structural)]
pub struct BPSpawnDustMessage {
    pub position: Vec2I,
    pub count: usize,
}

} // verus!
