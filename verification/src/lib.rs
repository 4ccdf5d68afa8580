//! A character movement state machine for a 2D game character.
//!
//! The core is a finite-state machine over six movement states
//! (idle, running, and their back/side-facing variants) that governs
//! character velocity, animation selection and input-driven transitions.
//! Geometry is modelled in fixed-point units of one thousandth, so the
//! whole core is plain integer logic; the host-engine glue (input
//! polling, scene-tree lookups, the real animation player) lives outside
//! this crate and hands the core plain values.

pub mod body;
pub mod direction;
pub mod idle_state;
pub mod laws;
pub mod machine;
pub mod resource;
pub mod run_state;
pub mod state;
