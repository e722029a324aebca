//! Decision logic for building and driving GPU shader programs.
//!
//! The graphics context itself is reached only by the surrounding program.
//! This library decides what is asked of the context and what follows from
//! each of its answers, and proves those decisions.

pub mod construction;
pub mod laws;
pub mod menu;
pub mod shader;
pub mod text;
