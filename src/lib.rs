//! Puzzle endpoints of an advent-style challenge, with the four-in-a-row
//! board game as their verified core.
pub mod days;
