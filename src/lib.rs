//! Closed-loop control of a game by a vision-to-action model: translation of
//! controller samples into game actions, frame tracking, the worker protocol
//! and the decisions of the control session.
pub mod animations;
pub mod controls;
pub mod events;
pub mod frames;
pub mod input_map;
pub mod project;
pub mod session;
pub mod text;
pub mod worker;
