//! A lockstep engine for two peers that run the same deterministic
//! simulation: it pairs the inputs of both players tick by tick, keeps a
//! second simulation ahead of the network, plays recordings back, and tells
//! the simulations what to do at the places where they stop.
//!
//! The engine decides and never acts: every answer to a trap is a list of
//! [`action::Action`]s for the program around it to perform.

pub mod action;
pub mod battle;
pub mod hooks;
pub mod input;
pub mod lockstep;
pub mod modcards56_view;
pub mod replayer;
pub mod rng;
pub mod round;
pub mod shadow;
pub mod video;
