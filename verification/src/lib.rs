//! A load test for Starknet nodes: what a simulation asks of a node, and what
//! becomes of the answers.

pub mod bindings;
pub mod config;
pub mod connection;
pub mod environment;
pub mod error;
pub mod felt;
pub mod laws;
pub mod phases;
pub mod protocol;
pub mod report;
pub mod requests;
pub mod shooter;
pub mod simulation;
