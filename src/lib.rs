//! Resolution, packaging policy, resource collection and interpreter
//! configuration for embedding a Python distribution in an executable.

pub mod collection;
pub mod config;
pub mod decoding;
pub mod distribution;
pub mod executable;
pub mod glob;
pub mod interpreter;
pub mod resource;
