//! Indicator descriptions and the engine that evaluates them bar by bar.
pub mod engine;
pub mod fin;
pub mod specs;
