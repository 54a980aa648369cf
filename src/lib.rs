pub mod cooldown;
pub mod cache;
pub mod queue;
pub mod relay;
pub mod laws;
