pub mod broker;
pub mod engine;
pub mod error;
pub mod log;
pub mod map;
pub mod output;
pub mod processor;
pub mod reactor;
pub mod store;
