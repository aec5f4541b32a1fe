pub mod block;
pub mod chain;
pub mod command;
pub mod message;
pub mod node;
