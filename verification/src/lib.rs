//! Verified core of a latency benchmark for message channels.
//!
//! The library decides what the benchmark does: which channel
//! implementations are measured and in which order, where each latency
//! log goes, what a sender emits for one experiment, and how a receiver
//! reacts to each poll of its channel. The program around it performs
//! the actions (threads, channels, clocks and files).

pub mod experiments;
pub mod sender;
pub mod receiver;
pub mod message;
pub mod logs;
