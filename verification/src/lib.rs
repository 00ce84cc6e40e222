//! Allocation-routing core of a memory-allocator adapter.
//!
//! The adapter sits between a runtime's allocation requests and an external
//! allocator engine. For every allocate, zero-allocate and resize request it
//! must pick the cheapest engine entry point that still honours the caller's
//! alignment, refuse alignment requests the engine cannot take, and account
//! for block ownership across the call: on a failed resize the caller keeps
//! the original block, on a successful one the original is consumed.
//!
//! This crate holds that decision and accounting logic, verified. The engine
//! calls themselves are raw foreign calls and live with the embedding code;
//! they receive a fully settled plan (`EngineEntry`) and hand their result
//! back as a plain address for settlement.

pub mod boundary;
pub mod cpu;
pub mod policy;
pub mod router;
