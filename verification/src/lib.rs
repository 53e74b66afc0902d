//! A verified model of a privileged memory-read service and its client.
//!
//! The crate covers the logic of a kernel-side control-request service and
//! of the user-side heuristic scanner that drives it: the obfuscated wire
//! codec shared by both sides, the install/teardown lifecycle with its two
//! installation strategies, the per-request dispatch and the authenticated
//! request handler, and the brute-force pointer-chain searches that walk a
//! snapshot of a target's memory. Everything the service decides or computes
//! is stated in contracts and proved; the operating-system calls that carry
//! requests and bytes across the privilege boundary live outside the crate
//! and hand these functions plain values.

pub mod codec;
pub mod protocol;
pub mod image;
pub mod handler;
pub mod installer;
pub mod dispatch;
pub mod scanner;
pub mod client;
pub mod config;
