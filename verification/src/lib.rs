//! Checksum manifests for directory trees: the manifest dialects, the rules
//! that classify each file of a run, and the bookkeeping of a bounded pool
//! of workers, all as plain functions over plain values.

pub mod checksum;
pub mod cli;
pub mod display;
pub mod hex;
pub mod manifest;
pub mod paths;
pub mod pattern;
pub mod scheduler;
pub mod text;
pub mod text_mode;
