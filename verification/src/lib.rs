//! Command-submission core of a GPU driver that talks to an on-device
//! firmware scheduler: typed device pointers, device objects with a mirror
//! in device-visible memory, device arrays, and the per-pipeline work queue
//! with its batches.

pub mod allocation;
pub mod array;
pub mod batch;
pub mod descriptor;
pub mod error;
pub mod event;
pub mod object;
pub mod pointer;
pub mod workqueue;
