//! Verified core of a GPU compute backend: image extent arithmetic, the
//! fixed-width instruction encoder for the Maxwell/Pascal instruction set,
//! and the kernel-argument layout and launch marshalling of the compute
//! runtime.

pub mod bitview;
pub mod extent;
pub mod ir;
pub mod ir_proc;
pub mod kernel;
pub mod legalize;
pub mod ops;
pub mod pipe;
pub mod sm50;
