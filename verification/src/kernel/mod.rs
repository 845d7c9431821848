//! The compute runtime's side of a kernel: the layout of its
//! arguments, the byte format in which that layout is cached, and the
//! marshalling of argument values into the input buffer of a launch.

pub mod args;
pub mod blob;
pub mod kernel;
pub mod launch;
pub mod layout;
pub mod local_size;
pub mod lower;
pub mod math;
pub mod roundtrip;
pub mod tiling;
