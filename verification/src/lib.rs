//! POSIX-style standard-input/standard-output streams over a raw,
//! non-blocking, byte-at-a-time console device.
//!
//! The crate turns the console into blocking and non-blocking read/write
//! streams and exposes them through the uniform file-object capability
//! contract (`FileLike`) that a descriptor table requires of every stream.
//!
//! The console device itself is external hardware; here it is represented by
//! [`console::Console`], a device model that holds a script of poll outcomes
//! (a byte, or "nothing available yet") together with every byte written out.
//! A host program drives the model by injecting the bytes it obtains from the
//! real device; every decision made on those bytes — carriage-return
//! normalization, echo, buffering, the blocking retry protocol, the
//! capability dispatch — lives in this crate and is verified.

pub mod adapter;
pub mod console;
pub mod fops;
pub mod model;
pub mod stream;

pub use console::Console;
pub use fops::{FileLike, PollState, Stat, StdioError};
pub use stream::{stdin, stdout, Stdin, StdioContext, Stdout};
