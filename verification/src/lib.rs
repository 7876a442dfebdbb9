//! A verified interpreter for the Universal Machine, a 32-bit register
//! machine with fourteen operators, an arena of addressable word arrays,
//! and byte-granular input and output on the standard streams.

pub mod arena;
pub mod cpu;
pub mod decode;
pub mod errors;
pub mod loader;
mod host;

pub use arena::Arena;
pub use cpu::Cpu;
pub use decode::Operator;
pub use errors::VmError;
pub use loader::scroll_from_bytes;
