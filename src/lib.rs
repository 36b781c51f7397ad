//! The core of a small concatenative language in the manner of Forth and Joy.
//!
//! Text is parsed into atoms that are appended to a fiber's pending queue.
//! Each evaluation step takes the front atom off the queue: a word is replaced
//! by its definition at the front of the queue, a built-in runs against the
//! stack, the queue and the word table, and any other value is pushed. Work
//! that the library leaves to its host (printing, reading a file, float
//! arithmetic) comes back from a step as a [`Request`].
//!
//! The meaning of every step is stated in [`semantics`] over the mathematical
//! view of a fiber, and each operation is proved to follow it.
pub mod atom;
pub mod dict;
pub mod error;
pub mod eval;
pub mod fiber;
pub mod grammar;
pub mod laws;
pub mod parser;
pub mod render;
pub mod semantics;
pub mod words;

pub use atom::{Builtin, JkList, JkProgram};
pub use dict::JkDict;
pub use error::JkError;
pub use eval::{eval_atom, eval_step};
pub use fiber::{JkFiber, Request};
pub use parser::{parse, JkParser};
pub use words::builtin_dict;
