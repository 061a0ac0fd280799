//! An RPN calculator core: a stack machine that takes one token at a time
//! (a numeric literal or a command name), mutates a numeric stack, and
//! reports a status line for every step, with an undo log and a bounded
//! history of completed calculations.
//!
//! Numbers live on the stack as the 64-bit patterns of IEEE-754 doubles.
//! Everything the machine decides — dispatch, arity and domain checks, the
//! undo and history discipline, message layout — is verified against the
//! transition functions in [`model`].  The floating-point work itself
//! (parsing a literal, computing an operation, rendering a value in
//! decimal) cannot be stated here, so the caller runs it: the evaluator
//! names what it needs as a [`ops::Request`], and the caller passes the
//! computed [`ops::Answer`] in.  The contracts pin the whole new state for
//! every possible answer.

pub mod bits;
pub mod eval;
pub mod laws;
pub mod model;
pub mod ops;
pub mod text;

pub use eval::App;
pub use ops::Answer;
pub use ops::BinAnswer;
pub use ops::BinOp;
pub use ops::Cmd;
pub use ops::Request;
pub use ops::UnAnswer;
pub use ops::UnOp;
pub use ops::WholeAnswer;
