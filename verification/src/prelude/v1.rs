//! The first prelude version.

/// Provides a wrapper around spanned matching argument values.
pub use crate::span::Value;

/// Defines behaviors for evaluators that can fall back to a default value.
pub use crate::combine::Defaultable;

/// Defines behaviors for types that can dispatch an evaluator to a function.
pub use crate::command::Dispatchable;

/// Defines behaviors for types that can dispatch an evaluator to a function
/// with passed arguments.
pub use crate::command::DispatchableWithArgs;

/// Defines behaviors for types that can dispatch an evaluator to a function
/// with additional help documentation.
pub use crate::command::DispatchableWithHelpString;

/// Defines behaviors for evaluating an input to a given type.
pub use crate::eval::Evaluatable;

/// Defines a marker trait for denoting command-like types.
pub use crate::eval::IsCmd;

/// Defines a marker trait for denoting flag-like types from non-flag types.
pub use crate::eval::IsFlag;

/// Defines behaviors for associating help strings with a given type.
pub use crate::help::Helpable;
pub use crate::help::ShortHelpable;

/// Defines a value type for evaluating positionally.
pub use crate::eval::PositionalArgumentValue;
