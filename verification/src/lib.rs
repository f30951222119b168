//! A small command-line evaluation library.
//!
//! Raw argument tokens are turned into typed values by *evaluators*: terminal
//! evaluators inspect the token slice directly (flag lookup, value parsing),
//! and combinators compose evaluators into larger ones (sequential joins,
//! optional wrapping, defaults, choice restriction). Every successful
//! evaluation carries a [`Span`]: the list of token indices that were
//! consumed to produce the value. Failures are reported through the closed
//! [`CliError`] taxonomy rather than strings.
//!
//! Every evaluator documents its behaviour as a specification function, and
//! each `evaluate` implementation is proved to match it.

pub mod combine;
pub mod command;
pub mod errors;
pub mod eval;
pub mod files;
pub mod flags;
pub mod help;
pub mod laws;
pub mod numbers;
pub mod prelude;
pub mod span;
pub mod strings;
pub mod terminal;
pub mod typed;
pub mod unused;

pub use combine::Defaultable;
pub use combine::ExpectStringValue;
pub use combine::Join;
pub use combine::Optional;
pub use combine::StoreFalse;
pub use combine::StoreTrue;
pub use combine::WithChoices;
pub use combine::WithDefault;
pub use command::Cmd;
pub use command::CmdGroup;
pub use command::Dispatchable;
pub use command::DispatchableWithArgs;
pub use command::DispatchableWithHelpString;
pub use command::Either;
pub use command::OneOf;
pub use errors::CliError;
pub use errors::SpecCliError;
pub use eval::EvaluateResult;
pub use eval::Evaluatable;
pub use eval::IsCmd;
pub use eval::IsFlag;
pub use eval::Openable;
pub use eval::PlainValue;
pub use eval::PositionalArgumentValue;
pub use eval::SpecEvalResult;
pub use eval::TerminalEvaluatable;
pub use files::ExpectFilePath;
pub use files::FileValue;
pub use files::WithOpen;
pub use flags::Flag;
pub use help::FlagHelpCollector;
pub use help::FlagHelpContext;
pub use help::Helpable;
pub use help::HelpText;
pub use help::ShortHelpable;
pub use span::Span;
pub use span::Value;
pub use terminal::FlagWithValue;
pub use terminal::I16Value;
pub use terminal::I32Value;
pub use terminal::I64Value;
pub use terminal::I8Value;
pub use terminal::StringValue;
pub use terminal::U16Value;
pub use terminal::U32Value;
pub use terminal::U64Value;
pub use terminal::U8Value;
pub use terminal::ValueOnMatch;
pub use unused::return_unused_args;
