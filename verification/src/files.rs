//! Configuration types for file-path flags.
//!
//! Evaluating a file-path flag must probe the file system (open the path
//! with the configured access), which is I/O and stands outside this
//! library. The types here carry the configuration and the help rendering;
//! the probing evaluators are built around them by the embedding program,
//! reusing the library's flag scanning and span bookkeeping.

use vstd::prelude::*;
use vstd::string::StringExecFns;

use crate::combine::Defaultable;
use crate::eval::IsFlag;
use crate::eval::Openable;
use crate::help::spec_with_modifier;
use crate::help::FlagHelpCollector;
use crate::help::ShortHelpable;
use crate::help::SpecHelpCollector;
use crate::terminal::FlagWithValue;

verus! {

/// The configuration of a file-path value: which access the path must
/// admit (`readable`, `writable`) and whether it must already exist.
#[derive(Debug, Clone, Copy, PartialEq)]
pub struct FileValue {
    pub readable: bool,
    pub writable: bool,
    pub exists: bool,
}

impl IsFlag for FileValue {

}

impl Openable for FileValue {

}

impl Defaultable for FileValue {

}

impl FileValue {
    /// A file-path value with the given access requirements.
    pub fn new(readable: bool, writable: bool, exists: bool) -> (r: Self)
        ensures
            r.readable == readable,
            r.writable == writable,
            r.exists == exists,
    {
        Self { readable, writable, exists }
    }
}

impl<V: Openable> Openable for FlagWithValue<V> {

}

/// Augments an evaluator that yields a validated path so that the path is
/// actually opened. The opening itself is I/O and is performed by the
/// embedding program; the type carries the wrapped evaluator and renders
/// its help entry with a `will_open` note.
#[derive(Debug, Clone, PartialEq)]
pub struct WithOpen<E> {
    pub evaluator: E,
}

impl<E> IsFlag for WithOpen<E> {

}

impl<E> WithOpen<E> {
    /// Wraps an [`Openable`] evaluator for opening.
    pub fn new(evaluator: E) -> (r: Self)
        ensures
            r.evaluator == evaluator,
    {
        Self { evaluator }
    }
}

impl<E: ShortHelpable<Output = FlagHelpCollector> + Defaultable> ShortHelpable for WithOpen<E> {
    type Output = FlagHelpCollector;

    /// The child's entry with a `will_open` modifier.
    open spec fn spec_short_help(&self) -> SpecHelpCollector {
        spec_with_modifier(self.evaluator.spec_short_help(), "will_open"@)
    }

    fn short_help(&self) -> (r: FlagHelpCollector) {
        match self.evaluator.short_help() {
            FlagHelpCollector::Single(ctx) => {
                let ghost old_mods = ctx.modifiers.deep_view();
                let new_ctx = ctx.with_modifier(String::from_str("will_open"));
                proof {
                    assert(new_ctx.modifiers.deep_view() =~= old_mods.push("will_open"@));
                }
                FlagHelpCollector::Single(new_ctx)
            },
            other => other,
        }
    }
}

/// A flag whose value is a file path validated against a [`FileValue`]
/// configuration. The validation probe is I/O and is performed by the
/// embedding program.
#[derive(Debug, Clone, PartialEq)]
pub struct ExpectFilePath {
    pub inner: FlagWithValue<FileValue>,
}

impl IsFlag for ExpectFilePath {

}

impl Openable for ExpectFilePath {

}

impl Defaultable for ExpectFilePath {

}

impl ExpectFilePath {
    /// A file-path flag for `--name` / `-short_code` with the given access
    /// requirements.
    pub fn new(
        name: &str,
        short_code: &str,
        description: &str,
        readable: bool,
        writable: bool,
        exists: bool,
    ) -> (r: Self)
        ensures
            r.inner.name@ == name@,
            r.inner.short_code@ == short_code@,
            r.inner.description@ == description@,
            r.inner.value == (FileValue { readable, writable, exists }),
    {
        Self {
            inner: FlagWithValue::new(
                name,
                short_code,
                description,
                FileValue::new(readable, writable, exists),
            ),
        }
    }
}

impl ShortHelpable for ExpectFilePath {
    type Output = FlagHelpCollector;

    /// The wrapped flag's entry.
    open spec fn spec_short_help(&self) -> SpecHelpCollector {
        self.inner.spec_short_help()
    }

    fn short_help(&self) -> (r: FlagHelpCollector) {
        self.inner.short_help()
    }
}

} // verus!
