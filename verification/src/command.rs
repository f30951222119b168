//! The command layer: named commands with flags and handlers, exclusive
//! alternatives, and named command groups.

use vstd::prelude::*;
use vstd::string::StrSliceExecFns;
use vstd::string::StringExecFns;

use crate::combine::Join;
use crate::errors::CliError;
use crate::errors::SpecCliError;
use crate::eval::tail_from;
use crate::eval::EvaluateResult;
use crate::eval::Evaluatable;
use crate::eval::IsCmd;
use crate::eval::IsFlag;
use crate::eval::SpecEvalResult;
use crate::help::spec_render_collector;
use crate::help::FlagHelpCollector;
use crate::help::Helpable;
use crate::help::ShortHelpable;
use crate::span::spec_offset_indices;
use crate::span::spec_range_indices;
use crate::span::Span;
use crate::span::Value;
use crate::strings::file_name;
use crate::strings::spec_file_name;
use crate::strings::str_eq;

verus! {

/// One of two exclusive values, as produced by [`OneOf`].
#[derive(Debug, PartialEq)]
pub enum Either<A, B> {
    Left(A),
    Right(B),
}

impl<A: DeepView, B: DeepView> DeepView for Either<A, B> {
    type V = Either<A::V, B::V>;

    open spec fn deep_view(&self) -> Either<A::V, B::V> {
        match self {
            Either::Left(a) => Either::Left(a.deep_view()),
            Either::Right(b) => Either::Right(b.deep_view()),
        }
    }
}

/// Joins two command-like evaluators exclusively: exactly one of the two
/// must succeed.
#[derive(Debug)]
pub struct OneOf<C1, C2> {
    pub left: C1,
    pub right: C2,
}

impl<C1, C2> OneOf<C1, C2> {
    /// Pairs the two alternatives.
    pub fn new(left: C1, right: C2) -> (r: Self)
        ensures
            r.left == left,
            r.right == right,
    {
        Self { left, right }
    }
}

impl<A, C1, C2, B, C> Evaluatable<A, Either<B, C>> for OneOf<C1, C2> where
    A: DeepView<V = Seq<Seq<char>>> + Copy,
    B: DeepView,
    C: DeepView,
    C1: Evaluatable<A, B>,
    C2: Evaluatable<A, C>,
 {
    /// Evaluates both children on the same input. Exactly one success is
    /// passed through, wrapped in `Left` or `Right` with that child's span;
    /// zero or two successes fail with `AmbiguousCommand`.
    open spec fn spec_eval(&self, input: Seq<Seq<char>>) -> SpecEvalResult<Either<B::V, C::V>> {
        match (self.left.spec_eval(input), self.right.spec_eval(input)) {
            (Ok((s, b)), Err(_)) => Ok((s, Either::Left(b))),
            (Err(_), Ok((s, c))) => Ok((s, Either::Right(c))),
            _ => Err(SpecCliError::AmbiguousCommand),
        }
    }

    fn evaluate(&self, input: A) -> (r: EvaluateResult<Either<B, C>>) {
        match (self.left.evaluate(input), self.right.evaluate(input)) {
            (Ok(v), Err(_)) => {
                let Value { span, value } = v;
                Ok(Value::new(span, Either::Left(value)))
            },
            (Err(_), Ok(v)) => {
                let Value { span, value } = v;
                Ok(Value::new(span, Either::Right(value)))
            },
            _ => Err(CliError::AmbiguousCommand),
        }
    }
}

impl<C1: ShortHelpable<Output = String>, C2: ShortHelpable<Output = String>> ShortHelpable
    for OneOf<C1, C2> {
    type Output = String;

    /// Both children's summaries, one per line.
    open spec fn spec_short_help(&self) -> Seq<char> {
        self.left.spec_short_help() + "\n"@ + self.right.spec_short_help()
    }

    fn short_help(&self) -> (r: String) {
        let right = self.right.short_help();
        self.left.short_help().concat("\n").concat(right.as_str())
    }
}

/// A named command: a name, descriptive metadata, a flag evaluator, and a
/// handler to receive the evaluated flag values.
#[derive(Debug)]
pub struct Cmd<F, H> {
    pub name: String,
    pub description: String,
    pub author: String,
    pub version: String,
    pub flags: F,
    pub handler: H,
}

impl<F, H> IsCmd for Cmd<F, H> {

}

impl Cmd<(), ()> {
    /// A command with the given name, no flags, no handler, and empty
    /// metadata.
    pub fn new(name: &str) -> (r: Self)
        ensures
            r.name@ == name@,
            r.description@ == Seq::<char>::empty(),
            r.author@ == Seq::<char>::empty(),
            r.version@ == Seq::<char>::empty(),
    {
        Self {
            name: name.to_owned(),
            description: String::new(),
            author: String::new(),
            version: String::new(),
            flags: (),
            handler: (),
        }
    }
}

impl<H> Cmd<(), H> {
    /// The command with its (absent) flag evaluator replaced by `new_flag`.
    pub fn with_flag<NF>(self, new_flag: NF) -> (r: Cmd<NF, H>)
        ensures
            r.name == self.name,
            r.description == self.description,
            r.author == self.author,
            r.version == self.version,
            r.flags == new_flag,
            r.handler == self.handler,
    {
        Cmd {
            name: self.name,
            description: self.description,
            author: self.author,
            version: self.version,
            flags: new_flag,
            handler: self.handler,
        }
    }
}

impl<T, H> Cmd<T, H> {
    /// The command renamed.
    pub fn name(self, name: &str) -> (r: Self)
        ensures
            r.name@ == name@,
            r.description == self.description,
            r.author == self.author,
            r.version == self.version,
            r.flags == self.flags,
            r.handler == self.handler,
    {
        Self { name: name.to_owned(), ..self }
    }

    /// The command with its description replaced.
    pub fn description(self, description: &str) -> (r: Self)
        ensures
            r.name == self.name,
            r.description@ == description@,
            r.author == self.author,
            r.version == self.version,
            r.flags == self.flags,
            r.handler == self.handler,
    {
        Self { description: description.to_owned(), ..self }
    }

    /// The command with its author replaced.
    pub fn author(self, author: &str) -> (r: Self)
        ensures
            r.name == self.name,
            r.description == self.description,
            r.author@ == author@,
            r.version == self.version,
            r.flags == self.flags,
            r.handler == self.handler,
    {
        Self { author: author.to_owned(), ..self }
    }

    /// The command with its version replaced.
    pub fn version(self, version: &str) -> (r: Self)
        ensures
            r.name == self.name,
            r.description == self.description,
            r.author == self.author,
            r.version@ == version@,
            r.flags == self.flags,
            r.handler == self.handler,
    {
        Self { version: version.to_owned(), ..self }
    }

    /// The command with its handler set to a function of the evaluated flag
    /// values.
    pub fn with_handler<A, B, NH, R>(self, handler: NH) -> (r: Cmd<T, NH>) where
        A: DeepView<V = Seq<Seq<char>>>,
        B: DeepView,
        T: Evaluatable<A, B>,
        NH: Fn(B) -> R,

        ensures
            r.name == self.name,
            r.description == self.description,
            r.author == self.author,
            r.version == self.version,
            r.flags == self.flags,
            r.handler == handler,
    {
        Cmd {
            name: self.name,
            description: self.description,
            author: self.author,
            version: self.version,
            flags: self.flags,
            handler,
        }
    }

    /// The command with its handler set to a function of the evaluated flag
    /// values and the unused arguments.
    pub fn with_args_handler<A, B, NH, R>(self, handler: NH) -> (r: Cmd<T, NH>) where
        A: DeepView<V = Seq<Seq<char>>>,
        B: DeepView,
        T: Evaluatable<A, B>,
        NH: Fn(B, Vec<String>) -> R,

        ensures
            r.name == self.name,
            r.description == self.description,
            r.author == self.author,
            r.version == self.version,
            r.flags == self.flags,
            r.handler == handler,
    {
        Cmd {
            name: self.name,
            description: self.description,
            author: self.author,
            version: self.version,
            flags: self.flags,
            handler,
        }
    }

    /// The command with its handler set to a function of the help string
    /// and the evaluated flag values.
    pub fn with_helpstring_handler<A, B, NH, R>(self, handler: NH) -> (r: Cmd<T, NH>) where
        A: DeepView<V = Seq<Seq<char>>>,
        B: DeepView,
        T: Evaluatable<A, B>,
        NH: Fn(String, B) -> R,

        ensures
            r.name == self.name,
            r.description == self.description,
            r.author == self.author,
            r.version == self.version,
            r.flags == self.flags,
            r.handler == handler,
    {
        Cmd {
            name: self.name,
            description: self.description,
            author: self.author,
            version: self.version,
            flags: self.flags,
            handler,
        }
    }
}

impl<T: IsFlag, H> Cmd<T, H> {
    /// The command with `new_flag` joined after its existing flags.
    pub fn with_flag<NF>(self, new_flag: NF) -> (r: Cmd<Join<T, NF>, H>)
        ensures
            r.name == self.name,
            r.description == self.description,
            r.author == self.author,
            r.version == self.version,
            r.flags.evaluator1 == self.flags,
            r.flags.evaluator2 == new_flag,
            r.handler == self.handler,
    {
        Cmd {
            name: self.name,
            description: self.description,
            author: self.author,
            version: self.version,
            flags: Join::new(self.flags, new_flag),
            handler: self.handler,
        }
    }
}

/// The specification shared by [`Cmd`] and [`CmdGroup`] evaluation: the
/// first token's file-name component must equal `name`; the inner
/// evaluator then runs on the remaining tokens, its failure passing
/// through, and its span is rebased by one with the index `0` prepended
/// for the consumed name token.
pub open spec fn spec_command_eval<V>(
    name: Seq<char>,
    inner: SpecEvalResult<V>,
    input: Seq<Seq<char>>,
) -> SpecEvalResult<V> {
    if input.len() > 0 && spec_file_name(input[0]) == Some(name) {
        match inner {
            Ok((s, b)) => Ok((seq![0usize] + spec_offset_indices(s, 1), b)),
            Err(e) => Err(e),
        }
    } else {
        Err(SpecCliError::AmbiguousCommand)
    }
}

impl<'a, F, H, B> Evaluatable<&'a [&'a str], B> for Cmd<F, H> where
    B: DeepView,
    F: Evaluatable<&'a [&'a str], B>,
 {
    /// Per [`spec_command_eval`], with the command's flags as the inner
    /// evaluator.
    open spec fn spec_eval(&self, input: Seq<Seq<char>>) -> SpecEvalResult<B::V> {
        spec_command_eval(self.name@, self.flags.spec_eval(input.skip(1)), input)
    }

    fn evaluate(&self, input: &'a [&'a str]) -> (r: EvaluateResult<B>) {
        if input.len() > 0 {
            proof {
                assert(input.deep_view()[0] == input@[0]@);
            }
            match file_name(input[0]) {
                Some(base) => {
                    if str_eq(base, self.name.as_str()) {
                        let tail = tail_from(input, 1);
                        match self.flags.evaluate(tail) {
                            Ok(v) => {
                                let rebased = v.from_offset(1);
                                let joined = Span::from_range(0..1usize).join(rebased.span);
                                proof {
                                    assert(spec_range_indices(0, 1) =~= seq![0usize]);
                                }
                                Ok(Value::new(joined, rebased.value))
                            },
                            Err(e) => Err(e),
                        }
                    } else {
                        Err(CliError::AmbiguousCommand)
                    }
                },
                None => Err(CliError::AmbiguousCommand),
            }
        } else {
            Err(CliError::AmbiguousCommand)
        }
    }
}

impl<F, H> ShortHelpable for Cmd<F, H> {
    type Output = String;

    /// The name padded to fifteen characters, a space, and the
    /// description.
    open spec fn spec_short_help(&self) -> Seq<char> {
        crate::help::spec_pad_right(self.name@, 15) + " "@ + self.description@
    }

    fn short_help(&self) -> (r: String) {
        let padded = crate::help::pad_right(self.name.as_str(), 15);
        padded.concat(" ").concat(self.description.as_str())
    }
}

impl<F: ShortHelpable<Output = FlagHelpCollector>, H> Helpable for Cmd<F, H> {
    type Output = String;

    /// A usage line, the description, and the rendered flag entries.
    open spec fn spec_help(&self) -> Seq<char> {
        "Usage: "@ + self.name@ + " [OPTIONS]\n"@ + self.description@ + "\nFlags:\n"@
            + spec_render_collector(self.flags.spec_short_help())
    }

    fn help(&self) -> (r: String) {
        let rendered = self.flags.short_help().render();
        let r = String::from_str("Usage: ").concat(self.name.as_str()).concat(
            " [OPTIONS]\n",
        ).concat(self.description.as_str()).concat("\nFlags:\n").concat(rendered.as_str());
        proof {
            assert(r@ =~= self.spec_help());
        }
        r
    }
}

/// A named grouping of commands: the group's own name is matched first,
/// then dispatch falls to the grouped commands on the remaining tokens.
#[derive(Debug)]
pub struct CmdGroup<C> {
    pub name: String,
    pub description: String,
    pub author: String,
    pub version: String,
    pub commands: C,
}

impl CmdGroup<()> {
    /// A group with the given name, no commands, and empty metadata.
    pub fn new(name: &str) -> (r: Self)
        ensures
            r.name@ == name@,
            r.description@ == Seq::<char>::empty(),
            r.author@ == Seq::<char>::empty(),
            r.version@ == Seq::<char>::empty(),
    {
        Self {
            name: name.to_owned(),
            description: String::new(),
            author: String::new(),
            version: String::new(),
            commands: (),
        }
    }

    /// The group with its (absent) command replaced by `new_cmd`.
    pub fn with_command<NC>(self, new_cmd: NC) -> (r: CmdGroup<NC>)
        ensures
            r.name == self.name,
            r.description == self.description,
            r.author == self.author,
            r.version == self.version,
            r.commands == new_cmd,
    {
        CmdGroup {
            name: self.name,
            description: self.description,
            author: self.author,
            version: self.version,
            commands: new_cmd,
        }
    }
}

impl<C> CmdGroup<C> {
    /// The group renamed.
    pub fn name(self, name: &str) -> (r: Self)
        ensures
            r.name@ == name@,
            r.description == self.description,
            r.author == self.author,
            r.version == self.version,
            r.commands == self.commands,
    {
        Self { name: name.to_owned(), ..self }
    }

    /// The group with its description replaced.
    pub fn description(self, description: &str) -> (r: Self)
        ensures
            r.name == self.name,
            r.description@ == description@,
            r.author == self.author,
            r.version == self.version,
            r.commands == self.commands,
    {
        Self { description: description.to_owned(), ..self }
    }

    /// The group with its author replaced.
    pub fn author(self, author: &str) -> (r: Self)
        ensures
            r.name == self.name,
            r.description == self.description,
            r.author@ == author@,
            r.version == self.version,
            r.commands == self.commands,
    {
        Self { author: author.to_owned(), ..self }
    }

    /// The group with its version replaced.
    pub fn version(self, version: &str) -> (r: Self)
        ensures
            r.name == self.name,
            r.description == self.description,
            r.author == self.author,
            r.version@ == version@,
            r.commands == self.commands,
    {
        Self { version: version.to_owned(), ..self }
    }
}

impl<C: IsCmd> CmdGroup<C> {
    /// The group with `new_cmd` as one more exclusive alternative.
    pub fn with_command<NC>(self, new_cmd: NC) -> (r: CmdGroup<OneOf<C, NC>>)
        ensures
            r.name == self.name,
            r.description == self.description,
            r.author == self.author,
            r.version == self.version,
            r.commands.left == self.commands,
            r.commands.right == new_cmd,
    {
        CmdGroup {
            name: self.name,
            description: self.description,
            author: self.author,
            version: self.version,
            commands: OneOf::new(self.commands, new_cmd),
        }
    }
}

impl<'a, C, B> Evaluatable<&'a [&'a str], B> for CmdGroup<C> where
    B: DeepView,
    C: Evaluatable<&'a [&'a str], B>,
 {
    /// Per [`spec_command_eval`], with the grouped commands as the inner
    /// evaluator.
    open spec fn spec_eval(&self, input: Seq<Seq<char>>) -> SpecEvalResult<B::V> {
        spec_command_eval(self.name@, self.commands.spec_eval(input.skip(1)), input)
    }

    fn evaluate(&self, input: &'a [&'a str]) -> (r: EvaluateResult<B>) {
        if input.len() > 0 {
            proof {
                assert(input.deep_view()[0] == input@[0]@);
            }
            match file_name(input[0]) {
                Some(base) => {
                    if str_eq(base, self.name.as_str()) {
                        let tail = tail_from(input, 1);
                        match self.commands.evaluate(tail) {
                            Ok(v) => {
                                let rebased = v.from_offset(1);
                                let joined = Span::from_range(0..1usize).join(rebased.span);
                                proof {
                                    assert(spec_range_indices(0, 1) =~= seq![0usize]);
                                }
                                Ok(Value::new(joined, rebased.value))
                            },
                            Err(e) => Err(e),
                        }
                    } else {
                        Err(CliError::AmbiguousCommand)
                    }
                },
                None => Err(CliError::AmbiguousCommand),
            }
        } else {
            Err(CliError::AmbiguousCommand)
        }
    }
}

impl<C: ShortHelpable<Output = String>> Helpable for CmdGroup<C> {
    type Output = String;

    /// A usage line, the description, and the subcommand summaries.
    open spec fn spec_help(&self) -> Seq<char> {
        "Usage: "@ + self.name@ + " [OPTIONS]\n"@ + self.description@ + "\nSubcommands:\n"@
            + self.commands.spec_short_help()
    }

    fn help(&self) -> (r: String) {
        let rendered = self.commands.short_help();
        let r = String::from_str("Usage: ").concat(self.name.as_str()).concat(
            " [OPTIONS]\n",
        ).concat(self.description.as_str()).concat("\nSubcommands:\n").concat(rendered.as_str());
        proof {
            assert(r@ =~= self.spec_help());
        }
        r
    }
}

/// Dispatches evaluated flag values to a handler.
pub trait Dispatchable<A, B, R> {
    /// What must hold of the values before dispatching.
    spec fn dispatch_req(&self, b: B) -> bool;

    /// What holds of the handler's result.
    spec fn dispatch_ens(&self, b: B, r: R) -> bool;

    /// Hands the unwrapped values to the handler.
    fn dispatch(self, flag_values: Value<B>) -> (r: R)
        requires
            self.dispatch_req(flag_values.value),
        ensures
            self.dispatch_ens(flag_values.value, r),
    ;
}

/// Dispatches evaluated flag values plus unused arguments to a handler.
pub trait DispatchableWithArgs<A, B, R> {
    /// What must hold of the values and arguments before dispatching.
    spec fn dispatch_args_req(&self, b: B, args: Vec<String>) -> bool;

    /// What holds of the handler's result.
    spec fn dispatch_args_ens(&self, b: B, args: Vec<String>, r: R) -> bool;

    /// Hands the unwrapped values and the arguments to the handler.
    fn dispatch_with_args(self, flag_values: Value<B>, args: Vec<String>) -> (r: R)
        requires
            self.dispatch_args_req(flag_values.value, args),
        ensures
            self.dispatch_args_ens(flag_values.value, args, r),
    ;
}

/// Dispatches evaluated flag values together with a help string.
pub trait DispatchableWithHelpString<B, R> {
    /// What must hold of the values before dispatching with the computed
    /// help string.
    spec fn dispatch_hs_req(&self, b: B) -> bool;

    /// What holds of the handler's result when the help string was
    /// computed here.
    spec fn dispatch_hs_ens(&self, b: B, r: R) -> bool;

    /// What must hold of a supplied help string and the values.
    spec fn dispatch_hss_req(&self, help_string: String, b: B) -> bool;

    /// What holds of the handler's result for a supplied help string.
    spec fn dispatch_hss_ens(&self, help_string: String, b: B, r: R) -> bool;

    /// Computes this command's help string and hands it to the handler
    /// with the unwrapped values.
    fn dispatch_with_helpstring(self, flag_values: Value<B>) -> (r: R)
        requires
            self.dispatch_hs_req(flag_values.value),
        ensures
            self.dispatch_hs_ens(flag_values.value, r),
    ;

    /// Hands a ready-made help string to the handler with the unwrapped
    /// values.
    fn dispatch_with_supplied_helpstring(self, help_string: String, flag_values: Value<B>) -> (r:
        R)
        requires
            self.dispatch_hss_req(help_string, flag_values.value),
        ensures
            self.dispatch_hss_ens(help_string, flag_values.value, r),
    ;
}

impl<A, T, H, B, R> Dispatchable<A, B, R> for Cmd<T, H> where
    A: DeepView<V = Seq<Seq<char>>>,
    B: DeepView,
    T: Evaluatable<A, B>,
    H: Fn(B) -> R,
 {
    /// The handler must accept the values.
    open spec fn dispatch_req(&self, b: B) -> bool {
        call_requires(self.handler, (b,))
    }

    /// The result is one the handler can return for the values.
    open spec fn dispatch_ens(&self, b: B, r: R) -> bool {
        call_ensures(self.handler, (b,), r)
    }

    fn dispatch(self, flag_values: Value<B>) -> (r: R) {
        let inner = flag_values.unwrap();
        (self.handler)(inner)
    }
}

impl<A, T, H, B, R> DispatchableWithArgs<A, B, R> for Cmd<T, H> where
    A: DeepView<V = Seq<Seq<char>>>,
    B: DeepView,
    T: Evaluatable<A, B>,
    H: Fn(B, Vec<String>) -> R,
 {
    /// The handler must accept the values and the arguments.
    open spec fn dispatch_args_req(&self, b: B, args: Vec<String>) -> bool {
        call_requires(self.handler, (b, args))
    }

    /// The result is one the handler can return for them.
    open spec fn dispatch_args_ens(&self, b: B, args: Vec<String>, r: R) -> bool {
        call_ensures(self.handler, (b, args), r)
    }

    fn dispatch_with_args(self, flag_values: Value<B>, args: Vec<String>) -> (r: R) {
        let inner = flag_values.unwrap();
        (self.handler)(inner, args)
    }
}

impl<T, H, B, R> DispatchableWithHelpString<B, R> for Cmd<T, H> where
    Self: Helpable<Output = String>,
    H: Fn(String, B) -> R,
 {
    /// The handler must accept this command's help string and the values.
    open spec fn dispatch_hs_req(&self, b: B) -> bool {
        forall|s: String| s@ == self.spec_help() ==> call_requires(self.handler, (s, b))
    }

    /// The result is one the handler can return for this command's help
    /// string and the values.
    open spec fn dispatch_hs_ens(&self, b: B, r: R) -> bool {
        exists|s: String| s@ == self.spec_help() && call_ensures(self.handler, (s, b), r)
    }

    /// The handler must accept the supplied string and the values.
    open spec fn dispatch_hss_req(&self, help_string: String, b: B) -> bool {
        call_requires(self.handler, (help_string, b))
    }

    /// The result is one the handler can return for them.
    open spec fn dispatch_hss_ens(&self, help_string: String, b: B, r: R) -> bool {
        call_ensures(self.handler, (help_string, b), r)
    }

    fn dispatch_with_helpstring(self, flag_values: Value<B>) -> (r: R) {
        let inner = flag_values.unwrap();
        let help_string = self.help();
        (self.handler)(help_string, inner)
    }

    fn dispatch_with_supplied_helpstring(self, help_string: String, flag_values: Value<B>) -> (r:
        R) {
        let inner = flag_values.unwrap();
        (self.handler)(help_string, inner)
    }
}

impl<A, C1, C2, B, C, R> Dispatchable<A, Either<B, C>, R> for OneOf<C1, C2> where
    C1: Dispatchable<A, B, R>,
    C2: Dispatchable<A, C, R>,
 {
    /// The matching child must accept its side of the value.
    open spec fn dispatch_req(&self, b: Either<B, C>) -> bool {
        match b {
            Either::Left(bb) => self.left.dispatch_req(bb),
            Either::Right(cc) => self.right.dispatch_req(cc),
        }
    }

    /// The matching child's guarantee.
    open spec fn dispatch_ens(&self, b: Either<B, C>, r: R) -> bool {
        match b {
            Either::Left(bb) => self.left.dispatch_ens(bb, r),
            Either::Right(cc) => self.right.dispatch_ens(cc, r),
        }
    }

    fn dispatch(self, flag_values: Value<Either<B, C>>) -> (r: R) {
        let Value { span, value } = flag_values;
        match value {
            Either::Left(b) => self.left.dispatch(Value::new(span, b)),
            Either::Right(c) => self.right.dispatch(Value::new(span, c)),
        }
    }
}

impl<A, C1, C2, B, C, R> DispatchableWithArgs<A, Either<B, C>, R> for OneOf<C1, C2> where
    C1: DispatchableWithArgs<A, B, R>,
    C2: DispatchableWithArgs<A, C, R>,
 {
    /// The matching child must accept its side of the value and the
    /// arguments.
    open spec fn dispatch_args_req(&self, b: Either<B, C>, args: Vec<String>) -> bool {
        match b {
            Either::Left(bb) => self.left.dispatch_args_req(bb, args),
            Either::Right(cc) => self.right.dispatch_args_req(cc, args),
        }
    }

    /// The matching child's guarantee.
    open spec fn dispatch_args_ens(&self, b: Either<B, C>, args: Vec<String>, r: R) -> bool {
        match b {
            Either::Left(bb) => self.left.dispatch_args_ens(bb, args, r),
            Either::Right(cc) => self.right.dispatch_args_ens(cc, args, r),
        }
    }

    fn dispatch_with_args(self, flag_values: Value<Either<B, C>>, args: Vec<String>) -> (r: R) {
        let Value { span, value } = flag_values;
        match value {
            Either::Left(b) => self.left.dispatch_with_args(Value::new(span, b), args),
            Either::Right(c) => self.right.dispatch_with_args(Value::new(span, c), args),
        }
    }
}

impl<C1, C2, B, C, R> DispatchableWithHelpString<Either<B, C>, R> for OneOf<C1, C2> where
    Self: Helpable<Output = String>,
    C1: DispatchableWithHelpString<B, R>,
    C2: DispatchableWithHelpString<C, R>,
 {
    /// The matching child must accept this pair's help string and its side
    /// of the value.
    open spec fn dispatch_hs_req(&self, b: Either<B, C>) -> bool {
        forall|s: String|
            s@ == self.spec_help() ==> match b {
                Either::Left(bb) => self.left.dispatch_hss_req(s, bb),
                Either::Right(cc) => self.right.dispatch_hss_req(s, cc),
            }
    }

    /// The matching child's guarantee, for this pair's help string.
    open spec fn dispatch_hs_ens(&self, b: Either<B, C>, r: R) -> bool {
        exists|s: String|
            s@ == self.spec_help() && match b {
                Either::Left(bb) => self.left.dispatch_hss_ens(s, bb, r),
                Either::Right(cc) => self.right.dispatch_hss_ens(s, cc, r),
            }
    }

    /// The matching child must accept the supplied string and its side of
    /// the value.
    open spec fn dispatch_hss_req(&self, help_string: String, b: Either<B, C>) -> bool {
        match b {
            Either::Left(bb) => self.left.dispatch_hss_req(help_string, bb),
            Either::Right(cc) => self.right.dispatch_hss_req(help_string, cc),
        }
    }

    /// The matching child's guarantee.
    open spec fn dispatch_hss_ens(&self, help_string: String, b: Either<B, C>, r: R) -> bool {
        match b {
            Either::Left(bb) => self.left.dispatch_hss_ens(help_string, bb, r),
            Either::Right(cc) => self.right.dispatch_hss_ens(help_string, cc, r),
        }
    }

    fn dispatch_with_helpstring(self, flag_values: Value<Either<B, C>>) -> (r: R) {
        let help_string = self.help();
        let Value { span, value } = flag_values;
        match value {
            Either::Left(b) => self.left.dispatch_with_supplied_helpstring(
                help_string,
                Value::new(span, b),
            ),
            Either::Right(c) => self.right.dispatch_with_supplied_helpstring(
                help_string,
                Value::new(span, c),
            ),
        }
    }

    fn dispatch_with_supplied_helpstring(
        self,
        help_string: String,
        flag_values: Value<Either<B, C>>,
    ) -> (r: R) {
        let Value { span, value } = flag_values;
        match value {
            Either::Left(b) => self.left.dispatch_with_supplied_helpstring(
                help_string,
                Value::new(span, b),
            ),
            Either::Right(c) => self.right.dispatch_with_supplied_helpstring(
                help_string,
                Value::new(span, c),
            ),
        }
    }
}

impl<A, C, B, R> Dispatchable<A, B, R> for CmdGroup<C> where C: Dispatchable<A, B, R> {
    /// The grouped commands must accept the values.
    open spec fn dispatch_req(&self, b: B) -> bool {
        self.commands.dispatch_req(b)
    }

    /// The grouped commands' guarantee.
    open spec fn dispatch_ens(&self, b: B, r: R) -> bool {
        self.commands.dispatch_ens(b, r)
    }

    fn dispatch(self, flag_values: Value<B>) -> (r: R) {
        self.commands.dispatch(flag_values)
    }
}

impl<A, C, B, R> DispatchableWithArgs<A, B, R> for CmdGroup<C> where
    C: DispatchableWithArgs<A, B, R>,
 {
    /// The grouped commands must accept the values and the arguments.
    open spec fn dispatch_args_req(&self, b: B, args: Vec<String>) -> bool {
        self.commands.dispatch_args_req(b, args)
    }

    /// The grouped commands' guarantee.
    open spec fn dispatch_args_ens(&self, b: B, args: Vec<String>, r: R) -> bool {
        self.commands.dispatch_args_ens(b, args, r)
    }

    fn dispatch_with_args(self, flag_values: Value<B>, args: Vec<String>) -> (r: R) {
        self.commands.dispatch_with_args(flag_values, args)
    }
}

impl<C, B, R> DispatchableWithHelpString<B, R> for CmdGroup<C> where
    Self: Helpable<Output = String>,
    C: DispatchableWithHelpString<B, R>,
 {
    /// The grouped commands must accept this group's help string and the
    /// values.
    open spec fn dispatch_hs_req(&self, b: B) -> bool {
        forall|s: String| s@ == self.spec_help() ==> self.commands.dispatch_hss_req(s, b)
    }

    /// The grouped commands' guarantee, for this group's help string.
    open spec fn dispatch_hs_ens(&self, b: B, r: R) -> bool {
        exists|s: String| s@ == self.spec_help() && self.commands.dispatch_hss_ens(s, b, r)
    }

    /// The grouped commands must accept the supplied string and the
    /// values.
    open spec fn dispatch_hss_req(&self, help_string: String, b: B) -> bool {
        self.commands.dispatch_hss_req(help_string, b)
    }

    /// The grouped commands' guarantee.
    open spec fn dispatch_hss_ens(&self, help_string: String, b: B, r: R) -> bool {
        self.commands.dispatch_hss_ens(help_string, b, r)
    }

    fn dispatch_with_helpstring(self, flag_values: Value<B>) -> (r: R) {
        let help_string = self.help();
        self.commands.dispatch_with_supplied_helpstring(help_string, flag_values)
    }

    fn dispatch_with_supplied_helpstring(self, help_string: String, flag_values: Value<B>) -> (r:
        R) {
        self.commands.dispatch_with_supplied_helpstring(help_string, flag_values)
    }
}

} // verus!
