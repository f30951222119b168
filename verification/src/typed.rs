//! A simpler, earlier evaluator layer: values come back bare, without
//! spans, and failures are plain strings. It mirrors the spanned layer in
//! shape — terminal string flags, joins, optional wrapping and defaults —
//! and shares its scanning specifications.

use vstd::prelude::*;
use vstd::string::StringExecFns;

use crate::eval::tail_from;
use crate::eval::PlainValue;
use crate::help::spec_modifier_list;
use crate::help::HelpText;
use crate::strings::str_eq;
use crate::terminal::spec_first_match;

verus! {

/// The outcome of an evaluation in this layer: a bare value, or a message.
pub type EvaluateResult<V> = Result<V, String>;

/// Specification-level outcome: the abstract value, or the message's
/// characters.
pub type SpecTypedResult<V> = Result<V, Seq<char>>;

/// Evaluator turns an input of raw tokens into a bare typed value, with a
/// string message on failure. `spec_eval` describes each implementation,
/// and `evaluate` is proved to agree with it.
pub trait Evaluator<A: DeepView<V = Seq<Seq<char>>>, B: DeepView> where Self: Sized {
    /// What this evaluator returns on the given token sequences.
    spec fn spec_eval(&self, input: Seq<Seq<char>>) -> SpecTypedResult<B::V>;

    /// Runs the evaluator on the input tokens.
    fn evaluate(&self, input: A) -> (r: EvaluateResult<B>)
        ensures
            match r {
                Ok(v) => self.spec_eval(input.deep_view()) == Ok::<_, Seq<char>>(v.deep_view()),
                Err(e) => self.spec_eval(input.deep_view()) == Err::<B::V, _>(e@),
            },
    ;

    /// Sequences this evaluator with `evaluator2` into a [`Join`].
    fn join<E>(self, evaluator2: E) -> (r: Join<Self, E>)
        ensures
            r.evaluator1 == self,
            r.evaluator2 == evaluator2,
    {
        Join::new(self, evaluator2)
    }
}

/// A terminal flag evaluator: scans for `--name` or `-short_code` and
/// yields the following token verbatim.
#[derive(Debug, Clone, PartialEq)]
pub struct ExpectStringValue {
    pub name: String,
    pub short_code: String,
    pub description: String,
}

impl ExpectStringValue {
    /// A string flag for `--name` / `-short_code`.
    pub fn new(name: &str, short_code: &str, description: &str) -> (r: Self)
        ensures
            r.name@ == name@,
            r.short_code@ == short_code@,
            r.description@ == description@,
    {
        Self {
            name: name.to_owned(),
            short_code: short_code.to_owned(),
            description: description.to_owned(),
        }
    }
}

impl<'a> Evaluator<&'a [&'a str], String> for ExpectStringValue {
    /// The token after the first matching flag token; `No matching Value`
    /// when the flag is missing or is the last token.
    open spec fn spec_eval(&self, input: Seq<Seq<char>>) -> SpecTypedResult<Seq<char>> {
        match spec_first_match(input, self.name@, self.short_code@) {
            Some(idx) => if idx + 1 < input.len() {
                Ok(input[idx + 1])
            } else {
                Err("No matching Value"@)
            },
            None => Err("No matching Value"@),
        }
    }

    fn evaluate(&self, input: &'a [&'a str]) -> (r: EvaluateResult<String>) {
        match crate::terminal::find_first_flag(
            input,
            self.name.as_str(),
            self.short_code.as_str(),
        ) {
            Some(i) => {
                let n = input.len();
                if i + 1 < n {
                    proof {
                        assert(input.deep_view()[i + 1] == input@[i + 1]@);
                    }
                    Ok(input[i + 1].to_owned())
                } else {
                    Err(String::from_str("No matching Value"))
                }
            },
            None => Err(String::from_str("No matching Value")),
        }
    }
}

/// Joins two evaluators into one yielding both results as a pair; a
/// failing side's message is wrapped to say which side failed.
#[derive(Debug, Clone, PartialEq)]
pub struct Join<E1, E2> {
    pub evaluator1: E1,
    pub evaluator2: E2,
}

impl<E1, E2> Join<E1, E2> {
    /// Joins `evaluator1` and `evaluator2`.
    pub fn new(evaluator1: E1, evaluator2: E2) -> (r: Self)
        ensures
            r.evaluator1 == evaluator1,
            r.evaluator2 == evaluator2,
    {
        Self { evaluator1, evaluator2 }
    }
}

impl<A, E1, E2, B, C> Evaluator<A, (B, C)> for Join<E1, E2> where
    A: DeepView<V = Seq<Seq<char>>> + Copy,
    B: DeepView,
    C: DeepView,
    E1: Evaluator<A, B>,
    E2: Evaluator<A, C>,
 {
    /// Both children evaluate the same input; the first failure is wrapped
    /// with the failing side's name, and a double success pairs the
    /// values.
    open spec fn spec_eval(&self, input: Seq<Seq<char>>) -> SpecTypedResult<(B::V, C::V)> {
        match self.evaluator1.spec_eval(input) {
            Ok(b) => match self.evaluator2.spec_eval(input) {
                Ok(c) => Ok((b, c)),
                Err(e) => Err("failed to map right side: "@ + e),
            },
            Err(e) => Err("failed to map left side: "@ + e),
        }
    }

    fn evaluate(&self, input: A) -> (r: EvaluateResult<(B, C)>) {
        match self.evaluator1.evaluate(input) {
            Ok(b) => match self.evaluator2.evaluate(input) {
                Ok(c) => Ok((b, c)),
                Err(e) => Err(
                    String::from_str("failed to map right side: ").concat(e.as_str()),
                ),
            },
            Err(e) => Err(String::from_str("failed to map left side: ").concat(e.as_str())),
        }
    }
}

/// Converts an evaluator's failure into `None` instead of an error.
#[derive(Debug, Clone, PartialEq)]
pub struct Optional<E> {
    pub evaluator: E,
}

impl<E> Optional<E> {
    /// Wraps `evaluator` so that its failures become `None`.
    pub fn new(evaluator: E) -> (r: Self)
        ensures
            r.evaluator == evaluator,
    {
        Self { evaluator }
    }
}

impl<A, E, B> Evaluator<A, Option<B>> for Optional<E> where
    A: DeepView<V = Seq<Seq<char>>>,
    B: DeepView,
    E: Evaluator<A, B>,
 {
    /// Always succeeds: the child's success is wrapped in `Some`, and the
    /// child's failure becomes `None`, its message discarded.
    open spec fn spec_eval(&self, input: Seq<Seq<char>>) -> SpecTypedResult<Option<B::V>> {
        match self.evaluator.spec_eval(input) {
            Ok(b) => Ok(Some(b)),
            Err(_) => Ok(None),
        }
    }

    fn evaluate(&self, input: A) -> (r: EvaluateResult<Option<B>>) {
        match self.evaluator.evaluate(input) {
            Ok(b) => Ok(Some(b)),
            Err(_) => Ok(None),
        }
    }
}

/// Substitutes a default value when its child yields `None`.
#[derive(Debug, Clone, PartialEq)]
pub struct WithDefault<B, E> {
    pub default: B,
    pub evaluator: E,
}

impl<B, E> WithDefault<B, E> {
    /// Wraps `evaluator`, substituting `default` when it yields `None`.
    pub fn new<D: Into<B>>(default: D, evaluator: E) -> (r: Self)
        ensures
            r.evaluator == evaluator,
            call_ensures(<D as Into<B>>::into, (default,), r.default),
    {
        Self { default: default.into(), evaluator }
    }
}

impl<A, B, E> Evaluator<A, B> for WithDefault<B, E> where
    A: DeepView<V = Seq<Seq<char>>>,
    B: PlainValue,
    E: Evaluator<A, Option<B>>,
 {
    /// Passes the child's failure through; unwraps the child's `Some`
    /// value; replaces the child's `None` with the default.
    open spec fn spec_eval(&self, input: Seq<Seq<char>>) -> SpecTypedResult<B::V> {
        match self.evaluator.spec_eval(input) {
            Ok(Some(b)) => Ok(b),
            Ok(None) => Ok(self.default.deep_view()),
            Err(e) => Err(e),
        }
    }

    fn evaluate(&self, input: A) -> (r: EvaluateResult<B>) {
        match self.evaluator.evaluate(input) {
            Ok(Some(b)) => Ok(b),
            Ok(None) => Ok(self.default.duplicate()),
            Err(e) => Err(e),
        }
    }
}

/// A trait for evaluators of this layer that can be made optional and
/// given a default.
pub trait Defaultable where Self: Sized {
    /// Wraps this evaluator in a [`WithDefault`] carrying `default`.
    fn with_default<D>(self, default: D) -> (r: WithDefault<D, Self>)
        ensures
            r.default == default,
            r.evaluator == self,
    {
        WithDefault { default, evaluator: self }
    }

    /// Wraps this evaluator in an [`Optional`].
    fn optional(self) -> (r: Optional<Self>)
        ensures
            r.evaluator == self,
    {
        Optional { evaluator: self }
    }
}

impl Defaultable for ExpectStringValue {

}

impl<E: Defaultable> Defaultable for Optional<E> {

}

/// A constructor type gathering helpers that build this layer's flags.
pub struct Flag;

impl Flag {
    /// A flag expecting one string value.
    pub fn expect_string(name: &str, short_code: &str, description: &str) -> (r:
        ExpectStringValue)
        ensures
            r.name@ == name@,
            r.short_code@ == short_code@,
            r.description@ == description@,
    {
        ExpectStringValue::new(name, short_code, description)
    }
}

/// A named command of this layer: metadata, a flag evaluator, and a
/// handler.
#[derive(Debug)]
pub struct Cmd<F, H> {
    pub name: String,
    pub description: String,
    pub author: String,
    pub version: String,
    pub flags: F,
    pub handler: H,
}

impl Cmd<(), ()> {
    /// A command with the given name, no flags, no handler, and empty
    /// metadata.
    pub fn new(name: &str) -> (r: Self)
        ensures
            r.name@ == name@,
            r.description@ == Seq::<char>::empty(),
            r.author@ == Seq::<char>::empty(),
            r.version@ == Seq::<char>::empty(),
    {
        Self {
            name: name.to_owned(),
            description: String::new(),
            author: String::new(),
            version: String::new(),
            flags: (),
            handler: (),
        }
    }
}

impl<T, H> Cmd<T, H> {
    /// The command renamed.
    pub fn name(self, name: &str) -> (r: Self)
        ensures
            r.name@ == name@,
            r.description == self.description,
            r.author == self.author,
            r.version == self.version,
            r.flags == self.flags,
            r.handler == self.handler,
    {
        Self { name: name.to_owned(), ..self }
    }

    /// The command with its description replaced.
    pub fn description(self, description: &str) -> (r: Self)
        ensures
            r.name == self.name,
            r.description@ == description@,
            r.author == self.author,
            r.version == self.version,
            r.flags == self.flags,
            r.handler == self.handler,
    {
        Self { description: description.to_owned(), ..self }
    }

    /// The command with its author replaced.
    pub fn author(self, author: &str) -> (r: Self)
        ensures
            r.name == self.name,
            r.description == self.description,
            r.author@ == author@,
            r.version == self.version,
            r.flags == self.flags,
            r.handler == self.handler,
    {
        Self { author: author.to_owned(), ..self }
    }

    /// The command with its version replaced.
    pub fn version(self, version: &str) -> (r: Self)
        ensures
            r.name == self.name,
            r.description == self.description,
            r.author == self.author,
            r.version@ == version@,
            r.flags == self.flags,
            r.handler == self.handler,
    {
        Self { version: version.to_owned(), ..self }
    }

    /// The command with its flag evaluator replaced.
    pub fn with_flags<F>(self, flags: F) -> (r: Cmd<F, H>)
        ensures
            r.name == self.name,
            r.description == self.description,
            r.author == self.author,
            r.version == self.version,
            r.flags == flags,
            r.handler == self.handler,
    {
        Cmd {
            name: self.name,
            description: self.description,
            author: self.author,
            version: self.version,
            flags,
            handler: self.handler,
        }
    }

    /// The command with its handler set to a function of the evaluated
    /// flag values.
    pub fn with_handler<A, B, NH>(self, handler: NH) -> (r: Cmd<T, NH>) where
        A: DeepView<V = Seq<Seq<char>>>,
        B: DeepView,
        T: Evaluator<A, B>,
        NH: Fn(B),

        ensures
            r.name == self.name,
            r.description == self.description,
            r.author == self.author,
            r.version == self.version,
            r.flags == self.flags,
            r.handler == handler,
    {
        Cmd {
            name: self.name,
            description: self.description,
            author: self.author,
            version: self.version,
            flags: self.flags,
            handler,
        }
    }
}

impl<'a, F, H, B> Evaluator<&'a [&'a str], B> for Cmd<F, H> where
    B: DeepView,
    F: Evaluator<&'a [&'a str], B>,
 {
    /// The first token must equal the command's name exactly; the flags
    /// then evaluate against the remaining tokens, errors and values
    /// passing through.
    open spec fn spec_eval(&self, input: Seq<Seq<char>>) -> SpecTypedResult<B::V> {
        if input.len() > 0 && input[0] == self.name@ {
            self.flags.spec_eval(input.skip(1))
        } else {
            Err("no match for command: "@ + self.name@)
        }
    }

    fn evaluate(&self, input: &'a [&'a str]) -> (r: EvaluateResult<B>) {
        if input.len() > 0 {
            proof {
                assert(input.deep_view()[0] == input@[0]@);
            }
            if str_eq(input[0], self.name.as_str()) {
                self.flags.evaluate(tail_from(input, 1))
            } else {
                Err(String::from_str("no match for command: ").concat(self.name.as_str()))
            }
        } else {
            Err(String::from_str("no match for command: ").concat(self.name.as_str()))
        }
    }
}

/// Specification-level mirror of [`FlagHelpContext`].
pub struct SpecTypedFlagHelp {
    pub name: Seq<char>,
    pub short_code: Seq<char>,
    pub description: Seq<char>,
    pub modifiers: Seq<Seq<char>>,
}

/// Specification-level mirror of [`FlagHelpCollector`].
pub enum SpecTypedHelpCollector {
    Single(SpecTypedFlagHelp),
    Joined(Box<SpecTypedHelpCollector>, Box<SpecTypedHelpCollector>),
}

/// Flag data gathered for one help entry of this layer; the rendering is
/// tab-separated rather than padded.
pub struct FlagHelpContext {
    pub name: String,
    pub short_code: String,
    pub description: String,
    pub modifiers: Vec<String>,
}

impl DeepView for FlagHelpContext {
    type V = SpecTypedFlagHelp;

    open spec fn deep_view(&self) -> SpecTypedFlagHelp {
        SpecTypedFlagHelp {
            name: self.name@,
            short_code: self.short_code@,
            description: self.description@,
            modifiers: self.modifiers.deep_view(),
        }
    }
}

impl FlagHelpContext {
    /// Gathers the fields for one flag's help entry.
    pub fn new(name: &str, short_code: &str, description: &str, modifiers: Vec<String>) -> (r:
        Self)
        ensures
            r.name@ == name@,
            r.short_code@ == short_code@,
            r.description@ == description@,
            r.modifiers == modifiers,
    {
        Self {
            name: name.to_owned(),
            short_code: short_code.to_owned(),
            description: description.to_owned(),
            modifiers,
        }
    }

    /// The context with `modifier` appended after the existing modifiers.
    pub fn with_modifier(self, modifier: String) -> (r: Self)
        ensures
            r.name == self.name,
            r.short_code == self.short_code,
            r.description == self.description,
            r.modifiers@ == self.modifiers@.push(modifier),
    {
        let mut modifiers = self.modifiers;
        modifiers.push(modifier);
        Self {
            name: self.name,
            short_code: self.short_code,
            description: self.description,
            modifiers,
        }
    }
}

impl Default for FlagHelpContext {
    /// Empty fields and no modifiers.
    fn default() -> (r: Self)
        ensures
            r.name@ == Seq::<char>::empty(),
            r.short_code@ == Seq::<char>::empty(),
            r.description@ == Seq::<char>::empty(),
            r.modifiers@ == Seq::<String>::empty(),
    {
        Self {
            name: String::new(),
            short_code: String::new(),
            description: String::new(),
            modifiers: Vec::new(),
        }
    }
}

/// One help entry of this layer: `--name, -s`, a tab, the description,
/// and after one more tab the modifier list in brackets when there is one.
pub open spec fn spec_render_typed_context(c: SpecTypedFlagHelp) -> Seq<char> {
    let base = "--"@ + c.name + ", -"@ + c.short_code + "\t"@ + c.description;
    if c.modifiers.len() == 0 {
        base
    } else {
        base + "\t["@ + spec_modifier_list(c.modifiers) + "]"@
    }
}

impl FlagHelpContext {
    /// Renders this flag's help entry, per [`spec_render_typed_context`].
    pub fn render(&self) -> (r: String)
        ensures
            r@ == spec_render_typed_context(self.deep_view()),
    {
        let mut out = String::from_str("--").concat(self.name.as_str()).concat(", -").concat(
            self.short_code.as_str(),
        ).concat("\t").concat(self.description.as_str());
        if self.modifiers.len() > 0 {
            out.append("\t[");
            let ghost mods = self.modifiers.deep_view();
            let mut listed = String::new();
            let mut i: usize = 0;
            while i < self.modifiers.len()
                invariant
                    i <= self.modifiers.len(),
                    mods == self.modifiers.deep_view(),
                    mods.len() == self.modifiers.len(),
                    listed@ == spec_modifier_list(mods.take(i as int)),
                decreases self.modifiers.len() - i,
            {
                proof {
                    assert(mods[i as int] == self.modifiers@[i as int]@);
                }
                if i == 0 {
                    listed = listed.concat("(").concat(self.modifiers[i].as_str()).concat(")");
                    proof {
                        assert(mods.take(1).drop_last() =~= Seq::<Seq<char>>::empty());
                        assert(spec_modifier_list(mods.take(1)) =~= "("@ + mods[0] + ")"@);
                    }
                } else {
                    listed = listed.concat(", (").concat(self.modifiers[i].as_str()).concat(")");
                    proof {
                        assert(mods.take(i + 1).drop_last() =~= mods.take(i as int));
                        assert(mods.take(i + 1).last() == mods[i as int]);
                        assert(listed@ =~= spec_modifier_list(mods.take(i + 1)));
                    }
                }
                i = i + 1;
            }
            proof {
                assert(mods.take(mods.len() as int) =~= mods);
            }
            out.append(listed.as_str());
            out.append("]");
        }
        proof {
            assert(out@ =~= spec_render_typed_context(self.deep_view()));
        }
        out
    }
}

/// Collects this layer's help entries: one per flag, newline-joined for
/// joined evaluators.
pub enum FlagHelpCollector {
    Single(FlagHelpContext),
    Joined(Box<FlagHelpCollector>, Box<FlagHelpCollector>),
}

/// The abstract value of a collector, mirrored structurally.
pub open spec fn spec_typed_collector_view(c: FlagHelpCollector) -> SpecTypedHelpCollector
    decreases c,
{
    match c {
        FlagHelpCollector::Single(ctx) => SpecTypedHelpCollector::Single(ctx.deep_view()),
        FlagHelpCollector::Joined(l, r) => SpecTypedHelpCollector::Joined(
            Box::new(spec_typed_collector_view(*l)),
            Box::new(spec_typed_collector_view(*r)),
        ),
    }
}

impl DeepView for FlagHelpCollector {
    type V = SpecTypedHelpCollector;

    open spec fn deep_view(&self) -> SpecTypedHelpCollector {
        spec_typed_collector_view(*self)
    }
}

impl Default for FlagHelpCollector {
    /// A single, empty context.
    fn default() -> (r: Self)
        ensures
            r matches FlagHelpCollector::Single(c) && c.name@ == Seq::<char>::empty()
                && c.short_code@ == Seq::<char>::empty() && c.description@ == Seq::<char>::empty()
                && c.modifiers@ == Seq::<String>::empty(),
    {
        FlagHelpCollector::Single(FlagHelpContext::default())
    }
}

/// The entries of a collector, joined with newlines.
pub open spec fn spec_render_typed_collector(c: SpecTypedHelpCollector) -> Seq<char>
    decreases c,
{
    match c {
        SpecTypedHelpCollector::Single(ctx) => spec_render_typed_context(ctx),
        SpecTypedHelpCollector::Joined(l, r) => spec_render_typed_collector(*l) + "\n"@
            + spec_render_typed_collector(*r),
    }
}

impl FlagHelpCollector {
    /// Renders the collected help entries, per
    /// [`spec_render_typed_collector`].
    pub fn render(&self) -> (r: String)
        ensures
            r@ == spec_render_typed_collector(self.deep_view()),
        decreases *self,
    {
        match self {
            FlagHelpCollector::Single(ctx) => ctx.render(),
            FlagHelpCollector::Joined(l, r) => {
                let right = r.render();
                l.render().concat("\n").concat(right.as_str())
            },
        }
    }
}

/// Renders a help entry for a type of this layer.
pub trait Helpable {
    /// What the help is rendered as.
    type Output: DeepView;

    /// The abstract value of [`Helpable::help`].
    spec fn spec_help(&self) -> <Self::Output as DeepView>::V;

    /// The help entry.
    fn help(&self) -> (r: Self::Output)
        ensures
            r.deep_view() == self.spec_help(),
    ;
}

impl Helpable for ExpectStringValue {
    type Output = FlagHelpCollector;

    /// A single context with the flag's fields and no modifiers.
    open spec fn spec_help(&self) -> SpecTypedHelpCollector {
        SpecTypedHelpCollector::Single(
            SpecTypedFlagHelp {
                name: self.name@,
                short_code: self.short_code@,
                description: self.description@,
                modifiers: Seq::empty(),
            },
        )
    }

    fn help(&self) -> (r: FlagHelpCollector) {
        let r = FlagHelpCollector::Single(
            FlagHelpContext::new(
                self.name.as_str(),
                self.short_code.as_str(),
                self.description.as_str(),
                Vec::new(),
            ),
        );
        proof {
            assert(r.deep_view() matches SpecTypedHelpCollector::Single(c) && c.modifiers
                =~= Seq::<Seq<char>>::empty());
        }
        r
    }
}

impl<E1: Helpable<Output = FlagHelpCollector>, E2: Helpable<Output = FlagHelpCollector>> Helpable
    for Join<E1, E2> {
    type Output = FlagHelpCollector;

    /// Both children's entries, joined.
    open spec fn spec_help(&self) -> SpecTypedHelpCollector {
        SpecTypedHelpCollector::Joined(
            Box::new(self.evaluator1.spec_help()),
            Box::new(self.evaluator2.spec_help()),
        )
    }

    fn help(&self) -> (r: FlagHelpCollector) {
        FlagHelpCollector::Joined(
            Box::new(self.evaluator1.help()),
            Box::new(self.evaluator2.help()),
        )
    }
}

/// The entry with `modifier` appended when it is a single context, and
/// unchanged when it is a joined one.
pub open spec fn spec_typed_with_modifier(
    c: SpecTypedHelpCollector,
    modifier: Seq<char>,
) -> SpecTypedHelpCollector {
    match c {
        SpecTypedHelpCollector::Single(ctx) => SpecTypedHelpCollector::Single(
            SpecTypedFlagHelp {
                name: ctx.name,
                short_code: ctx.short_code,
                description: ctx.description,
                modifiers: ctx.modifiers.push(modifier),
            },
        ),
        SpecTypedHelpCollector::Joined(l, r) => SpecTypedHelpCollector::Joined(l, r),
    }
}

impl<E: Helpable<Output = FlagHelpCollector>> Helpable for Optional<E> {
    type Output = FlagHelpCollector;

    /// The child's entry with an `optional` modifier.
    open spec fn spec_help(&self) -> SpecTypedHelpCollector {
        spec_typed_with_modifier(self.evaluator.spec_help(), "optional"@)
    }

    fn help(&self) -> (r: FlagHelpCollector) {
        match self.evaluator.help() {
            FlagHelpCollector::Single(ctx) => {
                let ghost old_mods = ctx.modifiers.deep_view();
                let new_ctx = ctx.with_modifier(String::from_str("optional"));
                proof {
                    assert(new_ctx.modifiers.deep_view() =~= old_mods.push("optional"@));
                }
                FlagHelpCollector::Single(new_ctx)
            },
            other => other,
        }
    }
}

impl<B: HelpText, E: Helpable<Output = FlagHelpCollector> + Defaultable> Helpable for WithDefault<
    B,
    E,
> {
    type Output = FlagHelpCollector;

    /// The child's entry with a `default: ...` modifier naming the default
    /// value.
    open spec fn spec_help(&self) -> SpecTypedHelpCollector {
        spec_typed_with_modifier(
            self.evaluator.spec_help(),
            "default: "@ + self.default.spec_help_text(),
        )
    }

    fn help(&self) -> (r: FlagHelpCollector) {
        match self.evaluator.help() {
            FlagHelpCollector::Single(ctx) => {
                let text = self.default.help_text();
                let ghost old_mods = ctx.modifiers.deep_view();
                let new_ctx = ctx.with_modifier(
                    String::from_str("default: ").concat(text.as_str()),
                );
                proof {
                    assert(new_ctx.modifiers.deep_view() =~= old_mods.push(
                        "default: "@ + self.default.spec_help_text(),
                    ));
                }
                FlagHelpCollector::Single(new_ctx)
            },
            other => other,
        }
    }
}

impl<F: Helpable<Output = FlagHelpCollector>, H> Helpable for Cmd<F, H> {
    type Output = String;

    /// The command's name, its description, and the rendered flag entries,
    /// one per line.
    open spec fn spec_help(&self) -> Seq<char> {
        self.name@ + ":\n"@ + self.description@ + "\n"@ + spec_render_typed_collector(
            self.flags.spec_help(),
        )
    }

    fn help(&self) -> (r: String) {
        let rendered = self.flags.help().render();
        let r = self.name.clone().concat(":\n").concat(self.description.as_str()).concat(
            "\n",
        ).concat(rendered.as_str());
        proof {
            assert(r@ =~= self.spec_help());
        }
        r
    }
}

} // verus!
