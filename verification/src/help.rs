//! Help-string rendering: padding, decimal rendering, the flag help
//! contexts, and the traits that hand help strings out.

use vstd::prelude::*;
use vstd::string::StrSliceExecFns;
use vstd::string::StringExecFns;

use crate::combine::Defaultable;
use crate::combine::ExpectStringValue;
use crate::combine::Join;
use crate::combine::Optional;
use crate::combine::StoreFalse;
use crate::combine::StoreTrue;
use crate::combine::WithChoices;
use crate::combine::WithDefault;
use crate::terminal::FlagWithValue;

verus! {

/// `n` space characters.
pub open spec fn spec_spaces(n: nat) -> Seq<char> {
    Seq::new(n, |i: int| ' ')
}

/// `s` padded on the right with spaces up to `width` characters; `s` is
/// kept whole when already at least that wide.
pub open spec fn spec_pad_right(s: Seq<char>, width: int) -> Seq<char> {
    if s.len() >= width {
        s
    } else {
        s + spec_spaces((width - s.len()) as nat)
    }
}

/// Pads `s` on the right with spaces to `width` characters.
pub fn pad_right(s: &str, width: usize) -> (r: String)
    ensures
        r@ == spec_pad_right(s@, width as int),
{
    let mut out = String::from_str(s);
    let n = s.unicode_len();
    if n >= width {
        return out;
    }
    proof {
        reveal_strlit(" ");
        assert(spec_spaces(0) =~= Seq::<char>::empty());
        assert(out@ =~= s@ + spec_spaces(0));
    }
    let mut i: usize = n;
    while i < width
        invariant
            n <= i <= width,
            n == s@.len(),
            out@ == s@ + spec_spaces((i - n) as nat),
        decreases width - i,
    {
        out.append(" ");
        proof {
            reveal_strlit(" ");
            assert(spec_spaces((i + 1 - n) as nat) =~= spec_spaces((i - n) as nat) + " "@);
            assert(s@ + spec_spaces((i + 1 - n) as nat) =~= (s@ + spec_spaces((i - n) as nat))
                + " "@);
        }
        i = i + 1;
    }
    out
}

/// The digit character for a value below ten.
pub open spec fn spec_dec_digit(d: nat) -> char
    recommends
        d < 10,
{
    if d == 0 {
        '0'
    } else if d == 1 {
        '1'
    } else if d == 2 {
        '2'
    } else if d == 3 {
        '3'
    } else if d == 4 {
        '4'
    } else if d == 5 {
        '5'
    } else if d == 6 {
        '6'
    } else if d == 7 {
        '7'
    } else if d == 8 {
        '8'
    } else {
        '9'
    }
}

/// The decimal rendering of an unsigned value.
pub open spec fn spec_u64_dec(n: nat) -> Seq<char>
    decreases n,
{
    if n < 10 {
        seq![spec_dec_digit(n)]
    } else {
        spec_u64_dec(n / 10) + seq![spec_dec_digit(n % 10)]
    }
}

/// The decimal rendering of a signed value: a `-` before the magnitude
/// when negative.
pub open spec fn spec_i64_dec(v: int) -> Seq<char> {
    if v >= 0 {
        spec_u64_dec(v as nat)
    } else {
        "-"@ + spec_u64_dec((-v) as nat)
    }
}

/// One decimal digit as a string.
fn digit_str(d: u64) -> (r: String)
    requires
        d < 10,
    ensures
        r@ == seq![spec_dec_digit(d as nat)],
{
    let r = if d == 0 {
        String::from_str("0")
    } else if d == 1 {
        String::from_str("1")
    } else if d == 2 {
        String::from_str("2")
    } else if d == 3 {
        String::from_str("3")
    } else if d == 4 {
        String::from_str("4")
    } else if d == 5 {
        String::from_str("5")
    } else if d == 6 {
        String::from_str("6")
    } else if d == 7 {
        String::from_str("7")
    } else if d == 8 {
        String::from_str("8")
    } else {
        String::from_str("9")
    };
    proof {
        reveal_strlit("0");
        reveal_strlit("1");
        reveal_strlit("2");
        reveal_strlit("3");
        reveal_strlit("4");
        reveal_strlit("5");
        reveal_strlit("6");
        reveal_strlit("7");
        reveal_strlit("8");
        reveal_strlit("9");
        assert(r@ =~= seq![spec_dec_digit(d as nat)]);
    }
    r
}

/// Renders `n` in decimal.
pub fn u64_dec_string(n: u64) -> (r: String)
    ensures
        r@ == spec_u64_dec(n as nat),
    decreases n,
{
    if n < 10 {
        digit_str(n)
    } else {
        let high = u64_dec_string(n / 10);
        let low = digit_str(n % 10);
        high.concat(low.as_str())
    }
}

/// Renders `v` in decimal, with a leading `-` when negative.
pub fn i64_dec_string(v: i64) -> (r: String)
    ensures
        r@ == spec_i64_dec(v as int),
{
    if v >= 0 {
        u64_dec_string(v as u64)
    } else {
        let mag: u64 = ((-(v + 1)) as u64) + 1;
        String::from_str("-").concat(u64_dec_string(mag).as_str())
    }
}

/// A value that can appear in a help string, as a default or a choice: it
/// renders itself the way such values are shown (strings quoted, numbers
/// and booleans plain).
pub trait HelpText {
    /// The characters of [`HelpText::help_text`].
    spec fn spec_help_text(&self) -> Seq<char>;

    /// The rendering of the value for a help string.
    fn help_text(&self) -> (r: String)
        ensures
            r@ == self.spec_help_text(),
    ;
}

impl HelpText for String {
    /// Strings are shown between double quotes.
    open spec fn spec_help_text(&self) -> Seq<char> {
        "\""@ + self@ + "\""@
    }

    fn help_text(&self) -> (r: String) {
        String::from_str("\"").concat(self.as_str()).concat("\"")
    }
}

impl HelpText for bool {
    open spec fn spec_help_text(&self) -> Seq<char> {
        if *self {
            "true"@
        } else {
            "false"@
        }
    }

    fn help_text(&self) -> (r: String) {
        if *self {
            String::from_str("true")
        } else {
            String::from_str("false")
        }
    }
}

impl HelpText for u8 {
    open spec fn spec_help_text(&self) -> Seq<char> {
        spec_u64_dec(*self as nat)
    }

    fn help_text(&self) -> (r: String) {
        u64_dec_string(*self as u64)
    }
}

impl HelpText for u16 {
    open spec fn spec_help_text(&self) -> Seq<char> {
        spec_u64_dec(*self as nat)
    }

    fn help_text(&self) -> (r: String) {
        u64_dec_string(*self as u64)
    }
}

impl HelpText for u32 {
    open spec fn spec_help_text(&self) -> Seq<char> {
        spec_u64_dec(*self as nat)
    }

    fn help_text(&self) -> (r: String) {
        u64_dec_string(*self as u64)
    }
}

impl HelpText for u64 {
    open spec fn spec_help_text(&self) -> Seq<char> {
        spec_u64_dec(*self as nat)
    }

    fn help_text(&self) -> (r: String) {
        u64_dec_string(*self)
    }
}

impl HelpText for i8 {
    open spec fn spec_help_text(&self) -> Seq<char> {
        spec_i64_dec(*self as int)
    }

    fn help_text(&self) -> (r: String) {
        i64_dec_string(*self as i64)
    }
}

impl HelpText for i16 {
    open spec fn spec_help_text(&self) -> Seq<char> {
        spec_i64_dec(*self as int)
    }

    fn help_text(&self) -> (r: String) {
        i64_dec_string(*self as i64)
    }
}

impl HelpText for i32 {
    open spec fn spec_help_text(&self) -> Seq<char> {
        spec_i64_dec(*self as int)
    }

    fn help_text(&self) -> (r: String) {
        i64_dec_string(*self as i64)
    }
}

impl HelpText for i64 {
    open spec fn spec_help_text(&self) -> Seq<char> {
        spec_i64_dec(*self as int)
    }

    fn help_text(&self) -> (r: String) {
        i64_dec_string(*self)
    }
}

/// Specification-level mirror of [`FlagHelpContext`].
pub struct SpecFlagHelp {
    pub name: Seq<char>,
    pub short_code: Seq<char>,
    pub description: Seq<char>,
    pub modifiers: Seq<Seq<char>>,
}

/// Specification-level mirror of [`FlagHelpCollector`].
pub enum SpecHelpCollector {
    Single(SpecFlagHelp),
    Joined(Box<SpecHelpCollector>, Box<SpecHelpCollector>),
}

/// Flag data gathered for one line of a help string; modifiers are extra
/// notes (such as `optional` or a default) appended after the description.
pub struct FlagHelpContext {
    pub name: String,
    pub short_code: String,
    pub description: String,
    pub modifiers: Vec<String>,
}

impl DeepView for FlagHelpContext {
    type V = SpecFlagHelp;

    open spec fn deep_view(&self) -> SpecFlagHelp {
        SpecFlagHelp {
            name: self.name@,
            short_code: self.short_code@,
            description: self.description@,
            modifiers: self.modifiers.deep_view(),
        }
    }
}

impl FlagHelpContext {
    /// Gathers the fields for one flag's help line.
    pub fn new(name: &str, short_code: &str, description: &str, modifiers: Vec<String>) -> (r:
        Self)
        ensures
            r.name@ == name@,
            r.short_code@ == short_code@,
            r.description@ == description@,
            r.modifiers == modifiers,
    {
        Self {
            name: name.to_owned(),
            short_code: short_code.to_owned(),
            description: description.to_owned(),
            modifiers,
        }
    }

    /// The context with `modifier` appended after the existing modifiers.
    pub fn with_modifier(self, modifier: String) -> (r: Self)
        ensures
            r.name == self.name,
            r.short_code == self.short_code,
            r.description == self.description,
            r.modifiers@ == self.modifiers@.push(modifier),
    {
        let mut modifiers = self.modifiers;
        modifiers.push(modifier);
        Self { name: self.name, short_code: self.short_code, description: self.description, modifiers }
    }
}

impl Default for FlagHelpContext {
    /// Empty fields and no modifiers.
    fn default() -> (r: Self)
        ensures
            r.name@ == Seq::<char>::empty(),
            r.short_code@ == Seq::<char>::empty(),
            r.description@ == Seq::<char>::empty(),
            r.modifiers@ == Seq::<String>::empty(),
    {
        Self {
            name: String::new(),
            short_code: String::new(),
            description: String::new(),
            modifiers: Vec::new(),
        }
    }
}

/// The modifier list rendered as `(m1), (m2), ...`.
pub open spec fn spec_modifier_list(mods: Seq<Seq<char>>) -> Seq<char>
    decreases mods.len(),
{
    if mods.len() == 0 {
        Seq::empty()
    } else if mods.len() == 1 {
        "("@ + mods[0] + ")"@
    } else {
        spec_modifier_list(mods.drop_last()) + ", ("@ + mods.last() + ")"@
    }
}

/// One help line for a flag: four spaces, the `--name, -s` pair padded to
/// sixteen characters, a space, the description padded to forty characters,
/// and the modifier list in brackets when there is one.
pub open spec fn spec_render_context(c: SpecFlagHelp) -> Seq<char> {
    let flag_part = "--"@ + c.name + ", -"@ + c.short_code;
    let base = "    "@ + spec_pad_right(flag_part, 16) + " "@ + spec_pad_right(c.description, 40);
    if c.modifiers.len() == 0 {
        base
    } else {
        base + " ["@ + spec_modifier_list(c.modifiers) + "]"@
    }
}

impl FlagHelpContext {
    /// Renders this flag's help line, per [`spec_render_context`].
    pub fn render(&self) -> (r: String)
        ensures
            r@ == spec_render_context(self.deep_view()),
    {
        let flag_part = String::from_str("--").concat(self.name.as_str()).concat(", -").concat(
            self.short_code.as_str(),
        );
        let padded_flag = pad_right(flag_part.as_str(), 16);
        let padded_desc = pad_right(self.description.as_str(), 40);
        let mut out = String::from_str("    ").concat(padded_flag.as_str()).concat(" ").concat(
            padded_desc.as_str(),
        );
        if self.modifiers.len() > 0 {
            out.append(" [");
            let ghost mods = self.modifiers.deep_view();
            let mut i: usize = 0;
            let mut listed = String::new();
            while i < self.modifiers.len()
                invariant
                    i <= self.modifiers.len(),
                    mods == self.modifiers.deep_view(),
                    mods.len() == self.modifiers.len(),
                    listed@ == spec_modifier_list(mods.take(i as int)),
                decreases self.modifiers.len() - i,
            {
                proof {
                    assert(mods[i as int] == self.modifiers@[i as int]@);
                }
                if i == 0 {
                    listed = listed.concat("(").concat(self.modifiers[i].as_str()).concat(")");
                    proof {
                        assert(mods.take(1).drop_last() =~= Seq::<Seq<char>>::empty());
                        assert(spec_modifier_list(mods.take(1)) =~= "("@ + mods[0] + ")"@);
                    }
                } else {
                    listed = listed.concat(", (").concat(self.modifiers[i].as_str()).concat(")");
                    proof {
                        reveal_strlit(", (");
                        reveal_strlit(", ");
                        reveal_strlit("(");
                        assert(mods.take(i + 1).drop_last() =~= mods.take(i as int));
                        assert(mods.take(i + 1).last() == mods[i as int]);
                        assert(spec_modifier_list(mods.take(i + 1)) =~= spec_modifier_list(
                            mods.take(i as int),
                        ) + ", ("@ + mods[i as int] + ")"@);
                        assert(listed@ =~= spec_modifier_list(mods.take(i + 1)));
                    }
                }
                i = i + 1;
            }
            proof {
                assert(mods.take(mods.len() as int) =~= mods);
            }
            out.append(listed.as_str());
            out.append("]");
        }
        proof {
            assert(out@ =~= spec_render_context(self.deep_view()));
        }
        out
    }
}

/// Collects flag help lines: one for a single flag, or the lines of two
/// joined evaluators separated by a newline.
pub enum FlagHelpCollector {
    Single(FlagHelpContext),
    Joined(Box<FlagHelpCollector>, Box<FlagHelpCollector>),
}

/// The abstract value of a collector, mirrored structurally.
pub open spec fn spec_collector_view(c: FlagHelpCollector) -> SpecHelpCollector
    decreases c,
{
    match c {
        FlagHelpCollector::Single(ctx) => SpecHelpCollector::Single(ctx.deep_view()),
        FlagHelpCollector::Joined(l, r) => SpecHelpCollector::Joined(
            Box::new(spec_collector_view(*l)),
            Box::new(spec_collector_view(*r)),
        ),
    }
}

impl DeepView for FlagHelpCollector {
    type V = SpecHelpCollector;

    open spec fn deep_view(&self) -> SpecHelpCollector {
        spec_collector_view(*self)
    }
}

impl Default for FlagHelpCollector {
    /// A single, empty context.
    fn default() -> (r: Self)
        ensures
            r matches FlagHelpCollector::Single(c) && c.name@ == Seq::<char>::empty()
                && c.short_code@ == Seq::<char>::empty() && c.description@ == Seq::<char>::empty()
                && c.modifiers@ == Seq::<String>::empty(),
    {
        FlagHelpCollector::Single(FlagHelpContext::default())
    }
}

/// The lines of a collector, joined with newlines.
pub open spec fn spec_render_collector(c: SpecHelpCollector) -> Seq<char>
    decreases c,
{
    match c {
        SpecHelpCollector::Single(ctx) => spec_render_context(ctx),
        SpecHelpCollector::Joined(l, r) => spec_render_collector(*l) + "\n"@
            + spec_render_collector(*r),
    }
}

impl FlagHelpCollector {
    /// Renders the collected help lines, per [`spec_render_collector`].
    pub fn render(&self) -> (r: String)
        ensures
            r@ == spec_render_collector(self.deep_view()),
        decreases *self,
    {
        match self {
            FlagHelpCollector::Single(ctx) => ctx.render(),
            FlagHelpCollector::Joined(l, r) => {
                let right = r.render();
                l.render().concat("\n").concat(right.as_str())
            },
        }
    }
}

/// Renders a short, summary help entry for a type, meant to be rolled up
/// into an enclosing help string.
pub trait ShortHelpable {
    /// What the entry is rendered from.
    type Output: DeepView;

    /// The abstract value of [`ShortHelpable::short_help`].
    spec fn spec_short_help(&self) -> <Self::Output as DeepView>::V;

    /// The summary help entry.
    fn short_help(&self) -> (r: Self::Output)
        ensures
            r.deep_view() == self.spec_short_help(),
    ;
}

/// Renders a standalone help string for a type.
pub trait Helpable {
    /// What the help string is rendered as.
    type Output: DeepView;

    /// The abstract value of [`Helpable::help`].
    spec fn spec_help(&self) -> <Self::Output as DeepView>::V;

    /// The full help string.
    fn help(&self) -> (r: Self::Output)
        ensures
            r.deep_view() == self.spec_help(),
    ;
}

impl<V> ShortHelpable for FlagWithValue<V> {
    type Output = FlagHelpCollector;

    /// A single context carrying the flag's name, short code and
    /// description, with no modifiers.
    open spec fn spec_short_help(&self) -> SpecHelpCollector {
        SpecHelpCollector::Single(
            SpecFlagHelp {
                name: self.name@,
                short_code: self.short_code@,
                description: self.description@,
                modifiers: Seq::empty(),
            },
        )
    }

    fn short_help(&self) -> (r: FlagHelpCollector) {
        let r = FlagHelpCollector::Single(
            FlagHelpContext::new(
                self.name.as_str(),
                self.short_code.as_str(),
                self.description.as_str(),
                Vec::new(),
            ),
        );
        proof {
            assert(r.deep_view() matches SpecHelpCollector::Single(c) && c.modifiers
                =~= Seq::<Seq<char>>::empty());
        }
        r
    }
}

impl<E1: ShortHelpable<Output = FlagHelpCollector>, E2: ShortHelpable<
    Output = FlagHelpCollector,
>> ShortHelpable for Join<E1, E2> {
    type Output = FlagHelpCollector;

    /// Both children's entries, joined.
    open spec fn spec_short_help(&self) -> SpecHelpCollector {
        SpecHelpCollector::Joined(
            Box::new(self.evaluator1.spec_short_help()),
            Box::new(self.evaluator2.spec_short_help()),
        )
    }

    fn short_help(&self) -> (r: FlagHelpCollector) {
        FlagHelpCollector::Joined(
            Box::new(self.evaluator1.short_help()),
            Box::new(self.evaluator2.short_help()),
        )
    }
}

/// The entry with `modifier` appended when it is a single context, and
/// unchanged when it is a joined one.
pub open spec fn spec_with_modifier(c: SpecHelpCollector, modifier: Seq<char>) -> SpecHelpCollector {
    match c {
        SpecHelpCollector::Single(ctx) => SpecHelpCollector::Single(
            SpecFlagHelp {
                name: ctx.name,
                short_code: ctx.short_code,
                description: ctx.description,
                modifiers: ctx.modifiers.push(modifier),
            },
        ),
        SpecHelpCollector::Joined(l, r) => SpecHelpCollector::Joined(l, r),
    }
}

impl<E: ShortHelpable<Output = FlagHelpCollector> + Defaultable> ShortHelpable for Optional<E> {
    type Output = FlagHelpCollector;

    /// The child's entry with an `optional` modifier.
    open spec fn spec_short_help(&self) -> SpecHelpCollector {
        spec_with_modifier(self.evaluator.spec_short_help(), "optional"@)
    }

    fn short_help(&self) -> (r: FlagHelpCollector) {
        match self.evaluator.short_help() {
            FlagHelpCollector::Single(ctx) => {
                let ghost old_mods = ctx.modifiers.deep_view();
                let new_ctx = ctx.with_modifier(String::from_str("optional"));
                proof {
                    assert(new_ctx.modifiers.deep_view() =~= old_mods.push("optional"@));
                }
                FlagHelpCollector::Single(new_ctx)
            },
            other => other,
        }
    }
}

impl<B: HelpText, E: ShortHelpable<Output = FlagHelpCollector> + Defaultable> ShortHelpable
    for WithDefault<B, E> {
    type Output = FlagHelpCollector;

    /// The child's entry with a `default: ...` modifier naming the default
    /// value.
    open spec fn spec_short_help(&self) -> SpecHelpCollector {
        spec_with_modifier(
            self.evaluator.spec_short_help(),
            "default: "@ + self.default.spec_help_text(),
        )
    }

    fn short_help(&self) -> (r: FlagHelpCollector) {
        match self.evaluator.short_help() {
            FlagHelpCollector::Single(ctx) => {
                let text = self.default.help_text();
                let ghost old_mods = ctx.modifiers.deep_view();
                let new_ctx = ctx.with_modifier(
                    String::from_str("default: ").concat(text.as_str()),
                );
                proof {
                    assert(new_ctx.modifiers.deep_view() =~= old_mods.push(
                        "default: "@ + self.default.spec_help_text(),
                    ));
                }
                FlagHelpCollector::Single(new_ctx)
            },
            other => other,
        }
    }
}

/// The choice list rendered as `[c1, c2, ...]`.
pub open spec fn spec_choice_list<B: HelpText>(choices: Seq<B>) -> Seq<char>
    decreases choices.len(),
{
    if choices.len() == 0 {
        Seq::empty()
    } else if choices.len() == 1 {
        choices[0].spec_help_text()
    } else {
        spec_choice_list(choices.drop_last()) + ", "@ + choices.last().spec_help_text()
    }
}

impl<B: HelpText, E: ShortHelpable<Output = FlagHelpCollector> + Defaultable, const N: usize> ShortHelpable for WithChoices<
    B,
    E,
    N,
> {
    type Output = FlagHelpCollector;

    /// The child's entry with a `choices: [...]` modifier listing the
    /// allowed values.
    open spec fn spec_short_help(&self) -> SpecHelpCollector {
        spec_with_modifier(
            self.evaluator.spec_short_help(),
            "choices: ["@ + spec_choice_list(self.choices@) + "]"@,
        )
    }

    fn short_help(&self) -> (r: FlagHelpCollector) {
        match self.evaluator.short_help() {
            FlagHelpCollector::Single(ctx) => {
                let ghost cs = self.choices@;
                let mut listed = String::new();
                let mut i: usize = 0;
                while i < N
                    invariant
                        i <= N,
                        cs == self.choices@,
                        cs.len() == N,
                        listed@ == spec_choice_list(cs.take(i as int)),
                    decreases N - i,
                {
                    let text = self.choices[i].help_text();
                    if i == 0 {
                        listed = text;
                        proof {
                            assert(cs.take(1).drop_last() =~= Seq::<B>::empty());
                            assert(spec_choice_list(cs.take(1)) == cs.take(1)[0].spec_help_text());
                            assert(cs.take(1)[0] == cs[0]);
                        }
                    } else {
                        listed = listed.concat(", ").concat(text.as_str());
                        proof {
                            assert(cs.take(i + 1).drop_last() =~= cs.take(i as int));
                            assert(cs.take(i + 1).last() == cs[i as int]);
                            assert(listed@ =~= spec_choice_list(cs.take(i + 1)));
                        }
                    }
                    i = i + 1;
                }
                proof {
                    assert(cs.take(cs.len() as int) =~= cs);
                }
                let modifier = String::from_str("choices: [").concat(listed.as_str()).concat("]");
                proof {
                    reveal_strlit("choices: [");
                    reveal_strlit("choices: ");
                    reveal_strlit("[");
                    assert(modifier@ =~= "choices: ["@ + spec_choice_list(cs) + "]"@);
                }
                let ghost old_mods = ctx.modifiers.deep_view();
                let new_ctx = ctx.with_modifier(modifier);
                proof {
                    assert(new_ctx.modifiers.deep_view() =~= old_mods.push(
                        "choices: ["@ + spec_choice_list(self.choices@) + "]"@,
                    ));
                }
                FlagHelpCollector::Single(new_ctx)
            },
            other => other,
        }
    }
}

impl ShortHelpable for ExpectStringValue {
    type Output = FlagHelpCollector;

    /// The wrapped flag's entry.
    open spec fn spec_short_help(&self) -> SpecHelpCollector {
        self.inner.spec_short_help()
    }

    fn short_help(&self) -> (r: FlagHelpCollector) {
        self.inner.short_help()
    }
}

impl ShortHelpable for StoreTrue {
    type Output = FlagHelpCollector;

    /// The wrapped flag's entry.
    open spec fn spec_short_help(&self) -> SpecHelpCollector {
        self.inner.spec_short_help()
    }

    fn short_help(&self) -> (r: FlagHelpCollector) {
        self.inner.short_help()
    }
}

impl ShortHelpable for StoreFalse {
    type Output = FlagHelpCollector;

    /// The wrapped flag's entry.
    open spec fn spec_short_help(&self) -> SpecHelpCollector {
        self.inner.spec_short_help()
    }

    fn short_help(&self) -> (r: FlagHelpCollector) {
        self.inner.short_help()
    }
}

} // verus!
