//! The flag descriptor, its value slot and its rendering.
use vstd::prelude::*;

verus! {

/// Why an operation on a flag failed.
#[derive(PartialEq, Eq, Structural, Clone, Copy, Debug)]
pub enum FlagError {
    /// A value was to be replaced, but the flag holds none.
    NoValue,
    /// The flag is not known.
    InvalidFlag,
    /// The flag needs an argument and got none.
    MissingArgument,
}

/// The label of each error kind.
pub open spec fn error_label(e: FlagError) -> Seq<char> {
    match e {
        FlagError::NoValue => "No value provided"@,
        FlagError::InvalidFlag => "Invalid flag"@,
        FlagError::MissingArgument => "Missing Argument"@,
    }
}

impl FlagError {
    /// The human-readable label of the error.
    pub fn label(&self) -> (r: &'static str)
        ensures
            r@ == error_label(*self),
    {
        match self {
            FlagError::NoValue => "No value provided",
            FlagError::InvalidFlag => "Invalid flag",
            FlagError::MissingArgument => "Missing Argument",
        }
    }
}

/// The value that a flag carries: one of a closed set of primitive kinds.
#[derive(PartialEq, Eq, Clone, Debug)]
pub enum FlagValue {
    Text(String),
    Bool(bool),
    Int(i32),
    /// A 32-bit float, held as the decimal text that Rust's `Display` gives it.
    Float(String),
    /// A value of a kind outside the supported set.
    Unknown,
}

/// The decimal digit `d` (below ten) as a character.
pub open spec fn digit_char(d: nat) -> char {
    if d == 0 { '0' }
    else if d == 1 { '1' }
    else if d == 2 { '2' }
    else if d == 3 { '3' }
    else if d == 4 { '4' }
    else if d == 5 { '5' }
    else if d == 6 { '6' }
    else if d == 7 { '7' }
    else if d == 8 { '8' }
    else { '9' }
}

/// The decimal digits of `n`, most significant first, with no leading zero.
pub open spec fn decimal(n: nat) -> Seq<char>
    decreases n,
{
    if n < 10 {
        seq![digit_char(n)]
    } else {
        decimal(n / 10).push(digit_char(n % 10))
    }
}

/// The decimal text of an integer, with a leading `-` when it is negative.
pub open spec fn int_text(i: int) -> Seq<char> {
    if i < 0 {
        seq!['-'] + decimal((-i) as nat)
    } else {
        decimal(i as nat)
    }
}

/// The natural textual form of a supported value.
pub open spec fn value_text(v: FlagValue) -> Seq<char> {
    match v {
        FlagValue::Text(s) => s@,
        FlagValue::Bool(b) => if b { "true"@ } else { "false"@ },
        FlagValue::Int(i) => int_text(i as int),
        FlagValue::Float(s) => s@,
        FlagValue::Unknown => Seq::empty(),
    }
}

/// The default clause that ends a rendering: empty without a value,
/// ` | Default: [unknown type]` for a value of an unsupported kind, and
/// `` | Default: `<value>` `` otherwise.
pub open spec fn default_clause(value: Option<FlagValue>) -> Seq<char> {
    match value {
        None => Seq::empty(),
        Some(FlagValue::Unknown) => " | "@ + "Default: [unknown type]"@,
        Some(v) => " | "@ + "Default: `"@ + value_text(v) + "`"@,
    }
}

/// The argument spellings, each followed by a single space.
pub open spec fn args_text(args: Seq<Seq<char>>) -> Seq<char>
    decreases args.len(),
{
    if args.len() == 0 {
        Seq::empty()
    } else {
        args_text(args.drop_last()) + args.last() + " "@
    }
}

/// The notes clause: ` | <notes>` when there are notes.
pub open spec fn notes_clause(notes: Option<Seq<char>>) -> Seq<char> {
    match notes {
        None => Seq::empty(),
        Some(n) => " | "@ + n,
    }
}

/// Everything of a rendering before its default clause:
/// `<name>\n\t<arg> <arg> ... | <desc>` and the notes clause.
pub open spec fn body_text(
    name: Seq<char>,
    args: Seq<Seq<char>>,
    desc: Seq<char>,
    notes: Option<Seq<char>>,
) -> Seq<char> {
    name + "\n\t"@ + args_text(args) + "| "@ + desc + notes_clause(notes)
}

/// The whole rendering of a flag.
pub open spec fn render_text(
    name: Seq<char>,
    args: Seq<Seq<char>>,
    desc: Seq<char>,
    notes: Option<Seq<char>>,
    value: Option<FlagValue>,
) -> Seq<char> {
    body_text(name, args, desc, notes) + default_clause(value)
}

/// The view of each spelling of a sequence of string slices.
pub open spec fn str_views(args: Seq<&str>) -> Seq<Seq<char>> {
    args.map_values(|s: &str| s@)
}

/// The view of optional notes.
pub open spec fn notes_view(notes: Option<&str>) -> Option<Seq<char>> {
    match notes {
        None => None,
        Some(n) => Some(n@),
    }
}

/// A descriptor of one command-line flag. It borrows its text from the caller.
pub struct Flag<'a> {
    pub name: &'a str,
    pub args: &'a [&'a str],
    pub desc: &'a str,
    pub notes: Option<&'a str>,
    pub value: Option<FlagValue>,
}

impl<'a> Flag<'a> {
    /// The spellings of the flag, as character sequences.
    pub open spec fn arg_views(&self) -> Seq<Seq<char>> {
        str_views(self.args@)
    }

    /// The rendering of this flag.
    pub open spec fn spec_render(&self) -> Seq<char> {
        render_text(self.name@, self.arg_views(), self.desc@, notes_view(self.notes), self.value)
    }

    pub fn new(
        name: &'a str,
        args: &'a [&'a str],
        desc: &'a str,
        notes: Option<&'a str>,
        value: Option<FlagValue>,
    ) -> (r: Self)
        ensures
            r.name == name,
            r.args == args,
            r.desc == desc,
            r.notes == notes,
            r.value == value,
    {
        Self { name, args, desc, notes, value }
    }

    pub fn get_name(&self) -> (r: &'a str)
        ensures
            r == self.name,
    {
        self.name
    }

    pub fn get_args(&self) -> (r: &'a [&'a str])
        ensures
            r == self.args,
    {
        self.args
    }

    /// The value that the flag holds, if any.
    pub fn get_value(&self) -> (r: Option<&FlagValue>)
        ensures
            match r {
                Some(v) => self.value == Some(*v),
                None => self.value.is_none(),
            },
    {
        self.value.as_ref()
    }

    /// Replaces the value that the flag holds. A flag that holds no value
    /// cannot be given one this way: then it fails with `NoValue` and the
    /// flag is left as it was.
    pub fn set_value(&mut self, value: FlagValue) -> (r: Result<(), FlagError>)
        ensures
            old(self).value.is_none() ==> r == Err::<(), FlagError>(FlagError::NoValue)
                && *final(self) == *old(self),
            old(self).value.is_some() ==> r == Ok::<(), FlagError>(())
                && final(self).value == Some(value)
                && final(self).name == old(self).name
                && final(self).args == old(self).args
                && final(self).desc == old(self).desc
                && final(self).notes == old(self).notes,
    {
        if self.value.is_none() {
            return Err(FlagError::NoValue);
        }
        self.value = Some(value);
        Ok(())
    }

    /// Renders the flag: `<name>`, a newline and a tab, each spelling
    /// followed by a space, `| <desc>`, then ` | <notes>` when there are
    /// notes, then the default clause of its value.
    pub fn render(&self) -> (r: String)
        ensures
            r@ == self.spec_render(),
    {
        let mut out = String::from_str(self.name);
        out.append("\n\t");
        let mut i: usize = 0;
        while i < self.args.len()
            invariant
                i <= self.args@.len(),
                out@ == self.name@ + "\n\t"@ + args_text(self.arg_views().take(i as int)),
            decreases self.args@.len() - i,
        {
            let ghost before = out@;
            out.append(self.args[i]);
            out.append(" ");
            proof {
                let t = self.arg_views().take(i + 1);
                assert(t.drop_last() =~= self.arg_views().take(i as int));
                assert(t.last() == self.args@[i as int]@);
                assert(out@ =~= before + self.args@[i as int]@ + " "@);
            }
            i = i + 1;
        }
        assert(self.arg_views().take(self.args@.len() as int) =~= self.arg_views());
        out.append("| ");
        out.append(self.desc);
        match self.notes {
            Some(n) => {
                out.append(" | ");
                out.append(n);
            },
            None => {},
        }
        assert(out@ =~= body_text(self.name@, self.arg_views(), self.desc@, notes_view(self.notes)));
        append_default(&mut out, &self.value);
        out
    }

    /// Whether `s` is exactly one of the flag's spellings.
    pub fn is_in(&self, s: &str) -> (r: bool)
        ensures
            r == self.arg_views().contains(s@),
            self.args@.len() == 0 ==> !r,
    {
        let mut i: usize = 0;
        while i < self.args.len()
            invariant
                i <= self.args@.len(),
                forall|j: int| 0 <= j < i ==> self.arg_views()[j] != s@,
            decreases self.args@.len() - i,
        {
            if str_equal(self.args[i], s) {
                assert(self.arg_views()[i as int] == s@);
                return true;
            }
            i = i + 1;
        }
        false
    }
}

/// Whether `pattern` occurs in `text` starting at position `i`.
pub open spec fn occurs_at(text: Seq<char>, pattern: Seq<char>, i: int) -> bool {
    0 <= i && i + pattern.len() <= text.len() && text.subrange(i, i + pattern.len()) == pattern
}

/// A flag that holds a value of a supported kind renders
/// `` Default: `<value>` `` with the value's natural textual form.
pub proof fn lemma_default_shown(f: &Flag, v: FlagValue)
    requires
        f.value == Some(v),
        !(v is Unknown),
    ensures
        exists|i: int| occurs_at(f.spec_render(), "Default: `"@ + value_text(v) + "`"@, i),
{
    let body = body_text(f.name@, f.arg_views(), f.desc@, notes_view(f.notes));
    let pattern = "Default: `"@ + value_text(v) + "`"@;
    let i: int = (body.len() + " | "@.len()) as int;
    assert(f.spec_render() =~= body + " | "@ + pattern);
    assert(f.spec_render().subrange(i, i + pattern.len()) =~= pattern);
    assert(occurs_at(f.spec_render(), pattern, i));
}

/// A flag that holds a value of an unsupported kind still renders, with
/// ` | Default: [unknown type]` as its last clause.
pub proof fn lemma_unknown_shown(f: &Flag)
    requires
        f.value == Some(FlagValue::Unknown),
    ensures
        f.spec_render() == body_text(f.name@, f.arg_views(), f.desc@, notes_view(f.notes))
            + " | "@ + "Default: [unknown type]"@,
{
    assert(f.spec_render() =~= body_text(f.name@, f.arg_views(), f.desc@, notes_view(f.notes))
        + " | "@ + "Default: [unknown type]"@);
}

/// A flag without a value renders with no default clause: its rendering is
/// the name, the spellings, the description and the notes clause, and ends
/// there.
pub proof fn lemma_no_default_clause(f: &Flag)
    requires
        f.value.is_none(),
    ensures
        f.spec_render() == body_text(f.name@, f.arg_views(), f.desc@, notes_view(f.notes)),
{
    assert(f.spec_render() =~= body_text(f.name@, f.arg_views(), f.desc@, notes_view(f.notes)));
}

/// Rendering is deterministic: two flags with the same name, spellings,
/// description, notes and value render to the same text.
pub proof fn lemma_render_deterministic(a: &Flag, b: &Flag)
    requires
        a.name@ == b.name@,
        a.arg_views() == b.arg_views(),
        a.desc@ == b.desc@,
        notes_view(a.notes) == notes_view(b.notes),
        a.value == b.value,
    ensures
        a.spec_render() == b.spec_render(),
{
}

/// The one-character text of the decimal digit `d`.
fn digit_str(d: u32) -> (r: &'static str)
    requires
        d < 10,
    ensures
        r@ == seq![digit_char(d as nat)],
{
    proof {
        reveal_strlit("0");
        reveal_strlit("1");
        reveal_strlit("2");
        reveal_strlit("3");
        reveal_strlit("4");
        reveal_strlit("5");
        reveal_strlit("6");
        reveal_strlit("7");
        reveal_strlit("8");
        reveal_strlit("9");
    }
    if d == 0 { "0" }
    else if d == 1 { "1" }
    else if d == 2 { "2" }
    else if d == 3 { "3" }
    else if d == 4 { "4" }
    else if d == 5 { "5" }
    else if d == 6 { "6" }
    else if d == 7 { "7" }
    else if d == 8 { "8" }
    else { "9" }
}

/// Appends the decimal digits of `n` to `out`.
fn append_decimal(out: &mut String, n: u32)
    ensures
        final(out)@ == old(out)@ + decimal(n as nat),
    decreases n,
{
    if n >= 10 {
        append_decimal(out, n / 10);
    }
    out.append(digit_str(n % 10));
    assert(final(out)@ =~= old(out)@ + decimal(n as nat));
}

/// Appends the decimal text of `i` to `out`.
fn append_int(out: &mut String, i: i32)
    ensures
        final(out)@ == old(out)@ + int_text(i as int),
{
    if i < 0 {
        out.append("-");
        proof {
            reveal_strlit("-");
        }
        let m: i64 = -(i as i64);
        append_decimal(out, m as u32);
        assert(final(out)@ =~= old(out)@ + int_text(i as int));
    } else {
        append_decimal(out, i as u32);
    }
}

/// Appends the default clause of `value` to `out`.
fn append_default(out: &mut String, value: &Option<FlagValue>)
    ensures
        final(out)@ == old(out)@ + default_clause(*value),
{
    match value {
        None => {
            assert(final(out)@ =~= old(out)@ + default_clause(*value));
        },
        Some(FlagValue::Unknown) => {
            out.append(" | ");
            out.append("Default: [unknown type]");
            assert(final(out)@ =~= old(out)@ + default_clause(*value));
        },
        Some(v) => {
            out.append(" | ");
            out.append("Default: `");
            match v {
                FlagValue::Text(s) => out.append(s.as_str()),
                FlagValue::Bool(b) => {
                    if *b {
                        out.append("true");
                    } else {
                        out.append("false");
                    }
                },
                FlagValue::Int(i) => append_int(out, *i),
                FlagValue::Float(s) => out.append(s.as_str()),
                FlagValue::Unknown => {},
            }
            out.append("`");
            assert(final(out)@ =~= old(out)@ + default_clause(*value));
        },
    }
}

/// Whether two strings hold the same characters.
fn str_equal(a: &str, b: &str) -> (r: bool)
    ensures
        r == (a@ == b@),
{
    let n = a.unicode_len();
    if n != b.unicode_len() {
        return false;
    }
    let mut i: usize = 0;
    while i < n
        invariant
            n == a@.len(),
            n == b@.len(),
            i <= n,
            forall|j: int| 0 <= j < i ==> a@[j] == b@[j],
        decreases n - i,
    {
        if a.get_char(i) != b.get_char(i) {
            return false;
        }
        i = i + 1;
    }
    assert(a@ =~= b@);
    true
}

} // verus!
