//! The command line: its definition, and the options it resolves to.

use vstd::prelude::*;

use crate::clap_calls::{
    clap_help_requested, clap_match, clap_matched, decl_views, decls_wf, opt_text, args_view,
    ArgDecl, ArgDeclView, CliDecl, MatchedView,
};

verus! {

// ---------------------------------------------------------------------------------------------
// What the command line is made of
// ---------------------------------------------------------------------------------------------
/// The program's name as shown in help text.
pub const APP_NAME: &'static str = "kmon";

/// The author line shown in help text.
pub const APP_AUTHOR: &'static str = "Orhun Parmaksız <orhunparmaksiz@gmail.com>";

/// The version shown by `--version`.
pub const APP_VERSION: &'static str = "0.1.0";

/// One line about the program, shown in help text.
pub const APP_ABOUT: &'static str = "Linux kernel manager and activity monitor";

/// The usage line shown in help text.
pub const USAGE: &'static str = "Press '?' while running the app to see key bindings";

/// The logo shown above help text.
pub const ASCII_LOGO: &'static str = "
 ``    ````````````    ````   ```````````    ```````````
:NNs `hNNNNNNNNNNNNh` sNNNy   yNNNNNNNNNN+   dNNNNNNNNNN:
/MMMydMMyyyyyyydMMMMdhMMMMy   yMMMyyyhMMMo   dMMMyyydMMM/
/MMMMMMM`      oMMMMMMMMMMy   yMMM`  -MMMo   dMMN   /MMM/
/MMMs:::hhhs   oMMM+:::MMMNhhhNMMMdhhdMMMmhhhNMMN   /MMM/
:mmm/   dmmh   +mmm-  `mmmmmmmmmmmmmmmmmmmmmmmmmd   /mmm:
 ```    ```     ```    ``````````````````````````    ```";

/// The main color when none is given.
pub const DEFAULT_COLOR: &'static str = "darkgray";

/// The refresh rate, in milliseconds, when none is given, written as on the command line.
pub const DEFAULT_TICK_RATE: &'static str = "250";

/// The text that an invalid tick rate is reported with, before the rejected value.
pub const INVALID_TICK_RATE: &'static str = "invalid tick rate: ";

// ---------------------------------------------------------------------------------------------
// The resolved options
// ---------------------------------------------------------------------------------------------
/// How the module list is sorted.
#[derive(Clone, Copy, Debug, PartialEq, Eq, Structural)]
pub enum SortMode {
    Unsorted,
    BySize,
    ByName,
}

/// The configuration that the command line resolves to.
#[derive(Debug)]
pub struct OptionSet {
    /// The main color, a hex code or a color name.
    pub color: String,
    /// The refresh rate of the terminal in milliseconds; positive in every option set that this
    /// library returns.
    pub tick_rate_ms: u64,
    /// Whether the module list is shown in reverse.
    pub reverse: bool,
    /// Whether `sort --size` was given.
    pub sort_by_size: bool,
    /// Whether `sort --name` was given.
    pub sort_by_name: bool,
}

/// The sort mode that the two flags select. Both may be given: the size flag, declared first,
/// then wins.
pub open spec fn sort_mode_of(by_size: bool, by_name: bool) -> SortMode {
    if by_size {
        SortMode::BySize
    } else if by_name {
        SortMode::ByName
    } else {
        SortMode::Unsorted
    }
}

impl OptionSet {
    /// Every option set that this library hands out has a positive tick rate.
    pub open spec fn wf(&self) -> bool {
        self.tick_rate_ms > 0
    }

    /// The sort mode selected on the command line; see `sort_mode_of`.
    pub fn sort_mode(&self) -> (r: SortMode)
        ensures
            r == sort_mode_of(self.sort_by_size, self.sort_by_name),
    {
        if self.sort_by_size {
            SortMode::BySize
        } else if self.sort_by_name {
            SortMode::ByName
        } else {
            SortMode::Unsorted
        }
    }
}

/// Why the command line did not resolve to options.
#[derive(Clone, Copy, Debug, PartialEq, Eq, Structural)]
pub enum CliErrorKind {
    /// `--help` was given; the message is the help text.
    HelpShown,
    /// `--version` was given; clap has already written the version text, and the message is
    /// empty.
    VersionShown,
    /// The arguments do not fit the command line's definition.
    Usage,
    /// The tick rate is not a positive decimal number that fits in 64 bits.
    InvalidTickRate,
}

/// A command line that did not resolve to options, with the text to show for it.
#[derive(Debug)]
pub struct CliError {
    pub kind: CliErrorKind,
    pub message: String,
}

// ---------------------------------------------------------------------------------------------
// Tick rates
// ---------------------------------------------------------------------------------------------
/// Whether `c` is an ASCII decimal digit.
pub open spec fn is_digit(c: char) -> bool {
    48 <= c as u32 && c as u32 <= 57
}

/// The value of a decimal digit.
pub open spec fn digit_value(c: char) -> nat {
    if is_digit(c) {
        (c as u32 - 48) as nat
    } else {
        0
    }
}

/// Whether every character of `s` is a decimal digit.
pub open spec fn all_digits(s: Seq<char>) -> bool {
    forall|i: int| 0 <= i < s.len() ==> is_digit(#[trigger] s[i])
}

/// The number that the digits of `s` write in base ten, most significant first.
pub open spec fn decimal_value(s: Seq<char>) -> nat
    decreases s.len(),
{
    if s.len() == 0 {
        0
    } else {
        decimal_value(s.drop_last()) * 10 + digit_value(s.last())
    }
}

/// The tick rate that `s` gives: a non-empty run of decimal digits whose value is positive and
/// fits in a `u64`.
pub open spec fn tick_rate_of(s: Seq<char>) -> Option<u64> {
    if s.len() > 0 && all_digits(s) && 0 < decimal_value(s) && decimal_value(s) <= u64::MAX {
        Some(decimal_value(s) as u64)
    } else {
        None
    }
}

/// A prefix of a digit string has no larger value than the whole.
proof fn lemma_prefix_value_le(s: Seq<char>, i: int)
    requires
        0 <= i <= s.len(),
    ensures
        decimal_value(s.subrange(0, i)) <= decimal_value(s),
    decreases s.len(),
{
    if i < s.len() {
        lemma_prefix_value_le(s.drop_last(), i);
        assert(s.drop_last().subrange(0, i) =~= s.subrange(0, i));
    } else {
        assert(s.subrange(0, i) =~= s);
    }
}

/// Reads a tick rate in milliseconds from its decimal text.
pub fn parse_tick_rate(s: &str) -> (r: Option<u64>)
    ensures
        r == tick_rate_of(s@),
{
    let n = s.unicode_len();
    if n == 0 {
        return None;
    }
    let mut v: u64 = 0;
    let mut i: usize = 0;
    while i < n
        invariant
            n == s@.len(),
            i <= n,
            all_digits(s@.subrange(0, i as int)),
            v == decimal_value(s@.subrange(0, i as int)),
        decreases n - i,
    {
        let c = s.get_char(i);
        let u = c as u32;
        if u < 48 || u > 57 {
            assert(!is_digit(s@[i as int]));
            return None;
        }
        let d = (u - 48) as u64;
        let ghost next = s@.subrange(0, i + 1);
        assert(next.drop_last() =~= s@.subrange(0, i as int));
        assert(decimal_value(next) == v * 10 + d);
        if v > (u64::MAX - d) / 10 {
            assert(v * 10 + d > u64::MAX) by (nonlinear_arith)
                requires
                    v > (u64::MAX - d) / 10,
                    d <= 9,
            ;
            proof {
                lemma_prefix_value_le(s@, i + 1);
            }
            return None;
        }
        assert(v * 10 + d <= u64::MAX) by (nonlinear_arith)
            requires
                v <= (u64::MAX - d) / 10,
                d <= 9,
        ;
        assert forall|j: int| 0 <= j < next.len() implies is_digit(#[trigger] next[j]) by {
            if j < i {
                assert(next[j] == s@.subrange(0, i as int)[j]);
            }
        }
        v = v * 10 + d;
        i = i + 1;
    }
    assert(s@.subrange(0, n as int) =~= s@);
    if v == 0 {
        None
    } else {
        Some(v)
    }
}

// ---------------------------------------------------------------------------------------------
// From matched values to options
// ---------------------------------------------------------------------------------------------
/// The text of an optional value, or `default` when it is absent.
pub open spec fn text_or(v: Option<Seq<char>>, default: Seq<char>) -> Seq<char> {
    match v {
        Some(t) => t,
        None => default,
    }
}

/// Whether `r` is what the matched values resolve to. An absent color or tick rate takes its
/// default; the result is an error, with the rejected text in its message, exactly when the
/// tick rate is not a positive decimal number that fits in a `u64`.
pub open spec fn resolves_to(
    r: Result<OptionSet, CliError>,
    color: Option<Seq<char>>,
    tick_rate: Option<Seq<char>>,
    reverse: bool,
    sort_by_size: bool,
    sort_by_name: bool,
) -> bool {
    let rate = text_or(tick_rate, DEFAULT_TICK_RATE@);
    &&& (r is Ok <==> tick_rate_of(rate) is Some)
    &&& r matches Ok(o) ==> {
        &&& o.wf()
        &&& o.color@ == text_or(color, DEFAULT_COLOR@)
        &&& Some(o.tick_rate_ms) == tick_rate_of(rate)
        &&& o.reverse == reverse
        &&& o.sort_by_size == sort_by_size
        &&& o.sort_by_name == sort_by_name
    }
    &&& r matches Err(e) ==> {
        &&& e.kind == CliErrorKind::InvalidTickRate
        &&& e.message@ == INVALID_TICK_RATE@ + rate
    }
}

/// Builds the options from the values that the command line matched; see `resolves_to`.
pub fn resolve_options(
    color: Option<String>,
    tick_rate: Option<String>,
    reverse: bool,
    sort_by_size: bool,
    sort_by_name: bool,
) -> (r: Result<OptionSet, CliError>)
    ensures
        resolves_to(r, opt_text(color), opt_text(tick_rate), reverse, sort_by_size, sort_by_name),
{
    let rate_text = match tick_rate {
        Some(t) => t,
        None => String::from_str(DEFAULT_TICK_RATE),
    };
    match parse_tick_rate(rate_text.as_str()) {
        Some(ms) => {
            let color = match color {
                Some(c) => c,
                None => String::from_str(DEFAULT_COLOR),
            };
            Ok(OptionSet { color, tick_rate_ms: ms, reverse, sort_by_size, sort_by_name })
        },
        None => {
            let message = String::from_str(INVALID_TICK_RATE).concat(rate_text.as_str());
            Err(CliError { kind: CliErrorKind::InvalidTickRate, message })
        },
    }
}

/// With nothing given, the color is `darkgray` and the tick rate is 250 milliseconds.
pub proof fn lemma_defaults()
    ensures
        text_or(None, DEFAULT_COLOR@) == "darkgray"@,
        tick_rate_of(text_or(None, DEFAULT_TICK_RATE@)) == Some(250u64),
{
    reveal_strlit("250");
    let s = DEFAULT_TICK_RATE@;
    assert(s.len() == 3 && s[0] == '2' && s[1] == '5' && s[2] == '0');
    let s2 = s.drop_last();
    let s1 = s2.drop_last();
    assert(s1.drop_last() =~= Seq::<char>::empty());
    assert(decimal_value(s1.drop_last()) == 0);
    assert(digit_value(s1.last()) == 2);
    assert(s1.len() == 1 && s1.last() == '2' && s2.last() == '5' && s.last() == '0');
    assert('2' as u32 == 50 && '5' as u32 == 53 && '0' as u32 == 48);
    assert(decimal_value(s1) == 2);
    assert(decimal_value(s2) == 25);
    assert(decimal_value(s) == 250);
    assert(all_digits(s));
}

// ---------------------------------------------------------------------------------------------
// The command line
// ---------------------------------------------------------------------------------------------
/// Where each argument stands in the declaration.
pub const COLOR_ARG: usize = 0;
pub const RATE_ARG: usize = 1;
pub const REVERSE_ARG: usize = 2;
pub const SIZE_ARG: usize = 0;
pub const NAME_ARG: usize = 1;

/// The global arguments, as matching sees them: `-c/--color <COLOR>`, `-t/--tickrate <MS>`
/// and `-r/--reverse`.
pub open spec fn top_args() -> Seq<ArgDeclView> {
    seq![
        ("color"@, "c"@, "color"@, true),
        ("rate"@, "t"@, "tickrate"@, true),
        ("reverse"@, "r"@, "reverse"@, false),
    ]
}

/// The name of the one subcommand.
pub open spec fn sort_name() -> Seq<char> {
    "sort"@
}

/// The arguments of `sort`: `-s/--size` and `-n/--name`.
pub open spec fn sort_args() -> Seq<ArgDeclView> {
    seq![("size"@, "s"@, "size"@, false), ("name"@, "n"@, "name"@, false)]
}

/// The command line's declaration. Defaults are applied by `resolve_options`, not declared,
/// so that an option given without its value is refused rather than filled in.
pub fn command_line() -> (r: CliDecl)
    ensures
        r.name@ == APP_NAME@,
        r.version@ == APP_VERSION@,
        r.author@ == APP_AUTHOR@,
        r.about@ == APP_ABOUT@,
        r.usage@ == USAGE@,
        r.before_help@ == ASCII_LOGO@,
        r.sub_about@ == "Sort kernel modules"@,
        decl_views(r.args@) == top_args(),
        r.sub_name@ == sort_name(),
        decl_views(r.sub_args@) == sort_args(),
        decls_wf(top_args()),
        decls_wf(sort_args()),
{
    let args = vec![
        ArgDecl {
            name: "color",
            short: "c",
            long: "color",
            takes_value: true,
            value_name: "COLOR",
            help: "Set the main color using hex or color name",
        },
        ArgDecl {
            name: "rate",
            short: "t",
            long: "tickrate",
            takes_value: true,
            value_name: "MS",
            help: "Set the refresh rate of the terminal",
        },
        ArgDecl {
            name: "reverse",
            short: "r",
            long: "reverse",
            takes_value: false,
            value_name: "",
            help: "Reverse the kernel module list",
        },
    ];
    let sub_args = vec![
        ArgDecl {
            name: "size",
            short: "s",
            long: "size",
            takes_value: false,
            value_name: "",
            help: "Sort modules by their sizes",
        },
        ArgDecl {
            name: "name",
            short: "n",
            long: "name",
            takes_value: false,
            value_name: "",
            help: "Sort modules by their names",
        },
    ];
    proof {
        assert(decl_views(args@) =~= top_args());
        assert(decl_views(sub_args@) =~= sort_args());
        reveal_strlit("color");
        reveal_strlit("c");
        reveal_strlit("rate");
        reveal_strlit("t");
        reveal_strlit("tickrate");
        reveal_strlit("reverse");
        reveal_strlit("r");
        reveal_strlit("size");
        reveal_strlit("s");
        reveal_strlit("name");
        reveal_strlit("n");
        let t = top_args();
        assert(t[0].0.len() == 5 && t[1].0.len() == 4 && t[2].0.len() == 7);
        assert(t[0].2.len() == 5 && t[1].2.len() == 8 && t[2].2.len() == 7);
        assert(t[0].1[0] == 'c' && t[1].1[0] == 't' && t[2].1[0] == 'r');
        assert('c' as u32 == 99 && 't' as u32 == 116 && 'r' as u32 == 114);
        assert('s' as u32 == 115 && 'n' as u32 == 110);
        assert(t[0].2[0] == 'c' && t[1].2[0] == 't' && t[2].2[0] == 'r');
        assert forall|i: int, j: int| 0 <= i < 3 && 0 <= j < 3 && i != j implies {
            &&& t[i].0 != t[j].0
            &&& t[i].1 != t[j].1
            &&& t[i].2 != t[j].2
        } by {
            if t[i].1 == t[j].1 {
                assert(t[i].1[0] == t[j].1[0]);
            }
        }
        let u = sort_args();
        assert(u[0].0[0] == 's' && u[1].0[0] == 'n' && u[0].1[0] == 's' && u[1].1[0] == 'n');
        assert(u[0].2[0] == 's' && u[1].2[0] == 'n');
        assert(u[0].0 != u[1].0 && u[0].1 != u[1].1 && u[0].2 != u[1].2) by {
            if u[0].0 == u[1].0 {
                assert(u[0].0[0] == u[1].0[0]);
            }
            if u[0].1 == u[1].1 {
                assert(u[0].1[0] == u[1].1[0]);
            }
            if u[0].2 == u[1].2 {
                assert(u[0].2[0] == u[1].2[0]);
            }
        }
    }
    CliDecl {
        name: APP_NAME,
        version: APP_VERSION,
        author: APP_AUTHOR,
        about: APP_ABOUT,
        usage: USAGE,
        before_help: ASCII_LOGO,
        args,
        sub_name: "sort",
        sub_about: "Sort kernel modules",
        sub_args,
    }
}

/// What clap matches for `args` against the command line's declaration.
pub open spec fn kmon_matched(args: Seq<String>) -> Option<MatchedView> {
    clap_matched(top_args(), sort_name(), sort_args(), args_view(args))
}

/// Whether clap answers `args` with the command line's help text.
pub open spec fn kmon_help_requested(args: Seq<String>) -> bool {
    clap_help_requested(top_args(), sort_name(), sort_args(), args_view(args))
}

/// Whether a `sort` flag was given, from what the subcommand matched.
pub open spec fn sort_flag(sub: Option<Seq<bool>>, i: int) -> bool {
    match sub {
        Some(p) => p[i],
        None => false,
    }
}

/// A copy of an optional text.
fn copy_text(v: &Option<String>) -> (r: Option<String>)
    ensures
        opt_text(r) == opt_text(*v),
{
    match v {
        Some(t) => Some(t.clone()),
        None => None,
    }
}

/// Parses a command line, its first element being the program's name. When clap matches it
/// against the declaration, the result is what the matched color, tick rate, `--reverse` and
/// `sort` flags resolve to. Otherwise (a request for help or version text, or arguments that do
/// not fit) the result is an error whose message is the text still to show; its kind is
/// `HelpShown` exactly when clap answers with help text.
pub fn parse_args(args: &Vec<String>) -> (r: Result<OptionSet, CliError>)
    ensures
        match kmon_matched(args@) {
            Some(m) => resolves_to(
                r,
                m.0[COLOR_ARG as int],
                m.0[RATE_ARG as int],
                m.1[REVERSE_ARG as int],
                sort_flag(m.2, SIZE_ARG as int),
                sort_flag(m.2, NAME_ARG as int),
            ),
            None => r matches Err(e) && e.kind != CliErrorKind::InvalidTickRate && (e.kind
                == CliErrorKind::HelpShown <==> kmon_help_requested(args@)),
        },
{
    let cli = command_line();
    assert(decl_views(cli.args@).len() == 3 && decl_views(cli.sub_args@).len() == 2);
    match clap_match(&cli, args) {
        Ok(m) => {
            let color = copy_text(&m.values[COLOR_ARG]);
            let tick_rate = copy_text(&m.values[RATE_ARG]);
            let reverse = m.present[REVERSE_ARG];
            let (by_size, by_name) = match &m.sub_present {
                Some(p) => (p[SIZE_ARG], p[NAME_ARG]),
                None => (false, false),
            };
            resolve_options(color, tick_rate, reverse, by_size, by_name)
        },
        Err(e) => Err(e),
    }
}

} // verus!
