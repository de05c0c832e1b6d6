//! The command line's declaration as plain values, and the calls into clap that build it and
//! match arguments against it.

use vstd::prelude::*;

use crate::cli::{CliError, CliErrorKind};

verus! {

#[verifier::external_type_specification]
#[verifier::external_body]
pub struct ExApp<'a, 'b>(clap::App<'a, 'b>) where 'a: 'b;

#[verifier::external_type_specification]
#[verifier::external_body]
pub struct ExError(clap::Error);

/// One declared argument.
pub struct ArgDecl {
    /// The name its value and presence are looked up by.
    pub name: &'static str,
    /// The one-letter flag, without the dash.
    pub short: &'static str,
    /// The long flag, without the dashes.
    pub long: &'static str,
    /// Whether it takes a value.
    pub takes_value: bool,
    /// The name its value is shown with in help text; unused for a flag without a value.
    pub value_name: &'static str,
    /// Its help line.
    pub help: &'static str,
}

/// What matching depends on of an argument: name, short flag, long flag, whether it takes a
/// value.
pub type ArgDeclView = (Seq<char>, Seq<char>, Seq<char>, bool);

impl ArgDecl {
    pub open spec fn view(&self) -> ArgDeclView {
        (self.name@, self.short@, self.long@, self.takes_value)
    }
}

/// The views of a list of declared arguments.
pub open spec fn decl_views(s: Seq<ArgDecl>) -> Seq<ArgDeclView> {
    s.map_values(|d: ArgDecl| d.view())
}

/// A command line with one subcommand.
pub struct CliDecl {
    pub name: &'static str,
    pub version: &'static str,
    pub author: &'static str,
    pub about: &'static str,
    pub usage: &'static str,
    pub before_help: &'static str,
    pub args: Vec<ArgDecl>,
    pub sub_name: &'static str,
    pub sub_about: &'static str,
    pub sub_args: Vec<ArgDecl>,
}

/// Arguments that clap takes without complaint: each short flag is one ASCII character other
/// than a dash (clap cuts a value attached to a short flag one byte after the flag), each long
/// flag is non-empty and does not start with a dash, and no two arguments share
/// a name, a short flag or a long flag.
pub open spec fn decls_wf(s: Seq<ArgDeclView>) -> bool {
    &&& forall|i: int|
        0 <= i < s.len() ==> {
            &&& (#[trigger] s[i]).1.len() == 1
            &&& s[i].1[0] != '-'
            &&& (s[i].1[0] as u32) < 128
            &&& s[i].2.len() > 0
            &&& s[i].2[0] != '-'
        }
    &&& forall|i: int, j: int|
        0 <= i < s.len() && 0 <= j < s.len() && i != j ==> {
            &&& (#[trigger] s[i]).0 != (#[trigger] s[j]).0
            &&& s[i].1 != s[j].1
            &&& s[i].2 != s[j].2
        }
}

/// What a successful match gives, one entry per declared argument, in declaration order: the
/// value matched, whether the argument was given, and, when the subcommand was given, whether
/// each of its arguments was.
pub struct Matched {
    pub values: Vec<Option<String>>,
    pub present: Vec<bool>,
    pub sub_present: Option<Vec<bool>>,
}

/// The view of a successful match.
pub type MatchedView = (Seq<Option<Seq<char>>>, Seq<bool>, Option<Seq<bool>>);

pub open spec fn opt_text(v: Option<String>) -> Option<Seq<char>> {
    match v {
        Some(t) => Some(t@),
        None => None,
    }
}

pub open spec fn matched_view(m: Matched) -> MatchedView {
    (
        m.values@.map_values(|v: Option<String>| opt_text(v)),
        m.present@,
        match m.sub_present {
            Some(p) => Some(p@),
            None => None,
        },
    )
}

/// The views of an argument vector.
pub open spec fn args_view(args: Seq<String>) -> Seq<Seq<char>> {
    args.map_values(|a: String| a@)
}

/// What clap's matching gives for a declaration (its arguments, its subcommand's name and that
/// subcommand's arguments) and an argument vector whose first element is the program's name:
/// `None` when clap refuses the arguments or answers with help or version text.
pub uninterp spec fn clap_matched(
    top: Seq<ArgDeclView>,
    sub_name: Seq<char>,
    sub: Seq<ArgDeclView>,
    args: Seq<Seq<char>>,
) -> Option<MatchedView>;

/// Relies on clap::App::new, version, author, about, usage, before_help, args and subcommand,
/// on clap::SubCommand::with_name, and on clap::Arg::with_name, short, long, help, value_name
/// and takes_value: `cli` as a clap command line. `value_name` marks an argument as taking a
/// value, and `takes_value`, called after it, settles whether it does. `App::args` asserts, in
/// builds with debug assertions, that no two arguments share a name, short or long flag. Only
/// `clap_match` builds one.
#[verifier::external_body]
fn clap_app(cli: &CliDecl) -> clap::App<'static, 'static>
    requires
        decls_wf(decl_views(cli.args@)),
        decls_wf(decl_views(cli.sub_args@)),
{
    let arg = |d: &ArgDecl| clap::Arg::with_name(d.name).short(d.short).long(d.long).help(d.help)
        .value_name(d.value_name).takes_value(d.takes_value);
    let top: Vec<clap::Arg> = cli.args.iter().map(arg).collect();
    let sort: Vec<clap::Arg> = cli.sub_args.iter().map(arg).collect();
    let sub = clap::SubCommand::with_name(cli.sub_name).about(cli.sub_about).args(&sort);
    clap::App::new(cli.name).version(cli.version).author(cli.author).about(cli.about).usage(
        cli.usage,
    ).before_help(cli.before_help).args(&top).subcommand(sub)
}

/// Whether clap, matching `args` against the same declaration as `clap_matched`, answers with
/// help text (`-h`, `--help` or the `help` subcommand) rather than a match or another error.
pub uninterp spec fn clap_help_requested(
    top: Seq<ArgDeclView>,
    sub_name: Seq<char>,
    sub: Seq<ArgDeclView>,
    args: Seq<Seq<char>>,
) -> bool;

/// Relies on clap::App::get_matches_from_safe to match `args` against `cli` as `clap_app`
/// declares it, and on clap::ArgMatches::value_of, is_present and subcommand_matches to read
/// the match back for each declared argument. The result depends on the declaration and the
/// arguments alone. value_of checks that a value is UTF-8: the arguments are `String`s, and
/// with ASCII short flags clap never cuts an attached value inside a character, so the check
/// holds. An error is handed back with its kind (see `error_kind`) and its `message` field, the
/// text to show: for a help request the help text, for a version request nothing, as clap
/// writes the version text to standard output itself.
#[verifier::external_body]
pub(crate) fn clap_match(cli: &CliDecl, args: &Vec<String>) -> (r: Result<Matched, CliError>)
    requires
        decls_wf(decl_views(cli.args@)),
        decls_wf(decl_views(cli.sub_args@)),
    ensures
        r is Ok <==> clap_matched(
            decl_views(cli.args@),
            cli.sub_name@,
            decl_views(cli.sub_args@),
            args_view(args@),
        ) is Some,
        r matches Ok(m) ==> {
            &&& Some(matched_view(m)) == clap_matched(
                decl_views(cli.args@),
                cli.sub_name@,
                decl_views(cli.sub_args@),
                args_view(args@),
            )
            &&& m.values@.len() == cli.args@.len()
            &&& m.present@.len() == cli.args@.len()
            &&& m.sub_present matches Some(p) ==> p@.len() == cli.sub_args@.len()
        },
        r matches Err(e) ==> {
            &&& e.kind != CliErrorKind::InvalidTickRate
            &&& (e.kind == CliErrorKind::HelpShown <==> clap_help_requested(
                decl_views(cli.args@),
                cli.sub_name@,
                decl_views(cli.sub_args@),
                args_view(args@),
            ))
        },
{
    let m = match clap_app(cli).get_matches_from_safe(args.iter()) {
        Ok(m) => m,
        Err(e) => return Err(CliError { kind: error_kind(&e), message: e.message }),
    };
    let values = cli.args.iter().map(|d| m.value_of(d.name).map(String::from)).collect();
    let present = cli.args.iter().map(|d| m.is_present(d.name)).collect();
    let sub_present = m.subcommand_matches(cli.sub_name).map(
        |s| cli.sub_args.iter().map(|d| s.is_present(d.name)).collect(),
    );
    Ok(Matched { values, present, sub_present })
}

/// Relies on clap::Error's `kind` field: tells a help or version request from a usage error.
/// Only `clap_match` reads it.
#[verifier::external_body]
fn error_kind(e: &clap::Error) -> CliErrorKind {
    match e.kind {
        clap::ErrorKind::HelpDisplayed => CliErrorKind::HelpShown,
        clap::ErrorKind::VersionDisplayed => CliErrorKind::VersionShown,
        _ => CliErrorKind::Usage,
    }
}

} // verus!
