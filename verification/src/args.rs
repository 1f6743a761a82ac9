//! Parsing of the command line: an optional `--first` flag followed by the
//! image path. The parser is pure; the caller decides what a usage error
//! does to the process.

use vstd::prelude::*;

verus! {

/// The two effective inputs of one run, fixed once the command line is
/// parsed.
#[derive(Debug, PartialEq, Eq, Clone)]
pub struct Invocation {
    pub first_only: bool,
    pub path: String,
}

/// The flag that selects first-only mode.
pub open spec fn flag_lit() -> Seq<char> {
    "--first"@
}

/// What the argument list (program name excluded) parses to: `None` is a
/// usage error. A leading `--first` turns first-only mode on and the path
/// is the next argument; otherwise the first argument is the path.
pub open spec fn parse_view(args: Seq<Seq<char>>) -> Option<(bool, Seq<char>)> {
    if args.len() == 0 {
        Option::None
    } else if args[0] == flag_lit() {
        if args.len() < 2 {
            Option::None
        } else {
            Option::Some((true, args[1]))
        }
    } else {
        Option::Some((false, args[0]))
    }
}

/// Parses the argument list (program name excluded).
pub fn parse_args(args: &Vec<String>) -> (r: Option<Invocation>)
    ensures
        match r {
            Option::Some(inv) => parse_view(args.deep_view()) == Option::Some(
                (inv.first_only, inv.path@),
            ),
            Option::None => parse_view(args.deep_view()) is None,
        },
{
    if args.len() == 0 {
        return Option::None;
    }
    let flag: String = "--first".to_owned();
    if args[0].eq(&flag) {
        if args.len() < 2 {
            Option::None
        } else {
            Option::Some(Invocation { first_only: true, path: args[1].clone() })
        }
    } else {
        Option::Some(Invocation { first_only: false, path: args[0].clone() })
    }
}

/// The usage line that a usage error prints.
pub open spec fn usage_view() -> Seq<char> {
    "usage: barcode-read [--first] <path-to-image>"@
}

/// Returns the usage line.
pub fn usage_text() -> (r: String)
    ensures
        r@ == usage_view(),
{
    "usage: barcode-read [--first] <path-to-image>".to_owned()
}

} // verus!
