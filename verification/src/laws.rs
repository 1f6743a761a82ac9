//! The behaviour of a whole run, stated once over the model: what each
//! kind of command line and each kind of decoder answer ends up printing.

use crate::args::{flag_lit, parse_view};
use crate::outcome::{FailureView, outcome_of};
use crate::render::{PrintAction, failure_line, join_view, rendered};
use vstd::prelude::*;

verus! {

/// A run with no arguments at all is a usage error: nothing parses.
pub proof fn lemma_no_args_is_usage_error()
    ensures
        parse_view(Seq::empty()) is None,
{
}

/// A run whose only argument is the first-only flag is a usage error:
/// no path is available.
pub proof fn lemma_flag_alone_is_usage_error(args: Seq<Seq<char>>)
    requires
        args.len() == 1,
        args[0] == flag_lit(),
    ensures
        parse_view(args) is None,
{
}

/// A path that does not exist prints exactly the path-error line on
/// standard error, in either mode and whatever the decoder would have
/// answered.
pub proof fn lemma_missing_path_prints_path_error(
    first_only: bool,
    d: Result<Seq<Seq<char>>, FailureView>,
)
    ensures
        rendered(outcome_of(first_only, false, d)) == PrintAction::ErrLine("Path error!"@),
{
}

/// A decode of exactly one text prints that text on standard output, in
/// either mode.
pub proof fn lemma_single_text_prints_it(first_only: bool, t: Seq<char>)
    ensures
        rendered(outcome_of(first_only, true, Result::Ok(seq![t]))) == PrintAction::Out(t),
{
}

/// A decode of one or more texts prints the first alone in first-only
/// mode, and all of them joined by `;` otherwise, on standard output.
pub proof fn lemma_texts_print_by_mode(texts: Seq<Seq<char>>)
    requires
        texts.len() > 0,
    ensures
        rendered(outcome_of(true, true, Result::Ok(texts))) == PrintAction::Out(texts[0]),
        rendered(outcome_of(false, true, Result::Ok(texts))) == PrintAction::Out(
            join_view(texts),
        ),
{
}

/// A decode that finds nothing — whether the decoder reported not-found
/// or handed back no texts — prints the singular wording in first-only
/// mode and the plural wording otherwise, on standard error.
pub proof fn lemma_nothing_found_wording(d: Result<Seq<Seq<char>>, FailureView>)
    requires
        d == Result::<Seq<Seq<char>>, FailureView>::Err(FailureView::NotFound) || d
            == Result::<Seq<Seq<char>>, FailureView>::Ok(Seq::empty()),
    ensures
        rendered(outcome_of(true, true, d)) == PrintAction::ErrLine("No barcode found!"@),
        rendered(outcome_of(false, true, d)) == PrintAction::ErrLine("No barcodes found!"@),
{
}

/// Any decoder failure other than not-found prints its message inside
/// the failure line on standard error, in either mode.
pub proof fn lemma_failure_prints_message(first_only: bool, m: Seq<char>)
    ensures
        rendered(outcome_of(first_only, true, Result::Err(FailureView::Other(m))))
            == PrintAction::ErrLine(failure_line(m)),
{
}

/// Two runs that parse to the same invocation and get the same answers
/// from the filesystem and the decoder print the same line on the same
/// stream: past the decode call, the run is a function of those inputs
/// alone.
pub proof fn lemma_runs_repeat(
    first_only: bool,
    path_ok: bool,
    d1: Result<Seq<Seq<char>>, FailureView>,
    d2: Result<Seq<Seq<char>>, FailureView>,
)
    requires
        d1 == d2,
    ensures
        rendered(outcome_of(first_only, path_ok, d1)) == rendered(
            outcome_of(first_only, path_ok, d2),
        ),
{
}

} // verus!
