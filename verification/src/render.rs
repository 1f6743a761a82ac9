//! Rendering of an outcome into the single line that the program prints,
//! together with the stream it goes to.

use crate::outcome::{BarcodesView, GetBarcodes, OutcomeView, ReturnBarcodes};
use vstd::prelude::*;

verus! {

/// The one print action of a run: a line to standard output, or a line to
/// standard error.
pub enum PrintAction {
    Out(Seq<char>),
    ErrLine(Seq<char>),
}

/// What a printed line holds: the print action with its text as a string.
#[derive(Debug, PartialEq, Eq, Clone)]
pub enum PrintJob {
    Stdout(String),
    Stderr(String),
}

impl View for PrintJob {
    type V = PrintAction;

    open spec fn view(&self) -> PrintAction {
        match self {
            PrintJob::Stdout(s) => PrintAction::Out(s@),
            PrintJob::Stderr(s) => PrintAction::ErrLine(s@),
        }
    }
}

/// The texts joined by the literal separator `;`.
pub open spec fn join_view(texts: Seq<Seq<char>>) -> Seq<char>
    decreases texts.len(),
{
    if texts.len() == 0 {
        Seq::empty()
    } else if texts.len() == 1 {
        texts[0]
    } else {
        join_view(texts.drop_last()) + ";"@ + texts.last()
    }
}

/// The decode-failure message around a decoder message `m`.
pub open spec fn failure_line(m: Seq<char>) -> Seq<char> {
    "Error: '"@ + m + "'"@
}

/// What each outcome prints, and where. A present single text and a
/// non-empty list go to standard output; everything else is a line on
/// standard error, with distinct singular and plural wordings for an
/// absent single text and an empty list.
pub open spec fn rendered(o: OutcomeView) -> PrintAction {
    match o {
        OutcomeView::Found(BarcodesView::First(t)) => match t {
            Option::Some(text) => PrintAction::Out(text),
            Option::None => PrintAction::ErrLine("No barcode found!"@),
        },
        OutcomeView::Found(BarcodesView::List(texts)) => if texts.len() == 0 {
            PrintAction::ErrLine("No barcodes found!"@)
        } else {
            PrintAction::Out(join_view(texts))
        },
        OutcomeView::Failed(m) => PrintAction::ErrLine(failure_line(m)),
        OutcomeView::BadPath => PrintAction::ErrLine("Path error!"@),
    }
}

/// Joins the texts with the separator `;`.
pub fn join_semicolon(texts: &Vec<String>) -> (r: String)
    ensures
        r@ == join_view(texts.deep_view()),
{
    let mut acc = String::new();
    let mut i: usize = 0;
    while i < texts.len()
        invariant
            i <= texts.len(),
            acc@ == join_view(texts.deep_view().take(i as int)),
        decreases texts.len() - i,
    {
        if i > 0 {
            acc.append(";");
        }
        acc.append(texts[i].as_str());
        proof {
            let ts = texts.deep_view();
            assert(ts.take(i + 1).drop_last() =~= ts.take(i as int));
            assert(ts.take(i + 1).last() == ts[i as int]);
        }
        i = i + 1;
    }
    proof {
        assert(texts.deep_view().take(texts.len() as int) =~= texts.deep_view());
    }
    acc
}

/// Builds the decode-failure message around the decoder's message.
pub fn failure_text(m: &String) -> (r: String)
    ensures
        r@ == failure_line(m@),
{
    let mut acc: String = "Error: '".to_owned();
    acc.append(m.as_str());
    acc.append("'");
    acc
}

/// Renders an outcome into its one print action.
pub fn render(outcome: &GetBarcodes) -> (r: PrintJob)
    ensures
        r@ == rendered(outcome@),
{
    match outcome {
        GetBarcodes::Found(ReturnBarcodes::First(t)) => match t {
            Option::Some(text) => PrintJob::Stdout(text.clone()),
            Option::None => PrintJob::Stderr("No barcode found!".to_owned()),
        },
        GetBarcodes::Found(ReturnBarcodes::List(texts)) => if texts.len() == 0 {
            PrintJob::Stderr("No barcodes found!".to_owned())
        } else {
            PrintJob::Stdout(join_semicolon(texts))
        },
        GetBarcodes::Failed(m) => PrintJob::Stderr(failure_text(m)),
        GetBarcodes::PathError => PrintJob::Stderr("Path error!".to_owned()),
    }
}

} // verus!
