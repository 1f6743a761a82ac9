//! The outcome of one barcode-reading run, and its mathematical model.

use vstd::prelude::*;

verus! {

/// What a successful decode attempt hands to the printer: in first-only
/// mode at most one text, otherwise every text in detector order.
#[derive(Debug, PartialEq, Eq, Clone)]
pub enum ReturnBarcodes {
    First(Option<String>),
    List(Vec<String>),
}

/// The overall outcome of one run: a successful decode attempt, a decode
/// failure with its message, or a path that does not exist.
#[derive(Debug, PartialEq, Eq, Clone)]
pub enum GetBarcodes {
    Found(ReturnBarcodes),
    Failed(String),
    PathError,
}

/// Why the decoder returned no texts: either nothing was found in the
/// image (which the program treats as an empty success), or some other
/// failure, carried as its message.
#[derive(Debug, PartialEq, Eq, Clone)]
pub enum DecodeFailure {
    NotFound,
    Other(String),
}

/// Model of `ReturnBarcodes`: texts as sequences of characters.
pub enum BarcodesView {
    First(Option<Seq<char>>),
    List(Seq<Seq<char>>),
}

/// Model of `GetBarcodes`.
pub enum OutcomeView {
    Found(BarcodesView),
    Failed(Seq<char>),
    BadPath,
}

/// Model of `DecodeFailure`.
pub enum FailureView {
    NotFound,
    Other(Seq<char>),
}

impl View for ReturnBarcodes {
    type V = BarcodesView;

    open spec fn view(&self) -> BarcodesView {
        match self {
            ReturnBarcodes::First(t) => BarcodesView::First(t.deep_view()),
            ReturnBarcodes::List(ts) => BarcodesView::List(ts.deep_view()),
        }
    }
}

impl View for GetBarcodes {
    type V = OutcomeView;

    open spec fn view(&self) -> OutcomeView {
        match self {
            GetBarcodes::Found(b) => OutcomeView::Found(b@),
            GetBarcodes::Failed(m) => OutcomeView::Failed(m@),
            GetBarcodes::PathError => OutcomeView::BadPath,
        }
    }
}

impl View for DecodeFailure {
    type V = FailureView;

    open spec fn view(&self) -> FailureView {
        match self {
            DecodeFailure::NotFound => FailureView::NotFound,
            DecodeFailure::Other(m) => FailureView::Other(m@),
        }
    }
}

/// Model of what a decode attempt came back with.
pub open spec fn decode_view(d: Result<Vec<String>, DecodeFailure>) -> Result<
    Seq<Seq<char>>,
    FailureView,
> {
    match d {
        Result::Ok(ts) => Result::Ok(ts.deep_view()),
        Result::Err(f) => Result::Err(f@),
    }
}

/// What a successful decode yields under each mode: the first text (if
/// any) in first-only mode, the whole sequence otherwise.
pub open spec fn barcodes_of(first_only: bool, texts: Seq<Seq<char>>) -> BarcodesView {
    if first_only {
        BarcodesView::First(
            if texts.len() == 0 {
                Option::None
            } else {
                Option::Some(texts[0])
            },
        )
    } else {
        BarcodesView::List(texts)
    }
}

/// The outcome of a run, as a function of the mode, of whether the path
/// exists, and of what the decode attempt came back with. A not-found
/// failure counts as a successful decode of no texts; every other failure
/// is surfaced with its message.
pub open spec fn outcome_of(
    first_only: bool,
    path_ok: bool,
    d: Result<Seq<Seq<char>>, FailureView>,
) -> OutcomeView {
    if !path_ok {
        OutcomeView::BadPath
    } else {
        match d {
            Result::Ok(texts) => OutcomeView::Found(barcodes_of(first_only, texts)),
            Result::Err(FailureView::NotFound) => OutcomeView::Found(
                barcodes_of(first_only, Seq::empty()),
            ),
            Result::Err(FailureView::Other(m)) => OutcomeView::Failed(m),
        }
    }
}

/// Turns what the decoder came back with into the run's outcome, for a
/// path that does exist.
pub fn classify(first_only: bool, decoded: Result<Vec<String>, DecodeFailure>) -> (r:
    GetBarcodes)
    ensures
        r@ == outcome_of(first_only, true, decode_view(decoded)),
{
    match decoded {
        Result::Ok(texts) => {
            if first_only {
                if texts.len() == 0 {
                    GetBarcodes::Found(ReturnBarcodes::First(Option::None))
                } else {
                    let first = texts[0].clone();
                    GetBarcodes::Found(ReturnBarcodes::First(Option::Some(first)))
                }
            } else {
                GetBarcodes::Found(ReturnBarcodes::List(texts))
            }
        },
        Result::Err(DecodeFailure::NotFound) => {
            if first_only {
                GetBarcodes::Found(ReturnBarcodes::First(Option::None))
            } else {
                let empty: Vec<String> = Vec::new();
                proof {
                    assert(empty.deep_view() =~= Seq::<Seq<char>>::empty());
                }
                GetBarcodes::Found(ReturnBarcodes::List(empty))
            }
        },
        Result::Err(DecodeFailure::Other(m)) => GetBarcodes::Failed(m),
    }
}

} // verus!
