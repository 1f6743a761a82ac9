//! The decode step: check that the path exists, hand the file to the
//! decoder, and classify what came back. The decoder call and the
//! filesystem probe are the two trusted edges of the library; everything
//! either hands back is classified by verified code.

use crate::outcome::{
    BarcodesView, DecodeFailure, FailureView, GetBarcodes, OutcomeView, classify, outcome_of,
};
use vstd::prelude::*;

verus! {

/// Relies on std::path::Path::exists: true when the path points at an
/// entity that exists on disk at the moment of the call. The answer
/// depends on the filesystem, so nothing is promised of it.
#[verifier::external_body]
fn path_exists(path: &String) -> bool {
    std::path::Path::new(path.as_str()).exists()
}

/// Relies on rxing::helpers::detect_multiple_in_file: decodes every
/// barcode in the image file at `path` and yields their texts in detector
/// order, or a failure. A not-found failure is told apart from every
/// other by its own variant; any other failure is carried as its display
/// text. What comes back depends on the file on disk, so nothing is
/// promised of the result.
#[verifier::external_body]
fn detect_in_file(path: &String) -> Result<Vec<String>, DecodeFailure> {
    match rxing::helpers::detect_multiple_in_file(path.as_str()) {
        Ok(results) => Ok(results.iter().map(|b| b.getText().to_string()).collect()),
        Err(rxing::Exceptions::NotFoundException(_)) => Err(DecodeFailure::NotFound),
        Err(e) => Err(DecodeFailure::Other(e.to_string())),
    }
}

/// Runs one decode attempt: a missing path is `PathError`; otherwise the
/// decoder's answer is classified. Whatever the filesystem and the
/// decoder answer, the result is the outcome of that answer under
/// `outcome_of`, and its shape follows the mode: first-only runs never
/// yield a list, list runs never yield a single text.
pub fn read_barcodes(first_only: bool, path: String) -> (r: GetBarcodes)
    ensures
        exists|path_ok: bool, d: Result<Seq<Seq<char>>, FailureView>|
            r@ == outcome_of(first_only, path_ok, d),
        first_only ==> !(r@ matches OutcomeView::Found(BarcodesView::List(_))),
        !first_only ==> !(r@ matches OutcomeView::Found(BarcodesView::First(_))),
{
    if !path_exists(&path) {
        proof {
            let d: Result<Seq<Seq<char>>, FailureView> = Result::Ok(Seq::empty());
            assert(GetBarcodes::PathError@ == outcome_of(first_only, false, d));
        }
        return GetBarcodes::PathError;
    }
    let decoded = detect_in_file(&path);
    classify(first_only, decoded)
}

} // verus!
