//! Commitment levels and the mapping from their textual names.

use vstd::prelude::*;

verus! {

/// Finality requested for reads and writes against the ledger.
#[derive(Clone, Copy, Debug, PartialEq, Eq, Structural)]
pub enum Commitment {
    Processed,
    Confirmed,
    Finalized,
}

/// The level that a textual preference stands for. Every text has one:
/// what is neither `processed` nor `finalized` means `confirmed`.
pub open spec fn commitment_of(text: Seq<char>) -> Commitment {
    if text == "processed"@ {
        Commitment::Processed
    } else if text == "finalized"@ {
        Commitment::Finalized
    } else {
        Commitment::Confirmed
    }
}

/// Maps a textual commitment preference to its level. Total: an
/// unrecognized text silently falls back to `Confirmed`.
pub fn parse_commitment(text: &str) -> (level: Commitment)
    ensures
        level == commitment_of(text@),
{
    let owned = text.to_owned();
    if owned == "processed".to_owned() {
        Commitment::Processed
    } else if owned == "finalized".to_owned() {
        Commitment::Finalized
    } else {
        Commitment::Confirmed
    }
}

/// Every text has a level: each of the three names maps to the level it
/// names, and any other text maps to `Confirmed`.
pub proof fn lemma_commitment_total(text: Seq<char>)
    ensures
        text == "processed"@ ==> commitment_of(text) == Commitment::Processed,
        text == "confirmed"@ ==> commitment_of(text) == Commitment::Confirmed,
        text == "finalized"@ ==> commitment_of(text) == Commitment::Finalized,
        text != "processed"@ && text != "finalized"@ ==> commitment_of(text)
            == Commitment::Confirmed,
{
    reveal_strlit("processed");
    reveal_strlit("confirmed");
    reveal_strlit("finalized");
    assert("processed"@[0] != "finalized"@[0]);
    assert("processed"@[0] != "confirmed"@[0]);
}

} // verus!
