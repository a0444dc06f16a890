//! Structural validation of strategy payloads before persistence.
//!
//! Every pair reference must be a valid identifier, and the two
//! triangular-shaped payloads must name three pairwise distinct pairs.
//! The two-pair shapes carry no distinctness rule.  Validation never
//! checks that the referenced pairs exist; a dangling reference fails
//! population at read time instead.

use vstd::prelude::*;

use crate::errors::StoreError;
use crate::record_id::RecordId;
use crate::strategy::ArbitrageDetails;

verus! {

/// The pair references a payload carries, in field order.
pub open spec fn spec_refs(details: ArbitrageDetails) -> Seq<RecordId> {
    match details {
        ArbitrageDetails::Geographic(g) => seq![g.pair1, g.pair2, g.conversion_pair],
        ArbitrageDetails::Exchange(e) => seq![e.pair1, e.pair2],
        ArbitrageDetails::Triangular(t) => seq![t.pair1, t.pair2, t.pair3],
        ArbitrageDetails::TradingPair(t) => seq![t.pair1, t.pair2, t.pair3],
    }
}

/// Every reference of the payload is a valid identifier.
pub open spec fn all_refs_valid(details: ArbitrageDetails) -> bool {
    forall|i: int|
        0 <= i < spec_refs(details).len() ==> (#[trigger] spec_refs(details)[i]).spec_is_valid()
}

/// A triangular-shaped payload that repeats one of its three references.
pub open spec fn has_duplicate_refs(details: ArbitrageDetails) -> bool {
    match details {
        ArbitrageDetails::Triangular(t) => t.pair1 == t.pair2 || t.pair2 == t.pair3 || t.pair1
            == t.pair3,
        ArbitrageDetails::TradingPair(t) => t.pair1 == t.pair2 || t.pair2 == t.pair3 || t.pair1
            == t.pair3,
        _ => false,
    }
}

/// What validation decides: an invalid reference first, a duplicated
/// reference next, acceptance otherwise.
pub open spec fn spec_validate(details: ArbitrageDetails) -> Result<(), StoreError> {
    if !all_refs_valid(details) {
        Err(StoreError::InvalidReference)
    } else if has_duplicate_refs(details) {
        Err(StoreError::DuplicatePair)
    } else {
        Ok(())
    }
}

/// Validates a strategy payload.
pub fn validate(details: &ArbitrageDetails) -> (r: Result<(), StoreError>)
    ensures
        r == spec_validate(*details),
{
    let ghost refs = spec_refs(*details);
    match details {
        ArbitrageDetails::Geographic(g) => {
            if !(g.pair1.is_valid() && g.pair2.is_valid() && g.conversion_pair.is_valid()) {
                proof {
                    assert(refs[0] == g.pair1 && refs[1] == g.pair2 && refs[2]
                        == g.conversion_pair);
                }
                return Err(StoreError::InvalidReference);
            }
            proof {
                assert forall|i: int| 0 <= i < refs.len() implies (#[trigger] refs[i]).spec_is_valid() by {
                    assert(refs[0] == g.pair1 && refs[1] == g.pair2 && refs[2]
                        == g.conversion_pair);
                }
            }
            Ok(())
        },
        ArbitrageDetails::Exchange(e) => {
            if !(e.pair1.is_valid() && e.pair2.is_valid()) {
                proof {
                    assert(refs[0] == e.pair1 && refs[1] == e.pair2);
                }
                return Err(StoreError::InvalidReference);
            }
            proof {
                assert forall|i: int| 0 <= i < refs.len() implies (#[trigger] refs[i]).spec_is_valid() by {
                    assert(refs[0] == e.pair1 && refs[1] == e.pair2);
                }
            }
            Ok(())
        },
        ArbitrageDetails::Triangular(t) => {
            if !(t.pair1.is_valid() && t.pair2.is_valid() && t.pair3.is_valid()) {
                proof {
                    assert(refs[0] == t.pair1 && refs[1] == t.pair2 && refs[2] == t.pair3);
                }
                return Err(StoreError::InvalidReference);
            }
            proof {
                assert forall|i: int| 0 <= i < refs.len() implies (#[trigger] refs[i]).spec_is_valid() by {
                    assert(refs[0] == t.pair1 && refs[1] == t.pair2 && refs[2] == t.pair3);
                }
            }
            if t.pair1 == t.pair2 || t.pair2 == t.pair3 || t.pair1 == t.pair3 {
                return Err(StoreError::DuplicatePair);
            }
            Ok(())
        },
        ArbitrageDetails::TradingPair(t) => {
            if !(t.pair1.is_valid() && t.pair2.is_valid() && t.pair3.is_valid()) {
                proof {
                    assert(refs[0] == t.pair1 && refs[1] == t.pair2 && refs[2] == t.pair3);
                }
                return Err(StoreError::InvalidReference);
            }
            proof {
                assert forall|i: int| 0 <= i < refs.len() implies (#[trigger] refs[i]).spec_is_valid() by {
                    assert(refs[0] == t.pair1 && refs[1] == t.pair2 && refs[2] == t.pair3);
                }
            }
            if t.pair1 == t.pair2 || t.pair2 == t.pair3 || t.pair1 == t.pair3 {
                return Err(StoreError::DuplicatePair);
            }
            Ok(())
        },
    }
}

/// Law: over triangular-shaped payloads whose references are all valid,
/// validation fails with the duplicate-pair error exactly when at least
/// two of the three references are equal.
pub proof fn lemma_duplicate_pair_iff(details: ArbitrageDetails)
    requires
        details is Triangular || details is TradingPair,
        all_refs_valid(details),
    ensures
        spec_validate(details) == Err::<(), StoreError>(StoreError::DuplicatePair) <==> (
        spec_refs(details)[0] == spec_refs(details)[1] || spec_refs(details)[1] == spec_refs(
            details,
        )[2] || spec_refs(details)[0] == spec_refs(details)[2]),
{
}

} // verus!
