//! The arbitrage strategy model: a tagged union of four payload shapes,
//! each referring to stored market pairs by identifier.

use vstd::prelude::*;

use crate::record_id::RecordId;
use crate::schema::PopulatedMarketPair;

verus! {

#[derive(Clone, Copy, PartialEq, Eq, Structural, Debug)]
pub enum ArbitrageType {
    Geographic,
    Exchange,
    Triangular,
    TradingPair,
}

/// A pair arbitraged on two exchanges, bridged by a conversion pair
/// between their quote currencies.
#[derive(Clone, Copy, PartialEq, Eq, Structural, Debug)]
pub struct GeographicArbitrage {
    pub pair1: RecordId,
    pub pair2: RecordId,
    pub conversion_pair: RecordId,
}

/// The same nominal pair held on two different exchanges.
#[derive(Clone, Copy, PartialEq, Eq, Structural, Debug)]
pub struct ExchangeArbitrage {
    pub pair1: RecordId,
    pub pair2: RecordId,
}

/// Three pairs forming a triangular cycle; the three references must be
/// pairwise distinct.
#[derive(Clone, Copy, PartialEq, Eq, Structural, Debug)]
pub struct TriangularArbitrage {
    pub pair1: RecordId,
    pub pair2: RecordId,
    pub pair3: RecordId,
}

/// Structurally the same shape as the triangular payload, kept as a
/// distinct classification.
#[derive(Clone, Copy, PartialEq, Eq, Structural, Debug)]
pub struct TradingPairArbitrage {
    pub pair1: RecordId,
    pub pair2: RecordId,
    pub pair3: RecordId,
}

/// The discriminated payload of a strategy, one shape per arbitrage kind.
#[derive(Clone, Copy, PartialEq, Eq, Structural, Debug)]
pub enum ArbitrageDetails {
    Geographic(GeographicArbitrage),
    Exchange(ExchangeArbitrage),
    Triangular(TriangularArbitrage),
    TradingPair(TradingPairArbitrage),
}

/// A stored arbitrage strategy.  A draft emitted by the suggestion engine
/// has no identifier, zero timestamps and status true, pending submission.
#[derive(Clone, Copy, PartialEq, Eq, Structural, Debug)]
pub struct ArbitrageStrategy {
    pub id: Option<RecordId>,
    pub arbitrage_type: ArbitrageType,
    pub details: ArbitrageDetails,
    pub created_at: i64,
    pub updated_at: i64,
    pub status: bool,
}

/// A read projection of a strategy payload with every pair reference
/// expanded to a populated market pair.
#[derive(Debug)]
pub enum PopulatedArbitrageDetails {
    Geographic {
        pair1: PopulatedMarketPair,
        pair2: PopulatedMarketPair,
        conversion_pair: PopulatedMarketPair,
    },
    Exchange { pair1: PopulatedMarketPair, pair2: PopulatedMarketPair },
    Triangular {
        pair1: PopulatedMarketPair,
        pair2: PopulatedMarketPair,
        pair3: PopulatedMarketPair,
    },
    TradingPair {
        pair1: PopulatedMarketPair,
        pair2: PopulatedMarketPair,
        pair3: PopulatedMarketPair,
    },
}

/// A read projection of a stored strategy with its payload populated.
#[derive(Debug)]
pub struct PopulatedArbitrageStrategy {
    pub id: RecordId,
    pub arbitrage_type: ArbitrageType,
    pub details: PopulatedArbitrageDetails,
    pub created_at: i64,
    pub updated_at: i64,
    pub status: bool,
}

} // verus!
