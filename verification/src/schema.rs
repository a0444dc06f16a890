//! The three reference-data record kinds held by the store.
//!
//! Each record carries a generated identifier (`None` until it is stored),
//! creation and update timestamps in whole seconds, and plain fields.

use vstd::prelude::*;

use crate::record_id::RecordId;

verus! {

/// A venue on which assets and market pairs are listed.
#[derive(Debug)]
pub struct Exchange {
    pub id: Option<RecordId>,
    pub name: String,
    pub short_name: String,
    pub url: String,
    pub created_at: i64,
    pub updated_at: i64,
}

impl Clone for Exchange {
    fn clone(&self) -> (r: Self)
        ensures
            r == *self,
    {
        Exchange {
            id: self.id,
            name: self.name.clone(),
            short_name: self.short_name.clone(),
            url: self.url.clone(),
            created_at: self.created_at,
            updated_at: self.updated_at,
        }
    }
}

/// A tradable asset owned by one exchange.  `short_name` is the ticker
/// symbol used for matching by value; it is not globally unique.
#[derive(Debug)]
pub struct Asset {
    pub id: Option<RecordId>,
    pub exchange_id: RecordId,
    pub name: String,
    pub short_name: String,
    pub created_at: i64,
    pub updated_at: i64,
    pub status: bool,
}

impl Clone for Asset {
    fn clone(&self) -> (r: Self)
        ensures
            r == *self,
    {
        Asset {
            id: self.id,
            exchange_id: self.exchange_id,
            name: self.name.clone(),
            short_name: self.short_name.clone(),
            created_at: self.created_at,
            updated_at: self.updated_at,
            status: self.status,
        }
    }
}

/// A tradable pair on one exchange, referring to its exchange and to its
/// base and quote assets by identifier.
#[derive(Clone, Copy, PartialEq, Eq, Structural, Debug)]
pub struct MarketPair {
    pub id: Option<RecordId>,
    pub exchange_id: RecordId,
    pub base_asset_id: RecordId,
    pub quote_asset_id: RecordId,
    pub created_at: i64,
    pub updated_at: i64,
    pub status: bool,
}

/// A read-only projection of a market pair with its exchange and both
/// assets fully expanded.  Computed on read via join; never persisted.
#[derive(Debug)]
pub struct PopulatedMarketPair {
    pub id: Option<RecordId>,
    pub exchange: Exchange,
    pub base_asset: Asset,
    pub quote_asset: Asset,
    pub created_at: i64,
    pub updated_at: i64,
    pub status: bool,
}

impl Clone for PopulatedMarketPair {
    fn clone(&self) -> (r: Self)
        ensures
            r == *self,
    {
        PopulatedMarketPair {
            id: self.id,
            exchange: self.exchange.clone(),
            base_asset: self.base_asset.clone(),
            quote_asset: self.quote_asset.clone(),
            created_at: self.created_at,
            updated_at: self.updated_at,
            status: self.status,
        }
    }
}

} // verus!
