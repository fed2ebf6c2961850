//! Sources of current prices.
//!
//! A provider does not talk to the outside itself. It says what it needs to
//! learn an item's price, and it turns the reply to that request into the
//! price. Whoever drives it carries the request out in between.

use vstd::prelude::*;

use crate::api::client::TransportError;
use crate::item::ItemPrice;

pub mod http;

verus! {

/// Why a provider could not give a price.
#[derive(Debug, Clone, Copy, PartialEq, Eq, Structural)]
pub enum ProviderError {
    /// The request failed on its way; the reason is handed on as it came.
    Transport(TransportError),
}

/// A source of current prices.
pub trait PricingProvider {
    /// What the provider asks for.
    type Request;

    /// What comes back for a request.
    type Reply;

    /// What has to be asked to learn the current price of an item.
    fn request(&self, item_id: u32) -> Self::Request;

    /// The current price information for an item, from the reply to the
    /// request for it.
    fn for_item(&self, reply: Self::Reply) -> Result<ItemPrice, ProviderError>;
}

} // verus!
