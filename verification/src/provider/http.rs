//! The provider that reads an item's listings from the trading post's API.

use vstd::prelude::*;
use vstd::std_specs::convert::FromSpecImpl;

use super::{PricingProvider, ProviderError};
use crate::api::client::{commerce_url, Reply};
use crate::api::model::{ItemListings, ItemListingsView, Listing};
use crate::api::Client;
use crate::item::{ItemPrice, ItemPriceView, ListEntry};

verus! {

/// The entry that stands for one listing of the API: each figure unchanged.
pub open spec fn entry_of(listing: Listing) -> ListEntry {
    ListEntry {
        listing_count: listing.listings,
        unit_price: listing.unit_price,
        quantity: listing.quantity,
    }
}

/// The entries that stand for the listings, one for one and in their order.
pub open spec fn entries_of(listings: Seq<Listing>) -> Seq<ListEntry> {
    listings.map_values(|listing: Listing| entry_of(listing))
}

/// The price snapshot that an order book of the API amounts to.
pub open spec fn price_of(listings: ItemListingsView) -> ItemPriceView {
    ItemPriceView {
        item_id: listings.id,
        buy_listings: entries_of(listings.buys),
        sell_listings: entries_of(listings.sells),
    }
}

impl From<Listing> for ListEntry {
    fn from(listing: Listing) -> (entry: Self) {
        ListEntry {
            listing_count: listing.listings,
            unit_price: listing.unit_price,
            quantity: listing.quantity,
        }
    }
}

impl FromSpecImpl<Listing> for ListEntry {
    open spec fn obeys_from_spec() -> bool {
        true
    }

    open spec fn from_spec(listing: Listing) -> ListEntry {
        entry_of(listing)
    }
}

/// Map a collection of listings from the API into our "owned" listing models.
pub fn list_entries(listings: Vec<Listing>) -> (entries: Vec<ListEntry>)
    ensures
        entries@ == entries_of(listings@),
        entries@.len() == listings@.len(),
        forall|i: int|
            0 <= i < listings@.len() ==> {
                &&& (#[trigger] entries@[i]).listing_count == listings@[i].listings
                &&& entries@[i].unit_price == listings@[i].unit_price
                &&& entries@[i].quantity == listings@[i].quantity
            },
{
    let mut entries: Vec<ListEntry> = Vec::new();
    let mut i: usize = 0;
    while i < listings.len()
        invariant
            0 <= i <= listings.len(),
            entries@ == entries_of(listings@.take(i as int)),
        decreases listings.len() - i,
    {
        let listing = &listings[i];
        entries.push(
            ListEntry {
                listing_count: listing.listings,
                unit_price: listing.unit_price,
                quantity: listing.quantity,
            },
        );
        i += 1;
        assert(entries@ =~= entries_of(listings@.take(i as int)));
    }
    assert(listings@.take(i as int) =~= listings@);
    entries
}

impl From<ItemListings> for ItemPrice {
    fn from(item_listings: ItemListings) -> (item_price: Self)
        ensures
            item_price@ == price_of(item_listings@),
    {
        ItemPrice {
            item_id: item_listings.id,
            buy_listings: list_entries(item_listings.buys),
            sell_listings: list_entries(item_listings.sells),
        }
    }
}

/// Two vectors that hold the same entries need not be the same value, so
/// the conversion is pinned down by what the snapshot holds, in the `ensures`
/// of `from`, and not as one value here.
impl FromSpecImpl<ItemListings> for ItemPrice {
    open spec fn obeys_from_spec() -> bool {
        false
    }

    open spec fn from_spec(item_listings: ItemListings) -> ItemPrice {
        choose|item_price: ItemPrice| item_price@ == price_of(item_listings@)
    }
}

/// A book without orders has neither supply nor demand, both prices are 0,
/// and its snapshot lists nothing.
pub proof fn lemma_no_orders_no_figures(listings: ItemListingsView)
    requires
        listings.buys.len() == 0,
        listings.sells.len() == 0,
    ensures
        price_of(listings).supply() == 0,
        price_of(listings).demand() == 0,
        price_of(listings).buy_price() == 0,
        price_of(listings).sell_price() == 0,
        price_of(listings).buy_listings.len() == 0,
        price_of(listings).sell_listings.len() == 0,
{
}

/// A side without orders has no units and the price 0, whatever the other
/// side holds.
pub proof fn lemma_empty_side_has_no_figures(listings: ItemListingsView)
    ensures
        listings.buys.len() == 0 ==> price_of(listings).demand() == 0 && price_of(
            listings,
        ).buy_price() == 0 && price_of(listings).buy_listings.len() == 0,
        listings.sells.len() == 0 ==> price_of(listings).supply() == 0 && price_of(
            listings,
        ).sell_price() == 0 && price_of(listings).sell_listings.len() == 0,
{
}

/// A snapshot lists as many entries on each side as the book has listings
/// there, in the same order and with the same figures.
pub proof fn lemma_every_listing_is_kept(listings: ItemListingsView)
    ensures
        price_of(listings).item_id == listings.id,
        price_of(listings).buy_listings.len() == listings.buys.len(),
        price_of(listings).sell_listings.len() == listings.sells.len(),
        forall|i: int|
            0 <= i < listings.buys.len() ==> {
                &&& (#[trigger] price_of(listings).buy_listings[i]).listing_count
                    == listings.buys[i].listings
                &&& price_of(listings).buy_listings[i].unit_price == listings.buys[i].unit_price
                &&& price_of(listings).buy_listings[i].quantity == listings.buys[i].quantity
            },
        forall|i: int|
            0 <= i < listings.sells.len() ==> {
                &&& (#[trigger] price_of(listings).sell_listings[i]).listing_count
                    == listings.sells[i].listings
                &&& price_of(listings).sell_listings[i].unit_price == listings.sells[i].unit_price
                &&& price_of(listings).sell_listings[i].quantity == listings.sells[i].quantity
            },
{
}

/// A [`PricingProvider`] that works from the trading post's API.
pub struct HttpPriceSource {
    client: Client,
}

impl HttpPriceSource {
    /// The client through which this source asks.
    pub closed spec fn client(&self) -> Client {
        self.client
    }

    /// Create a new [`HttpPriceSource`] with a specific client.
    pub fn new(client: Client) -> (source: Self)
        ensures
            source.client() == client,
    {
        HttpPriceSource { client }
    }
}

impl Default for HttpPriceSource {
    /// Build a ready to use [`HttpPriceSource`].
    fn default() -> (source: Self)
        ensures
            source.client().base_url() == crate::api::client::BASE_URL@,
    {
        HttpPriceSource { client: Client::default() }
    }
}

/// The answer of an [`HttpPriceSource`] to a reply: the snapshot of the book
/// that the reply brought, or the reason why it brought none.
pub open spec fn answer_of(reply: Reply<ItemListings>) -> Result<ItemPriceView, ProviderError> {
    match reply.outcome() {
        Ok(item_listings) => Ok(price_of(item_listings@)),
        Err(reason) => Err(ProviderError::Transport(reason)),
    }
}

impl PricingProvider for HttpPriceSource {
    type Request = String;

    type Reply = Reply<ItemListings>;

    /// The address of the item's listings.
    fn request(&self, item_id: u32) -> (url: String)
        ensures
            url@ == commerce_url(self.client().base_url(), "listings"@, item_id),
    {
        self.client.listings_url(item_id)
    }

    /// The snapshot of the book that the reply brought. A reply that brought
    /// none fails with the reason that the client gives for it.
    fn for_item(&self, reply: Reply<ItemListings>) -> (result: Result<ItemPrice, ProviderError>)
        ensures
            match answer_of(reply) {
                Ok(snapshot) => result matches Ok(item_price) && item_price@ == snapshot,
                Err(reason) => result == Err::<ItemPrice, ProviderError>(reason),
            },
    {
        match self.client.item_listings(reply) {
            Ok(item_listings) => Ok(ItemPrice::from(item_listings)),
            Err(reason) => Err(ProviderError::Transport(reason)),
        }
    }
}

} // verus!
