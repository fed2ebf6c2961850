//! The documents of the two commerce endpoints, field for field.

use vstd::prelude::*;

verus! {

/// The best price of each side of one item's order book.
#[derive(Debug, PartialEq)]
pub struct ItemPrice {
    pub id: u32,
    pub whitelisted: bool,
    pub buys: PriceTotal,
    pub sells: PriceTotal,
}

/// One side of an [`ItemPrice`].
#[derive(Debug, PartialEq)]
pub struct PriceTotal {
    pub quantity: u32,
    pub unit_price: u32,
}

/// The whole order book of one item. The API sends each side best price
/// first: `buys` from the highest bid down, `sells` from the lowest offer up.
#[derive(Debug, PartialEq)]
pub struct ItemListings {
    pub id: u32,
    pub buys: Vec<Listing>,
    pub sells: Vec<Listing>,
}

/// One price level of an order book as the API sends it.
#[derive(Debug, PartialEq)]
pub struct Listing {
    pub listings: u32,
    pub unit_price: u32,
    pub quantity: u32,
}

/// What an [`ItemListings`] holds, as mathematical sequences.
pub struct ItemListingsView {
    pub id: u32,
    pub buys: Seq<Listing>,
    pub sells: Seq<Listing>,
}

impl View for ItemListings {
    type V = ItemListingsView;

    open spec fn view(&self) -> ItemListingsView {
        ItemListingsView { id: self.id, buys: self.buys@, sells: self.sells@ }
    }
}

} // verus!
