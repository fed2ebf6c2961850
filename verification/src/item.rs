//! The price snapshot of one item and the figures derived from its order book.
//!
//! Both sides of an order book are expected best price first: the buy side
//! from the highest bid down, the sell side from the lowest offer up. The
//! prices below read the entry in front and rely on that order; nothing here
//! sorts or checks it.

use vstd::prelude::*;

verus! {

/// One price level of an order book: how many orders rest at `unit_price`,
/// and how many units they ask for or offer together.
#[derive(Debug, PartialEq)]
pub struct ListEntry {
    pub listing_count: u32,
    pub unit_price: u32,
    pub quantity: u32,
}

impl Clone for ListEntry {
    fn clone(&self) -> (copy: Self)
        ensures
            copy == *self,
    {
        ListEntry {
            listing_count: self.listing_count,
            unit_price: self.unit_price,
            quantity: self.quantity,
        }
    }
}

/// The order book of one item at one moment.
#[derive(Debug, PartialEq)]
pub struct ItemPrice {
    pub item_id: u32,
    pub buy_listings: Vec<ListEntry>,
    pub sell_listings: Vec<ListEntry>,
}

/// What an [`ItemPrice`] holds, as mathematical sequences.
pub struct ItemPriceView {
    pub item_id: u32,
    pub buy_listings: Seq<ListEntry>,
    pub sell_listings: Seq<ListEntry>,
}

impl View for ItemPrice {
    type V = ItemPriceView;

    open spec fn view(&self) -> ItemPriceView {
        ItemPriceView {
            item_id: self.item_id,
            buy_listings: self.buy_listings@,
            sell_listings: self.sell_listings@,
        }
    }
}

impl Clone for ItemPrice {
    fn clone(&self) -> (copy: Self)
        ensures
            copy@ == self@,
    {
        let copy = ItemPrice {
            item_id: self.item_id,
            buy_listings: self.buy_listings.clone(),
            sell_listings: self.sell_listings.clone(),
        };
        assert(copy.buy_listings@ =~= self.buy_listings@);
        assert(copy.sell_listings@ =~= self.sell_listings@);
        copy
    }
}

/// The units of all the entries together.
pub open spec fn sum_of_quantities(entries: Seq<ListEntry>) -> nat
    decreases entries.len(),
{
    if entries.len() == 0 {
        0
    } else {
        sum_of_quantities(entries.drop_last()) + entries.last().quantity as nat
    }
}

/// The unit price of the entry in front, and 0 where there is no entry.
pub open spec fn price_in_front(entries: Seq<ListEntry>) -> u32 {
    if entries.len() == 0 {
        0
    } else {
        entries[0].unit_price
    }
}

/// No entry has a higher unit price than one that stands before it.
pub open spec fn highest_first(entries: Seq<ListEntry>) -> bool {
    forall|i: int, j: int|
        0 <= i <= j < entries.len() ==> entries[i].unit_price >= entries[j].unit_price
}

/// No entry has a lower unit price than one that stands before it.
pub open spec fn lowest_first(entries: Seq<ListEntry>) -> bool {
    forall|i: int, j: int|
        0 <= i <= j < entries.len() ==> entries[i].unit_price <= entries[j].unit_price
}

impl ItemPriceView {
    /// Units offered for sale.
    pub open spec fn supply(self) -> nat {
        sum_of_quantities(self.sell_listings)
    }

    /// Units asked for.
    pub open spec fn demand(self) -> nat {
        sum_of_quantities(self.buy_listings)
    }

    /// The bid in front of the buy side, 0 without bids.
    pub open spec fn buy_price(self) -> u32 {
        price_in_front(self.buy_listings)
    }

    /// The offer in front of the sell side, 0 without offers.
    pub open spec fn sell_price(self) -> u32 {
        price_in_front(self.sell_listings)
    }
}

/// The units of a shorter run of entries never exceed those of the whole.
pub proof fn lemma_sum_of_quantities_grows(entries: Seq<ListEntry>, n: int)
    requires
        0 <= n <= entries.len(),
    ensures
        sum_of_quantities(entries.take(n)) <= sum_of_quantities(entries),
    decreases entries.len(),
{
    if n == entries.len() {
        assert(entries.take(n) =~= entries);
    } else {
        lemma_sum_of_quantities_grows(entries.drop_last(), n);
        assert(entries.drop_last().take(n) =~= entries.take(n));
    }
}

/// The units of all the entries together, or `None` where they are more than
/// a `u32` holds.
pub fn checked_total_quantity(entries: &Vec<ListEntry>) -> (total: Option<u32>)
    ensures
        total == if sum_of_quantities(entries@) <= u32::MAX {
            Some(sum_of_quantities(entries@) as u32)
        } else {
            None
        },
{
    let mut total: u32 = 0;
    let mut i: usize = 0;
    while i < entries.len()
        invariant
            0 <= i <= entries.len(),
            total == sum_of_quantities(entries@.take(i as int)),
        decreases entries.len() - i,
    {
        proof {
            assert(entries@.take(i + 1).drop_last() =~= entries@.take(i as int));
            lemma_sum_of_quantities_grows(entries@, i + 1);
        }
        match total.checked_add(entries[i].quantity) {
            Some(more) => {
                total = more;
            },
            None => {
                return None;
            },
        }
        i += 1;
    }
    proof {
        assert(entries@.take(i as int) =~= entries@);
    }
    Some(total)
}

/// The units of all the entries together; 0 for no entries.
pub fn total_quantity(entries: &Vec<ListEntry>) -> (total: u32)
    requires
        sum_of_quantities(entries@) <= u32::MAX,
    ensures
        total == sum_of_quantities(entries@),
{
    let mut total: u32 = 0;
    let mut i: usize = 0;
    while i < entries.len()
        invariant
            0 <= i <= entries.len(),
            total == sum_of_quantities(entries@.take(i as int)),
            sum_of_quantities(entries@) <= u32::MAX,
        decreases entries.len() - i,
    {
        proof {
            assert(entries@.take(i + 1).drop_last() =~= entries@.take(i as int));
            lemma_sum_of_quantities_grows(entries@, i + 1);
        }
        total = total + entries[i].quantity;
        i += 1;
    }
    proof {
        assert(entries@.take(i as int) =~= entries@);
    }
    total
}

/// The unit price of the entry in front; 0 for no entries.
///
/// On a side that stands best price first this is its best price: the highest
/// of a buy side, the lowest of a sell side. On any other order it is still
/// the entry in front, whatever the others hold.
pub fn first_price(entries: &Vec<ListEntry>) -> (price: u32)
    ensures
        price == price_in_front(entries@),
        highest_first(entries@) ==> forall|i: int|
            0 <= i < entries@.len() ==> entries@[i].unit_price <= price,
        lowest_first(entries@) ==> forall|i: int|
            0 <= i < entries@.len() ==> entries@[i].unit_price >= price,
{
    if entries.len() == 0 {
        0
    } else {
        entries[0].unit_price
    }
}

impl ItemPrice {
    /// Total number of units for sale.
    pub fn supply(&self) -> (units: u32)
        requires
            self@.supply() <= u32::MAX,
        ensures
            units == self@.supply(),
    {
        total_quantity(&self.sell_listings)
    }

    /// Total number of units ordered.
    pub fn demand(&self) -> (units: u32)
        requires
            self@.demand() <= u32::MAX,
        ensures
            units == self@.demand(),
    {
        total_quantity(&self.buy_listings)
    }

    /// Highest buy order price for the item, read from the front of the buy
    /// side; 0 without buy orders.
    pub fn buy_price(&self) -> (price: u32)
        ensures
            price == self@.buy_price(),
            highest_first(self@.buy_listings) ==> forall|i: int|
                0 <= i < self@.buy_listings.len() ==> self@.buy_listings[i].unit_price <= price,
    {
        first_price(&self.buy_listings)
    }

    /// Lowest sell order price for the item, read from the front of the sell
    /// side; 0 without sell orders.
    pub fn sell_price(&self) -> (price: u32)
        ensures
            price == self@.sell_price(),
            lowest_first(self@.sell_listings) ==> forall|i: int|
                0 <= i < self@.sell_listings.len() ==> self@.sell_listings[i].unit_price >= price,
    {
        first_price(&self.sell_listings)
    }
}

} // verus!
