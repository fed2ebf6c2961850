//! A store that keeps its records in memory, for as long as it lives.

use std::collections::HashMap;
use vstd::prelude::*;

use super::{views_of, ItemPriceRecord, PriceHistory, PriceStore, StoreError};
use crate::item::ItemPrice;

verus! {

/// A [`PriceStore`] over a map of its own. Two stores share nothing, and
/// nothing is evicted.
pub struct InMemoryPriceStore {
    price_map: HashMap<u32, Vec<ItemPriceRecord>>,
}

impl Default for InMemoryPriceStore {
    /// A store without records.
    fn default() -> (store: Self)
        ensures
            store.history() == PriceHistory::empty(),
    {
        let store = InMemoryPriceStore { price_map: HashMap::new() };
        assert(store.history().by_item =~= Map::empty());
        store
    }
}

impl PriceStore for InMemoryPriceStore {
    closed spec fn history(&self) -> PriceHistory {
        PriceHistory {
            by_item: self.price_map@.map_values(|records: Vec<ItemPriceRecord>| views_of(records@)),
        }
    }

    /// Never fails.
    fn add(&mut self, item_price: ItemPrice) -> (result: Result<ItemPriceRecord, StoreError>)
        ensures
            result is Ok,
    {
        let item_id = item_price.item_id;
        let price_record = ItemPriceRecord { item_price };
        let mut item_prices = match self.price_map.remove(&item_id) {
            Some(item_prices) => item_prices,
            None => Vec::new(),
        };
        assert(views_of(item_prices@) =~= old(self).history().for_item(item_id));
        item_prices.push(price_record.clone());
        assert(views_of(item_prices@) =~= old(self).history().for_item(item_id).push(
            price_record@,
        ));
        self.price_map.insert(item_id, item_prices);
        assert(self.history().by_item =~= old(self).history().add(item_price@).by_item);
        Ok(price_record)
    }

    /// Never fails.
    fn for_item(&self, item_id: u32) -> (result: Result<Vec<ItemPriceRecord>, StoreError>)
        ensures
            result is Ok,
    {
        let records = match self.price_map.get(&item_id) {
            Some(prices) => prices.clone(),
            None => Vec::new(),
        };
        assert(views_of(records@) =~= self.history().for_item(item_id));
        Ok(records)
    }
}

} // verus!
