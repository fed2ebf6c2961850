//! Stores of price snapshots.
//!
//! A store keeps, for each item, the snapshots that were added for it, in
//! the order in which they came. It only ever appends: no record is merged
//! with another, replaced or dropped by an `add`.

use vstd::prelude::*;

use crate::item::{ItemPrice, ItemPriceView};

pub mod in_memory;

verus! {

/// Represents a saved [`ItemPrice`].
#[derive(Debug)]
pub struct ItemPriceRecord {
    pub item_price: ItemPrice,
}

/// What an [`ItemPriceRecord`] holds.
pub struct ItemPriceRecordView {
    pub item_price: ItemPriceView,
}

impl View for ItemPriceRecord {
    type V = ItemPriceRecordView;

    open spec fn view(&self) -> ItemPriceRecordView {
        ItemPriceRecordView { item_price: self.item_price@ }
    }
}

impl Clone for ItemPriceRecord {
    fn clone(&self) -> (copy: Self)
        ensures
            copy@ == self@,
    {
        ItemPriceRecord { item_price: self.item_price.clone() }
    }
}

/// What each of the records holds, in their order.
pub open spec fn views_of(records: Seq<ItemPriceRecord>) -> Seq<ItemPriceRecordView> {
    records.map_values(|record: ItemPriceRecord| record@)
}

/// Why a store could not do what it was asked.
#[derive(Debug, PartialEq, Eq)]
pub struct StoreError {
    /// What the backend reported.
    pub reason: String,
}

/// Everything a store holds: for each item that has records, its records
/// from the oldest to the newest.
pub struct PriceHistory {
    pub by_item: Map<u32, Seq<ItemPriceRecordView>>,
}

impl PriceHistory {
    /// The history of a store to which nothing was added yet.
    pub open spec fn empty() -> PriceHistory {
        PriceHistory { by_item: Map::empty() }
    }

    /// The records of one item, oldest first; none for an item without any.
    pub open spec fn for_item(self, item_id: u32) -> Seq<ItemPriceRecordView> {
        if self.by_item.contains_key(item_id) {
            self.by_item[item_id]
        } else {
            Seq::empty()
        }
    }

    /// The history after one more snapshot: a new record of it stands behind
    /// the records that its item had, and nothing else differs.
    pub open spec fn add(self, item_price: ItemPriceView) -> PriceHistory {
        PriceHistory {
            by_item: self.by_item.insert(
                item_price.item_id,
                self.for_item(item_price.item_id).push(ItemPriceRecordView { item_price }),
            ),
        }
    }
}

/// General purpose store for item price data.
pub trait PriceStore {
    /// Everything the store holds.
    spec fn history(&self) -> PriceHistory;

    /// Add an item price to the store. The record that is returned is the one
    /// that was appended. A store that fails has kept what it had.
    fn add(&mut self, item_price: ItemPrice) -> (result: Result<ItemPriceRecord, StoreError>)
        ensures
            match result {
                Ok(record) => {
                    &&& record@ == (ItemPriceRecordView { item_price: item_price@ })
                    &&& final(self).history() == old(self).history().add(item_price@)
                },
                Err(_) => final(self).history() == old(self).history(),
            },
    ;

    /// Get all price records for an item by its ID, oldest first. An item
    /// without records has an empty list, which is no failure.
    fn for_item(&self, item_id: u32) -> (result: Result<Vec<ItemPriceRecord>, StoreError>)
        ensures
            result matches Ok(records) ==> {
                &&& views_of(records@) == self.history().for_item(item_id)
                &&& records@.len() == self.history().for_item(item_id).len()
            },
    ;
}

/// Nothing was recorded for any item before the first `add`.
pub proof fn lemma_empty_history_has_no_records(item_id: u32)
    ensures
        PriceHistory::empty().for_item(item_id) == Seq::<ItemPriceRecordView>::empty(),
{
}

/// An `add` puts one record of the snapshot behind the records of its item
/// and leaves the records of every other item as they were.
pub proof fn lemma_add_appends(history: PriceHistory, item_price: ItemPriceView)
    ensures
        history.add(item_price).for_item(item_price.item_id) == history.for_item(
            item_price.item_id,
        ).push(ItemPriceRecordView { item_price }),
        forall|other: u32|
            other != item_price.item_id ==> #[trigger] history.add(item_price).for_item(other)
                == history.for_item(other),
{
}

/// After the first `add` for an item, the item has exactly that one record.
pub proof fn lemma_first_add_is_only_record(history: PriceHistory, item_price: ItemPriceView)
    requires
        history.for_item(item_price.item_id).len() == 0,
    ensures
        history.add(item_price).for_item(item_price.item_id) == seq![
            ItemPriceRecordView { item_price },
        ],
        history.add(item_price).for_item(item_price.item_id)[0].item_price.item_id
            == item_price.item_id,
{
    assert(history.add(item_price).for_item(item_price.item_id) =~= seq![
        ItemPriceRecordView { item_price },
    ]);
}

/// Two `add`s for one item leave two records behind those that the item had,
/// the earlier one first, and neither replaces the other.
pub proof fn lemma_adds_keep_their_order(
    history: PriceHistory,
    first: ItemPriceView,
    second: ItemPriceView,
)
    requires
        first.item_id == second.item_id,
    ensures
        history.add(first).add(second).for_item(first.item_id) == history.for_item(
            first.item_id,
        ).push(ItemPriceRecordView { item_price: first }).push(
            ItemPriceRecordView { item_price: second },
        ),
{
}

} // verus!
