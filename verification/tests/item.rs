use tradingpost::item::{checked_total_quantity, first_price, total_quantity, ItemPrice, ListEntry};

fn entry(listing_count: u32, unit_price: u32, quantity: u32) -> ListEntry {
    ListEntry {
        listing_count,
        unit_price,
        quantity,
    }
}

#[test]
fn test_supply() {
    let item_price = ItemPrice {
        item_id: 1,
        buy_listings: vec![],
        sell_listings: vec![
            ListEntry {
                listing_count: 10,
                unit_price: 25,
                quantity: 10,
            },
            ListEntry {
                listing_count: 15,
                unit_price: 50,
                quantity: 1,
            },
        ],
    };

    assert_eq!(11, item_price.supply());
}

#[test]
fn test_supply_no_sells() {
    let item_price = ItemPrice {
        item_id: 1,
        buy_listings: vec![],
        sell_listings: vec![],
    };

    assert_eq!(0, item_price.supply());
}

#[test]
fn test_demand() {
    let item_price = ItemPrice {
        item_id: 1,
        buy_listings: vec![
            ListEntry {
                listing_count: 5,
                unit_price: 10,
                quantity: 500,
            },
            ListEntry {
                listing_count: 10,
                unit_price: 5,
                quantity: 250,
            },
        ],
        sell_listings: vec![],
    };

    assert_eq!(750, item_price.demand());
}

#[test]
fn test_demand_no_buys() {
    let item_price = ItemPrice {
        item_id: 1,
        buy_listings: vec![],
        sell_listings: vec![],
    };

    assert_eq!(0, item_price.demand());
}

#[test]
fn test_sell_price() {
    let item_price = ItemPrice {
        item_id: 1,
        buy_listings: vec![],
        sell_listings: vec![
            ListEntry {
                listing_count: 10,
                unit_price: 25,
                quantity: 10,
            },
            ListEntry {
                listing_count: 15,
                unit_price: 50,
                quantity: 1,
            },
        ],
    };

    assert_eq!(25, item_price.sell_price());
}

#[test]
fn test_sell_price_no_listings() {
    let item_price = ItemPrice {
        item_id: 1,
        buy_listings: vec![],
        sell_listings: vec![],
    };

    assert_eq!(0, item_price.sell_price());
}

#[test]
fn test_buy_price() {
    let item_price = ItemPrice {
        item_id: 1,
        buy_listings: vec![
            ListEntry {
                listing_count: 5,
                unit_price: 10,
                quantity: 500,
            },
            ListEntry {
                listing_count: 10,
                unit_price: 5,
                quantity: 250,
            },
        ],
        sell_listings: vec![],
    };

    assert_eq!(10, item_price.buy_price());
}

#[test]
fn test_buy_price_no_buys() {
    let item_price = ItemPrice {
        item_id: 1,
        buy_listings: vec![],
        sell_listings: vec![],
    };

    assert_eq!(0, item_price.buy_price());
}

#[test]
fn total_quantity_adds_every_entry() {
    assert_eq!(11, total_quantity(&vec![entry(10, 25, 10), entry(15, 50, 1)]));
    assert_eq!(7, total_quantity(&vec![entry(1, 1, 7)]));
    assert_eq!(6, total_quantity(&vec![entry(9, 9, 1), entry(9, 9, 2), entry(9, 9, 3)]));
}

#[test]
fn total_quantity_of_nothing_is_zero() {
    assert_eq!(0, total_quantity(&vec![]));
    assert_eq!(Some(0), checked_total_quantity(&vec![]));
}

#[test]
fn total_quantity_ignores_counts_and_prices() {
    assert_eq!(0, total_quantity(&vec![entry(4, 100, 0), entry(8, 200, 0)]));
}

#[test]
fn checked_total_quantity_agrees_where_the_sum_fits() {
    let entries = vec![entry(10, 25, 10), entry(15, 50, 1)];
    assert_eq!(Some(11), checked_total_quantity(&entries));
    assert_eq!(Some(total_quantity(&entries)), checked_total_quantity(&entries));
}

#[test]
fn checked_total_quantity_reaches_the_largest_value() {
    let entries = vec![entry(1, 1, u32::MAX - 1), entry(1, 1, 1)];
    assert_eq!(Some(u32::MAX), checked_total_quantity(&entries));
    assert_eq!(u32::MAX, total_quantity(&entries));
}

#[test]
fn checked_total_quantity_is_none_beyond_the_largest_value() {
    assert_eq!(None, checked_total_quantity(&vec![entry(1, 1, u32::MAX), entry(1, 1, 1)]));
    assert_eq!(
        None,
        checked_total_quantity(&vec![entry(1, 1, u32::MAX), entry(1, 1, 1), entry(1, 1, 0)])
    );
    assert_eq!(
        None,
        checked_total_quantity(&vec![entry(1, 1, 1 << 31), entry(1, 1, 1 << 31)])
    );
}

#[test]
fn first_price_reads_the_entry_in_front() {
    assert_eq!(25, first_price(&vec![entry(10, 25, 10), entry(15, 50, 1)]));
    assert_eq!(25, first_price(&vec![entry(10, 25, 10)]));
}

#[test]
fn first_price_of_nothing_is_zero() {
    assert_eq!(0, first_price(&vec![]));
}

#[test]
fn first_price_does_not_search_an_unordered_side() {
    let entries = vec![entry(1, 5, 1), entry(1, 10, 1), entry(1, 2, 1)];
    assert_eq!(5, first_price(&entries));

    let item_price = ItemPrice {
        item_id: 1,
        buy_listings: vec![entry(1, 5, 1), entry(1, 10, 1)],
        sell_listings: vec![entry(1, 50, 1), entry(1, 25, 1)],
    };
    assert_eq!(5, item_price.buy_price());
    assert_eq!(50, item_price.sell_price());
}

#[test]
fn first_price_is_the_best_price_of_an_ordered_side() {
    let buys = vec![entry(1, 30, 1), entry(1, 20, 1), entry(1, 20, 1), entry(1, 1, 1)];
    let highest = buys.iter().map(|e| e.unit_price).max().unwrap();
    assert_eq!(highest, first_price(&buys));

    let sells = vec![entry(1, 40, 1), entry(1, 41, 1), entry(1, 90, 1)];
    let lowest = sells.iter().map(|e| e.unit_price).min().unwrap();
    assert_eq!(lowest, first_price(&sells));
}

#[test]
fn each_figure_reads_its_own_side() {
    let item_price = ItemPrice {
        item_id: 1,
        buy_listings: vec![entry(5, 10, 500), entry(10, 5, 250)],
        sell_listings: vec![entry(10, 25, 10), entry(15, 50, 1)],
    };

    assert_eq!(11, item_price.supply());
    assert_eq!(750, item_price.demand());
    assert_eq!(10, item_price.buy_price());
    assert_eq!(25, item_price.sell_price());
}

#[test]
fn a_clone_holds_the_same_book() {
    let item_price = ItemPrice {
        item_id: 9,
        buy_listings: vec![entry(5, 10, 500)],
        sell_listings: vec![entry(10, 25, 10), entry(15, 50, 1)],
    };

    let copy = item_price.clone();

    assert_eq!(item_price, copy);
    assert_eq!(entry(5, 10, 500), entry(5, 10, 500).clone());
}
