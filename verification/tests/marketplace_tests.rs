use nodara::marketplace::{Config, Error, Event, Order, OrderType, Pallet, Trade};

fn test_config() -> Config {
    Config { max_asset_metadata_length: 64, base_trade_fee: 1 }
}

fn order(id: u64, order_type: OrderType) -> Order {
    Order {
        id,
        asset_id: 1,
        order_type,
        price: 100,
        quantity: 10,
        account: 1,
        timestamp: Pallet::current_timestamp(),
    }
}

#[test]
fn test_marketplace_flow() {
    let mut pallet = Pallet::new(test_config());
    // Register an asset.
    assert!(pallet.register_asset(1, 1, b"Asset Metadata".to_vec()).is_ok());
    // Place a buy order.
    let buy_order = order(1, OrderType::Buy);
    assert!(pallet.place_order(buy_order).is_ok());
    // Place a sell order.
    let sell_order = order(2, OrderType::Sell);
    assert!(pallet.place_order(sell_order).is_ok());
    // Execute trade.
    let trade = Trade {
        id: 1,
        buy_order_id: 1,
        sell_order_id: 2,
        asset_id: 1,
        price: 100,
        quantity: 10,
        timestamp: Pallet::current_timestamp(),
    };
    assert!(pallet.execute_trade(trade).is_ok());
}

#[test]
fn register_asset_checks_length_and_duplicates() {
    let mut pallet = Pallet::new(test_config());
    let long = vec![b'm'; 65];
    assert_eq!(pallet.register_asset(1, 1, long), Err(Error::AssetMetadataTooLong));
    assert!(pallet.register_asset(1, 1, b"meta".to_vec()).is_ok());
    assert_eq!(
        pallet.register_asset(2, 1, b"again".to_vec()),
        Err(Error::AssetAlreadyRegistered)
    );
    let asset = pallet.assets.get(1).unwrap();
    assert_eq!(asset.owner, 1);
    assert_eq!(asset.metadata, b"meta".to_vec());
    assert_eq!(pallet.events, vec![Event::AssetRegistered(1, 1)]);
}

#[test]
fn placing_orders_fills_the_order_book() {
    let mut pallet = Pallet::new(test_config());
    pallet.place_order(order(1, OrderType::Buy)).unwrap();
    pallet.place_order(order(2, OrderType::Sell)).unwrap();
    assert!(pallet.buy_orders.get(1).is_some());
    assert!(pallet.sell_orders.get(2).is_some());
    assert!(pallet.buy_orders.get(2).is_none());
    assert_eq!(pallet.order_book.get(1).unwrap(), &vec![1, 2]);
    assert_eq!(
        pallet.events,
        vec![
            Event::OrderPlaced(1, OrderType::Buy, 1),
            Event::OrderPlaced(2, OrderType::Sell, 1),
        ]
    );
}

#[test]
fn cancel_order_removes_only_the_named_side() {
    let mut pallet = Pallet::new(test_config());
    pallet.place_order(order(1, OrderType::Buy)).unwrap();
    assert_eq!(
        pallet.cancel_order(1, OrderType::Sell),
        Err(Error::OrderNotFound)
    );
    assert!(pallet.cancel_order(1, OrderType::Buy).is_ok());
    assert!(pallet.buy_orders.get(1).is_none());
    assert_eq!(pallet.events.last().unwrap(), &Event::OrderCancelled(1));
}

#[test]
fn execute_trade_consumes_both_orders_and_records_history() {
    let mut pallet = Pallet::new(test_config());
    pallet.place_order(order(1, OrderType::Buy)).unwrap();
    pallet.place_order(order(2, OrderType::Sell)).unwrap();
    let trade = Trade {
        id: 9,
        buy_order_id: 1,
        sell_order_id: 2,
        asset_id: 1,
        price: 100,
        quantity: 10,
        timestamp: Pallet::current_timestamp(),
    };
    assert!(pallet.execute_trade(trade).is_ok());
    assert!(pallet.buy_orders.get(1).is_none());
    assert!(pallet.sell_orders.get(2).is_none());
    assert_eq!(pallet.trades_history, vec![trade]);
    assert_eq!(pallet.events.last().unwrap(), &Event::TradeExecuted(9, 1, 10, 100));
    // A second execution no longer finds the orders.
    assert_eq!(pallet.execute_trade(trade), Err(Error::OrderNotFound));
}
