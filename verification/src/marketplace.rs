//! Marketplace: registered assets, buy and sell orders kept in separate
//! stores with a per-asset order book, and a trade history.

use vstd::prelude::*;

use crate::bytes;
use crate::store::KeyedStore;
use crate::FIXED_TIMESTAMP;

verus! {

/// Configuration constants fixed when the module is assembled into a runtime.
#[derive(PartialEq, Eq, Structural, Clone, Copy, Debug)]
pub struct Config {
    /// Maximum allowed length for asset metadata.
    pub max_asset_metadata_length: u32,
    /// Base trade fee (if applicable).
    pub base_trade_fee: u32,
}

/// A registered asset.
pub struct Asset {
    /// Unique asset identifier.
    pub id: u64,
    /// Detailed metadata about the asset.
    pub metadata: Vec<u8>,
    /// Owner of the asset.
    pub owner: u64,
}

/// The side of an order.
#[derive(PartialEq, Eq, Structural, Clone, Copy, Debug)]
pub enum OrderType {
    Buy,
    Sell,
}

/// An order for an asset.
#[derive(PartialEq, Eq, Structural, Clone, Copy, Debug)]
pub struct Order {
    /// Unique order identifier.
    pub id: u64,
    /// Asset identifier for the order.
    pub asset_id: u64,
    /// Type of order (buy or sell).
    pub order_type: OrderType,
    /// Price per unit (in the smallest currency unit).
    pub price: u32,
    /// Quantity of the asset.
    pub quantity: u32,
    /// Identifier of the account placing the order.
    pub account: u64,
    /// Timestamp when the order was placed.
    pub timestamp: u64,
}

/// An executed trade.
#[derive(PartialEq, Eq, Structural, Clone, Copy, Debug)]
pub struct Trade {
    /// Unique trade identifier.
    pub id: u64,
    /// Identifier of the buy order.
    pub buy_order_id: u64,
    /// Identifier of the sell order.
    pub sell_order_id: u64,
    /// Asset identifier traded.
    pub asset_id: u64,
    /// Trade execution price.
    pub price: u32,
    /// Quantity traded.
    pub quantity: u32,
    /// Timestamp of trade execution.
    pub timestamp: u64,
}

/// Events recorded for the runtime's subscribers.
#[derive(PartialEq, Eq, Structural, Clone, Copy, Debug)]
pub enum Event {
    /// An asset was registered: (asset ID, owner).
    AssetRegistered(u64, u64),
    /// An order was placed: (order ID, order type, asset ID).
    OrderPlaced(u64, OrderType, u64),
    /// An order was cancelled: (order ID).
    OrderCancelled(u64),
    /// A trade was executed: (trade ID, asset ID, quantity, price).
    TradeExecuted(u64, u64, u32, u32),
}

#[derive(PartialEq, Eq, Structural, Clone, Copy, Debug)]
pub enum Error {
    /// The asset metadata exceeds the maximum allowed length.
    AssetMetadataTooLong,
    /// The asset is already registered.
    AssetAlreadyRegistered,
    /// The asset was not found.
    AssetNotFound,
    /// Order not found.
    OrderNotFound,
    /// Insufficient quantity available for trade.
    InsufficientOrderQuantity,
    /// Invalid order parameters.
    InvalidOrder,
}

/// The module's state: registered assets, buy and sell orders, the
/// per-asset order book, the trade history, and the emitted events.
pub struct Pallet {
    pub config: Config,
    pub assets: KeyedStore<Asset>,
    pub buy_orders: KeyedStore<Order>,
    pub sell_orders: KeyedStore<Order>,
    pub order_book: KeyedStore<Vec<u64>>,
    pub trades_history: Vec<Trade>,
    pub events: Vec<Event>,
}

impl Pallet {
    /// All four record stores are well-formed.
    pub open spec fn wf(self) -> bool {
        &&& self.assets.wf()
        &&& self.buy_orders.wf()
        &&& self.sell_orders.wf()
        &&& self.order_book.wf()
    }

    /// The order identifiers listed for `asset_id`; an asset without a book
    /// entry has an empty list.
    pub open spec fn book_of(self, asset_id: u64) -> Seq<u64> {
        if self.order_book@.contains_key(asset_id) {
            self.order_book@[asset_id]@
        } else {
            Seq::empty()
        }
    }

    /// A fresh module with everything at its storage default.
    pub fn new(config: Config) -> (p: Pallet)
        ensures
            p.wf(),
            p.config == config,
            p.assets@ == Map::<u64, Asset>::empty(),
            p.buy_orders@ == Map::<u64, Order>::empty(),
            p.sell_orders@ == Map::<u64, Order>::empty(),
            p.order_book@ == Map::<u64, Vec<u64>>::empty(),
            p.trades_history@ == Seq::<Trade>::empty(),
            p.events@ == Seq::<Event>::empty(),
    {
        Pallet {
            config,
            assets: KeyedStore::new(),
            buy_orders: KeyedStore::new(),
            sell_orders: KeyedStore::new(),
            order_book: KeyedStore::new(),
            trades_history: Vec::new(),
            events: Vec::new(),
        }
    }

    /// Registers a new asset under `asset_id`, owned by `owner`.
    ///
    /// Fails leaving the state unchanged when the metadata exceeds the
    /// configured length bound or when the asset is already registered; on
    /// success the asset is stored and an `AssetRegistered` event recorded.
    pub fn register_asset(&mut self, owner: u64, asset_id: u64, metadata: Vec<u8>) -> (r: Result<
        (),
        Error,
    >)
        requires
            old(self).wf(),
        ensures
            final(self).wf(),
            final(self).config == old(self).config,
            metadata@.len() > old(self).config.max_asset_metadata_length ==> {
                &&& r == Err::<(), Error>(Error::AssetMetadataTooLong)
                &&& *final(self) == *old(self)
            },
            metadata@.len() <= old(self).config.max_asset_metadata_length && old(
                self,
            ).assets@.contains_key(asset_id) ==> {
                &&& r == Err::<(), Error>(Error::AssetAlreadyRegistered)
                &&& *final(self) == *old(self)
            },
            metadata@.len() <= old(self).config.max_asset_metadata_length && !old(
                self,
            ).assets@.contains_key(asset_id) ==> {
                &&& r == Ok::<(), Error>(())
                &&& final(self).assets@ == old(self).assets@.insert(
                    asset_id,
                    Asset { id: asset_id, metadata, owner },
                )
                &&& final(self).buy_orders == old(self).buy_orders
                &&& final(self).sell_orders == old(self).sell_orders
                &&& final(self).order_book == old(self).order_book
                &&& final(self).trades_history == old(self).trades_history
                &&& final(self).events@ == old(self).events@.push(
                    Event::AssetRegistered(asset_id, owner),
                )
            },
    {
        if metadata.len() > self.config.max_asset_metadata_length as usize {
            return Err(Error::AssetMetadataTooLong);
        }
        if self.assets.contains_key(asset_id) {
            return Err(Error::AssetAlreadyRegistered);
        }
        self.assets.insert(asset_id, Asset { id: asset_id, metadata, owner });
        self.events.push(Event::AssetRegistered(asset_id, owner));
        Ok(())
    }

    /// Places an order: it is stored on its side's store under its
    /// identifier, replacing any earlier order there, and its identifier is
    /// appended to the asset's order book. Always succeeds.
    pub fn place_order(&mut self, order: Order) -> (r: Result<(), Error>)
        requires
            old(self).wf(),
        ensures
            final(self).wf(),
            r == Ok::<(), Error>(()),
            final(self).config == old(self).config,
            order.order_type == OrderType::Buy ==> {
                &&& final(self).buy_orders@ == old(self).buy_orders@.insert(order.id, order)
                &&& final(self).sell_orders == old(self).sell_orders
            },
            order.order_type == OrderType::Sell ==> {
                &&& final(self).sell_orders@ == old(self).sell_orders@.insert(order.id, order)
                &&& final(self).buy_orders == old(self).buy_orders
            },
            final(self).order_book@ == old(self).order_book@.insert(
                order.asset_id,
                final(self).order_book@[order.asset_id],
            ),
            final(self).book_of(order.asset_id) == old(self).book_of(order.asset_id).push(
                order.id,
            ),
            final(self).assets == old(self).assets,
            final(self).trades_history == old(self).trades_history,
            final(self).events@ == old(self).events@.push(
                Event::OrderPlaced(order.id, order.order_type, order.asset_id),
            ),
    {
        match order.order_type {
            OrderType::Buy => self.buy_orders.insert(order.id, order),
            OrderType::Sell => self.sell_orders.insert(order.id, order),
        }
        let mut book = match self.order_book.get(order.asset_id) {
            Some(existing) => {
                let book = existing.clone();
                proof {
                    assert(book@ =~= old(self).book_of(order.asset_id));
                }
                book
            },
            None => Vec::new(),
        };
        book.push(order.id);
        self.order_book.insert(order.asset_id, book);
        self.events.push(Event::OrderPlaced(order.id, order.order_type, order.asset_id));
        Ok(())
    }

    /// Cancels the order stored under `order_id` on the given side. The
    /// asset's order book is left as it is.
    ///
    /// Fails leaving the state unchanged when no such order is stored; on
    /// success the order is removed and an `OrderCancelled` event recorded.
    pub fn cancel_order(&mut self, order_id: u64, order_type: OrderType) -> (r: Result<(), Error>)
        requires
            old(self).wf(),
        ensures
            final(self).wf(),
            final(self).config == old(self).config,
            ({
                let present = if order_type == OrderType::Buy {
                    old(self).buy_orders@.contains_key(order_id)
                } else {
                    old(self).sell_orders@.contains_key(order_id)
                };
                &&& !present ==> {
                    &&& r == Err::<(), Error>(Error::OrderNotFound)
                    &&& *final(self) == *old(self)
                }
                &&& present ==> {
                    &&& r == Ok::<(), Error>(())
                    &&& order_type == OrderType::Buy ==> {
                        &&& final(self).buy_orders@ == old(self).buy_orders@.remove(order_id)
                        &&& final(self).sell_orders == old(self).sell_orders
                    }
                    &&& order_type == OrderType::Sell ==> {
                        &&& final(self).sell_orders@ == old(self).sell_orders@.remove(order_id)
                        &&& final(self).buy_orders == old(self).buy_orders
                    }
                    &&& final(self).assets == old(self).assets
                    &&& final(self).order_book == old(self).order_book
                    &&& final(self).trades_history == old(self).trades_history
                    &&& final(self).events@ == old(self).events@.push(
                        Event::OrderCancelled(order_id),
                    )
                }
            }),
    {
        let present = match order_type {
            OrderType::Buy => self.buy_orders.contains_key(order_id),
            OrderType::Sell => self.sell_orders.contains_key(order_id),
        };
        if !present {
            return Err(Error::OrderNotFound);
        }
        match order_type {
            OrderType::Buy => self.buy_orders.remove(order_id),
            OrderType::Sell => self.sell_orders.remove(order_id),
        }
        self.events.push(Event::OrderCancelled(order_id));
        Ok(())
    }

    /// Executes a trade matching the named buy and sell orders in full: both
    /// orders are removed, the trade is appended to the history, and a
    /// `TradeExecuted` event is recorded.
    ///
    /// Fails leaving the state unchanged when either order is not stored.
    pub fn execute_trade(&mut self, trade: Trade) -> (r: Result<(), Error>)
        requires
            old(self).wf(),
        ensures
            final(self).wf(),
            final(self).config == old(self).config,
            !(old(self).buy_orders@.contains_key(trade.buy_order_id) && old(
                self,
            ).sell_orders@.contains_key(trade.sell_order_id)) ==> {
                &&& r == Err::<(), Error>(Error::OrderNotFound)
                &&& *final(self) == *old(self)
            },
            old(self).buy_orders@.contains_key(trade.buy_order_id) && old(
                self,
            ).sell_orders@.contains_key(trade.sell_order_id) ==> {
                &&& r == Ok::<(), Error>(())
                &&& final(self).buy_orders@ == old(self).buy_orders@.remove(trade.buy_order_id)
                &&& final(self).sell_orders@ == old(self).sell_orders@.remove(trade.sell_order_id)
                &&& final(self).assets == old(self).assets
                &&& final(self).order_book == old(self).order_book
                &&& final(self).trades_history@ == old(self).trades_history@.push(trade)
                &&& final(self).events@ == old(self).events@.push(
                    Event::TradeExecuted(trade.id, trade.asset_id, trade.quantity, trade.price),
                )
            },
    {
        if !self.buy_orders.contains_key(trade.buy_order_id) {
            return Err(Error::OrderNotFound);
        }
        if !self.sell_orders.contains_key(trade.sell_order_id) {
            return Err(Error::OrderNotFound);
        }
        self.buy_orders.remove(trade.buy_order_id);
        self.sell_orders.remove(trade.sell_order_id);
        self.trades_history.push(trade);
        self.events.push(Event::TradeExecuted(
            trade.id,
            trade.asset_id,
            trade.quantity,
            trade.price,
        ));
        Ok(())
    }

    /// The fixed clock value every order and trade carries.
    pub fn current_timestamp() -> (r: u64)
        ensures
            r == FIXED_TIMESTAMP,
    {
        FIXED_TIMESTAMP
    }
}

} // verus!
