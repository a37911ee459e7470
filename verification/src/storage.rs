//! The hosting environment as the marketplace sees it: the ledger time, the
//! address under which the marketplace runs, and the keyed namespaces in
//! which its records are kept.

use vstd::prelude::*;
use std::collections::HashMap;
use crate::errors::ContractError;
use crate::string_map::StringMap;
use crate::types::{
    Address,
    BuyerInfo,
    BuyerInfoView,
    CustomerInvoice,
    CustomerInvoiceView,
    PurchaseOrder,
    PurchaseOrderView,
    SellerInfo,
    SellerInfoView,
    TradeEscrow,
    TradeView,
    VLEIDocuments,
    VLEIDocumentsView,
    WarehouseReceipt,
    WarehouseReceiptView,
};

verus! {

broadcast use vstd::std_specs::hash::group_hash_axioms;

/// The keys under which records are kept, one variant for each namespace.
#[derive(Clone, Debug)]
pub enum DataKey {
    NextTradeId,
    PlatformTreasury,
    MarketplaceFeeRate,
    ContractOwner,
    RegisteredBuyer(Address),
    RegisteredSeller(Address),
    BuyerByName(String),
    SellerByName(String),
    AllBuyers,
    AllSellers,
    Trade(u64),
    PurchaseOrder(u64),
    CustomerInvoice(u64),
    WarehouseReceipt(u64),
    VLEIDocuments(u64),
    BuyerTrades(Address),
    SellerTrades(Address),
}

/// The mathematical content of an environment: every namespace as a map of
/// record contents, identities and names taken by their text.
#[verifier::ext_equal]
pub struct State {
    pub timestamp: u64,
    pub current_contract_address: Seq<char>,
    pub next_trade_id: Option<u64>,
    pub platform_treasury: Option<Seq<char>>,
    pub marketplace_fee_rate: Option<u32>,
    pub contract_owner: Option<Seq<char>>,
    pub registered_buyers: Map<Seq<char>, BuyerInfoView>,
    pub registered_sellers: Map<Seq<char>, SellerInfoView>,
    pub buyers_by_name: Map<Seq<char>, Seq<char>>,
    pub sellers_by_name: Map<Seq<char>, Seq<char>>,
    pub all_buyers: Option<Seq<Seq<char>>>,
    pub all_sellers: Option<Seq<Seq<char>>>,
    pub trades: Map<u64, TradeView>,
    pub purchase_orders: Map<u64, PurchaseOrderView>,
    pub customer_invoices: Map<u64, CustomerInvoiceView>,
    pub warehouse_receipts: Map<u64, WarehouseReceiptView>,
    pub vlei_documents: Map<u64, VLEIDocumentsView>,
    pub buyer_trades: Map<Seq<char>, Seq<u64>>,
    pub seller_trades: Map<Seq<char>, Seq<u64>>,
}

impl State {
    /// Whether a record is kept under `key`.
    pub open spec fn has(self, key: DataKey) -> bool {
        match key {
            DataKey::NextTradeId => self.next_trade_id is Some,
            DataKey::PlatformTreasury => self.platform_treasury is Some,
            DataKey::MarketplaceFeeRate => self.marketplace_fee_rate is Some,
            DataKey::ContractOwner => self.contract_owner is Some,
            DataKey::RegisteredBuyer(address) => self.registered_buyers.contains_key(address@),
            DataKey::RegisteredSeller(address) => self.registered_sellers.contains_key(address@),
            DataKey::BuyerByName(name) => self.buyers_by_name.contains_key(name@),
            DataKey::SellerByName(name) => self.sellers_by_name.contains_key(name@),
            DataKey::AllBuyers => self.all_buyers is Some,
            DataKey::AllSellers => self.all_sellers is Some,
            DataKey::Trade(trade_id) => self.trades.contains_key(trade_id),
            DataKey::PurchaseOrder(trade_id) => self.purchase_orders.contains_key(trade_id),
            DataKey::CustomerInvoice(trade_id) => self.customer_invoices.contains_key(trade_id),
            DataKey::WarehouseReceipt(trade_id) => self.warehouse_receipts.contains_key(trade_id),
            DataKey::VLEIDocuments(trade_id) => self.vlei_documents.contains_key(trade_id),
            DataKey::BuyerTrades(address) => self.buyer_trades.contains_key(address@),
            DataKey::SellerTrades(address) => self.seller_trades.contains_key(address@),
        }
    }

    /// The trade ids under which `buyer` is the buying party, oldest first.
    pub open spec fn trades_of_buyer(self, buyer: Seq<char>) -> Seq<u64> {
        if self.buyer_trades.contains_key(buyer) {
            self.buyer_trades[buyer]
        } else {
            Seq::empty()
        }
    }

    /// The trade ids under which `seller` is the selling party, oldest first.
    pub open spec fn trades_of_seller(self, seller: Seq<char>) -> Seq<u64> {
        if self.seller_trades.contains_key(seller) {
            self.seller_trades[seller]
        } else {
            Seq::empty()
        }
    }

    /// The id that the next trade gets: 1 until a trade was made.
    pub open spec fn upcoming_trade_id(self) -> u64 {
        match self.next_trade_id {
            Some(trade_id) => trade_id,
            None => 1,
        }
    }
}

/// Validate, then commit: where `outcome` is a state, the operation succeeded
/// and left the environment in that state; where it is an error, the
/// operation reported that error and left the environment as it was.
pub open spec fn commits(
    outcome: Result<State, ContractError>,
    before: State,
    after: State,
    r: Result<(), ContractError>,
) -> bool {
    match outcome {
        Ok(next) => r is Ok && after == next,
        Err(e) => r == Err::<(), ContractError>(e) && after == before,
    }
}

/// Validate, then commit, for an operation that hands back `value` where it
/// succeeds.
pub open spec fn commits_with<T>(
    outcome: Result<State, ContractError>,
    value: T,
    before: State,
    after: State,
    r: Result<T, ContractError>,
) -> bool {
    match outcome {
        Ok(next) => r == Ok::<T, ContractError>(value) && after == next,
        Err(e) => r == Err::<T, ContractError>(e) && after == before,
    }
}

/// A result with the record that it carries taken by its content.
pub open spec fn content_of<V: View>(r: Result<V, ContractError>) -> Result<V::V, ContractError> {
    match r {
        Ok(record) => Ok(record@),
        Err(e) => Err(e),
    }
}

/// A namespace with each record taken by its content.
pub open spec fn contents<K, V: View>(records: Map<K, V>) -> Map<K, V::V> {
    Map::new(|key: K| records.contains_key(key), |key: K| records[key]@)
}

/// An address, if there is one, taken by its text.
pub open spec fn address_text(address: Option<Address>) -> Option<Seq<char>> {
    match address {
        Some(address) => Some(address@),
        None => None,
    }
}

/// The texts of a list of addresses, in order.
pub open spec fn address_texts(addresses: Seq<Address>) -> Seq<Seq<char>> {
    Seq::new(addresses.len(), |i: int| addresses[i]@)
}

/// A list of addresses, if there is one, taken as the sequence of their
/// texts.
pub open spec fn address_list(list: Option<Vec<Address>>) -> Option<Seq<Seq<char>>> {
    match list {
        Some(addresses) => Some(address_texts(addresses@)),
        None => None,
    }
}

/// The environment in which the marketplace runs. The fields are the
/// namespaces themselves; `view` gives their mathematical content.
pub struct Env {
    pub timestamp: u64,
    pub current_contract_address: Address,
    pub next_trade_id: Option<u64>,
    pub platform_treasury: Option<Address>,
    pub marketplace_fee_rate: Option<u32>,
    pub contract_owner: Option<Address>,
    pub registered_buyers: StringMap<BuyerInfo>,
    pub registered_sellers: StringMap<SellerInfo>,
    pub buyers_by_name: StringMap<Address>,
    pub sellers_by_name: StringMap<Address>,
    pub all_buyers: Option<Vec<Address>>,
    pub all_sellers: Option<Vec<Address>>,
    pub trades: HashMap<u64, TradeEscrow>,
    pub purchase_orders: HashMap<u64, PurchaseOrder>,
    pub customer_invoices: HashMap<u64, CustomerInvoice>,
    pub warehouse_receipts: HashMap<u64, WarehouseReceipt>,
    pub vlei_documents: HashMap<u64, VLEIDocuments>,
    pub buyer_trades: StringMap<Vec<u64>>,
    pub seller_trades: StringMap<Vec<u64>>,
}

impl View for Env {
    type V = State;

    open spec fn view(&self) -> State {
        State {
            timestamp: self.timestamp,
            current_contract_address: self.current_contract_address@,
            next_trade_id: self.next_trade_id,
            platform_treasury: address_text(self.platform_treasury),
            marketplace_fee_rate: self.marketplace_fee_rate,
            contract_owner: address_text(self.contract_owner),
            registered_buyers: contents(self.registered_buyers@),
            registered_sellers: contents(self.registered_sellers@),
            buyers_by_name: contents(self.buyers_by_name@),
            sellers_by_name: contents(self.sellers_by_name@),
            all_buyers: address_list(self.all_buyers),
            all_sellers: address_list(self.all_sellers),
            trades: contents(self.trades@),
            purchase_orders: contents(self.purchase_orders@),
            customer_invoices: contents(self.customer_invoices@),
            warehouse_receipts: contents(self.warehouse_receipts@),
            vlei_documents: contents(self.vlei_documents@),
            buyer_trades: contents(self.buyer_trades@),
            seller_trades: contents(self.seller_trades@),
        }
    }
}

impl State {
    /// The environment with nothing kept in it.
    pub open spec fn empty(timestamp: u64, current_contract_address: Seq<char>) -> State {
        State {
            timestamp,
            current_contract_address,
            next_trade_id: None,
            platform_treasury: None,
            marketplace_fee_rate: None,
            contract_owner: None,
            registered_buyers: Map::empty(),
            registered_sellers: Map::empty(),
            buyers_by_name: Map::empty(),
            sellers_by_name: Map::empty(),
            all_buyers: None,
            all_sellers: None,
            trades: Map::empty(),
            purchase_orders: Map::empty(),
            customer_invoices: Map::empty(),
            warehouse_receipts: Map::empty(),
            vlei_documents: Map::empty(),
            buyer_trades: Map::empty(),
            seller_trades: Map::empty(),
        }
    }
}

impl Env {
    /// An environment at ledger time `timestamp`, with nothing kept in it.
    pub fn new(timestamp: u64, current_contract_address: Address) -> (r: Env)
        ensures
            r@ == State::empty(timestamp, current_contract_address@),
    {
        let r = Env {
            timestamp,
            current_contract_address,
            next_trade_id: None,
            platform_treasury: None,
            marketplace_fee_rate: None,
            contract_owner: None,
            registered_buyers: StringMap::new(),
            registered_sellers: StringMap::new(),
            buyers_by_name: StringMap::new(),
            sellers_by_name: StringMap::new(),
            all_buyers: None,
            all_sellers: None,
            trades: HashMap::new(),
            purchase_orders: HashMap::new(),
            customer_invoices: HashMap::new(),
            warehouse_receipts: HashMap::new(),
            vlei_documents: HashMap::new(),
            buyer_trades: StringMap::new(),
            seller_trades: StringMap::new(),
        };
        assert(r@ =~= State::empty(timestamp, current_contract_address@));
        r
    }

    /// Whether a record is kept under `key`.
    pub fn has(&self, key: &DataKey) -> (r: bool)
        ensures
            r == self@.has(*key),
    {
        match key {
            DataKey::NextTradeId => self.next_trade_id.is_some(),
            DataKey::PlatformTreasury => self.platform_treasury.is_some(),
            DataKey::MarketplaceFeeRate => self.marketplace_fee_rate.is_some(),
            DataKey::ContractOwner => self.contract_owner.is_some(),
            DataKey::RegisteredBuyer(address) => self.registered_buyers.contains_key(
                &address.strkey,
            ),
            DataKey::RegisteredSeller(address) => self.registered_sellers.contains_key(
                &address.strkey,
            ),
            DataKey::BuyerByName(name) => self.buyers_by_name.contains_key(name),
            DataKey::SellerByName(name) => self.sellers_by_name.contains_key(name),
            DataKey::AllBuyers => self.all_buyers.is_some(),
            DataKey::AllSellers => self.all_sellers.is_some(),
            DataKey::Trade(trade_id) => self.trades.contains_key(trade_id),
            DataKey::PurchaseOrder(trade_id) => self.purchase_orders.contains_key(trade_id),
            DataKey::CustomerInvoice(trade_id) => self.customer_invoices.contains_key(trade_id),
            DataKey::WarehouseReceipt(trade_id) => self.warehouse_receipts.contains_key(trade_id),
            DataKey::VLEIDocuments(trade_id) => self.vlei_documents.contains_key(trade_id),
            DataKey::BuyerTrades(address) => self.buyer_trades.contains_key(&address.strkey),
            DataKey::SellerTrades(address) => self.seller_trades.contains_key(&address.strkey),
        }
    }
}

} // verus!
