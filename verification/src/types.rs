//! The records that the marketplace keeps: identities, the trade itself and
//! the documents that are reconciled before settlement.

use vstd::prelude::*;
use vstd::std_specs::cmp::PartialEqSpecImpl;

verus! {

/// The identity of a party, held as the text of its key. Two addresses are
/// the same party exactly when their texts are equal.
#[derive(Debug)]
pub struct Address {
    pub strkey: String,
}

impl View for Address {
    type V = Seq<char>;

    open spec fn view(&self) -> Seq<char> {
        self.strkey@
    }
}

impl PartialEq for Address {
    fn eq(&self, other: &Address) -> (r: bool) {
        self.strkey == other.strkey
    }
}

impl PartialEqSpecImpl for Address {
    open spec fn obeys_eq_spec() -> bool {
        true
    }

    open spec fn eq_spec(&self, other: &Address) -> bool {
        self@ == other@
    }
}

impl Clone for Address {
    fn clone(&self) -> (r: Address)
        ensures
            r == *self,
    {
        Address { strkey: self.strkey.clone() }
    }
}

impl Address {
    /// The address whose key has the text `strkey`.
    pub fn from_str(strkey: &str) -> (r: Address)
        ensures
            r@ == strkey@,
    {
        Address { strkey: strkey.to_owned() }
    }
}

/// Where a trade stands. `Ordered` is the initial state; `Settled`,
/// `Rejected` and `Cancelled` are terminal.
#[derive(Copy, Clone, Debug, PartialEq, Eq, Structural)]
pub enum TradeState {
    Ordered,
    Fulfilled,
    Settled,
    Rejected,
    Cancelled,
}

pub const ORDERED: TradeState = TradeState::Ordered;

pub const FULFILLED: TradeState = TradeState::Fulfilled;

pub const SETTLED: TradeState = TradeState::Settled;

pub const REJECTED: TradeState = TradeState::Rejected;

pub const CANCELLED: TradeState = TradeState::Cancelled;

impl TradeState {
    /// The number under which the state is kept: 0 for `Ordered`, 1 for
    /// `Fulfilled`, 2 for `Settled`, 3 for `Rejected`, 4 for `Cancelled`.
    pub open spec fn spec_code(self) -> u32 {
        match self {
            TradeState::Ordered => 0,
            TradeState::Fulfilled => 1,
            TradeState::Settled => 2,
            TradeState::Rejected => 3,
            TradeState::Cancelled => 4,
        }
    }

    /// The number under which the state is kept.
    pub fn code(self) -> (r: u32)
        ensures
            r == self.spec_code(),
    {
        match self {
            TradeState::Ordered => 0,
            TradeState::Fulfilled => 1,
            TradeState::Settled => 2,
            TradeState::Rejected => 3,
            TradeState::Cancelled => 4,
        }
    }

    /// The state that is kept under `code`, if there is one.
    pub fn from_code(code: u32) -> (r: Option<TradeState>)
        ensures
            match r {
                Some(state) => state.spec_code() == code,
                None => code > 4,
            },
    {
        match code {
            0 => Some(TradeState::Ordered),
            1 => Some(TradeState::Fulfilled),
            2 => Some(TradeState::Settled),
            3 => Some(TradeState::Rejected),
            4 => Some(TradeState::Cancelled),
            _ => None,
        }
    }

    /// No transition leaves a terminal state.
    pub open spec fn is_terminal(self) -> bool {
        self == TradeState::Settled || self == TradeState::Rejected || self
            == TradeState::Cancelled
    }

    /// The directed graph of the lifecycle: `Ordered` leads to `Fulfilled`,
    /// `Rejected` and `Cancelled`, and `Fulfilled` leads to `Settled`.
    pub open spec fn leads_to(self, next: TradeState) -> bool {
        ||| (self == TradeState::Ordered && next == TradeState::Fulfilled)
        ||| (self == TradeState::Ordered && next == TradeState::Rejected)
        ||| (self == TradeState::Ordered && next == TradeState::Cancelled)
        ||| (self == TradeState::Fulfilled && next == TradeState::Settled)
    }
}

/// A registered buyer.
#[derive(Debug)]
pub struct BuyerInfo {
    pub name: String,
    pub lei_id: String,
    pub wallet_address: Address,
    pub registered_at: u64,
    pub is_active: bool,
}

/// The content of a buyer's record.
pub struct BuyerInfoView {
    pub name: Seq<char>,
    pub lei_id: Seq<char>,
    pub wallet_address: Seq<char>,
    pub registered_at: u64,
    pub is_active: bool,
}

impl View for BuyerInfo {
    type V = BuyerInfoView;

    open spec fn view(&self) -> BuyerInfoView {
        BuyerInfoView {
            name: self.name@,
            lei_id: self.lei_id@,
            wallet_address: self.wallet_address@,
            registered_at: self.registered_at,
            is_active: self.is_active,
        }
    }
}

impl Clone for BuyerInfo {
    fn clone(&self) -> (r: BuyerInfo)
        ensures
            r == *self,
    {
        BuyerInfo {
            name: self.name.clone(),
            lei_id: self.lei_id.clone(),
            wallet_address: self.wallet_address.clone(),
            registered_at: self.registered_at,
            is_active: self.is_active,
        }
    }
}

/// A registered seller.
#[derive(Debug)]
pub struct SellerInfo {
    pub name: String,
    pub lei_id: String,
    pub wallet_address: Address,
    pub registered_at: u64,
    pub is_active: bool,
}

/// The content of a seller's record.
pub struct SellerInfoView {
    pub name: Seq<char>,
    pub lei_id: Seq<char>,
    pub wallet_address: Seq<char>,
    pub registered_at: u64,
    pub is_active: bool,
}

impl View for SellerInfo {
    type V = SellerInfoView;

    open spec fn view(&self) -> SellerInfoView {
        SellerInfoView {
            name: self.name@,
            lei_id: self.lei_id@,
            wallet_address: self.wallet_address@,
            registered_at: self.registered_at,
            is_active: self.is_active,
        }
    }
}

impl Clone for SellerInfo {
    fn clone(&self) -> (r: SellerInfo)
        ensures
            r == *self,
    {
        SellerInfo {
            name: self.name.clone(),
            lei_id: self.lei_id.clone(),
            wallet_address: self.wallet_address.clone(),
            registered_at: self.registered_at,
            is_active: self.is_active,
        }
    }
}

/// A trade and its escrow. Amounts are fixed-point integers with seven
/// implied decimals; a timestamp of 0 means "not yet".
#[derive(Debug)]
pub struct TradeEscrow {
    pub trade_id: u64,
    pub buyer: Address,
    pub seller: Address,
    pub amount: i128,
    pub state: TradeState,
    pub created_at: u64,
    pub fulfilled_at: u64,
    pub settled_at: u64,
    pub marketplace_fee: i128,
    pub escrow_balance: i128,
}

/// The content of a trade.
pub struct TradeView {
    pub trade_id: u64,
    pub buyer: Seq<char>,
    pub seller: Seq<char>,
    pub amount: i128,
    pub state: TradeState,
    pub created_at: u64,
    pub fulfilled_at: u64,
    pub settled_at: u64,
    pub marketplace_fee: i128,
    pub escrow_balance: i128,
}

impl View for TradeEscrow {
    type V = TradeView;

    open spec fn view(&self) -> TradeView {
        TradeView {
            trade_id: self.trade_id,
            buyer: self.buyer@,
            seller: self.seller@,
            amount: self.amount,
            state: self.state,
            created_at: self.created_at,
            fulfilled_at: self.fulfilled_at,
            settled_at: self.settled_at,
            marketplace_fee: self.marketplace_fee,
            escrow_balance: self.escrow_balance,
        }
    }
}

impl Clone for TradeEscrow {
    fn clone(&self) -> (r: TradeEscrow)
        ensures
            r == *self,
    {
        TradeEscrow {
            trade_id: self.trade_id,
            buyer: self.buyer.clone(),
            seller: self.seller.clone(),
            amount: self.amount,
            state: self.state,
            created_at: self.created_at,
            fulfilled_at: self.fulfilled_at,
            settled_at: self.settled_at,
            marketplace_fee: self.marketplace_fee,
            escrow_balance: self.escrow_balance,
        }
    }
}

/// What the buyer ordered.
#[derive(Debug)]
pub struct PurchaseOrder {
    pub po_description: String,
    pub quantity: u64,
    pub unit_price: i128,
    pub total_price: i128,
    pub po_json_ipfs_hash: String,
    pub created_by: Address,
    pub created_at: u64,
}

/// The content of a purchase order.
pub struct PurchaseOrderView {
    pub po_description: Seq<char>,
    pub quantity: u64,
    pub unit_price: i128,
    pub total_price: i128,
    pub po_json_ipfs_hash: Seq<char>,
    pub created_by: Seq<char>,
    pub created_at: u64,
}

impl View for PurchaseOrder {
    type V = PurchaseOrderView;

    open spec fn view(&self) -> PurchaseOrderView {
        PurchaseOrderView {
            po_description: self.po_description@,
            quantity: self.quantity,
            unit_price: self.unit_price,
            total_price: self.total_price,
            po_json_ipfs_hash: self.po_json_ipfs_hash@,
            created_by: self.created_by@,
            created_at: self.created_at,
        }
    }
}

impl Clone for PurchaseOrder {
    fn clone(&self) -> (r: PurchaseOrder)
        ensures
            r == *self,
    {
        PurchaseOrder {
            po_description: self.po_description.clone(),
            quantity: self.quantity,
            unit_price: self.unit_price,
            total_price: self.total_price,
            po_json_ipfs_hash: self.po_json_ipfs_hash.clone(),
            created_by: self.created_by.clone(),
            created_at: self.created_at,
        }
    }
}

/// What the seller billed.
#[derive(Debug)]
pub struct CustomerInvoice {
    pub ci_description: String,
    pub quantity: u64,
    pub unit_price: i128,
    pub total_price: i128,
    pub ci_json_ipfs_hash: String,
    pub created_by: Address,
    pub created_at: u64,
}

/// The content of a customer invoice.
pub struct CustomerInvoiceView {
    pub ci_description: Seq<char>,
    pub quantity: u64,
    pub unit_price: i128,
    pub total_price: i128,
    pub ci_json_ipfs_hash: Seq<char>,
    pub created_by: Seq<char>,
    pub created_at: u64,
}

impl View for CustomerInvoice {
    type V = CustomerInvoiceView;

    open spec fn view(&self) -> CustomerInvoiceView {
        CustomerInvoiceView {
            ci_description: self.ci_description@,
            quantity: self.quantity,
            unit_price: self.unit_price,
            total_price: self.total_price,
            ci_json_ipfs_hash: self.ci_json_ipfs_hash@,
            created_by: self.created_by@,
            created_at: self.created_at,
        }
    }
}

impl Clone for CustomerInvoice {
    fn clone(&self) -> (r: CustomerInvoice)
        ensures
            r == *self,
    {
        CustomerInvoice {
            ci_description: self.ci_description.clone(),
            quantity: self.quantity,
            unit_price: self.unit_price,
            total_price: self.total_price,
            ci_json_ipfs_hash: self.ci_json_ipfs_hash.clone(),
            created_by: self.created_by.clone(),
            created_at: self.created_at,
        }
    }
}

/// What the warehouse handed over.
#[derive(Debug)]
pub struct WarehouseReceipt {
    pub wr_description: String,
    pub quantity: u64,
    pub unit_price: i128,
    pub total_price: i128,
    pub wr_json_ipfs_hash: String,
    pub warehouse_location: String,
    pub created_by: Address,
    pub created_at: u64,
}

/// The content of a warehouse receipt.
pub struct WarehouseReceiptView {
    pub wr_description: Seq<char>,
    pub quantity: u64,
    pub unit_price: i128,
    pub total_price: i128,
    pub wr_json_ipfs_hash: Seq<char>,
    pub warehouse_location: Seq<char>,
    pub created_by: Seq<char>,
    pub created_at: u64,
}

impl View for WarehouseReceipt {
    type V = WarehouseReceiptView;

    open spec fn view(&self) -> WarehouseReceiptView {
        WarehouseReceiptView {
            wr_description: self.wr_description@,
            quantity: self.quantity,
            unit_price: self.unit_price,
            total_price: self.total_price,
            wr_json_ipfs_hash: self.wr_json_ipfs_hash@,
            warehouse_location: self.warehouse_location@,
            created_by: self.created_by@,
            created_at: self.created_at,
        }
    }
}

impl Clone for WarehouseReceipt {
    fn clone(&self) -> (r: WarehouseReceipt)
        ensures
            r == *self,
    {
        WarehouseReceipt {
            wr_description: self.wr_description.clone(),
            quantity: self.quantity,
            unit_price: self.unit_price,
            total_price: self.total_price,
            wr_json_ipfs_hash: self.wr_json_ipfs_hash.clone(),
            warehouse_location: self.warehouse_location.clone(),
            created_by: self.created_by.clone(),
            created_at: self.created_at,
        }
    }
}

/// The legal-entity identifiers of both parties. Each flag is set by its own
/// validation call and never reset.
#[derive(Debug)]
pub struct VLEIDocuments {
    pub buyer_lei: String,
    pub buyer_lei_ipfs: String,
    pub buyer_validated: bool,
    pub seller_lei: String,
    pub seller_lei_ipfs: String,
    pub seller_validated: bool,
    pub validation_timestamp: u64,
}

/// The content of a record of legal-entity identifiers.
pub struct VLEIDocumentsView {
    pub buyer_lei: Seq<char>,
    pub buyer_lei_ipfs: Seq<char>,
    pub buyer_validated: bool,
    pub seller_lei: Seq<char>,
    pub seller_lei_ipfs: Seq<char>,
    pub seller_validated: bool,
    pub validation_timestamp: u64,
}

impl View for VLEIDocuments {
    type V = VLEIDocumentsView;

    open spec fn view(&self) -> VLEIDocumentsView {
        VLEIDocumentsView {
            buyer_lei: self.buyer_lei@,
            buyer_lei_ipfs: self.buyer_lei_ipfs@,
            buyer_validated: self.buyer_validated,
            seller_lei: self.seller_lei@,
            seller_lei_ipfs: self.seller_lei_ipfs@,
            seller_validated: self.seller_validated,
            validation_timestamp: self.validation_timestamp,
        }
    }
}

impl Clone for VLEIDocuments {
    fn clone(&self) -> (r: VLEIDocuments)
        ensures
            r == *self,
    {
        VLEIDocuments {
            buyer_lei: self.buyer_lei.clone(),
            buyer_lei_ipfs: self.buyer_lei_ipfs.clone(),
            buyer_validated: self.buyer_validated,
            seller_lei: self.seller_lei.clone(),
            seller_lei_ipfs: self.seller_lei_ipfs.clone(),
            seller_validated: self.seller_validated,
            validation_timestamp: self.validation_timestamp,
        }
    }
}

} // verus!
