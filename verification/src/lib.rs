//! Escrow-backed trade settlement: a trade between a buyer and a seller moves
//! through funding, fulfilment and settlement, and settlement is gated on a
//! three-way match of purchase order, customer invoice and warehouse receipt.

pub mod contract;
pub mod errors;
pub mod escrow;
pub mod laws;
pub mod matching;
pub mod registry;
pub mod storage;
pub mod string_map;
pub mod trade;
pub mod types;

pub use contract::MarketplaceEscrowV1;
pub use errors::ContractError;
pub use storage::{DataKey, Env};
pub use types::{
    Address, BuyerInfo, CustomerInvoice, PurchaseOrder, SellerInfo, TradeEscrow, TradeState,
    VLEIDocuments, WarehouseReceipt, CANCELLED, FULFILLED, ORDERED, REJECTED, SETTLED,
};
