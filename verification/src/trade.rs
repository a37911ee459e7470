//! The lifecycle of a trade: creation, funding, fulfilment, rejection,
//! cancellation and settlement. Every operation validates first and commits
//! afterwards, so a failed operation leaves nothing behind.

use vstd::prelude::*;
use crate::errors::ContractError;
use crate::escrow::{escrow_cost, required_escrow};
use crate::matching::{dvp_check, dvp_outcome};
use crate::registry::{
    buyer_activity,
    get_buyer_info,
    get_seller_info,
    is_buyer_active,
    is_seller_active,
    seller_activity,
};
use crate::storage::{commits, commits_with, Env, State};
use crate::types::{
    Address,
    CustomerInvoice,
    CustomerInvoiceView,
    PurchaseOrder,
    PurchaseOrderView,
    TradeEscrow,
    TradeState,
    TradeView,
    VLEIDocuments,
    VLEIDocumentsView,
    WarehouseReceipt,
    WarehouseReceiptView,
};

verus! {

broadcast use vstd::std_specs::hash::group_hash_axioms;

/// The state in which `trade_id` has joined the list of `buyer`'s trades.
pub open spec fn with_buyer_trade(s: State, buyer: Seq<char>, trade_id: u64) -> State {
    State { buyer_trades: s.buyer_trades.insert(buyer, s.trades_of_buyer(buyer).push(trade_id)), ..s }
}

/// The state in which `trade_id` has joined the list of `seller`'s trades.
pub open spec fn with_seller_trade(s: State, seller: Seq<char>, trade_id: u64) -> State {
    State {
        seller_trades: s.seller_trades.insert(seller, s.trades_of_seller(seller).push(trade_id)),
        ..s
    }
}

/// What creating a trade comes to. Refused where buyer and seller are the
/// same party, where either is not registered and active, where the total
/// price is not positive, or where the ids are used up. Else the trade gets
/// the upcoming id and is recorded as ordered and unfunded, with its
/// purchase order and with unvalidated legal-entity documents; the id joins
/// both parties' lists, and the next trade gets the id after it.
pub open spec fn create_trade_outcome(
    s: State,
    buyer: Seq<char>,
    seller: Seq<char>,
    po_description: Seq<char>,
    quantity: u64,
    unit_price: i128,
    total_price: i128,
    po_json_ipfs_hash: Seq<char>,
    buyer_lei_ipfs: Seq<char>,
    seller_lei_ipfs: Seq<char>,
) -> Result<State, ContractError> {
    let trade_id = s.upcoming_trade_id();
    if buyer == seller {
        Err(ContractError::BuyerCannotBeSeller)
    } else if buyer_activity(s, buyer) is Err {
        Err(buyer_activity(s, buyer)->Err_0)
    } else if seller_activity(s, seller) is Err {
        Err(seller_activity(s, seller)->Err_0)
    } else if total_price <= 0 {
        Err(ContractError::InvalidAmount)
    } else if trade_id == u64::MAX {
        Err(ContractError::OverflowError)
    } else {
        let recorded = State {
            trades: s.trades.insert(
                trade_id,
                TradeView {
                    trade_id,
                    buyer,
                    seller,
                    amount: total_price,
                    state: TradeState::Ordered,
                    created_at: s.timestamp,
                    fulfilled_at: 0,
                    settled_at: 0,
                    marketplace_fee: 0,
                    escrow_balance: 0,
                },
            ),
            purchase_orders: s.purchase_orders.insert(
                trade_id,
                PurchaseOrderView {
                    po_description,
                    quantity,
                    unit_price,
                    total_price,
                    po_json_ipfs_hash,
                    created_by: buyer,
                    created_at: s.timestamp,
                },
            ),
            vlei_documents: s.vlei_documents.insert(
                trade_id,
                VLEIDocumentsView {
                    buyer_lei: s.registered_buyers[buyer].lei_id,
                    buyer_lei_ipfs,
                    buyer_validated: false,
                    seller_lei: s.registered_sellers[seller].lei_id,
                    seller_lei_ipfs,
                    seller_validated: false,
                    validation_timestamp: s.timestamp,
                },
            ),
            next_trade_id: Some((trade_id + 1) as u64),
            ..s
        };
        Ok(with_seller_trade(with_buyer_trade(recorded, buyer, trade_id), seller, trade_id))
    }
}

/// What funding the escrow comes to. Only the trade's buyer may fund, only
/// an ordered trade, and only once; the payment has to cover the amount and
/// the fee. Then the payment is the escrow balance and the fee is recorded.
pub open spec fn fund_escrow_outcome(
    s: State,
    buyer: Seq<char>,
    trade_id: u64,
    payment_amount: i128,
    marketplace_fee_rate: u32,
) -> Result<State, ContractError> {
    if !s.trades.contains_key(trade_id) {
        Err(ContractError::TradeNotFound)
    } else {
        let trade = s.trades[trade_id];
        let cost = escrow_cost(trade.amount, marketplace_fee_rate);
        if trade.buyer != buyer {
            Err(ContractError::NotBuyer)
        } else if trade.state != TradeState::Ordered {
            Err(ContractError::InvalidTradeState)
        } else if trade.escrow_balance > 0 {
            Err(ContractError::EscrowAlreadyFunded)
        } else if cost is Err {
            Err(ContractError::OverflowError)
        } else if payment_amount < cost->Ok_0.0 {
            Err(ContractError::InsufficientEscrowFunding)
        } else {
            Ok(
                State {
                    trades: s.trades.insert(
                        trade_id,
                        TradeView {
                            escrow_balance: payment_amount,
                            marketplace_fee: cost->Ok_0.1,
                            ..trade
                        },
                    ),
                    ..s
                },
            )
        }
    }
}

/// What fulfilling an order comes to. Only the trade's seller may fulfil,
/// only an ordered and funded trade, and only once the buyer's legal-entity
/// documents are validated. Then invoice and receipt are recorded, the
/// receipt with the invoice's total price and without reference or location,
/// and the trade is fulfilled as of now.
pub open spec fn fulfill_order_outcome(
    s: State,
    seller: Seq<char>,
    trade_id: u64,
    ci_description: Seq<char>,
    ci_quantity: u64,
    ci_unit_price: i128,
    ci_total_price: i128,
    ci_json_ipfs_hash: Seq<char>,
    wr_description: Seq<char>,
    wr_quantity: u64,
    wr_unit_price: i128,
) -> Result<State, ContractError> {
    if !s.trades.contains_key(trade_id) {
        Err(ContractError::TradeNotFound)
    } else {
        let trade = s.trades[trade_id];
        if trade.seller != seller {
            Err(ContractError::NotSeller)
        } else if trade.state != TradeState::Ordered {
            Err(ContractError::InvalidTradeState)
        } else if trade.escrow_balance == 0 {
            Err(ContractError::EscrowNotFunded)
        } else if !s.vlei_documents.contains_key(trade_id) {
            Err(ContractError::VLEIDocumentsNotFound)
        } else if !s.vlei_documents[trade_id].buyer_validated {
            Err(ContractError::BuyerVLEINotValidated)
        } else {
            Ok(
                State {
                    customer_invoices: s.customer_invoices.insert(
                        trade_id,
                        CustomerInvoiceView {
                            ci_description,
                            quantity: ci_quantity,
                            unit_price: ci_unit_price,
                            total_price: ci_total_price,
                            ci_json_ipfs_hash,
                            created_by: seller,
                            created_at: s.timestamp,
                        },
                    ),
                    warehouse_receipts: s.warehouse_receipts.insert(
                        trade_id,
                        WarehouseReceiptView {
                            wr_description,
                            quantity: wr_quantity,
                            unit_price: wr_unit_price,
                            total_price: ci_total_price,
                            wr_json_ipfs_hash: Seq::empty(),
                            warehouse_location: Seq::empty(),
                            created_by: seller,
                            created_at: s.timestamp,
                        },
                    ),
                    trades: s.trades.insert(
                        trade_id,
                        TradeView {
                            state: TradeState::Fulfilled,
                            fulfilled_at: s.timestamp,
                            ..trade
                        },
                    ),
                    ..s
                },
            )
        }
    }
}

/// What rejecting an order comes to: the trade's seller moves an ordered
/// trade to `Rejected`.
pub open spec fn reject_order_outcome(s: State, seller: Seq<char>, trade_id: u64) -> Result<
    State,
    ContractError,
> {
    if !s.trades.contains_key(trade_id) {
        Err(ContractError::TradeNotFound)
    } else if s.trades[trade_id].seller != seller {
        Err(ContractError::NotSeller)
    } else if s.trades[trade_id].state != TradeState::Ordered {
        Err(ContractError::InvalidTradeState)
    } else {
        Ok(
            State {
                trades: s.trades.insert(
                    trade_id,
                    TradeView { state: TradeState::Rejected, ..s.trades[trade_id] },
                ),
                ..s
            },
        )
    }
}

/// What cancelling a trade comes to: the trade's buyer moves an ordered
/// trade to `Cancelled`.
pub open spec fn cancel_trade_outcome(s: State, buyer: Seq<char>, trade_id: u64) -> Result<
    State,
    ContractError,
> {
    if !s.trades.contains_key(trade_id) {
        Err(ContractError::TradeNotFound)
    } else if s.trades[trade_id].buyer != buyer {
        Err(ContractError::NotBuyer)
    } else if s.trades[trade_id].state != TradeState::Ordered {
        Err(ContractError::InvalidTradeState)
    } else {
        Ok(
            State {
                trades: s.trades.insert(
                    trade_id,
                    TradeView { state: TradeState::Cancelled, ..s.trades[trade_id] },
                ),
                ..s
            },
        )
    }
}

/// What accepting a trade comes to: the trade's buyer settles a fulfilled
/// trade as of now, provided that the delivery-versus-payment check passes;
/// a failure of that check is reported as it is.
pub open spec fn accept_trade_outcome(s: State, buyer: Seq<char>, trade_id: u64) -> Result<
    State,
    ContractError,
> {
    if !s.trades.contains_key(trade_id) {
        Err(ContractError::TradeNotFound)
    } else if s.trades[trade_id].buyer != buyer {
        Err(ContractError::NotBuyer)
    } else if s.trades[trade_id].state != TradeState::Fulfilled {
        Err(ContractError::TradeNotFulfilled)
    } else if dvp_outcome(s, trade_id) is Err {
        Err(dvp_outcome(s, trade_id)->Err_0)
    } else {
        Ok(
            State {
                trades: s.trades.insert(
                    trade_id,
                    TradeView {
                        state: TradeState::Settled,
                        settled_at: s.timestamp,
                        ..s.trades[trade_id]
                    },
                ),
                ..s
            },
        )
    }
}

/// What validating the buyer's legal-entity documents comes to: the buyer's
/// flag is set, as of now.
pub open spec fn validate_buyer_vlei_outcome(s: State, trade_id: u64) -> Result<
    State,
    ContractError,
> {
    if !s.vlei_documents.contains_key(trade_id) {
        Err(ContractError::VLEIDocumentsNotFound)
    } else {
        Ok(
            State {
                vlei_documents: s.vlei_documents.insert(
                    trade_id,
                    VLEIDocumentsView {
                        buyer_validated: true,
                        validation_timestamp: s.timestamp,
                        ..s.vlei_documents[trade_id]
                    },
                ),
                ..s
            },
        )
    }
}

/// What validating the seller's legal-entity documents comes to: the
/// seller's flag is set, as of now.
pub open spec fn validate_seller_vlei_outcome(s: State, trade_id: u64) -> Result<
    State,
    ContractError,
> {
    if !s.vlei_documents.contains_key(trade_id) {
        Err(ContractError::VLEIDocumentsNotFound)
    } else {
        Ok(
            State {
                vlei_documents: s.vlei_documents.insert(
                    trade_id,
                    VLEIDocumentsView {
                        seller_validated: true,
                        validation_timestamp: s.timestamp,
                        ..s.vlei_documents[trade_id]
                    },
                ),
                ..s
            },
        )
    }
}

/// Creates a trade with its purchase order and hands back the trade's id.
pub fn create_trade(
    env: &mut Env,
    buyer: &Address,
    seller: &Address,
    po_description: String,
    quantity: u64,
    unit_price: i128,
    total_price: i128,
    po_json_ipfs_hash: String,
    buyer_lei_ipfs: String,
    seller_lei_ipfs: String,
) -> (r: Result<u64, ContractError>)
    ensures
        commits_with(
            create_trade_outcome(
                old(env)@,
                buyer@,
                seller@,
                po_description@,
                quantity,
                unit_price,
                total_price,
                po_json_ipfs_hash@,
                buyer_lei_ipfs@,
                seller_lei_ipfs@,
            ),
            old(env)@.upcoming_trade_id(),
            old(env)@,
            final(env)@,
            r,
        ),
{
    if *buyer == *seller {
        return Err(ContractError::BuyerCannotBeSeller);
    }
    is_buyer_active(env, buyer)?;
    is_seller_active(env, seller)?;
    if total_price <= 0 {
        return Err(ContractError::InvalidAmount);
    }
    let buyer_info = get_buyer_info(env, buyer)?;
    let seller_info = get_seller_info(env, seller)?;
    let trade_id: u64 = match env.next_trade_id {
        Some(trade_id) => trade_id,
        None => 1,
    };
    if trade_id == u64::MAX {
        return Err(ContractError::OverflowError);
    }
    let trade = TradeEscrow {
        trade_id,
        buyer: buyer.clone(),
        seller: seller.clone(),
        amount: total_price,
        state: TradeState::Ordered,
        created_at: env.timestamp,
        fulfilled_at: 0,
        settled_at: 0,
        marketplace_fee: 0,
        escrow_balance: 0,
    };
    let po = PurchaseOrder {
        po_description,
        quantity,
        unit_price,
        total_price,
        po_json_ipfs_hash,
        created_by: buyer.clone(),
        created_at: env.timestamp,
    };
    let vlei_docs = VLEIDocuments {
        buyer_lei: buyer_info.lei_id,
        buyer_lei_ipfs,
        buyer_validated: false,
        seller_lei: seller_info.lei_id,
        seller_lei_ipfs,
        seller_validated: false,
        validation_timestamp: env.timestamp,
    };
    env.trades.insert(trade_id, trade);
    env.purchase_orders.insert(trade_id, po);
    env.vlei_documents.insert(trade_id, vlei_docs);
    env.next_trade_id = Some(trade_id + 1);
    add_to_buyer_trades(env, buyer, trade_id);
    add_to_seller_trades(env, seller, trade_id);
    assert(env@ =~= create_trade_outcome(
        old(env)@,
        buyer@,
        seller@,
        po_description@,
        quantity,
        unit_price,
        total_price,
        po_json_ipfs_hash@,
        buyer_lei_ipfs@,
        seller_lei_ipfs@,
    )->Ok_0);
    Ok(trade_id)
}

/// Funds the escrow of a trade with the buyer's payment.
pub fn fund_escrow(
    env: &mut Env,
    buyer: &Address,
    trade_id: u64,
    payment_amount: i128,
    marketplace_fee_rate: u32,
) -> (r: Result<(), ContractError>)
    ensures
        commits(
            fund_escrow_outcome(old(env)@, buyer@, trade_id, payment_amount, marketplace_fee_rate),
            old(env)@,
            final(env)@,
            r,
        ),
{
    let mut trade: TradeEscrow = match env.trades.get(&trade_id) {
        Some(trade) => trade.clone(),
        None => {
            return Err(ContractError::TradeNotFound);
        },
    };
    if !(trade.buyer == *buyer) {
        return Err(ContractError::NotBuyer);
    }
    if trade.state != TradeState::Ordered {
        return Err(ContractError::InvalidTradeState);
    }
    if trade.escrow_balance > 0 {
        return Err(ContractError::EscrowAlreadyFunded);
    }
    let (total_required, marketplace_fee) = required_escrow(trade.amount, marketplace_fee_rate)?;
    if payment_amount < total_required {
        return Err(ContractError::InsufficientEscrowFunding);
    }
    trade.escrow_balance = payment_amount;
    trade.marketplace_fee = marketplace_fee;
    env.trades.insert(trade_id, trade);
    assert(env@ =~= fund_escrow_outcome(
        old(env)@,
        buyer@,
        trade_id,
        payment_amount,
        marketplace_fee_rate,
    )->Ok_0);
    Ok(())
}

/// Fulfils an order: the seller hands in the customer invoice and the
/// warehouse receipt.
pub fn fulfill_order(
    env: &mut Env,
    seller: &Address,
    trade_id: u64,
    ci_description: String,
    ci_quantity: u64,
    ci_unit_price: i128,
    ci_total_price: i128,
    ci_json_ipfs_hash: String,
    wr_description: String,
    wr_quantity: u64,
    wr_unit_price: i128,
) -> (r: Result<(), ContractError>)
    ensures
        commits(
            fulfill_order_outcome(
                old(env)@,
                seller@,
                trade_id,
                ci_description@,
                ci_quantity,
                ci_unit_price,
                ci_total_price,
                ci_json_ipfs_hash@,
                wr_description@,
                wr_quantity,
                wr_unit_price,
            ),
            old(env)@,
            final(env)@,
            r,
        ),
{
    let mut trade: TradeEscrow = match env.trades.get(&trade_id) {
        Some(trade) => trade.clone(),
        None => {
            return Err(ContractError::TradeNotFound);
        },
    };
    if !(trade.seller == *seller) {
        return Err(ContractError::NotSeller);
    }
    if trade.state != TradeState::Ordered {
        return Err(ContractError::InvalidTradeState);
    }
    if trade.escrow_balance == 0 {
        return Err(ContractError::EscrowNotFunded);
    }
    let buyer_validated: bool = match env.vlei_documents.get(&trade_id) {
        Some(vlei_docs) => vlei_docs.buyer_validated,
        None => {
            return Err(ContractError::VLEIDocumentsNotFound);
        },
    };
    if !buyer_validated {
        return Err(ContractError::BuyerVLEINotValidated);
    }
    let ci = CustomerInvoice {
        ci_description,
        quantity: ci_quantity,
        unit_price: ci_unit_price,
        total_price: ci_total_price,
        ci_json_ipfs_hash,
        created_by: seller.clone(),
        created_at: env.timestamp,
    };
    let wr = WarehouseReceipt {
        wr_description,
        quantity: wr_quantity,
        unit_price: wr_unit_price,
        total_price: ci_total_price,
        wr_json_ipfs_hash: String::new(),
        warehouse_location: String::new(),
        created_by: seller.clone(),
        created_at: env.timestamp,
    };
    env.customer_invoices.insert(trade_id, ci);
    env.warehouse_receipts.insert(trade_id, wr);
    trade.state = TradeState::Fulfilled;
    trade.fulfilled_at = env.timestamp;
    env.trades.insert(trade_id, trade);
    assert(env@ =~= fulfill_order_outcome(
        old(env)@,
        seller@,
        trade_id,
        ci_description@,
        ci_quantity,
        ci_unit_price,
        ci_total_price,
        ci_json_ipfs_hash@,
        wr_description@,
        wr_quantity,
        wr_unit_price,
    )->Ok_0);
    Ok(())
}

/// Rejects an order: the seller declines an ordered trade.
pub fn reject_order(env: &mut Env, seller: &Address, trade_id: u64) -> (r: Result<
    (),
    ContractError,
>)
    ensures
        commits(reject_order_outcome(old(env)@, seller@, trade_id), old(env)@, final(env)@, r),
{
    let mut trade: TradeEscrow = match env.trades.get(&trade_id) {
        Some(trade) => trade.clone(),
        None => {
            return Err(ContractError::TradeNotFound);
        },
    };
    if !(trade.seller == *seller) {
        return Err(ContractError::NotSeller);
    }
    if trade.state != TradeState::Ordered {
        return Err(ContractError::InvalidTradeState);
    }
    trade.state = TradeState::Rejected;
    env.trades.insert(trade_id, trade);
    assert(env@ =~= reject_order_outcome(old(env)@, seller@, trade_id)->Ok_0);
    Ok(())
}

/// Cancels a trade: the buyer withdraws an ordered trade.
pub fn cancel_trade(env: &mut Env, buyer: &Address, trade_id: u64) -> (r: Result<
    (),
    ContractError,
>)
    ensures
        commits(cancel_trade_outcome(old(env)@, buyer@, trade_id), old(env)@, final(env)@, r),
{
    let mut trade: TradeEscrow = match env.trades.get(&trade_id) {
        Some(trade) => trade.clone(),
        None => {
            return Err(ContractError::TradeNotFound);
        },
    };
    if !(trade.buyer == *buyer) {
        return Err(ContractError::NotBuyer);
    }
    if trade.state != TradeState::Ordered {
        return Err(ContractError::InvalidTradeState);
    }
    trade.state = TradeState::Cancelled;
    env.trades.insert(trade_id, trade);
    assert(env@ =~= cancel_trade_outcome(old(env)@, buyer@, trade_id)->Ok_0);
    Ok(())
}

/// Accepts a trade: the buyer settles a fulfilled trade whose documents
/// pass the delivery-versus-payment check. No funds move here: settlement
/// records that the amount may be released to the seller and the fee to
/// `platform_treasury`.
pub fn accept_trade(
    env: &mut Env,
    buyer: &Address,
    trade_id: u64,
    platform_treasury: &Address,
) -> (r: Result<(), ContractError>)
    ensures
        commits(accept_trade_outcome(old(env)@, buyer@, trade_id), old(env)@, final(env)@, r),
{
    let mut trade: TradeEscrow = match env.trades.get(&trade_id) {
        Some(trade) => trade.clone(),
        None => {
            return Err(ContractError::TradeNotFound);
        },
    };
    if !(trade.buyer == *buyer) {
        return Err(ContractError::NotBuyer);
    }
    if trade.state != TradeState::Fulfilled {
        return Err(ContractError::TradeNotFulfilled);
    }
    dvp_check(env, trade_id)?;
    trade.state = TradeState::Settled;
    trade.settled_at = env.timestamp;
    env.trades.insert(trade_id, trade);
    assert(env@ =~= accept_trade_outcome(old(env)@, buyer@, trade_id)->Ok_0);
    Ok(())
}

/// Marks the buyer's legal-entity documents of a trade as validated.
pub fn validate_buyer_vlei(env: &mut Env, trade_id: u64) -> (r: Result<(), ContractError>)
    ensures
        commits(validate_buyer_vlei_outcome(old(env)@, trade_id), old(env)@, final(env)@, r),
{
    let mut vlei_docs: VLEIDocuments = match env.vlei_documents.get(&trade_id) {
        Some(vlei_docs) => vlei_docs.clone(),
        None => {
            return Err(ContractError::VLEIDocumentsNotFound);
        },
    };
    vlei_docs.buyer_validated = true;
    vlei_docs.validation_timestamp = env.timestamp;
    env.vlei_documents.insert(trade_id, vlei_docs);
    assert(env@ =~= validate_buyer_vlei_outcome(old(env)@, trade_id)->Ok_0);
    Ok(())
}

/// Marks the seller's legal-entity documents of a trade as validated.
pub fn validate_seller_vlei(env: &mut Env, trade_id: u64) -> (r: Result<(), ContractError>)
    ensures
        commits(validate_seller_vlei_outcome(old(env)@, trade_id), old(env)@, final(env)@, r),
{
    let mut vlei_docs: VLEIDocuments = match env.vlei_documents.get(&trade_id) {
        Some(vlei_docs) => vlei_docs.clone(),
        None => {
            return Err(ContractError::VLEIDocumentsNotFound);
        },
    };
    vlei_docs.seller_validated = true;
    vlei_docs.validation_timestamp = env.timestamp;
    env.vlei_documents.insert(trade_id, vlei_docs);
    assert(env@ =~= validate_seller_vlei_outcome(old(env)@, trade_id)->Ok_0);
    Ok(())
}

/// Appends `trade_id` to the list of the buyer's trades.
fn add_to_buyer_trades(env: &mut Env, buyer: &Address, trade_id: u64)
    ensures
        final(env)@ == with_buyer_trade(old(env)@, buyer@, trade_id),
{
    let mut trades: Vec<u64> = match env.buyer_trades.get(&buyer.strkey) {
        Some(trades) => trades.clone(),
        None => Vec::new(),
    };
    trades.push(trade_id);
    env.buyer_trades.insert(buyer.strkey.clone(), trades);
    assert(env@ =~= with_buyer_trade(old(env)@, buyer@, trade_id));
}

/// Appends `trade_id` to the list of the seller's trades.
fn add_to_seller_trades(env: &mut Env, seller: &Address, trade_id: u64)
    ensures
        final(env)@ == with_seller_trade(old(env)@, seller@, trade_id),
{
    let mut trades: Vec<u64> = match env.seller_trades.get(&seller.strkey) {
        Some(trades) => trades.clone(),
        None => Vec::new(),
    };
    trades.push(trade_id);
    env.seller_trades.insert(seller.strkey.clone(), trades);
    assert(env@ =~= with_seller_trade(old(env)@, seller@, trade_id));
}

} // verus!
