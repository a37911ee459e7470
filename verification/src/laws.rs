//! What holds of the marketplace as a whole: the operations as one
//! transition system over the environment's content, the invariant that
//! every reachable state keeps, and the laws of the lifecycle.

use vstd::prelude::*;
use crate::contract::{constructor_outcome, fee_rate_of, owner_only, settle_outcome};
use crate::errors::ContractError;
use crate::escrow::{escrow_cost, marketplace_fee, BASIS_POINTS, MAX_FEE_RATE};
use crate::matching::{
    descriptions_agree,
    magnitude,
    match_outcome,
    price_variance_outcome,
    quantity_variance_outcome,
};
use crate::registry::{
    deactivate_buyer_outcome,
    deactivate_seller_outcome,
    register_buyer_outcome,
    register_seller_outcome,
};
use crate::storage::State;
use crate::trade::{
    cancel_trade_outcome,
    create_trade_outcome,
    fulfill_order_outcome,
    fund_escrow_outcome,
    reject_order_outcome,
    validate_buyer_vlei_outcome,
    validate_seller_vlei_outcome,
};
use crate::types::{
    CustomerInvoiceView,
    PurchaseOrderView,
    TradeState,
    WarehouseReceiptView,
};

verus! {

/// A call of the marketplace with its arguments, or the ledger's clock
/// moving on between two calls.
pub enum Operation {
    RegisterBuyer { address: Seq<char>, name: Seq<char>, lei_id: Seq<char> },
    RegisterSeller { address: Seq<char>, name: Seq<char>, lei_id: Seq<char> },
    DeactivateBuyer { address: Seq<char> },
    DeactivateSeller { address: Seq<char> },
    CreateTrade {
        buyer: Seq<char>,
        seller: Seq<char>,
        po_description: Seq<char>,
        quantity: u64,
        unit_price: i128,
        total_price: i128,
        po_json_ipfs_hash: Seq<char>,
        buyer_lei_ipfs: Seq<char>,
        seller_lei_ipfs: Seq<char>,
    },
    FundEscrow { buyer: Seq<char>, trade_id: u64, payment_amount: i128 },
    ValidateBuyerVlei { trade_id: u64 },
    ValidateSellerVlei { trade_id: u64 },
    FulfillOrder {
        seller: Seq<char>,
        trade_id: u64,
        ci_description: Seq<char>,
        ci_quantity: u64,
        ci_unit_price: i128,
        ci_total_price: i128,
        ci_json_ipfs_hash: Seq<char>,
        wr_description: Seq<char>,
        wr_quantity: u64,
        wr_unit_price: i128,
    },
    RejectOrder { seller: Seq<char>, trade_id: u64 },
    CancelTrade { buyer: Seq<char>, trade_id: u64 },
    AcceptTrade { buyer: Seq<char>, trade_id: u64 },
    ClockMoves { timestamp: u64 },
}

/// What an operation comes to in the state `s`.
pub open spec fn outcome(s: State, op: Operation) -> Result<State, ContractError> {
    match op {
        Operation::RegisterBuyer { address, name, lei_id } => owner_only(
            s,
            register_buyer_outcome(s, address, name, lei_id),
        ),
        Operation::RegisterSeller { address, name, lei_id } => owner_only(
            s,
            register_seller_outcome(s, address, name, lei_id),
        ),
        Operation::DeactivateBuyer { address } => owner_only(
            s,
            deactivate_buyer_outcome(s, address),
        ),
        Operation::DeactivateSeller { address } => owner_only(
            s,
            deactivate_seller_outcome(s, address),
        ),
        Operation::CreateTrade {
            buyer,
            seller,
            po_description,
            quantity,
            unit_price,
            total_price,
            po_json_ipfs_hash,
            buyer_lei_ipfs,
            seller_lei_ipfs,
        } => create_trade_outcome(
            s,
            buyer,
            seller,
            po_description,
            quantity,
            unit_price,
            total_price,
            po_json_ipfs_hash,
            buyer_lei_ipfs,
            seller_lei_ipfs,
        ),
        Operation::FundEscrow { buyer, trade_id, payment_amount } => fund_escrow_outcome(
            s,
            buyer,
            trade_id,
            payment_amount,
            fee_rate_of(s),
        ),
        Operation::ValidateBuyerVlei { trade_id } => validate_buyer_vlei_outcome(s, trade_id),
        Operation::ValidateSellerVlei { trade_id } => validate_seller_vlei_outcome(s, trade_id),
        Operation::FulfillOrder {
            seller,
            trade_id,
            ci_description,
            ci_quantity,
            ci_unit_price,
            ci_total_price,
            ci_json_ipfs_hash,
            wr_description,
            wr_quantity,
            wr_unit_price,
        } => fulfill_order_outcome(
            s,
            seller,
            trade_id,
            ci_description,
            ci_quantity,
            ci_unit_price,
            ci_total_price,
            ci_json_ipfs_hash,
            wr_description,
            wr_quantity,
            wr_unit_price,
        ),
        Operation::RejectOrder { seller, trade_id } => reject_order_outcome(s, seller, trade_id),
        Operation::CancelTrade { buyer, trade_id } => cancel_trade_outcome(s, buyer, trade_id),
        Operation::AcceptTrade { buyer, trade_id } => settle_outcome(s, buyer, trade_id),
        Operation::ClockMoves { timestamp } => Ok(State { timestamp, ..s }),
    }
}

/// The state after an operation: what it comes to where it succeeds, the
/// state before it where it fails.
pub open spec fn step(s: State, op: Operation) -> State {
    match outcome(s, op) {
        Ok(next) => next,
        Err(_) => s,
    }
}

/// The state after a run of operations, one after the other.
pub open spec fn run(s: State, ops: Seq<Operation>) -> State
    decreases ops.len(),
{
    if ops.len() == 0 {
        s
    } else {
        step(run(s, ops.drop_last()), ops.last())
    }
}

/// The state fulfilled or later: the seller has delivered.
pub open spec fn delivered(state: TradeState) -> bool {
    state == TradeState::Fulfilled || state == TradeState::Settled
}

/// What holds of the trade kept under `trade_id` in a sound state.
pub open spec fn trade_is_sound(s: State, trade_id: u64) -> bool {
    let trade = s.trades[trade_id];
    &&& trade.trade_id == trade_id
    &&& 1 <= trade_id < s.upcoming_trade_id()
    &&& trade.buyer != trade.seller
    &&& trade.amount > 0
    &&& trade.marketplace_fee >= 0
    &&& trade.escrow_balance >= 0
    &&& (trade.escrow_balance == 0 ==> trade.marketplace_fee == 0)
    &&& (trade.escrow_balance > 0 ==> trade.escrow_balance >= trade.amount
        + trade.marketplace_fee)
    &&& (delivered(trade.state) ==> trade.escrow_balance > 0)
    &&& s.purchase_orders.contains_key(trade_id)
    &&& s.vlei_documents.contains_key(trade_id)
    &&& (s.customer_invoices.contains_key(trade_id) <==> delivered(trade.state))
    &&& (s.warehouse_receipts.contains_key(trade_id) <==> delivered(trade.state))
}

/// The invariant of the marketplace. Ids below the upcoming one are the
/// only ones in use; every trade is sound; a document belongs to a trade;
/// and the fee rate is at most ten percent.
pub open spec fn consistent(s: State) -> bool {
    &&& s.upcoming_trade_id() >= 1
    &&& (s.marketplace_fee_rate is Some ==> s.marketplace_fee_rate->Some_0 <= MAX_FEE_RATE)
    &&& forall|trade_id: u64| #[trigger]
        s.trades.contains_key(trade_id) ==> trade_is_sound(s, trade_id)
    &&& forall|trade_id: u64| #[trigger]
        s.purchase_orders.contains_key(trade_id) ==> s.trades.contains_key(trade_id)
    &&& forall|trade_id: u64| #[trigger]
        s.vlei_documents.contains_key(trade_id) ==> s.trades.contains_key(trade_id)
    &&& forall|trade_id: u64| #[trigger]
        s.customer_invoices.contains_key(trade_id) ==> s.trades.contains_key(trade_id)
    &&& forall|trade_id: u64| #[trigger]
        s.warehouse_receipts.contains_key(trade_id) ==> s.trades.contains_key(trade_id)
}

/// The fee on a positive amount is not negative, and amount and fee
/// together are positive.
pub proof fn lemma_fee_of_positive_amount(amount: i128, rate: u32)
    requires
        amount > 0,
    ensures
        marketplace_fee(amount as int, rate as int) >= 0,
        escrow_cost(amount, rate) is Ok ==> escrow_cost(amount, rate)->Ok_0.1 >= 0
            && escrow_cost(amount, rate)->Ok_0.0 >= amount + escrow_cost(amount, rate)->Ok_0.1
            && escrow_cost(amount, rate)->Ok_0.0 > 0,
{
    assert(amount * rate >= 0) by (nonlinear_arith)
        requires
            amount > 0,
            rate >= 0,
    ;
}

/// No trade and no document is recorded.
pub open spec fn has_no_trades(s: State) -> bool {
    &&& forall|trade_id: u64| !(#[trigger] s.trades.contains_key(trade_id))
    &&& forall|trade_id: u64| !(#[trigger] s.purchase_orders.contains_key(trade_id))
    &&& forall|trade_id: u64| !(#[trigger] s.customer_invoices.contains_key(trade_id))
    &&& forall|trade_id: u64| !(#[trigger] s.warehouse_receipts.contains_key(trade_id))
    &&& forall|trade_id: u64| !(#[trigger] s.vlei_documents.contains_key(trade_id))
}

/// The marketplace set up where no trade is recorded is in a consistent
/// state without gaps, and its first trade will get the id 1.
pub proof fn lemma_setup_is_consistent(
    s: State,
    platform_treasury: Seq<char>,
    marketplace_fee_rate: u32,
)
    requires
        has_no_trades(s),
        marketplace_fee_rate <= MAX_FEE_RATE,
    ensures
        constructor_outcome(s, platform_treasury, marketplace_fee_rate) is Ok,
        consistent(constructor_outcome(s, platform_treasury, marketplace_fee_rate)->Ok_0),
        ids_are_dense(constructor_outcome(s, platform_treasury, marketplace_fee_rate)->Ok_0),
        constructor_outcome(
            s,
            platform_treasury,
            marketplace_fee_rate,
        )->Ok_0.upcoming_trade_id() == 1,
{
}

/// An environment with nothing kept in it records no trade.
pub proof fn lemma_empty_has_no_trades(timestamp: u64, current_contract_address: Seq<char>)
    ensures
        has_no_trades(State::empty(timestamp, current_contract_address)),
{
}

/// A state that differs from a consistent one in the registry, the owner,
/// the treasury or the clock alone is consistent.
proof fn lemma_trades_untouched(s: State, next: State)
    requires
        consistent(s),
        next.trades == s.trades,
        next.purchase_orders == s.purchase_orders,
        next.customer_invoices == s.customer_invoices,
        next.warehouse_receipts == s.warehouse_receipts,
        next.vlei_documents == s.vlei_documents,
        next.next_trade_id == s.next_trade_id,
        next.marketplace_fee_rate == s.marketplace_fee_rate,
    ensures
        consistent(next),
{
    assert forall|id: u64| #[trigger] next.trades.contains_key(id) implies trade_is_sound(
        next,
        id,
    ) by {
        assert(s.trades.contains_key(id));
        assert(trade_is_sound(s, id));
    }
}

/// A state that differs from a consistent one in one trade alone, and keeps
/// that trade sound, is consistent.
proof fn lemma_one_trade_changed(s: State, next: State, trade_id: u64)
    requires
        consistent(s),
        s.trades.contains_key(trade_id),
        next.trades == s.trades.insert(trade_id, next.trades[trade_id]),
        trade_is_sound(next, trade_id),
        next.next_trade_id == s.next_trade_id,
        next.marketplace_fee_rate == s.marketplace_fee_rate,
        next.purchase_orders == s.purchase_orders,
        next.vlei_documents == s.vlei_documents,
        forall|id: u64|
            id != trade_id ==> (#[trigger] next.customer_invoices.contains_key(id)
                <==> s.customer_invoices.contains_key(id)),
        forall|id: u64|
            id != trade_id ==> (#[trigger] next.warehouse_receipts.contains_key(id)
                <==> s.warehouse_receipts.contains_key(id)),
    ensures
        consistent(next),
{
    assert forall|id: u64| #[trigger] next.trades.contains_key(id) implies trade_is_sound(
        next,
        id,
    ) by {
        if id != trade_id {
            assert(s.trades.contains_key(id));
            assert(trade_is_sound(s, id));
            assert(next.trades[id] == s.trades[id]);
        }
    }
    assert forall|id: u64| #[trigger]
        next.customer_invoices.contains_key(id) implies next.trades.contains_key(id) by {
        if id != trade_id {
            assert(s.customer_invoices.contains_key(id));
        }
    }
    assert forall|id: u64| #[trigger]
        next.warehouse_receipts.contains_key(id) implies next.trades.contains_key(id) by {
        if id != trade_id {
            assert(s.warehouse_receipts.contains_key(id));
        }
    }
}

/// Creating a trade keeps the invariant.
proof fn lemma_create_trade_keeps_consistency(s: State, op: Operation)
    requires
        consistent(s),
        op is CreateTrade,
        outcome(s, op) is Ok,
    ensures
        consistent(outcome(s, op)->Ok_0),
{
    let next = outcome(s, op)->Ok_0;
    let fresh = s.upcoming_trade_id();
    assert(!s.trades.contains_key(fresh)) by {
        if s.trades.contains_key(fresh) {
            assert(trade_is_sound(s, fresh));
        }
    }
    assert(!s.customer_invoices.contains_key(fresh));
    assert(!s.warehouse_receipts.contains_key(fresh));
    assert forall|id: u64| #[trigger] next.trades.contains_key(id) implies trade_is_sound(
        next,
        id,
    ) by {
        if id != fresh {
            assert(s.trades.contains_key(id));
            assert(trade_is_sound(s, id));
        }
    }
    assert forall|id: u64| #[trigger]
        next.purchase_orders.contains_key(id) implies next.trades.contains_key(id) by {
        if id != fresh {
            assert(s.purchase_orders.contains_key(id));
        }
    }
    assert forall|id: u64| #[trigger]
        next.vlei_documents.contains_key(id) implies next.trades.contains_key(id) by {
        if id != fresh {
            assert(s.vlei_documents.contains_key(id));
        }
    }
    assert forall|id: u64| #[trigger]
        next.customer_invoices.contains_key(id) implies next.trades.contains_key(id) by {
        assert(s.customer_invoices.contains_key(id));
    }
    assert forall|id: u64| #[trigger]
        next.warehouse_receipts.contains_key(id) implies next.trades.contains_key(id) by {
        assert(s.warehouse_receipts.contains_key(id));
    }
}

/// Validating legal-entity documents keeps the invariant.
proof fn lemma_validation_keeps_consistency(s: State, op: Operation)
    requires
        consistent(s),
        op is ValidateBuyerVlei || op is ValidateSellerVlei,
        outcome(s, op) is Ok,
    ensures
        consistent(outcome(s, op)->Ok_0),
{
    let next = outcome(s, op)->Ok_0;
    assert forall|id: u64| #[trigger] next.trades.contains_key(id) implies trade_is_sound(
        next,
        id,
    ) by {
        assert(s.trades.contains_key(id));
        assert(trade_is_sound(s, id));
    }
    assert forall|id: u64| #[trigger]
        next.vlei_documents.contains_key(id) implies next.trades.contains_key(id) by {
        assert(s.vlei_documents.contains_key(id));
    }
}

/// Every operation keeps the invariant, whether it succeeds or fails.
pub proof fn lemma_step_keeps_consistency(s: State, op: Operation)
    requires
        consistent(s),
    ensures
        consistent(step(s, op)),
{
    let next = step(s, op);
    if outcome(s, op) is Ok {
        match op {
            Operation::RegisterBuyer { .. }
            | Operation::RegisterSeller { .. }
            | Operation::DeactivateBuyer { .. }
            | Operation::DeactivateSeller { .. }
            | Operation::ClockMoves { .. } => {
                lemma_trades_untouched(s, next);
            },
            Operation::CreateTrade { .. } => {
                lemma_create_trade_keeps_consistency(s, op);
            },
            Operation::ValidateBuyerVlei { .. } | Operation::ValidateSellerVlei { .. } => {
                lemma_validation_keeps_consistency(s, op);
            },
            Operation::FundEscrow { buyer, trade_id, payment_amount } => {
                assert(trade_is_sound(s, trade_id));
                lemma_fee_of_positive_amount(s.trades[trade_id].amount, fee_rate_of(s));
                lemma_one_trade_changed(s, next, trade_id);
            },
            Operation::FulfillOrder { trade_id, .. } => {
                assert(trade_is_sound(s, trade_id));
                lemma_one_trade_changed(s, next, trade_id);
            },
            Operation::RejectOrder { trade_id, .. } => {
                assert(trade_is_sound(s, trade_id));
                lemma_one_trade_changed(s, next, trade_id);
            },
            Operation::CancelTrade { trade_id, .. } => {
                assert(trade_is_sound(s, trade_id));
                lemma_one_trade_changed(s, next, trade_id);
            },
            Operation::AcceptTrade { trade_id, .. } => {
                assert(trade_is_sound(s, trade_id));
                lemma_one_trade_changed(s, next, trade_id);
            },
        }
    }
}

/// Every state that a run of operations reaches from a consistent state is
/// consistent.
pub proof fn lemma_run_keeps_consistency(s: State, ops: Seq<Operation>)
    requires
        consistent(s),
    ensures
        consistent(run(s, ops)),
    decreases ops.len(),
{
    if ops.len() > 0 {
        lemma_run_keeps_consistency(s, ops.drop_last());
        lemma_step_keeps_consistency(run(s, ops.drop_last()), ops.last());
    }
}

/// Ids are given out without gaps: every id from 1 up to the upcoming one
/// is the id of a trade.
pub open spec fn ids_are_dense(s: State) -> bool {
    forall|trade_id: u64|
        1 <= trade_id < s.upcoming_trade_id() ==> #[trigger] s.trades.contains_key(trade_id)
}

/// A successful creation gives the trade the upcoming id, which no trade
/// had before, and moves the upcoming id on by one.
pub proof fn lemma_created_trade_gets_upcoming_id(s: State, op: Operation)
    requires
        consistent(s),
        op is CreateTrade,
        outcome(s, op) is Ok,
    ensures
        !s.trades.contains_key(s.upcoming_trade_id()),
        step(s, op).trades.contains_key(s.upcoming_trade_id()),
        step(s, op).trades[s.upcoming_trade_id()].trade_id == s.upcoming_trade_id(),
        step(s, op).upcoming_trade_id() == s.upcoming_trade_id() + 1,
        forall|trade_id: u64|
            s.trades.contains_key(trade_id) ==> #[trigger] step(s, op).trades.contains_key(
                trade_id,
            ) && step(s, op).trades[trade_id] == s.trades[trade_id],
{
    let fresh = s.upcoming_trade_id();
    if s.trades.contains_key(fresh) {
        assert(trade_is_sound(s, fresh));
    }
}

/// No operation but a successful creation moves the upcoming id, and none
/// moves it back.
pub proof fn lemma_only_creation_moves_upcoming_id(s: State, op: Operation)
    ensures
        step(s, op).upcoming_trade_id() >= s.upcoming_trade_id(),
        !(op is CreateTrade && outcome(s, op) is Ok) ==> step(s, op).next_trade_id
            == s.next_trade_id,
{
}

/// Every operation keeps the ids without gaps.
pub proof fn lemma_step_keeps_ids_dense(s: State, op: Operation)
    requires
        consistent(s),
        ids_are_dense(s),
    ensures
        ids_are_dense(step(s, op)),
{
    let next = step(s, op);
    lemma_only_creation_moves_upcoming_id(s, op);
    assert forall|trade_id: u64| 1 <= trade_id < next.upcoming_trade_id() implies #[trigger]
        next.trades.contains_key(trade_id) by {
        if trade_id < s.upcoming_trade_id() {
            assert(s.trades.contains_key(trade_id));
            lemma_step_keeps_trades(s, op, trade_id);
        }
    }
}

/// In a state that a run of operations reaches from the marketplace as set
/// up, the ids in use are exactly those from 1 up to the upcoming one: ids
/// start at 1, come one after the other, and none is used twice.
pub proof fn lemma_ids_are_sequential(
    s: State,
    platform_treasury: Seq<char>,
    marketplace_fee_rate: u32,
    ops: Seq<Operation>,
    trade_id: u64,
)
    requires
        has_no_trades(s),
        marketplace_fee_rate <= MAX_FEE_RATE,
    ensures
        ({
            let start = constructor_outcome(s, platform_treasury, marketplace_fee_rate)->Ok_0;
            run(start, ops).trades.contains_key(trade_id) <==> 1 <= trade_id < run(
                start,
                ops,
            ).upcoming_trade_id()
        }),
{
    let start = constructor_outcome(s, platform_treasury, marketplace_fee_rate)->Ok_0;
    lemma_setup_is_consistent(s, platform_treasury, marketplace_fee_rate);
    lemma_run_keeps_consistency(start, ops);
    lemma_run_keeps_ids_dense(start, ops);
    let end = run(start, ops);
    if end.trades.contains_key(trade_id) {
        assert(trade_is_sound(end, trade_id));
    }
}

/// Every state that a run of operations reaches from a consistent state
/// with ids without gaps has its ids without gaps.
pub proof fn lemma_run_keeps_ids_dense(s: State, ops: Seq<Operation>)
    requires
        consistent(s),
        ids_are_dense(s),
    ensures
        ids_are_dense(run(s, ops)),
    decreases ops.len(),
{
    if ops.len() > 0 {
        lemma_run_keeps_ids_dense(s, ops.drop_last());
        lemma_run_keeps_consistency(s, ops.drop_last());
        lemma_step_keeps_ids_dense(run(s, ops.drop_last()), ops.last());
    }
}

/// One state can follow another in the life of a trade: it is the same, or
/// the lifecycle leads from the one to the other.
pub open spec fn stays_or_advances(before: TradeState, after: TradeState) -> bool {
    before == after || before.leads_to(after)
}

/// One state can come after another in the life of a trade, in any number
/// of steps.
pub open spec fn can_become(before: TradeState, after: TradeState) -> bool {
    ||| before == after
    ||| before.leads_to(after)
    ||| (before == TradeState::Ordered && after == TradeState::Settled)
}

/// No operation removes a trade or changes who trades what: the id, both
/// parties, the amount and the time of creation stay, and the state stays
/// or advances along the lifecycle.
pub proof fn lemma_step_keeps_trades(s: State, op: Operation, trade_id: u64)
    requires
        consistent(s),
        s.trades.contains_key(trade_id),
    ensures
        step(s, op).trades.contains_key(trade_id),
        step(s, op).trades[trade_id].trade_id == s.trades[trade_id].trade_id,
        step(s, op).trades[trade_id].buyer == s.trades[trade_id].buyer,
        step(s, op).trades[trade_id].seller == s.trades[trade_id].seller,
        step(s, op).trades[trade_id].amount == s.trades[trade_id].amount,
        stays_or_advances(s.trades[trade_id].state, step(s, op).trades[trade_id].state),
{
    assert(trade_is_sound(s, trade_id));
}

/// Over any run of operations a trade stays, and its state is one that the
/// lifecycle allows after the state it had.
pub proof fn lemma_run_follows_lifecycle(s: State, ops: Seq<Operation>, trade_id: u64)
    requires
        consistent(s),
        s.trades.contains_key(trade_id),
    ensures
        run(s, ops).trades.contains_key(trade_id),
        can_become(s.trades[trade_id].state, run(s, ops).trades[trade_id].state),
    decreases ops.len(),
{
    if ops.len() > 0 {
        lemma_run_follows_lifecycle(s, ops.drop_last(), trade_id);
        lemma_run_keeps_consistency(s, ops.drop_last());
        lemma_step_keeps_trades(run(s, ops.drop_last()), ops.last(), trade_id);
    }
}

/// A settled, rejected or cancelled trade stays as it is, whatever is
/// called afterwards.
pub proof fn lemma_terminal_state_is_final(s: State, ops: Seq<Operation>, trade_id: u64)
    requires
        consistent(s),
        s.trades.contains_key(trade_id),
        s.trades[trade_id].state.is_terminal(),
    ensures
        run(s, ops).trades.contains_key(trade_id),
        run(s, ops).trades[trade_id].state == s.trades[trade_id].state,
{
    lemma_run_follows_lifecycle(s, ops, trade_id);
}

/// The party that a lifecycle operation needs, and the trade that it is
/// for; nothing for the other operations.
pub open spec fn lifecycle_call(op: Operation) -> Option<(Seq<char>, u64)> {
    match op {
        Operation::FundEscrow { buyer, trade_id, .. } => Some((buyer, trade_id)),
        Operation::FulfillOrder { seller, trade_id, .. } => Some((seller, trade_id)),
        Operation::RejectOrder { seller, trade_id } => Some((seller, trade_id)),
        Operation::CancelTrade { buyer, trade_id } => Some((buyer, trade_id)),
        Operation::AcceptTrade { buyer, trade_id } => Some((buyer, trade_id)),
        _ => None,
    }
}

/// The state from which a lifecycle operation moves a trade, and the state
/// to which it moves it; funding stays in `Ordered`.
pub open spec fn lifecycle_move(op: Operation) -> (TradeState, TradeState) {
    match op {
        Operation::FulfillOrder { .. } => (TradeState::Ordered, TradeState::Fulfilled),
        Operation::RejectOrder { .. } => (TradeState::Ordered, TradeState::Rejected),
        Operation::CancelTrade { .. } => (TradeState::Ordered, TradeState::Cancelled),
        Operation::AcceptTrade { .. } => (TradeState::Fulfilled, TradeState::Settled),
        _ => (TradeState::Ordered, TradeState::Ordered),
    }
}

/// The party that stands behind a lifecycle operation on a trade: the
/// seller fulfils and rejects, the buyer funds, cancels and accepts.
pub open spec fn lifecycle_party(s: State, op: Operation, trade_id: u64) -> Seq<char> {
    if op is FulfillOrder || op is RejectOrder {
        s.trades[trade_id].seller
    } else {
        s.trades[trade_id].buyer
    }
}

/// A transition that the lifecycle does not have is refused: the right
/// party, calling for a trade that is not in the state from which the
/// operation moves, is told that the state is wrong, and nothing changes.
/// Funding, fulfilment, rejection and cancellation answer with
/// `InvalidTradeState`, acceptance with `TradeNotFulfilled`.
pub proof fn lemma_wrong_state_is_refused(s: State, op: Operation)
    requires
        lifecycle_call(op) is Some,
        s.trades.contains_key(lifecycle_call(op)->Some_0.1),
        lifecycle_call(op)->Some_0.0 == lifecycle_party(s, op, lifecycle_call(op)->Some_0.1),
        s.trades[lifecycle_call(op)->Some_0.1].state != lifecycle_move(op).0,
        op is AcceptTrade ==> s.platform_treasury is Some,
    ensures
        outcome(s, op) is Err,
        outcome(s, op)->Err_0.is_wrong_state(),
        outcome(s, op)->Err_0 == if op is AcceptTrade {
            ContractError::TradeNotFulfilled
        } else {
            ContractError::InvalidTradeState
        },
        step(s, op) == s,
{
}

/// A lifecycle operation that succeeds moves its trade from the state and
/// to the state that the lifecycle has for it.
pub proof fn lemma_success_moves_along_lifecycle(s: State, op: Operation)
    requires
        lifecycle_call(op) is Some,
        outcome(s, op) is Ok,
    ensures
        s.trades.contains_key(lifecycle_call(op)->Some_0.1),
        lifecycle_call(op)->Some_0.0 == lifecycle_party(s, op, lifecycle_call(op)->Some_0.1),
        s.trades[lifecycle_call(op)->Some_0.1].state == lifecycle_move(op).0,
        step(s, op).trades[lifecycle_call(op)->Some_0.1].state == lifecycle_move(op).1,
{
}

/// Funding is not repeatable: once the escrow of a trade is funded, every
/// further funding of it by its buyer is refused as already funded, and
/// balance and fee stay what the first funding made them.
pub proof fn lemma_escrow_is_funded_once(
    s: State,
    buyer: Seq<char>,
    trade_id: u64,
    payment_amount: i128,
    marketplace_fee_rate: u32,
    second_payment: i128,
    second_rate: u32,
)
    requires
        consistent(s),
        fund_escrow_outcome(s, buyer, trade_id, payment_amount, marketplace_fee_rate) is Ok,
    ensures
        ({
            let funded = fund_escrow_outcome(
                s,
                buyer,
                trade_id,
                payment_amount,
                marketplace_fee_rate,
            )->Ok_0;
            &&& funded.trades[trade_id].escrow_balance == payment_amount
            &&& funded.trades[trade_id].escrow_balance > 0
            &&& funded.trades[trade_id].marketplace_fee == marketplace_fee(
                s.trades[trade_id].amount as int,
                marketplace_fee_rate as int,
            )
            &&& fund_escrow_outcome(funded, buyer, trade_id, second_payment, second_rate) == Err::<
                State,
                ContractError,
            >(ContractError::EscrowAlreadyFunded)
        }),
{
    assert(trade_is_sound(s, trade_id));
    lemma_fee_of_positive_amount(s.trades[trade_id].amount, marketplace_fee_rate);
}

/// Once the escrow of a trade is funded, no operation changes its balance
/// or its fee.
pub proof fn lemma_funded_escrow_is_kept(s: State, op: Operation, trade_id: u64)
    requires
        consistent(s),
        s.trades.contains_key(trade_id),
        s.trades[trade_id].escrow_balance > 0,
    ensures
        step(s, op).trades[trade_id].escrow_balance == s.trades[trade_id].escrow_balance,
        step(s, op).trades[trade_id].marketplace_fee == s.trades[trade_id].marketplace_fee,
{
    assert(trade_is_sound(s, trade_id));
}

/// Documents are written once: no operation changes a purchase order, a
/// customer invoice or a warehouse receipt that is there, and a validation
/// flag that is set stays set.
pub proof fn lemma_documents_are_kept(s: State, op: Operation, trade_id: u64)
    requires
        consistent(s),
    ensures
        s.purchase_orders.contains_key(trade_id) ==> step(s, op).purchase_orders.contains_key(
            trade_id,
        ) && step(s, op).purchase_orders[trade_id] == s.purchase_orders[trade_id],
        s.customer_invoices.contains_key(trade_id) ==> step(s, op).customer_invoices.contains_key(
            trade_id,
        ) && step(s, op).customer_invoices[trade_id] == s.customer_invoices[trade_id],
        s.warehouse_receipts.contains_key(trade_id) ==> step(
            s,
            op,
        ).warehouse_receipts.contains_key(trade_id) && step(s, op).warehouse_receipts[trade_id]
            == s.warehouse_receipts[trade_id],
        s.vlei_documents.contains_key(trade_id) ==> step(s, op).vlei_documents.contains_key(
            trade_id,
        ) && (s.vlei_documents[trade_id].buyer_validated ==> step(
            s,
            op,
        ).vlei_documents[trade_id].buyer_validated) && (s.vlei_documents[trade_id].seller_validated
            ==> step(s, op).vlei_documents[trade_id].seller_validated),
{
    if s.purchase_orders.contains_key(trade_id) {
        assert(s.trades.contains_key(trade_id));
        assert(trade_is_sound(s, trade_id));
    }
    if s.customer_invoices.contains_key(trade_id) {
        assert(s.trades.contains_key(trade_id));
        assert(trade_is_sound(s, trade_id));
    }
    if s.warehouse_receipts.contains_key(trade_id) {
        assert(s.trades.contains_key(trade_id));
        assert(trade_is_sound(s, trade_id));
    }
    if s.vlei_documents.contains_key(trade_id) {
        assert(s.trades.contains_key(trade_id));
        assert(trade_is_sound(s, trade_id));
    }
}

/// Rejecting and cancelling move an ordered trade, and no other, to their
/// terminal state: on an ordered trade the seller's rejection and the
/// buyer's cancellation succeed and change the state alone; on any other
/// trade both are refused as invalid for the state.
pub proof fn lemma_reject_and_cancel_need_ordered(s: State, trade_id: u64)
    requires
        s.trades.contains_key(trade_id),
    ensures
        ({
            let trade = s.trades[trade_id];
            let rejected = reject_order_outcome(s, trade.seller, trade_id);
            let cancelled = cancel_trade_outcome(s, trade.buyer, trade_id);
            if trade.state == TradeState::Ordered {
                &&& rejected is Ok
                &&& rejected->Ok_0.trades[trade_id].state == TradeState::Rejected
                &&& cancelled is Ok
                &&& cancelled->Ok_0.trades[trade_id].state == TradeState::Cancelled
            } else {
                &&& rejected == Err::<State, ContractError>(ContractError::InvalidTradeState)
                &&& cancelled == Err::<State, ContractError>(ContractError::InvalidTradeState)
            }
        }),
{
}

/// After a successful fulfilment neither rejection nor cancellation is
/// possible any more.
pub proof fn lemma_fulfilled_trade_cannot_be_withdrawn(s: State, op: Operation)
    requires
        op is FulfillOrder,
        outcome(s, op) is Ok,
    ensures
        ({
            let trade_id = op->FulfillOrder_trade_id;
            let next = step(s, op);
            &&& next.trades[trade_id].state == TradeState::Fulfilled
            &&& reject_order_outcome(next, next.trades[trade_id].seller, trade_id) == Err::<
                State,
                ContractError,
            >(ContractError::InvalidTradeState)
            &&& cancel_trade_outcome(next, next.trades[trade_id].buyer, trade_id) == Err::<
                State,
                ContractError,
            >(ContractError::InvalidTradeState)
        }),
{
}

/// Descriptions are compared exactly and first: documents whose
/// descriptions are not all equal fail the match with a description
/// mismatch, whatever their quantities and prices.
pub proof fn lemma_description_mismatch_decides(
    po: PurchaseOrderView,
    ci: CustomerInvoiceView,
    wr: WarehouseReceiptView,
)
    requires
        po.po_description != ci.ci_description || po.po_description != wr.wr_description
            || ci.ci_description != wr.wr_description,
    ensures
        match_outcome(po, ci, wr) == Err::<(), ContractError>(ContractError::DescriptionMismatch),
{
}

/// A fulfilled trade whose documents differ in their descriptions is not
/// settled: the buyer's acceptance fails with a description mismatch and
/// the trade stays fulfilled.
pub proof fn lemma_mismatch_blocks_settlement(s: State, trade_id: u64)
    requires
        consistent(s),
        s.trades.contains_key(trade_id),
        s.trades[trade_id].state == TradeState::Fulfilled,
        s.platform_treasury is Some,
        !descriptions_agree(
            s.purchase_orders[trade_id],
            s.customer_invoices[trade_id],
            s.warehouse_receipts[trade_id],
        ),
    ensures
        ({
            let op = Operation::AcceptTrade { buyer: s.trades[trade_id].buyer, trade_id };
            &&& outcome(s, op) == Err::<State, ContractError>(ContractError::DescriptionMismatch)
            &&& step(s, op).trades[trade_id].state == TradeState::Fulfilled
        }),
{
    assert(trade_is_sound(s, trade_id));
}

/// A trade is settled exactly when its buyer accepts it while it is
/// fulfilled and its documents pass the three-way match.
pub proof fn lemma_settlement_needs_match(s: State, buyer: Seq<char>, trade_id: u64)
    requires
        consistent(s),
        s.platform_treasury is Some,
    ensures
        settle_outcome(s, buyer, trade_id) is Ok <==> s.trades.contains_key(trade_id)
            && s.trades[trade_id].buyer == buyer && s.trades[trade_id].state
            == TradeState::Fulfilled && match_outcome(
            s.purchase_orders[trade_id],
            s.customer_invoices[trade_id],
            s.warehouse_receipts[trade_id],
        ) is Ok,
{
    if s.trades.contains_key(trade_id) {
        assert(trade_is_sound(s, trade_id));
    }
}

/// The quantity check in plain terms: with a divisor that is not zero, a
/// pair passes exactly when one hundred times its difference is less than
/// six times the divisor.
pub proof fn lemma_quantity_tolerance(val1: u64, val2: u64)
    requires
        val1 != 0,
    ensures
        quantity_variance_outcome(val1, val2) is Ok <==> 100 * magnitude(val1 - val2) < 6 * val1,
        quantity_variance_outcome(val1, val2) is Err ==> quantity_variance_outcome(val1, val2)
            == Err::<(), ContractError>(ContractError::QuantityVarianceTooHigh),
{
    let d = magnitude(val1 - val2);
    let a = val1 as int;
    lemma_quotient_bound(d * 100, a, 5);
}

/// The price check in plain terms: with a divisor that is not zero and a
/// difference that can be scaled, a pair passes exactly when one hundred
/// times its difference is less than three times the divisor's magnitude.
pub proof fn lemma_price_tolerance(val1: i128, val2: i128)
    requires
        val1 != 0,
        magnitude(val1 - val2) * 100 <= u128::MAX,
    ensures
        price_variance_outcome(val1, val2) is Ok <==> 100 * magnitude(val1 - val2) < 3
            * magnitude(val1 as int),
        price_variance_outcome(val1, val2) is Err ==> price_variance_outcome(val1, val2) == Err::<
            (),
            ContractError,
        >(ContractError::PriceVarianceTooHigh),
{
    let d = magnitude(val1 - val2);
    let a = magnitude(val1 as int);
    lemma_quotient_bound(d * 100, a, 2);
}

/// A truncated quotient is at most `bound` exactly when the dividend is
/// below `bound + 1` times the divisor.
proof fn lemma_quotient_bound(x: int, a: int, bound: int)
    requires
        x >= 0,
        a > 0,
        bound >= 0,
    ensures
        x / a <= bound <==> x < (bound + 1) * a,
{
    let q = x / a;
    assert(x == a * q + x % a && 0 <= x % a < a) by (nonlinear_arith)
        requires
            a > 0,
            q == x / a,
    ;
    if q <= bound {
        assert(a * q + a <= (bound + 1) * a) by (nonlinear_arith)
            requires
                q <= bound,
                a > 0,
        ;
    } else {
        assert(a * q >= (bound + 1) * a) by (nonlinear_arith)
            requires
                q >= bound + 1,
                a > 0,
        ;
    }
}

/// The fee is the exact share, truncated: for an amount that is not
/// negative, the fee is the largest whole number whose ten-thousandfold is
/// at most the amount times the rate.
pub proof fn lemma_fee_is_truncated_share(amount: i128, rate: u32)
    requires
        amount >= 0,
    ensures
        marketplace_fee(amount as int, rate as int) * BASIS_POINTS <= amount * rate,
        amount * rate < (marketplace_fee(amount as int, rate as int) + 1) * BASIS_POINTS,
        rate <= MAX_FEE_RATE ==> 10 * marketplace_fee(amount as int, rate as int) <= amount,
{
    let x = amount * rate;
    assert(x >= 0) by (nonlinear_arith)
        requires
            x == amount * rate,
            amount >= 0,
            rate >= 0,
    ;
    let q = x / 10000;
    assert(x == 10000 * q + x % 10000 && 0 <= x % 10000 < 10000);
    assert(marketplace_fee(amount as int, rate as int) == q);
    if rate <= MAX_FEE_RATE {
        assert(x <= amount * 1000) by (nonlinear_arith)
            requires
                x == amount * rate,
                amount >= 0,
                rate <= 1000,
        ;
    }
}

} // verus!
