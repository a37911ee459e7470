//! The three-way match: purchase order, customer invoice and warehouse
//! receipt must agree on the description exactly, on the quantity within
//! five percent and on the total price within two percent.

use vstd::prelude::*;
use crate::errors::ContractError;
use crate::storage::{DataKey, Env, State};
use crate::types::{
    CustomerInvoice,
    CustomerInvoiceView,
    PurchaseOrder,
    PurchaseOrderView,
    TradeState,
    WarehouseReceipt,
    WarehouseReceiptView,
};

verus! {

broadcast use vstd::std_specs::hash::group_hash_axioms;

/// Largest accepted quantity variance, in percent.
pub const QUANTITY_TOLERANCE_PERCENT: u128 = 5;

/// Largest accepted total-price variance, in percent.
pub const PRICE_TOLERANCE_PERCENT: u128 = 2;

/// The absolute value of `v`.
pub open spec fn magnitude(v: int) -> int {
    if v >= 0 {
        v
    } else {
        -v
    }
}

/// The variance of `val2` against `val1`, in whole percent of `val1`,
/// truncated: `|val1 - val2| * 100 / |val1|`.
pub open spec fn variance_percent(val1: int, val2: int) -> int
    recommends
        val1 != 0,
{
    magnitude(val1 - val2) * 100 / magnitude(val1)
}

/// What the quantity check answers for a pair of quantities, the first being
/// the divisor.
pub open spec fn quantity_variance_outcome(val1: u64, val2: u64) -> Result<(), ContractError> {
    if val1 == 0 {
        Err(ContractError::DivisionByZero)
    } else if variance_percent(val1 as int, val2 as int) > QUANTITY_TOLERANCE_PERCENT {
        Err(ContractError::QuantityVarianceTooHigh)
    } else {
        Ok(())
    }
}

/// What the price check answers for a pair of total prices, the first being
/// the divisor. The difference times one hundred has to fit in 128 bits.
pub open spec fn price_variance_outcome(val1: i128, val2: i128) -> Result<(), ContractError> {
    if val1 == 0 {
        Err(ContractError::DivisionByZero)
    } else if magnitude(val1 - val2) * 100 > u128::MAX {
        Err(ContractError::OverflowError)
    } else if variance_percent(val1 as int, val2 as int) > PRICE_TOLERANCE_PERCENT {
        Err(ContractError::PriceVarianceTooHigh)
    } else {
        Ok(())
    }
}

/// The first failure of two checks made in turn.
pub open spec fn first_failure(
    first: Result<(), ContractError>,
    second: Result<(), ContractError>,
) -> Result<(), ContractError> {
    if first is Err {
        first
    } else {
        second
    }
}

/// The three descriptions are pairwise equal.
pub open spec fn descriptions_agree(
    po: PurchaseOrderView,
    ci: CustomerInvoiceView,
    wr: WarehouseReceiptView,
) -> bool {
    &&& po.po_description == ci.ci_description
    &&& po.po_description == wr.wr_description
    &&& ci.ci_description == wr.wr_description
}

/// What the three-way match answers for three documents: the first failing
/// check decides, in the order description, quantity, price, and within a
/// dimension in the order (PO, CI), (PO, WR), (CI, WR).
pub open spec fn match_outcome(
    po: PurchaseOrderView,
    ci: CustomerInvoiceView,
    wr: WarehouseReceiptView,
) -> Result<(), ContractError> {
    if !descriptions_agree(po, ci, wr) {
        Err(ContractError::DescriptionMismatch)
    } else {
        first_failure(
            quantity_variance_outcome(po.quantity, ci.quantity),
            first_failure(
                quantity_variance_outcome(po.quantity, wr.quantity),
                first_failure(
                    quantity_variance_outcome(ci.quantity, wr.quantity),
                    first_failure(
                        price_variance_outcome(po.total_price, ci.total_price),
                        first_failure(
                            price_variance_outcome(po.total_price, wr.total_price),
                            price_variance_outcome(ci.total_price, wr.total_price),
                        ),
                    ),
                ),
            ),
        )
    }
}

/// What the three-way match answers for the documents kept under
/// `trade_id`: a missing document is reported, purchase order first; else
/// the documents decide.
pub open spec fn three_way_outcome(s: State, trade_id: u64) -> Result<(), ContractError> {
    if !s.purchase_orders.contains_key(trade_id) {
        Err(ContractError::PurchaseOrderNotFound)
    } else if !s.customer_invoices.contains_key(trade_id) {
        Err(ContractError::CustomerInvoiceNotFound)
    } else if !s.warehouse_receipts.contains_key(trade_id) {
        Err(ContractError::WarehouseReceiptNotFound)
    } else {
        match_outcome(
            s.purchase_orders[trade_id],
            s.customer_invoices[trade_id],
            s.warehouse_receipts[trade_id],
        )
    }
}

/// What the delivery-versus-payment check answers for `trade_id`: the trade
/// has to exist and be fulfilled, and its documents have to pass the
/// three-way match.
pub open spec fn dvp_outcome(s: State, trade_id: u64) -> Result<(), ContractError> {
    if !s.trades.contains_key(trade_id) {
        Err(ContractError::TradeNotFound)
    } else if s.trades[trade_id].state != TradeState::Fulfilled {
        Err(ContractError::TradeNotFulfilled)
    } else {
        three_way_outcome(s, trade_id)
    }
}

/// The absolute value of a signed amount, which always fits in 128 unsigned
/// bits.
fn unsigned_magnitude(v: i128) -> (r: u128)
    ensures
        r == magnitude(v as int),
{
    if v >= 0 {
        v as u128
    } else {
        let above: i128 = v + 1;
        let flipped: i128 = -above;
        (flipped as u128) + 1
    }
}

/// The absolute difference of two signed amounts, which always fits in 128
/// unsigned bits.
fn unsigned_difference(val1: i128, val2: i128) -> (r: u128)
    ensures
        r == magnitude(val1 - val2),
{
    let (high, low) = if val1 > val2 {
        (val1, val2)
    } else {
        (val2, val1)
    };
    if low >= 0 || high < 0 {
        (high - low) as u128
    } else {
        (high as u128) + unsigned_magnitude(low)
    }
}

/// Checks that two quantities differ by at most five percent of the first.
pub fn check_quantity_variance(val1: u64, val2: u64) -> (r: Result<(), ContractError>)
    ensures
        r == quantity_variance_outcome(val1, val2),
{
    if val1 == 0 {
        return Err(ContractError::DivisionByZero);
    }
    let diff: u64 = if val1 > val2 {
        val1 - val2
    } else {
        val2 - val1
    };
    assert(diff * 100 <= u128::MAX) by (nonlinear_arith)
        requires
            diff <= u64::MAX,
    ;
    let variance_percent: u128 = (diff as u128) * 100 / (val1 as u128);
    if variance_percent > QUANTITY_TOLERANCE_PERCENT {
        return Err(ContractError::QuantityVarianceTooHigh);
    }
    Ok(())
}

/// Checks that two total prices differ by at most two percent of the first.
pub fn check_price_variance(val1: i128, val2: i128) -> (r: Result<(), ContractError>)
    ensures
        r == price_variance_outcome(val1, val2),
{
    if val1 == 0 {
        return Err(ContractError::DivisionByZero);
    }
    let abs_val1: u128 = unsigned_magnitude(val1);
    let abs_diff: u128 = unsigned_difference(val1, val2);
    let scaled: u128 = match abs_diff.checked_mul(100) {
        Some(scaled) => scaled,
        None => {
            return Err(ContractError::OverflowError);
        },
    };
    let variance_percent: u128 = scaled / abs_val1;
    if variance_percent > PRICE_TOLERANCE_PERCENT {
        return Err(ContractError::PriceVarianceTooHigh);
    }
    Ok(())
}

/// Runs the three-way match on three documents.
pub fn match_documents(po: &PurchaseOrder, ci: &CustomerInvoice, wr: &WarehouseReceipt) -> (r:
    Result<(), ContractError>)
    ensures
        r == match_outcome(po@, ci@, wr@),
{
    if po.po_description != ci.ci_description {
        return Err(ContractError::DescriptionMismatch);
    }
    if po.po_description != wr.wr_description {
        return Err(ContractError::DescriptionMismatch);
    }
    if ci.ci_description != wr.wr_description {
        return Err(ContractError::DescriptionMismatch);
    }
    check_quantity_variance(po.quantity, ci.quantity)?;
    check_quantity_variance(po.quantity, wr.quantity)?;
    check_quantity_variance(ci.quantity, wr.quantity)?;
    check_price_variance(po.total_price, ci.total_price)?;
    check_price_variance(po.total_price, wr.total_price)?;
    check_price_variance(ci.total_price, wr.total_price)?;
    Ok(())
}

/// Runs the three-way match on the documents kept under `trade_id`.
pub fn three_way_match(env: &Env, trade_id: u64) -> (r: Result<(), ContractError>)
    ensures
        r == three_way_outcome(env@, trade_id),
{
    let po: &PurchaseOrder = match env.purchase_orders.get(&trade_id) {
        Some(po) => po,
        None => {
            return Err(ContractError::PurchaseOrderNotFound);
        },
    };
    let ci: &CustomerInvoice = match env.customer_invoices.get(&trade_id) {
        Some(ci) => ci,
        None => {
            return Err(ContractError::CustomerInvoiceNotFound);
        },
    };
    let wr: &WarehouseReceipt = match env.warehouse_receipts.get(&trade_id) {
        Some(wr) => wr,
        None => {
            return Err(ContractError::WarehouseReceiptNotFound);
        },
    };
    match_documents(po, ci, wr)
}

/// The delivery-versus-payment check that gates settlement.
pub fn dvp_check(env: &Env, trade_id: u64) -> (r: Result<(), ContractError>)
    ensures
        r == dvp_outcome(env@, trade_id),
{
    let fulfilled: bool = match env.trades.get(&trade_id) {
        Some(trade) => trade.state == TradeState::Fulfilled,
        None => {
            return Err(ContractError::TradeNotFound);
        },
    };
    if !fulfilled {
        return Err(ContractError::TradeNotFulfilled);
    }
    if !env.has(&DataKey::PurchaseOrder(trade_id)) {
        return Err(ContractError::PurchaseOrderNotFound);
    }
    if !env.has(&DataKey::CustomerInvoice(trade_id)) {
        return Err(ContractError::CustomerInvoiceNotFound);
    }
    if !env.has(&DataKey::WarehouseReceipt(trade_id)) {
        return Err(ContractError::WarehouseReceiptNotFound);
    }
    three_way_match(env, trade_id)?;
    Ok(())
}

} // verus!
