//! The marketplace as its callers see it. Each operation names the party
//! that has to stand behind the call; proving that the caller is that party
//! is the hosting environment's part and happens before the call.

use vstd::prelude::*;
use crate::errors::ContractError;
use crate::escrow::{escrow_cost, required_escrow, DEFAULT_FEE_RATE, MAX_FEE_RATE};
use crate::laws::{
    consistent,
    has_no_trades,
    lemma_setup_is_consistent,
    lemma_step_keeps_consistency,
    Operation,
};
use crate::registry;
use crate::registry::{
    buyer_addresses,
    buyer_info_of,
    buyer_infos,
    contents_of_buyers,
    contents_of_sellers,
    deactivate_buyer_outcome,
    deactivate_seller_outcome,
    register_buyer_outcome,
    register_seller_outcome,
    seller_addresses,
    seller_info_of,
    seller_infos,
};
use crate::storage::{commits, commits_with, content_of, Env, State};
use crate::trade;
use crate::trade::{
    accept_trade_outcome,
    cancel_trade_outcome,
    create_trade_outcome,
    fulfill_order_outcome,
    fund_escrow_outcome,
    reject_order_outcome,
    validate_buyer_vlei_outcome,
    validate_seller_vlei_outcome,
};
use crate::types::{
    Address,
    BuyerInfo,
    CustomerInvoice,
    CustomerInvoiceView,
    PurchaseOrder,
    PurchaseOrderView,
    SellerInfo,
    TradeEscrow,
    TradeView,
    VLEIDocuments,
    VLEIDocumentsView,
    WarehouseReceipt,
    WarehouseReceiptView,
};

verus! {

broadcast use vstd::std_specs::hash::group_hash_axioms;

/// The marketplace with its escrow.
pub struct MarketplaceEscrowV1;

/// What setting the marketplace up comes to: a fee rate above ten percent is
/// refused; else the marketplace's own address becomes the owner, treasury
/// and rate are recorded, and the first trade will get the id 1.
pub open spec fn constructor_outcome(
    s: State,
    platform_treasury: Seq<char>,
    marketplace_fee_rate: u32,
) -> Result<State, ContractError> {
    if marketplace_fee_rate > MAX_FEE_RATE {
        Err(ContractError::InvalidFeeRate)
    } else {
        Ok(
            State {
                contract_owner: Some(s.current_contract_address),
                platform_treasury: Some(platform_treasury),
                marketplace_fee_rate: Some(marketplace_fee_rate),
                next_trade_id: Some(1),
                ..s
            },
        )
    }
}

/// The owner who has to stand behind an administrative call, if one is
/// recorded.
pub open spec fn owner_of(s: State) -> Result<Seq<char>, ContractError> {
    match s.contract_owner {
        Some(owner) => Ok(owner),
        None => Err(ContractError::NotContractOwner),
    }
}

/// An administrative operation: refused while no owner is recorded.
pub open spec fn owner_only(s: State, outcome: Result<State, ContractError>) -> Result<
    State,
    ContractError,
> {
    if s.contract_owner is None {
        Err(ContractError::NotContractOwner)
    } else {
        outcome
    }
}

/// The fee rate in force, in basis points.
pub open spec fn fee_rate_of(s: State) -> u32 {
    match s.marketplace_fee_rate {
        Some(rate) => rate,
        None => DEFAULT_FEE_RATE,
    }
}

/// What accepting a trade comes to for the marketplace: refused while no
/// treasury is recorded; else as the lifecycle has it.
pub open spec fn settle_outcome(s: State, buyer: Seq<char>, trade_id: u64) -> Result<
    State,
    ContractError,
> {
    if s.platform_treasury is None {
        Err(ContractError::Unauthorized)
    } else {
        accept_trade_outcome(s, buyer, trade_id)
    }
}

/// The trade kept under `trade_id`.
pub open spec fn trade_of(s: State, trade_id: u64) -> Result<TradeView, ContractError> {
    if s.trades.contains_key(trade_id) {
        Ok(s.trades[trade_id])
    } else {
        Err(ContractError::TradeNotFound)
    }
}

/// The purchase order kept under `trade_id`.
pub open spec fn purchase_order_of(s: State, trade_id: u64) -> Result<
    PurchaseOrderView,
    ContractError,
> {
    if s.purchase_orders.contains_key(trade_id) {
        Ok(s.purchase_orders[trade_id])
    } else {
        Err(ContractError::PurchaseOrderNotFound)
    }
}

/// The customer invoice kept under `trade_id`.
pub open spec fn customer_invoice_of(s: State, trade_id: u64) -> Result<
    CustomerInvoiceView,
    ContractError,
> {
    if s.customer_invoices.contains_key(trade_id) {
        Ok(s.customer_invoices[trade_id])
    } else {
        Err(ContractError::CustomerInvoiceNotFound)
    }
}

/// The warehouse receipt kept under `trade_id`.
pub open spec fn warehouse_receipt_of(s: State, trade_id: u64) -> Result<
    WarehouseReceiptView,
    ContractError,
> {
    if s.warehouse_receipts.contains_key(trade_id) {
        Ok(s.warehouse_receipts[trade_id])
    } else {
        Err(ContractError::WarehouseReceiptNotFound)
    }
}

/// The legal-entity documents kept under `trade_id`.
pub open spec fn vlei_documents_of(s: State, trade_id: u64) -> Result<
    VLEIDocumentsView,
    ContractError,
> {
    if s.vlei_documents.contains_key(trade_id) {
        Ok(s.vlei_documents[trade_id])
    } else {
        Err(ContractError::VLEIDocumentsNotFound)
    }
}

impl MarketplaceEscrowV1 {
    /// Sets the marketplace up with its treasury and its fee rate in basis
    /// points.
    pub fn __constructor(env: &mut Env, platform_treasury: Address, marketplace_fee_rate: u32) -> (r:
        Result<(), ContractError>)
        ensures
            commits(
                constructor_outcome(old(env)@, platform_treasury@, marketplace_fee_rate),
                old(env)@,
                final(env)@,
                r,
            ),
            r is Ok && has_no_trades(old(env)@) ==> consistent(final(env)@),
    {
        proof {
            if has_no_trades(env@) && marketplace_fee_rate <= MAX_FEE_RATE {
                lemma_setup_is_consistent(env@, platform_treasury@, marketplace_fee_rate);
            }
        }
        if marketplace_fee_rate > MAX_FEE_RATE {
            return Err(ContractError::InvalidFeeRate);
        }
        let owner = env.current_contract_address.clone();
        env.contract_owner = Some(owner);
        env.platform_treasury = Some(platform_treasury);
        env.marketplace_fee_rate = Some(marketplace_fee_rate);
        env.next_trade_id = Some(1);
        assert(env@ =~= constructor_outcome(
            old(env)@,
            platform_treasury@,
            marketplace_fee_rate,
        )->Ok_0);
        Ok(())
    }

    /// Registers a buyer. The owner stands behind the call.
    pub fn register_buyer(
        env: &mut Env,
        buyer_address: Address,
        buyer_name: String,
        buyer_lei_id: String,
    ) -> (r: Result<(), ContractError>)
        ensures
            commits(
                owner_only(
                    old(env)@,
                    register_buyer_outcome(old(env)@, buyer_address@, buyer_name@, buyer_lei_id@),
                ),
                old(env)@,
                final(env)@,
                r,
            ),
            consistent(old(env)@) ==> consistent(final(env)@),
    {
        proof {
            if consistent(env@) {
                lemma_step_keeps_consistency(
                    env@,
                    Operation::RegisterBuyer {
                        address: buyer_address@,
                        name: buyer_name@,
                        lei_id: buyer_lei_id@,
                    },
                );
            }
        }
        Self::require_owner(env)?;
        registry::register_buyer(env, buyer_address, buyer_name, buyer_lei_id)
    }

    /// Registers a seller. The owner stands behind the call.
    pub fn register_seller(
        env: &mut Env,
        seller_address: Address,
        seller_name: String,
        seller_lei_id: String,
    ) -> (r: Result<(), ContractError>)
        ensures
            commits(
                owner_only(
                    old(env)@,
                    register_seller_outcome(
                        old(env)@,
                        seller_address@,
                        seller_name@,
                        seller_lei_id@,
                    ),
                ),
                old(env)@,
                final(env)@,
                r,
            ),
            consistent(old(env)@) ==> consistent(final(env)@),
    {
        proof {
            if consistent(env@) {
                lemma_step_keeps_consistency(
                    env@,
                    Operation::RegisterSeller {
                        address: seller_address@,
                        name: seller_name@,
                        lei_id: seller_lei_id@,
                    },
                );
            }
        }
        Self::require_owner(env)?;
        registry::register_seller(env, seller_address, seller_name, seller_lei_id)
    }

    /// Deactivates a buyer. The owner stands behind the call.
    pub fn deactivate_buyer(env: &mut Env, buyer_address: Address) -> (r: Result<
        (),
        ContractError,
    >)
        ensures
            commits(
                owner_only(old(env)@, deactivate_buyer_outcome(old(env)@, buyer_address@)),
                old(env)@,
                final(env)@,
                r,
            ),
            consistent(old(env)@) ==> consistent(final(env)@),
    {
        proof {
            if consistent(env@) {
                lemma_step_keeps_consistency(
                    env@,
                    Operation::DeactivateBuyer { address: buyer_address@ },
                );
            }
        }
        Self::require_owner(env)?;
        registry::deactivate_buyer(env, &buyer_address)
    }

    /// Deactivates a seller. The owner stands behind the call.
    pub fn deactivate_seller(env: &mut Env, seller_address: Address) -> (r: Result<
        (),
        ContractError,
    >)
        ensures
            commits(
                owner_only(old(env)@, deactivate_seller_outcome(old(env)@, seller_address@)),
                old(env)@,
                final(env)@,
                r,
            ),
            consistent(old(env)@) ==> consistent(final(env)@),
    {
        proof {
            if consistent(env@) {
                lemma_step_keeps_consistency(
                    env@,
                    Operation::DeactivateSeller { address: seller_address@ },
                );
            }
        }
        Self::require_owner(env)?;
        registry::deactivate_seller(env, &seller_address)
    }

    /// The record of a registered buyer.
    pub fn get_buyer_info(env: &Env, buyer_address: Address) -> (r: Result<
        BuyerInfo,
        ContractError,
    >)
        ensures
            content_of(r) == buyer_info_of(env@, buyer_address@),
    {
        registry::get_buyer_info(env, &buyer_address)
    }

    /// The record of a registered seller.
    pub fn get_seller_info(env: &Env, seller_address: Address) -> (r: Result<
        SellerInfo,
        ContractError,
    >)
        ensures
            content_of(r) == seller_info_of(env@, seller_address@),
    {
        registry::get_seller_info(env, &seller_address)
    }

    /// The records of all registered buyers, in the order of registration.
    pub fn get_all_buyers(env: &Env) -> (r: Vec<BuyerInfo>)
        ensures
            contents_of_buyers(r@) == buyer_infos(buyer_addresses(env@), env@.registered_buyers),
    {
        registry::get_all_buyers(env)
    }

    /// The records of all registered sellers, in the order of registration.
    pub fn get_all_sellers(env: &Env) -> (r: Vec<SellerInfo>)
        ensures
            contents_of_sellers(r@) == seller_infos(
                seller_addresses(env@),
                env@.registered_sellers,
            ),
    {
        registry::get_all_sellers(env)
    }

    /// Creates a trade with its purchase order. The buyer stands behind the
    /// call.
    pub fn create_trade(
        env: &mut Env,
        buyer: Address,
        seller: Address,
        po_description: String,
        quantity: u64,
        unit_price: i128,
        total_price: i128,
        po_json_ipfs_hash: String,
        buyer_lei_ipfs: String,
        seller_lei_ipfs: String,
    ) -> (r: Result<u64, ContractError>)
        ensures
            commits_with(
                create_trade_outcome(
                    old(env)@,
                    buyer@,
                    seller@,
                    po_description@,
                    quantity,
                    unit_price,
                    total_price,
                    po_json_ipfs_hash@,
                    buyer_lei_ipfs@,
                    seller_lei_ipfs@,
                ),
                old(env)@.upcoming_trade_id(),
                old(env)@,
                final(env)@,
                r,
            ),
            consistent(old(env)@) ==> consistent(final(env)@),
    {
        proof {
            if consistent(env@) {
                lemma_step_keeps_consistency(
                    env@,
                    Operation::CreateTrade {
                        buyer: buyer@,
                        seller: seller@,
                        po_description: po_description@,
                        quantity,
                        unit_price,
                        total_price,
                        po_json_ipfs_hash: po_json_ipfs_hash@,
                        buyer_lei_ipfs: buyer_lei_ipfs@,
                        seller_lei_ipfs: seller_lei_ipfs@,
                    },
                );
            }
        }
        trade::create_trade(
            env,
            &buyer,
            &seller,
            po_description,
            quantity,
            unit_price,
            total_price,
            po_json_ipfs_hash,
            buyer_lei_ipfs,
            seller_lei_ipfs,
        )
    }

    /// Funds the escrow at the fee rate in force. The buyer stands behind
    /// the call.
    pub fn fund_escrow(env: &mut Env, buyer: Address, trade_id: u64, payment_amount: i128) -> (r:
        Result<(), ContractError>)
        ensures
            commits(
                fund_escrow_outcome(
                    old(env)@,
                    buyer@,
                    trade_id,
                    payment_amount,
                    fee_rate_of(old(env)@),
                ),
                old(env)@,
                final(env)@,
                r,
            ),
            consistent(old(env)@) ==> consistent(final(env)@),
    {
        proof {
            if consistent(env@) {
                lemma_step_keeps_consistency(
                    env@,
                    Operation::FundEscrow { buyer: buyer@, trade_id, payment_amount },
                );
            }
        }
        let marketplace_fee_rate: u32 = match env.marketplace_fee_rate {
            Some(rate) => rate,
            None => DEFAULT_FEE_RATE,
        };
        trade::fund_escrow(env, &buyer, trade_id, payment_amount, marketplace_fee_rate)
    }

    /// Marks the buyer's legal-entity documents as validated.
    pub fn validate_buyer_vlei(env: &mut Env, trade_id: u64) -> (r: Result<(), ContractError>)
        ensures
            commits(validate_buyer_vlei_outcome(old(env)@, trade_id), old(env)@, final(env)@, r),
            consistent(old(env)@) ==> consistent(final(env)@),
    {
        proof {
            if consistent(env@) {
                lemma_step_keeps_consistency(
                    env@,
                    Operation::ValidateBuyerVlei { trade_id },
                );
            }
        }
        trade::validate_buyer_vlei(env, trade_id)
    }

    /// Marks the seller's legal-entity documents as validated.
    pub fn validate_seller_vlei(env: &mut Env, trade_id: u64) -> (r: Result<(), ContractError>)
        ensures
            commits(validate_seller_vlei_outcome(old(env)@, trade_id), old(env)@, final(env)@, r),
            consistent(old(env)@) ==> consistent(final(env)@),
    {
        proof {
            if consistent(env@) {
                lemma_step_keeps_consistency(
                    env@,
                    Operation::ValidateSellerVlei { trade_id },
                );
            }
        }
        trade::validate_seller_vlei(env, trade_id)
    }

    /// Fulfils an order. The seller stands behind the call.
    pub fn fulfill_order(
        env: &mut Env,
        seller: Address,
        trade_id: u64,
        ci_description: String,
        ci_quantity: u64,
        ci_unit_price: i128,
        ci_total_price: i128,
        ci_json_ipfs_hash: String,
        wr_description: String,
        wr_quantity: u64,
        wr_unit_price: i128,
    ) -> (r: Result<(), ContractError>)
        ensures
            commits(
                fulfill_order_outcome(
                    old(env)@,
                    seller@,
                    trade_id,
                    ci_description@,
                    ci_quantity,
                    ci_unit_price,
                    ci_total_price,
                    ci_json_ipfs_hash@,
                    wr_description@,
                    wr_quantity,
                    wr_unit_price,
                ),
                old(env)@,
                final(env)@,
                r,
            ),
            consistent(old(env)@) ==> consistent(final(env)@),
    {
        proof {
            if consistent(env@) {
                lemma_step_keeps_consistency(
                    env@,
                    Operation::FulfillOrder {
                        seller: seller@,
                        trade_id,
                        ci_description: ci_description@,
                        ci_quantity,
                        ci_unit_price,
                        ci_total_price,
                        ci_json_ipfs_hash: ci_json_ipfs_hash@,
                        wr_description: wr_description@,
                        wr_quantity,
                        wr_unit_price,
                    },
                );
            }
        }
        trade::fulfill_order(
            env,
            &seller,
            trade_id,
            ci_description,
            ci_quantity,
            ci_unit_price,
            ci_total_price,
            ci_json_ipfs_hash,
            wr_description,
            wr_quantity,
            wr_unit_price,
        )
    }

    /// Rejects an order. The seller stands behind the call.
    pub fn reject_order(env: &mut Env, seller: Address, trade_id: u64) -> (r: Result<
        (),
        ContractError,
    >)
        ensures
            commits(reject_order_outcome(old(env)@, seller@, trade_id), old(env)@, final(env)@, r),
            consistent(old(env)@) ==> consistent(final(env)@),
    {
        proof {
            if consistent(env@) {
                lemma_step_keeps_consistency(
                    env@,
                    Operation::RejectOrder { seller: seller@, trade_id },
                );
            }
        }
        trade::reject_order(env, &seller, trade_id)
    }

    /// Cancels a trade. The buyer stands behind the call.
    pub fn cancel_trade(env: &mut Env, buyer: Address, trade_id: u64) -> (r: Result<
        (),
        ContractError,
    >)
        ensures
            commits(cancel_trade_outcome(old(env)@, buyer@, trade_id), old(env)@, final(env)@, r),
            consistent(old(env)@) ==> consistent(final(env)@),
    {
        proof {
            if consistent(env@) {
                lemma_step_keeps_consistency(
                    env@,
                    Operation::CancelTrade { buyer: buyer@, trade_id },
                );
            }
        }
        trade::cancel_trade(env, &buyer, trade_id)
    }

    /// Accepts and settles a trade. The buyer stands behind the call.
    pub fn accept_trade(env: &mut Env, buyer: Address, trade_id: u64) -> (r: Result<
        (),
        ContractError,
    >)
        ensures
            commits(settle_outcome(old(env)@, buyer@, trade_id), old(env)@, final(env)@, r),
            consistent(old(env)@) ==> consistent(final(env)@),
    {
        proof {
            if consistent(env@) {
                lemma_step_keeps_consistency(
                    env@,
                    Operation::AcceptTrade { buyer: buyer@, trade_id },
                );
            }
        }
        let platform_treasury: Address = match &env.platform_treasury {
            Some(platform_treasury) => platform_treasury.clone(),
            None => {
                return Err(ContractError::Unauthorized);
            },
        };
        trade::accept_trade(env, &buyer, trade_id, &platform_treasury)
    }

    /// The trade kept under `trade_id`.
    pub fn get_trade(env: &Env, trade_id: u64) -> (r: Result<TradeEscrow, ContractError>)
        ensures
            content_of(r) == trade_of(env@, trade_id),
    {
        match env.trades.get(&trade_id) {
            Some(trade) => Ok(trade.clone()),
            None => Err(ContractError::TradeNotFound),
        }
    }

    /// The purchase order kept under `trade_id`.
    pub fn get_purchase_order(env: &Env, trade_id: u64) -> (r: Result<
        PurchaseOrder,
        ContractError,
    >)
        ensures
            content_of(r) == purchase_order_of(env@, trade_id),
    {
        match env.purchase_orders.get(&trade_id) {
            Some(po) => Ok(po.clone()),
            None => Err(ContractError::PurchaseOrderNotFound),
        }
    }

    /// The customer invoice kept under `trade_id`.
    pub fn get_customer_invoice(env: &Env, trade_id: u64) -> (r: Result<
        CustomerInvoice,
        ContractError,
    >)
        ensures
            content_of(r) == customer_invoice_of(env@, trade_id),
    {
        match env.customer_invoices.get(&trade_id) {
            Some(ci) => Ok(ci.clone()),
            None => Err(ContractError::CustomerInvoiceNotFound),
        }
    }

    /// The warehouse receipt kept under `trade_id`.
    pub fn get_warehouse_receipt(env: &Env, trade_id: u64) -> (r: Result<
        WarehouseReceipt,
        ContractError,
    >)
        ensures
            content_of(r) == warehouse_receipt_of(env@, trade_id),
    {
        match env.warehouse_receipts.get(&trade_id) {
            Some(wr) => Ok(wr.clone()),
            None => Err(ContractError::WarehouseReceiptNotFound),
        }
    }

    /// The legal-entity documents kept under `trade_id`.
    pub fn get_vlei_documents(env: &Env, trade_id: u64) -> (r: Result<
        VLEIDocuments,
        ContractError,
    >)
        ensures
            content_of(r) == vlei_documents_of(env@, trade_id),
    {
        match env.vlei_documents.get(&trade_id) {
            Some(vlei_docs) => Ok(vlei_docs.clone()),
            None => Err(ContractError::VLEIDocumentsNotFound),
        }
    }

    /// The ids of the trades in which `buyer` buys, oldest first.
    pub fn get_trades_by_buyer(env: &Env, buyer: Address) -> (r: Vec<u64>)
        ensures
            r@ == env@.trades_of_buyer(buyer@),
    {
        match env.buyer_trades.get(&buyer.strkey) {
            Some(trades) => trades.clone(),
            None => Vec::new(),
        }
    }

    /// The ids of the trades in which `seller` sells, oldest first.
    pub fn get_trades_by_seller(env: &Env, seller: Address) -> (r: Vec<u64>)
        ensures
            r@ == env@.trades_of_seller(seller@),
    {
        match env.seller_trades.get(&seller.strkey) {
            Some(trades) => trades.clone(),
            None => Vec::new(),
        }
    }

    /// What a trade of `amount` costs to fund at the fee rate in force, as
    /// `(total, fee)`.
    pub fn calculate_escrow_cost(env: &Env, amount: i128) -> (r: Result<
        (i128, i128),
        ContractError,
    >)
        ensures
            r == escrow_cost(amount, fee_rate_of(env@)),
    {
        let marketplace_fee_rate: u32 = match env.marketplace_fee_rate {
            Some(rate) => rate,
            None => DEFAULT_FEE_RATE,
        };
        required_escrow(amount, marketplace_fee_rate)
    }

    /// The owner, who has to stand behind every administrative call.
    pub fn require_owner(env: &Env) -> (r: Result<Address, ContractError>)
        ensures
            content_of(r) == owner_of(env@),
    {
        match &env.contract_owner {
            Some(owner) => Ok(owner.clone()),
            None => Err(ContractError::NotContractOwner),
        }
    }
}

} // verus!
