use marketplace_escrow_v1::{
    Address, ContractError, Env, MarketplaceEscrowV1, CANCELLED, FULFILLED, ORDERED, REJECTED,
    SETTLED,
};

fn text(s: &str) -> String {
    String::from(s)
}

fn create_contract() -> (Env, Address, Address, Address) {
    let mut env = Env::new(1_700_000_000, Address::from_str("CMARKETPLACE"));
    let admin = Address::from_str("GADMIN");
    let treasury = Address::from_str("GTREASURY");
    let buyer = Address::from_str("GBUYER");
    let seller = Address::from_str("GSELLER");

    // 0.25% fee
    MarketplaceEscrowV1::__constructor(&mut env, treasury, 25).unwrap();

    (env, admin, buyer, seller)
}

fn register_both(env: &mut Env, buyer: &Address, seller: &Address) {
    MarketplaceEscrowV1::register_buyer(
        env,
        buyer.clone(),
        text("Tommy Hilfiger"),
        text("549300VGEJK8QMIYGZ34"),
    )
    .unwrap();
    MarketplaceEscrowV1::register_seller(
        env,
        seller.clone(),
        text("Jupiter Knitting"),
        text("213800ABCDEF1234XYZ"),
    )
    .unwrap();
}

fn create_standard_trade(env: &mut Env, buyer: &Address, seller: &Address, total: i128) -> u64 {
    MarketplaceEscrowV1::create_trade(
        env,
        buyer.clone(),
        seller.clone(),
        text("Cotton T-shirts"),
        1000,
        15_0000000,
        total,
        text("QmPO123"),
        text("QmBuyerLEI"),
        text("QmSellerLEI"),
    )
    .unwrap()
}

fn fund_and_validate(env: &mut Env, buyer: &Address, trade_id: u64, amount: i128) {
    let (total_required, _) = MarketplaceEscrowV1::calculate_escrow_cost(env, amount).unwrap();
    MarketplaceEscrowV1::fund_escrow(env, buyer.clone(), trade_id, total_required).unwrap();
    MarketplaceEscrowV1::validate_buyer_vlei(env, trade_id).unwrap();
}

#[test]
fn test_initialize() {
    let (env, _admin, _buyer, _seller) = create_contract();

    let (total, fee) = MarketplaceEscrowV1::calculate_escrow_cost(&env, 10000).unwrap();
    assert_eq!(fee, 25); // 0.25% of 10000
    assert_eq!(total, 10025);
}

#[test]
fn test_register_buyer() {
    let (mut env, _admin, buyer, _seller) = create_contract();

    let buyer_name = text("Tommy Hilfiger");
    let buyer_lei = text("549300VGEJK8QMIYGZ34");

    MarketplaceEscrowV1::register_buyer(
        &mut env,
        buyer.clone(),
        buyer_name.clone(),
        buyer_lei.clone(),
    )
    .unwrap();

    let buyer_info = MarketplaceEscrowV1::get_buyer_info(&env, buyer.clone()).unwrap();
    assert_eq!(buyer_info.name, buyer_name);
    assert_eq!(buyer_info.lei_id, buyer_lei);
    assert_eq!(buyer_info.is_active, true);
}

#[test]
fn test_register_seller() {
    let (mut env, _admin, _buyer, seller) = create_contract();

    let seller_name = text("Jupiter Knitting");
    let seller_lei = text("213800ABCDEF1234XYZ");

    MarketplaceEscrowV1::register_seller(
        &mut env,
        seller.clone(),
        seller_name.clone(),
        seller_lei.clone(),
    )
    .unwrap();

    let seller_info = MarketplaceEscrowV1::get_seller_info(&env, seller.clone()).unwrap();
    assert_eq!(seller_info.name, seller_name);
    assert_eq!(seller_info.lei_id, seller_lei);
    assert_eq!(seller_info.is_active, true);
}

#[test]
#[should_panic(expected = "BuyerAlreadyRegistered")]
fn test_register_buyer_duplicate() {
    let (mut env, _admin, buyer, _seller) = create_contract();

    let buyer_name = text("Tommy Hilfiger");
    let buyer_lei = text("549300VGEJK8QMIYGZ34");

    MarketplaceEscrowV1::register_buyer(
        &mut env,
        buyer.clone(),
        buyer_name.clone(),
        buyer_lei.clone(),
    )
    .unwrap();

    // The second registration is refused.
    MarketplaceEscrowV1::register_buyer(&mut env, buyer.clone(), buyer_name, buyer_lei).unwrap();
}

#[test]
fn test_create_trade() {
    let (mut env, _admin, buyer, seller) = create_contract();
    register_both(&mut env, &buyer, &seller);

    let trade_id = MarketplaceEscrowV1::create_trade(
        &mut env,
        buyer.clone(),
        seller.clone(),
        text("Cotton T-shirts"),
        1000,
        15_0000000,
        15000_0000000,
        text("QmPO123"),
        text("QmBuyerLEI"),
        text("QmSellerLEI"),
    )
    .unwrap();

    assert_eq!(trade_id, 1);

    let trade = MarketplaceEscrowV1::get_trade(&env, trade_id).unwrap();
    assert_eq!(trade.trade_id, 1);
    assert_eq!(trade.buyer, buyer);
    assert_eq!(trade.seller, seller);
    assert_eq!(trade.state, ORDERED);
    assert_eq!(trade.amount, 15000_0000000);
}

#[test]
fn test_fund_escrow() {
    let (mut env, _admin, buyer, seller) = create_contract();
    register_both(&mut env, &buyer, &seller);

    let trade_id = create_standard_trade(&mut env, &buyer, &seller, 10000_0000000);

    let (total_required, fee) =
        MarketplaceEscrowV1::calculate_escrow_cost(&env, 10000_0000000).unwrap();
    assert_eq!(fee, 25_0000000); // 0.25% fee

    MarketplaceEscrowV1::fund_escrow(&mut env, buyer.clone(), trade_id, total_required).unwrap();

    let trade = MarketplaceEscrowV1::get_trade(&env, trade_id).unwrap();
    assert_eq!(trade.escrow_balance, total_required);
    assert_eq!(trade.marketplace_fee, fee);
}

#[test]
fn test_fulfill_order() {
    let (mut env, _admin, buyer, seller) = create_contract();
    register_both(&mut env, &buyer, &seller);

    let trade_id = create_standard_trade(&mut env, &buyer, &seller, 15000_0000000);
    fund_and_validate(&mut env, &buyer, trade_id, 15000_0000000);

    MarketplaceEscrowV1::fulfill_order(
        &mut env,
        seller.clone(),
        trade_id,
        text("Cotton T-shirts"), // CI description
        1000,                    // CI quantity
        15_0000000,              // CI unit price
        15000_0000000,           // CI total
        text("QmCI123"),
        text("Cotton T-shirts"), // WR description
        1000,                    // WR quantity
        15_0000000,              // WR unit price
    )
    .unwrap();

    let trade = MarketplaceEscrowV1::get_trade(&env, trade_id).unwrap();
    assert_eq!(trade.state, FULFILLED);
}

#[test]
fn test_accept_trade_exact_match() {
    let (mut env, _admin, buyer, seller) = create_contract();
    register_both(&mut env, &buyer, &seller);

    let trade_id = create_standard_trade(&mut env, &buyer, &seller, 15000_0000000);
    fund_and_validate(&mut env, &buyer, trade_id, 15000_0000000);

    MarketplaceEscrowV1::fulfill_order(
        &mut env,
        seller.clone(),
        trade_id,
        text("Cotton T-shirts"),
        1000,
        15_0000000,
        15000_0000000,
        text("QmCI123"),
        text("Cotton T-shirts"),
        1000,
        15_0000000,
    )
    .unwrap();

    MarketplaceEscrowV1::accept_trade(&mut env, buyer.clone(), trade_id).unwrap();

    let trade = MarketplaceEscrowV1::get_trade(&env, trade_id).unwrap();
    assert_eq!(trade.state, SETTLED);
}

#[test]
fn test_accept_trade_with_quantity_variance() {
    let (mut env, _admin, buyer, seller) = create_contract();
    register_both(&mut env, &buyer, &seller);

    let trade_id = create_standard_trade(&mut env, &buyer, &seller, 15000_0000000);
    fund_and_validate(&mut env, &buyer, trade_id, 15000_0000000);

    // Fulfill with 4% quantity variance (within 5% tolerance)
    MarketplaceEscrowV1::fulfill_order(
        &mut env,
        seller.clone(),
        trade_id,
        text("Cotton T-shirts"),
        1040, // 4% more than PO
        15_0000000,
        15600_0000000, // Adjusted total
        text("QmCI123"),
        text("Cotton T-shirts"),
        1040,
        15_0000000,
    )
    .unwrap();

    // The quantities are within tolerance; the adjusted total is 4% above
    // the ordered one, and the price tolerance is 2%.
    assert_eq!(
        marketplace_escrow_v1::matching::check_quantity_variance(1000, 1040),
        Ok(())
    );
    assert_eq!(
        MarketplaceEscrowV1::accept_trade(&mut env, buyer.clone(), trade_id),
        Err(ContractError::PriceVarianceTooHigh)
    );

    let trade = MarketplaceEscrowV1::get_trade(&env, trade_id).unwrap();
    assert_eq!(trade.state, FULFILLED);
}

#[test]
fn quantity_variance_of_four_percent_settles() {
    let (mut env, _admin, buyer, seller) = create_contract();
    register_both(&mut env, &buyer, &seller);

    let trade_id = create_standard_trade(&mut env, &buyer, &seller, 15000_0000000);
    fund_and_validate(&mut env, &buyer, trade_id, 15000_0000000);

    MarketplaceEscrowV1::fulfill_order(
        &mut env,
        seller.clone(),
        trade_id,
        text("Cotton T-shirts"),
        1040,
        15_0000000,
        15300_0000000,
        text("QmCI123"),
        text("Cotton T-shirts"),
        1040,
        15_0000000,
    )
    .unwrap();

    MarketplaceEscrowV1::accept_trade(&mut env, buyer.clone(), trade_id).unwrap();

    let trade = MarketplaceEscrowV1::get_trade(&env, trade_id).unwrap();
    assert_eq!(trade.state, SETTLED);
}

#[test]
fn quantity_variance_above_five_percent_blocks_settlement() {
    let (mut env, _admin, buyer, seller) = create_contract();
    register_both(&mut env, &buyer, &seller);

    let trade_id = create_standard_trade(&mut env, &buyer, &seller, 15000_0000000);
    fund_and_validate(&mut env, &buyer, trade_id, 15000_0000000);

    MarketplaceEscrowV1::fulfill_order(
        &mut env,
        seller.clone(),
        trade_id,
        text("Cotton T-shirts"),
        1060,
        15_0000000,
        15000_0000000,
        text("QmCI123"),
        text("Cotton T-shirts"),
        1060,
        15_0000000,
    )
    .unwrap();

    assert_eq!(
        MarketplaceEscrowV1::accept_trade(&mut env, buyer.clone(), trade_id),
        Err(ContractError::QuantityVarianceTooHigh)
    );
    let trade = MarketplaceEscrowV1::get_trade(&env, trade_id).unwrap();
    assert_eq!(trade.state, FULFILLED);
}

#[test]
#[should_panic(expected = "DescriptionMismatch")]
fn test_accept_trade_description_mismatch() {
    let (mut env, _admin, buyer, seller) = create_contract();
    register_both(&mut env, &buyer, &seller);

    let trade_id = create_standard_trade(&mut env, &buyer, &seller, 15000_0000000);
    fund_and_validate(&mut env, &buyer, trade_id, 15000_0000000);

    MarketplaceEscrowV1::fulfill_order(
        &mut env,
        seller.clone(),
        trade_id,
        text("Polyester T-shirts"), // not what was ordered
        1000,
        15_0000000,
        15000_0000000,
        text("QmCI123"),
        text("Cotton T-shirts"),
        1000,
        15_0000000,
    )
    .unwrap();

    MarketplaceEscrowV1::accept_trade(&mut env, buyer.clone(), trade_id).unwrap();
}

#[test]
fn test_reject_order() {
    let (mut env, _admin, buyer, seller) = create_contract();
    register_both(&mut env, &buyer, &seller);

    let trade_id = create_standard_trade(&mut env, &buyer, &seller, 15000_0000000);

    MarketplaceEscrowV1::reject_order(&mut env, seller.clone(), trade_id).unwrap();

    let trade = MarketplaceEscrowV1::get_trade(&env, trade_id).unwrap();
    assert_eq!(trade.state, REJECTED);
}

#[test]
fn test_cancel_trade() {
    let (mut env, _admin, buyer, seller) = create_contract();
    register_both(&mut env, &buyer, &seller);

    let trade_id = create_standard_trade(&mut env, &buyer, &seller, 15000_0000000);

    MarketplaceEscrowV1::cancel_trade(&mut env, buyer.clone(), trade_id).unwrap();

    let trade = MarketplaceEscrowV1::get_trade(&env, trade_id).unwrap();
    assert_eq!(trade.state, CANCELLED);
}

#[test]
fn settlement_scenario_runs_to_settled_with_ordered_timestamps() {
    let (mut env, _admin, buyer, seller) = create_contract();
    register_both(&mut env, &buyer, &seller);

    env.timestamp = 1_700_000_100;
    let trade_id = create_standard_trade(&mut env, &buyer, &seller, 15000_0000000);
    assert_eq!(trade_id, 1);

    let (total, fee) = MarketplaceEscrowV1::calculate_escrow_cost(&env, 15000_0000000).unwrap();
    assert_eq!(fee, 37_5000000);
    assert_eq!(total, 15037_5000000);
    MarketplaceEscrowV1::fund_escrow(&mut env, buyer.clone(), trade_id, total).unwrap();
    MarketplaceEscrowV1::validate_buyer_vlei(&mut env, trade_id).unwrap();

    env.timestamp = 1_700_000_200;
    MarketplaceEscrowV1::fulfill_order(
        &mut env,
        seller.clone(),
        trade_id,
        text("Cotton T-shirts"),
        1000,
        15_0000000,
        15000_0000000,
        text("QmCI123"),
        text("Cotton T-shirts"),
        1000,
        15_0000000,
    )
    .unwrap();

    env.timestamp = 1_700_000_300;
    MarketplaceEscrowV1::accept_trade(&mut env, buyer.clone(), trade_id).unwrap();

    let trade = MarketplaceEscrowV1::get_trade(&env, trade_id).unwrap();
    assert_eq!(trade.state, SETTLED);
    assert_eq!(trade.created_at, 1_700_000_100);
    assert_eq!(trade.fulfilled_at, 1_700_000_200);
    assert_eq!(trade.settled_at, 1_700_000_300);
    assert!(trade.settled_at > trade.fulfilled_at && trade.fulfilled_at > trade.created_at);
    assert_eq!(trade.escrow_balance, 15037_5000000);
    assert_eq!(trade.marketplace_fee, 37_5000000);
}

#[test]
fn description_mismatch_leaves_trade_fulfilled() {
    let (mut env, _admin, buyer, seller) = create_contract();
    register_both(&mut env, &buyer, &seller);
    let trade_id = create_standard_trade(&mut env, &buyer, &seller, 15000_0000000);
    fund_and_validate(&mut env, &buyer, trade_id, 15000_0000000);
    MarketplaceEscrowV1::fulfill_order(
        &mut env,
        seller.clone(),
        trade_id,
        text("Polyester T-shirts"),
        1000,
        15_0000000,
        15000_0000000,
        text("QmCI123"),
        text("Cotton T-shirts"),
        1000,
        15_0000000,
    )
    .unwrap();

    let r = MarketplaceEscrowV1::accept_trade(&mut env, buyer.clone(), trade_id);
    assert_eq!(r, Err(ContractError::DescriptionMismatch));

    let trade = MarketplaceEscrowV1::get_trade(&env, trade_id).unwrap();
    assert_eq!(trade.state, FULFILLED);
    assert_eq!(trade.settled_at, 0);
}

#[test]
fn trade_ids_count_up_from_one() {
    let (mut env, _admin, buyer, seller) = create_contract();
    register_both(&mut env, &buyer, &seller);
    for expected in 1..=5u64 {
        let trade_id = create_standard_trade(&mut env, &buyer, &seller, 100);
        assert_eq!(trade_id, expected);
    }
    // A refused creation uses no id up.
    let refused = MarketplaceEscrowV1::create_trade(
        &mut env,
        buyer.clone(),
        seller.clone(),
        text("Cotton T-shirts"),
        1,
        1,
        0,
        text("QmPO123"),
        text("QmBuyerLEI"),
        text("QmSellerLEI"),
    );
    assert_eq!(refused, Err(ContractError::InvalidAmount));
    assert_eq!(create_standard_trade(&mut env, &buyer, &seller, 100), 6);
    assert_eq!(
        MarketplaceEscrowV1::get_trades_by_buyer(&env, buyer.clone()),
        vec![1, 2, 3, 4, 5, 6]
    );
    assert_eq!(
        MarketplaceEscrowV1::get_trades_by_seller(&env, seller.clone()),
        vec![1, 2, 3, 4, 5, 6]
    );
    assert_eq!(
        MarketplaceEscrowV1::get_trades_by_buyer(&env, seller.clone()),
        Vec::<u64>::new()
    );
}

#[test]
fn create_trade_without_setup_starts_at_one() {
    let mut env = Env::new(5, Address::from_str("CMARKETPLACE"));
    let buyer = Address::from_str("GBUYER");
    let seller = Address::from_str("GSELLER");
    marketplace_escrow_v1::registry::register_buyer(
        &mut env,
        buyer.clone(),
        text("B"),
        text("LEI-B"),
    )
    .unwrap();
    marketplace_escrow_v1::registry::register_seller(
        &mut env,
        seller.clone(),
        text("S"),
        text("LEI-S"),
    )
    .unwrap();
    assert_eq!(create_standard_trade(&mut env, &buyer, &seller, 100), 1);
    assert_eq!(env.next_trade_id, Some(2));
}

#[test]
fn create_trade_reports_used_up_ids() {
    let (mut env, _admin, buyer, seller) = create_contract();
    register_both(&mut env, &buyer, &seller);
    env.next_trade_id = Some(u64::MAX);
    let r = MarketplaceEscrowV1::create_trade(
        &mut env,
        buyer.clone(),
        seller.clone(),
        text("Cotton T-shirts"),
        1000,
        15_0000000,
        15000_0000000,
        text("QmPO123"),
        text("QmBuyerLEI"),
        text("QmSellerLEI"),
    );
    assert_eq!(r, Err(ContractError::OverflowError));
    assert!(MarketplaceEscrowV1::get_trade(&env, u64::MAX).is_err());
}

#[test]
fn create_trade_checks_parties_and_amount() {
    let (mut env, _admin, buyer, seller) = create_contract();
    let attempt = |env: &mut Env, b: &Address, s: &Address, total: i128| {
        MarketplaceEscrowV1::create_trade(
            env,
            b.clone(),
            s.clone(),
            text("Cotton T-shirts"),
            1000,
            15_0000000,
            total,
            text("QmPO123"),
            text("QmBuyerLEI"),
            text("QmSellerLEI"),
        )
    };
    assert_eq!(
        attempt(&mut env, &buyer, &buyer, 100),
        Err(ContractError::BuyerCannotBeSeller)
    );
    assert_eq!(
        attempt(&mut env, &buyer, &seller, 100),
        Err(ContractError::BuyerNotRegistered)
    );
    MarketplaceEscrowV1::register_buyer(&mut env, buyer.clone(), text("B"), text("LEI-B"))
        .unwrap();
    assert_eq!(
        attempt(&mut env, &buyer, &seller, 100),
        Err(ContractError::SellerNotRegistered)
    );
    MarketplaceEscrowV1::register_seller(&mut env, seller.clone(), text("S"), text("LEI-S"))
        .unwrap();
    assert_eq!(attempt(&mut env, &buyer, &seller, 0), Err(ContractError::InvalidAmount));
    assert_eq!(attempt(&mut env, &buyer, &seller, -5), Err(ContractError::InvalidAmount));

    MarketplaceEscrowV1::deactivate_seller(&mut env, seller.clone()).unwrap();
    assert_eq!(
        attempt(&mut env, &buyer, &seller, 100),
        Err(ContractError::SellerInactive)
    );
    MarketplaceEscrowV1::deactivate_buyer(&mut env, buyer.clone()).unwrap();
    assert_eq!(attempt(&mut env, &buyer, &seller, 100), Err(ContractError::BuyerInactive));

    // Nothing was recorded by any of the refused calls.
    assert_eq!(env.next_trade_id, Some(1));
    assert_eq!(
        MarketplaceEscrowV1::get_trade(&env, 1).map(|t| t.trade_id),
        Err(ContractError::TradeNotFound)
    );
    assert!(MarketplaceEscrowV1::get_trades_by_buyer(&env, buyer.clone()).is_empty());
}

#[test]
fn create_trade_records_order_and_unvalidated_documents() {
    let (mut env, _admin, buyer, seller) = create_contract();
    register_both(&mut env, &buyer, &seller);
    env.timestamp = 42;
    let trade_id = create_standard_trade(&mut env, &buyer, &seller, 15000_0000000);

    let trade = MarketplaceEscrowV1::get_trade(&env, trade_id).unwrap();
    assert_eq!(trade.created_at, 42);
    assert_eq!(trade.fulfilled_at, 0);
    assert_eq!(trade.settled_at, 0);
    assert_eq!(trade.escrow_balance, 0);
    assert_eq!(trade.marketplace_fee, 0);

    let po = MarketplaceEscrowV1::get_purchase_order(&env, trade_id).unwrap();
    assert_eq!(po.po_description, "Cotton T-shirts");
    assert_eq!(po.quantity, 1000);
    assert_eq!(po.unit_price, 15_0000000);
    assert_eq!(po.total_price, 15000_0000000);
    assert_eq!(po.po_json_ipfs_hash, "QmPO123");
    assert_eq!(po.created_by, buyer);
    assert_eq!(po.created_at, 42);

    let vlei = MarketplaceEscrowV1::get_vlei_documents(&env, trade_id).unwrap();
    assert_eq!(vlei.buyer_lei, "549300VGEJK8QMIYGZ34");
    assert_eq!(vlei.buyer_lei_ipfs, "QmBuyerLEI");
    assert_eq!(vlei.seller_lei, "213800ABCDEF1234XYZ");
    assert_eq!(vlei.seller_lei_ipfs, "QmSellerLEI");
    assert!(!vlei.buyer_validated);
    assert!(!vlei.seller_validated);
    assert_eq!(vlei.validation_timestamp, 42);

    assert_eq!(
        MarketplaceEscrowV1::get_customer_invoice(&env, trade_id).map(|d| d.quantity),
        Err(ContractError::CustomerInvoiceNotFound)
    );
    assert_eq!(
        MarketplaceEscrowV1::get_warehouse_receipt(&env, trade_id).map(|d| d.quantity),
        Err(ContractError::WarehouseReceiptNotFound)
    );
    assert_eq!(
        MarketplaceEscrowV1::get_purchase_order(&env, 2).map(|d| d.quantity),
        Err(ContractError::PurchaseOrderNotFound)
    );
    assert_eq!(
        MarketplaceEscrowV1::get_vlei_documents(&env, 2).map(|d| d.buyer_validated),
        Err(ContractError::VLEIDocumentsNotFound)
    );
}

#[test]
fn fund_escrow_is_not_repeatable() {
    let (mut env, _admin, buyer, seller) = create_contract();
    register_both(&mut env, &buyer, &seller);
    let trade_id = create_standard_trade(&mut env, &buyer, &seller, 10000);

    MarketplaceEscrowV1::fund_escrow(&mut env, buyer.clone(), trade_id, 10030).unwrap();
    let second = MarketplaceEscrowV1::fund_escrow(&mut env, buyer.clone(), trade_id, 20000);
    assert_eq!(second, Err(ContractError::EscrowAlreadyFunded));

    let trade = MarketplaceEscrowV1::get_trade(&env, trade_id).unwrap();
    assert_eq!(trade.escrow_balance, 10030);
    assert_eq!(trade.marketplace_fee, 25);
    assert_eq!(trade.state, ORDERED);
}

#[test]
fn fund_escrow_checks_caller_state_and_payment() {
    let (mut env, _admin, buyer, seller) = create_contract();
    register_both(&mut env, &buyer, &seller);
    let trade_id = create_standard_trade(&mut env, &buyer, &seller, 10000);

    assert_eq!(
        MarketplaceEscrowV1::fund_escrow(&mut env, buyer.clone(), 99, 10025),
        Err(ContractError::TradeNotFound)
    );
    assert_eq!(
        MarketplaceEscrowV1::fund_escrow(&mut env, seller.clone(), trade_id, 10025),
        Err(ContractError::NotBuyer)
    );
    assert_eq!(
        MarketplaceEscrowV1::fund_escrow(&mut env, buyer.clone(), trade_id, 10024),
        Err(ContractError::InsufficientEscrowFunding)
    );
    let trade = MarketplaceEscrowV1::get_trade(&env, trade_id).unwrap();
    assert_eq!(trade.escrow_balance, 0);
    assert_eq!(trade.marketplace_fee, 0);

    // Exactly the amount and the fee is enough.
    MarketplaceEscrowV1::fund_escrow(&mut env, buyer.clone(), trade_id, 10025).unwrap();

    let other = create_standard_trade(&mut env, &buyer, &seller, 10000);
    MarketplaceEscrowV1::cancel_trade(&mut env, buyer.clone(), other).unwrap();
    assert_eq!(
        MarketplaceEscrowV1::fund_escrow(&mut env, buyer.clone(), other, 10025),
        Err(ContractError::InvalidTradeState)
    );
}

#[test]
fn fund_escrow_reports_overflow() {
    let (mut env, _admin, buyer, seller) = create_contract();
    register_both(&mut env, &buyer, &seller);
    let product_overflows = create_standard_trade(&mut env, &buyer, &seller, i128::MAX / 2);
    assert_eq!(
        MarketplaceEscrowV1::fund_escrow(&mut env, buyer.clone(), product_overflows, i128::MAX),
        Err(ContractError::OverflowError)
    );
    // The product fits, the sum of amount and fee does not.
    let sum_overflows = create_standard_trade(&mut env, &buyer, &seller, i128::MAX / 25);
    assert_eq!(
        marketplace_escrow_v1::trade::fund_escrow(
            &mut env,
            &buyer,
            sum_overflows,
            i128::MAX,
            25
        ),
        Ok(())
    );
    let third = create_standard_trade(&mut env, &buyer, &seller, i128::MAX - 5);
    assert_eq!(
        marketplace_escrow_v1::trade::fund_escrow(&mut env, &buyer, third, i128::MAX, 1),
        Err(ContractError::OverflowError)
    );
    assert_eq!(
        marketplace_escrow_v1::trade::fund_escrow(&mut env, &buyer, third, i128::MAX - 5, 0),
        Ok(())
    );
}

#[test]
fn fulfill_order_checks_its_preconditions_in_turn() {
    let (mut env, _admin, buyer, seller) = create_contract();
    register_both(&mut env, &buyer, &seller);
    let trade_id = create_standard_trade(&mut env, &buyer, &seller, 10000);
    let attempt = |env: &mut Env, who: &Address, id: u64| {
        MarketplaceEscrowV1::fulfill_order(
            env,
            who.clone(),
            id,
            text("Cotton T-shirts"),
            1000,
            15_0000000,
            10000,
            text("QmCI123"),
            text("Cotton T-shirts"),
            1000,
            15_0000000,
        )
    };
    assert_eq!(attempt(&mut env, &seller, 7), Err(ContractError::TradeNotFound));
    assert_eq!(attempt(&mut env, &buyer, trade_id), Err(ContractError::NotSeller));
    assert_eq!(attempt(&mut env, &seller, trade_id), Err(ContractError::EscrowNotFunded));
    MarketplaceEscrowV1::fund_escrow(&mut env, buyer.clone(), trade_id, 10025).unwrap();
    assert_eq!(
        attempt(&mut env, &seller, trade_id),
        Err(ContractError::BuyerVLEINotValidated)
    );
    // The seller's validation does not stand in for the buyer's.
    MarketplaceEscrowV1::validate_seller_vlei(&mut env, trade_id).unwrap();
    assert_eq!(
        attempt(&mut env, &seller, trade_id),
        Err(ContractError::BuyerVLEINotValidated)
    );
    env.vlei_documents.remove(&trade_id);
    assert_eq!(
        attempt(&mut env, &seller, trade_id),
        Err(ContractError::VLEIDocumentsNotFound)
    );
    assert_eq!(
        MarketplaceEscrowV1::get_trade(&env, trade_id).unwrap().state,
        ORDERED
    );
    assert!(MarketplaceEscrowV1::get_customer_invoice(&env, trade_id).is_err());
    assert!(MarketplaceEscrowV1::get_warehouse_receipt(&env, trade_id).is_err());
}

#[test]
fn fulfill_order_records_invoice_and_receipt() {
    let (mut env, _admin, buyer, seller) = create_contract();
    register_both(&mut env, &buyer, &seller);
    let trade_id = create_standard_trade(&mut env, &buyer, &seller, 10000);
    fund_and_validate(&mut env, &buyer, trade_id, 10000);
    env.timestamp = 77;
    MarketplaceEscrowV1::fulfill_order(
        &mut env,
        seller.clone(),
        trade_id,
        text("Cotton T-shirts"),
        1001,
        16,
        10001,
        text("QmCI123"),
        text("Cotton shirts"),
        1002,
        17,
    )
    .unwrap();
    let ci = MarketplaceEscrowV1::get_customer_invoice(&env, trade_id).unwrap();
    assert_eq!(ci.ci_description, "Cotton T-shirts");
    assert_eq!(ci.quantity, 1001);
    assert_eq!(ci.unit_price, 16);
    assert_eq!(ci.total_price, 10001);
    assert_eq!(ci.ci_json_ipfs_hash, "QmCI123");
    assert_eq!(ci.created_by, seller);
    assert_eq!(ci.created_at, 77);
    let wr = MarketplaceEscrowV1::get_warehouse_receipt(&env, trade_id).unwrap();
    assert_eq!(wr.wr_description, "Cotton shirts");
    assert_eq!(wr.quantity, 1002);
    assert_eq!(wr.unit_price, 17);
    assert_eq!(wr.total_price, 10001);
    assert_eq!(wr.wr_json_ipfs_hash, "");
    assert_eq!(wr.warehouse_location, "");
    assert_eq!(wr.created_by, seller);
    assert_eq!(wr.created_at, 77);
    let trade = MarketplaceEscrowV1::get_trade(&env, trade_id).unwrap();
    assert_eq!(trade.state, FULFILLED);
    assert_eq!(trade.fulfilled_at, 77);
}

#[test]
fn reject_and_cancel_are_refused_after_fulfilment() {
    let (mut env, _admin, buyer, seller) = create_contract();
    register_both(&mut env, &buyer, &seller);
    let trade_id = create_standard_trade(&mut env, &buyer, &seller, 10000);
    fund_and_validate(&mut env, &buyer, trade_id, 10000);
    MarketplaceEscrowV1::fulfill_order(
        &mut env,
        seller.clone(),
        trade_id,
        text("Cotton T-shirts"),
        1000,
        15_0000000,
        10000,
        text("QmCI123"),
        text("Cotton T-shirts"),
        1000,
        15_0000000,
    )
    .unwrap();
    assert_eq!(
        MarketplaceEscrowV1::reject_order(&mut env, seller.clone(), trade_id),
        Err(ContractError::InvalidTradeState)
    );
    assert_eq!(
        MarketplaceEscrowV1::cancel_trade(&mut env, buyer.clone(), trade_id),
        Err(ContractError::InvalidTradeState)
    );
    assert_eq!(
        MarketplaceEscrowV1::get_trade(&env, trade_id).unwrap().state,
        FULFILLED
    );
}

#[test]
fn terminal_states_refuse_every_transition() {
    let (mut env, _admin, buyer, seller) = create_contract();
    register_both(&mut env, &buyer, &seller);
    let rejected = create_standard_trade(&mut env, &buyer, &seller, 10000);
    MarketplaceEscrowV1::reject_order(&mut env, seller.clone(), rejected).unwrap();
    let cancelled = create_standard_trade(&mut env, &buyer, &seller, 10000);
    MarketplaceEscrowV1::cancel_trade(&mut env, buyer.clone(), cancelled).unwrap();
    let settled = create_standard_trade(&mut env, &buyer, &seller, 10000);
    fund_and_validate(&mut env, &buyer, settled, 10000);
    MarketplaceEscrowV1::fulfill_order(
        &mut env,
        seller.clone(),
        settled,
        text("Cotton T-shirts"),
        1000,
        15_0000000,
        10000,
        text("QmCI123"),
        text("Cotton T-shirts"),
        1000,
        15_0000000,
    )
    .unwrap();
    MarketplaceEscrowV1::accept_trade(&mut env, buyer.clone(), settled).unwrap();

    for (trade_id, state) in [(rejected, REJECTED), (cancelled, CANCELLED), (settled, SETTLED)] {
        assert_eq!(
            MarketplaceEscrowV1::fund_escrow(&mut env, buyer.clone(), trade_id, 20000),
            Err(ContractError::InvalidTradeState)
        );
        assert_eq!(
            MarketplaceEscrowV1::fulfill_order(
                &mut env,
                seller.clone(),
                trade_id,
                text("Cotton T-shirts"),
                1000,
                15_0000000,
                10000,
                text("QmCI123"),
                text("Cotton T-shirts"),
                1000,
                15_0000000,
            ),
            Err(ContractError::InvalidTradeState)
        );
        assert_eq!(
            MarketplaceEscrowV1::reject_order(&mut env, seller.clone(), trade_id),
            Err(ContractError::InvalidTradeState)
        );
        assert_eq!(
            MarketplaceEscrowV1::cancel_trade(&mut env, buyer.clone(), trade_id),
            Err(ContractError::InvalidTradeState)
        );
        assert_eq!(
            MarketplaceEscrowV1::accept_trade(&mut env, buyer.clone(), trade_id),
            Err(ContractError::TradeNotFulfilled)
        );
        assert_eq!(MarketplaceEscrowV1::get_trade(&env, trade_id).unwrap().state, state);
    }
}

#[test]
fn reject_and_cancel_check_the_caller() {
    let (mut env, _admin, buyer, seller) = create_contract();
    register_both(&mut env, &buyer, &seller);
    let trade_id = create_standard_trade(&mut env, &buyer, &seller, 10000);
    assert_eq!(
        MarketplaceEscrowV1::reject_order(&mut env, buyer.clone(), trade_id),
        Err(ContractError::NotSeller)
    );
    assert_eq!(
        MarketplaceEscrowV1::cancel_trade(&mut env, seller.clone(), trade_id),
        Err(ContractError::NotBuyer)
    );
    assert_eq!(
        MarketplaceEscrowV1::reject_order(&mut env, seller.clone(), 9),
        Err(ContractError::TradeNotFound)
    );
    assert_eq!(
        MarketplaceEscrowV1::cancel_trade(&mut env, buyer.clone(), 9),
        Err(ContractError::TradeNotFound)
    );
    assert_eq!(
        MarketplaceEscrowV1::accept_trade(&mut env, seller.clone(), trade_id),
        Err(ContractError::NotBuyer)
    );
    assert_eq!(
        MarketplaceEscrowV1::accept_trade(&mut env, buyer.clone(), 9),
        Err(ContractError::TradeNotFound)
    );
    assert_eq!(
        MarketplaceEscrowV1::accept_trade(&mut env, buyer.clone(), trade_id),
        Err(ContractError::TradeNotFulfilled)
    );
    assert_eq!(MarketplaceEscrowV1::get_trade(&env, trade_id).unwrap().state, ORDERED);
}

#[test]
fn accept_trade_needs_a_treasury() {
    let mut env = Env::new(5, Address::from_str("CMARKETPLACE"));
    let buyer = Address::from_str("GBUYER");
    assert_eq!(
        MarketplaceEscrowV1::accept_trade(&mut env, buyer, 1),
        Err(ContractError::Unauthorized)
    );
}

#[test]
fn validation_flags_are_set_independently() {
    let (mut env, _admin, buyer, seller) = create_contract();
    register_both(&mut env, &buyer, &seller);
    let trade_id = create_standard_trade(&mut env, &buyer, &seller, 10000);
    assert_eq!(
        MarketplaceEscrowV1::validate_buyer_vlei(&mut env, 3),
        Err(ContractError::VLEIDocumentsNotFound)
    );
    assert_eq!(
        MarketplaceEscrowV1::validate_seller_vlei(&mut env, 3),
        Err(ContractError::VLEIDocumentsNotFound)
    );
    env.timestamp = 500;
    MarketplaceEscrowV1::validate_seller_vlei(&mut env, trade_id).unwrap();
    let vlei = MarketplaceEscrowV1::get_vlei_documents(&env, trade_id).unwrap();
    assert!(vlei.seller_validated);
    assert!(!vlei.buyer_validated);
    assert_eq!(vlei.validation_timestamp, 500);
    env.timestamp = 600;
    MarketplaceEscrowV1::validate_buyer_vlei(&mut env, trade_id).unwrap();
    let vlei = MarketplaceEscrowV1::get_vlei_documents(&env, trade_id).unwrap();
    assert!(vlei.seller_validated);
    assert!(vlei.buyer_validated);
    assert_eq!(vlei.validation_timestamp, 600);
    assert_eq!(vlei.buyer_lei, "549300VGEJK8QMIYGZ34");
}
