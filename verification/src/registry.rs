//! The registry of buyers and sellers: who may trade, under which name and
//! with which legal-entity identifier.

use vstd::prelude::*;
use crate::errors::ContractError;
use crate::storage::{address_texts, commits, content_of, Env, State};
use crate::types::{Address, BuyerInfo, BuyerInfoView, SellerInfo, SellerInfoView};

verus! {

/// The list of registered buyers' addresses, empty until one registered.
pub open spec fn buyer_addresses(s: State) -> Seq<Seq<char>> {
    match s.all_buyers {
        Some(addresses) => addresses,
        None => Seq::empty(),
    }
}

/// The list of registered sellers' addresses, empty until one registered.
pub open spec fn seller_addresses(s: State) -> Seq<Seq<char>> {
    match s.all_sellers {
        Some(addresses) => addresses,
        None => Seq::empty(),
    }
}

/// What registering a buyer comes to: refused where the address is
/// registered or the name is taken; else the buyer is recorded as active,
/// the name is bound to the address, and the address joins the list.
pub open spec fn register_buyer_outcome(
    s: State,
    buyer_address: Seq<char>,
    buyer_name: Seq<char>,
    buyer_lei_id: Seq<char>,
) -> Result<State, ContractError> {
    if s.registered_buyers.contains_key(buyer_address) {
        Err(ContractError::BuyerAlreadyRegistered)
    } else if s.buyers_by_name.contains_key(buyer_name) {
        Err(ContractError::BuyerNameTaken)
    } else {
        Ok(
            State {
                registered_buyers: s.registered_buyers.insert(
                    buyer_address,
                    BuyerInfoView {
                        name: buyer_name,
                        lei_id: buyer_lei_id,
                        wallet_address: buyer_address,
                        registered_at: s.timestamp,
                        is_active: true,
                    },
                ),
                buyers_by_name: s.buyers_by_name.insert(buyer_name, buyer_address),
                all_buyers: Some(buyer_addresses(s).push(buyer_address)),
                ..s
            },
        )
    }
}

/// What registering a seller comes to: as for a buyer, in the sellers'
/// namespaces.
pub open spec fn register_seller_outcome(
    s: State,
    seller_address: Seq<char>,
    seller_name: Seq<char>,
    seller_lei_id: Seq<char>,
) -> Result<State, ContractError> {
    if s.registered_sellers.contains_key(seller_address) {
        Err(ContractError::SellerAlreadyRegistered)
    } else if s.sellers_by_name.contains_key(seller_name) {
        Err(ContractError::SellerNameTaken)
    } else {
        Ok(
            State {
                registered_sellers: s.registered_sellers.insert(
                    seller_address,
                    SellerInfoView {
                        name: seller_name,
                        lei_id: seller_lei_id,
                        wallet_address: seller_address,
                        registered_at: s.timestamp,
                        is_active: true,
                    },
                ),
                sellers_by_name: s.sellers_by_name.insert(seller_name, seller_address),
                all_sellers: Some(seller_addresses(s).push(seller_address)),
                ..s
            },
        )
    }
}

/// The record of the buyer at `buyer_address`, if it is registered.
pub open spec fn buyer_info_of(s: State, buyer_address: Seq<char>) -> Result<
    BuyerInfoView,
    ContractError,
> {
    if s.registered_buyers.contains_key(buyer_address) {
        Ok(s.registered_buyers[buyer_address])
    } else {
        Err(ContractError::BuyerNotRegistered)
    }
}

/// The record of the seller at `seller_address`, if it is registered.
pub open spec fn seller_info_of(s: State, seller_address: Seq<char>) -> Result<
    SellerInfoView,
    ContractError,
> {
    if s.registered_sellers.contains_key(seller_address) {
        Ok(s.registered_sellers[seller_address])
    } else {
        Err(ContractError::SellerNotRegistered)
    }
}

/// Whether the buyer at `buyer_address` may trade: it has to be registered
/// and active.
pub open spec fn buyer_activity(s: State, buyer_address: Seq<char>) -> Result<(), ContractError> {
    if !s.registered_buyers.contains_key(buyer_address) {
        Err(ContractError::BuyerNotRegistered)
    } else if !s.registered_buyers[buyer_address].is_active {
        Err(ContractError::BuyerInactive)
    } else {
        Ok(())
    }
}

/// Whether the seller at `seller_address` may trade: it has to be registered
/// and active.
pub open spec fn seller_activity(s: State, seller_address: Seq<char>) -> Result<(), ContractError> {
    if !s.registered_sellers.contains_key(seller_address) {
        Err(ContractError::SellerNotRegistered)
    } else if !s.registered_sellers[seller_address].is_active {
        Err(ContractError::SellerInactive)
    } else {
        Ok(())
    }
}

/// What deactivating a buyer comes to: its record, otherwise unchanged, is
/// no longer active.
pub open spec fn deactivate_buyer_outcome(s: State, buyer_address: Seq<char>) -> Result<
    State,
    ContractError,
> {
    if !s.registered_buyers.contains_key(buyer_address) {
        Err(ContractError::BuyerNotRegistered)
    } else {
        Ok(
            State {
                registered_buyers: s.registered_buyers.insert(
                    buyer_address,
                    BuyerInfoView { is_active: false, ..s.registered_buyers[buyer_address] },
                ),
                ..s
            },
        )
    }
}

/// What deactivating a seller comes to: its record, otherwise unchanged, is
/// no longer active.
pub open spec fn deactivate_seller_outcome(s: State, seller_address: Seq<char>) -> Result<
    State,
    ContractError,
> {
    if !s.registered_sellers.contains_key(seller_address) {
        Err(ContractError::SellerNotRegistered)
    } else {
        Ok(
            State {
                registered_sellers: s.registered_sellers.insert(
                    seller_address,
                    SellerInfoView { is_active: false, ..s.registered_sellers[seller_address] },
                ),
                ..s
            },
        )
    }
}

/// The records of those among `addresses` that `registry` holds, in the
/// order of the addresses.
pub open spec fn buyer_infos(
    addresses: Seq<Seq<char>>,
    registry: Map<Seq<char>, BuyerInfoView>,
) -> Seq<BuyerInfoView>
    decreases addresses.len(),
{
    if addresses.len() == 0 {
        Seq::empty()
    } else if registry.contains_key(addresses.last()) {
        buyer_infos(addresses.drop_last(), registry).push(registry[addresses.last()])
    } else {
        buyer_infos(addresses.drop_last(), registry)
    }
}

/// The records of those among `addresses` that `registry` holds, in the
/// order of the addresses.
pub open spec fn seller_infos(
    addresses: Seq<Seq<char>>,
    registry: Map<Seq<char>, SellerInfoView>,
) -> Seq<SellerInfoView>
    decreases addresses.len(),
{
    if addresses.len() == 0 {
        Seq::empty()
    } else if registry.contains_key(addresses.last()) {
        seller_infos(addresses.drop_last(), registry).push(registry[addresses.last()])
    } else {
        seller_infos(addresses.drop_last(), registry)
    }
}

/// The contents of a list of buyers' records, in order.
pub open spec fn contents_of_buyers(records: Seq<BuyerInfo>) -> Seq<BuyerInfoView> {
    Seq::new(records.len(), |i: int| records[i]@)
}

/// The contents of a list of sellers' records, in order.
pub open spec fn contents_of_sellers(records: Seq<SellerInfo>) -> Seq<SellerInfoView> {
    Seq::new(records.len(), |i: int| records[i]@)
}

/// Registers a buyer under its address and name.
pub fn register_buyer(
    env: &mut Env,
    buyer_address: Address,
    buyer_name: String,
    buyer_lei_id: String,
) -> (r: Result<(), ContractError>)
    ensures
        commits(
            register_buyer_outcome(old(env)@, buyer_address@, buyer_name@, buyer_lei_id@),
            old(env)@,
            final(env)@,
            r,
        ),
{
    if env.registered_buyers.contains_key(&buyer_address.strkey) {
        return Err(ContractError::BuyerAlreadyRegistered);
    }
    if env.buyers_by_name.contains_key(&buyer_name) {
        return Err(ContractError::BuyerNameTaken);
    }
    let buyer_info = BuyerInfo {
        name: buyer_name.clone(),
        lei_id: buyer_lei_id,
        wallet_address: buyer_address.clone(),
        registered_at: env.timestamp,
        is_active: true,
    };
    env.registered_buyers.insert(buyer_address.strkey.clone(), buyer_info);
    env.buyers_by_name.insert(buyer_name, buyer_address.clone());
    let mut all_buyers: Vec<Address> = match env.all_buyers.take() {
        Some(addresses) => addresses,
        None => Vec::new(),
    };
    let ghost listed = all_buyers@;
    all_buyers.push(buyer_address);
    assert(address_texts(all_buyers@) =~= address_texts(listed).push(buyer_address@));
    assert(address_texts(Seq::<Address>::empty()) =~= Seq::<Seq<char>>::empty());
    env.all_buyers = Some(all_buyers);
    assert(env@ =~= register_buyer_outcome(
        old(env)@,
        buyer_address@,
        buyer_name@,
        buyer_lei_id@,
    )->Ok_0);
    Ok(())
}

/// Registers a seller under its address and name.
pub fn register_seller(
    env: &mut Env,
    seller_address: Address,
    seller_name: String,
    seller_lei_id: String,
) -> (r: Result<(), ContractError>)
    ensures
        commits(
            register_seller_outcome(old(env)@, seller_address@, seller_name@, seller_lei_id@),
            old(env)@,
            final(env)@,
            r,
        ),
{
    if env.registered_sellers.contains_key(&seller_address.strkey) {
        return Err(ContractError::SellerAlreadyRegistered);
    }
    if env.sellers_by_name.contains_key(&seller_name) {
        return Err(ContractError::SellerNameTaken);
    }
    let seller_info = SellerInfo {
        name: seller_name.clone(),
        lei_id: seller_lei_id,
        wallet_address: seller_address.clone(),
        registered_at: env.timestamp,
        is_active: true,
    };
    env.registered_sellers.insert(seller_address.strkey.clone(), seller_info);
    env.sellers_by_name.insert(seller_name, seller_address.clone());
    let mut all_sellers: Vec<Address> = match env.all_sellers.take() {
        Some(addresses) => addresses,
        None => Vec::new(),
    };
    let ghost listed = all_sellers@;
    all_sellers.push(seller_address);
    assert(address_texts(all_sellers@) =~= address_texts(listed).push(seller_address@));
    assert(address_texts(Seq::<Address>::empty()) =~= Seq::<Seq<char>>::empty());
    env.all_sellers = Some(all_sellers);
    assert(env@ =~= register_seller_outcome(
        old(env)@,
        seller_address@,
        seller_name@,
        seller_lei_id@,
    )->Ok_0);
    Ok(())
}

/// The record of a registered buyer.
pub fn get_buyer_info(env: &Env, buyer_address: &Address) -> (r: Result<BuyerInfo, ContractError>)
    ensures
        content_of(r) == buyer_info_of(env@, buyer_address@),
{
    match env.registered_buyers.get(&buyer_address.strkey) {
        Some(buyer_info) => Ok(buyer_info.clone()),
        None => Err(ContractError::BuyerNotRegistered),
    }
}

/// The record of a registered seller.
pub fn get_seller_info(env: &Env, seller_address: &Address) -> (r: Result<SellerInfo, ContractError>)
    ensures
        content_of(r) == seller_info_of(env@, seller_address@),
{
    match env.registered_sellers.get(&seller_address.strkey) {
        Some(seller_info) => Ok(seller_info.clone()),
        None => Err(ContractError::SellerNotRegistered),
    }
}

/// Succeeds exactly when the buyer is registered and active.
pub fn is_buyer_active(env: &Env, buyer_address: &Address) -> (r: Result<(), ContractError>)
    ensures
        r == buyer_activity(env@, buyer_address@),
{
    let buyer_info = get_buyer_info(env, buyer_address)?;
    if !buyer_info.is_active {
        return Err(ContractError::BuyerInactive);
    }
    Ok(())
}

/// Succeeds exactly when the seller is registered and active.
pub fn is_seller_active(env: &Env, seller_address: &Address) -> (r: Result<(), ContractError>)
    ensures
        r == seller_activity(env@, seller_address@),
{
    let seller_info = get_seller_info(env, seller_address)?;
    if !seller_info.is_active {
        return Err(ContractError::SellerInactive);
    }
    Ok(())
}

/// Marks a registered buyer as inactive.
pub fn deactivate_buyer(env: &mut Env, buyer_address: &Address) -> (r: Result<(), ContractError>)
    ensures
        commits(deactivate_buyer_outcome(old(env)@, buyer_address@), old(env)@, final(env)@, r),
{
    let mut buyer_info = get_buyer_info(env, buyer_address)?;
    buyer_info.is_active = false;
    env.registered_buyers.insert(buyer_address.strkey.clone(), buyer_info);
    assert(env@ =~= deactivate_buyer_outcome(old(env)@, buyer_address@)->Ok_0);
    Ok(())
}

/// Marks a registered seller as inactive.
pub fn deactivate_seller(env: &mut Env, seller_address: &Address) -> (r: Result<(), ContractError>)
    ensures
        commits(deactivate_seller_outcome(old(env)@, seller_address@), old(env)@, final(env)@, r),
{
    let mut seller_info = get_seller_info(env, seller_address)?;
    seller_info.is_active = false;
    env.registered_sellers.insert(seller_address.strkey.clone(), seller_info);
    assert(env@ =~= deactivate_seller_outcome(old(env)@, seller_address@)->Ok_0);
    Ok(())
}

/// The records of all registered buyers, in the order of registration.
pub fn get_all_buyers(env: &Env) -> (r: Vec<BuyerInfo>)
    ensures
        contents_of_buyers(r@) == buyer_infos(buyer_addresses(env@), env@.registered_buyers),
{
    let mut buyer_infos: Vec<BuyerInfo> = Vec::new();
    match &env.all_buyers {
        Some(all_buyers) => {
            let ghost texts = address_texts(all_buyers@);
            let n: usize = all_buyers.len();
            let mut i: usize = 0;
            assert(contents_of_buyers(buyer_infos@) =~= Seq::<BuyerInfoView>::empty());
            while i < n
                invariant
                    n == all_buyers.len(),
                    i <= n,
                    texts == address_texts(all_buyers@),
                    contents_of_buyers(buyer_infos@) == self::buyer_infos(
                        texts.take(i as int),
                        env@.registered_buyers,
                    ),
                decreases n - i,
            {
                assert(texts.take(i + 1).drop_last() =~= texts.take(i as int));
                assert(texts.take(i + 1).last() == all_buyers[i as int]@);
                let ghost collected = buyer_infos@;
                if let Ok(buyer_info) = get_buyer_info(env, &all_buyers[i]) {
                    buyer_infos.push(buyer_info);
                    assert(contents_of_buyers(buyer_infos@) =~= contents_of_buyers(collected).push(
                        buyer_info@,
                    ));
                }
                i = i + 1;
            }
            assert(texts.take(n as int) =~= texts);
        },
        None => {
            assert(contents_of_buyers(buyer_infos@) =~= Seq::<BuyerInfoView>::empty());
        },
    }
    buyer_infos
}

/// The records of all registered sellers, in the order of registration.
pub fn get_all_sellers(env: &Env) -> (r: Vec<SellerInfo>)
    ensures
        contents_of_sellers(r@) == seller_infos(seller_addresses(env@), env@.registered_sellers),
{
    let mut seller_infos: Vec<SellerInfo> = Vec::new();
    match &env.all_sellers {
        Some(all_sellers) => {
            let ghost texts = address_texts(all_sellers@);
            let n: usize = all_sellers.len();
            let mut i: usize = 0;
            assert(contents_of_sellers(seller_infos@) =~= Seq::<SellerInfoView>::empty());
            while i < n
                invariant
                    n == all_sellers.len(),
                    i <= n,
                    texts == address_texts(all_sellers@),
                    contents_of_sellers(seller_infos@) == self::seller_infos(
                        texts.take(i as int),
                        env@.registered_sellers,
                    ),
                decreases n - i,
            {
                assert(texts.take(i + 1).drop_last() =~= texts.take(i as int));
                assert(texts.take(i + 1).last() == all_sellers[i as int]@);
                let ghost collected = seller_infos@;
                if let Ok(seller_info) = get_seller_info(env, &all_sellers[i]) {
                    seller_infos.push(seller_info);
                    assert(contents_of_sellers(seller_infos@) =~= contents_of_sellers(collected).push(
                        seller_info@,
                    ));
                }
                i = i + 1;
            }
            assert(texts.take(n as int) =~= texts);
        },
        None => {
            assert(contents_of_sellers(seller_infos@) =~= Seq::<SellerInfoView>::empty());
        },
    }
    seller_infos
}

} // verus!
