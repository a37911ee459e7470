//! The errors that the marketplace reports.

use vstd::prelude::*;

verus! {

/// Every failure that an operation of the marketplace can report.
#[derive(Copy, Clone, Debug, PartialEq, Eq, PartialOrd, Ord, Structural)]
pub enum ContractError {
    BuyerNotRegistered,
    SellerNotRegistered,
    BuyerAlreadyRegistered,
    SellerAlreadyRegistered,
    BuyerInactive,
    SellerInactive,
    BuyerNameTaken,
    SellerNameTaken,
    Unauthorized,
    NotContractOwner,
    NotBuyer,
    NotSeller,
    InvalidTradeState,
    TradeNotFound,
    TradeAlreadyExists,
    TradeNotOrdered,
    TradeNotFulfilled,
    BuyerCannotBeSeller,
    InsufficientEscrowFunding,
    EscrowNotFunded,
    EscrowAlreadyFunded,
    PurchaseOrderNotFound,
    CustomerInvoiceNotFound,
    WarehouseReceiptNotFound,
    VLEIDocumentsNotFound,
    BuyerVLEINotValidated,
    SellerVLEINotValidated,
    DescriptionMismatch,
    QuantityVarianceTooHigh,
    PriceVarianceTooHigh,
    ThreeWayMatchFailed,
    InvalidAmount,
    InvalidFeeRate,
    OverflowError,
    DivisionByZero,
}

impl ContractError {
    /// The error says that a trade is not in the state that the operation
    /// needs.
    pub open spec fn is_wrong_state(self) -> bool {
        self == ContractError::InvalidTradeState || self == ContractError::TradeNotOrdered || self
            == ContractError::TradeNotFulfilled
    }

    /// The number under which the error is reported. Registry errors start
    /// at 1, authorization errors at 20, trade-state errors at 40, escrow
    /// errors at 60, document errors at 80, matching errors at 100 and
    /// general errors at 120.
    pub open spec fn spec_code(self) -> u32 {
        match self {
            ContractError::BuyerNotRegistered => 1,
            ContractError::SellerNotRegistered => 2,
            ContractError::BuyerAlreadyRegistered => 3,
            ContractError::SellerAlreadyRegistered => 4,
            ContractError::BuyerInactive => 5,
            ContractError::SellerInactive => 6,
            ContractError::BuyerNameTaken => 7,
            ContractError::SellerNameTaken => 8,
            ContractError::Unauthorized => 20,
            ContractError::NotContractOwner => 21,
            ContractError::NotBuyer => 22,
            ContractError::NotSeller => 23,
            ContractError::InvalidTradeState => 40,
            ContractError::TradeNotFound => 41,
            ContractError::TradeAlreadyExists => 42,
            ContractError::TradeNotOrdered => 43,
            ContractError::TradeNotFulfilled => 44,
            ContractError::BuyerCannotBeSeller => 45,
            ContractError::InsufficientEscrowFunding => 60,
            ContractError::EscrowNotFunded => 61,
            ContractError::EscrowAlreadyFunded => 62,
            ContractError::PurchaseOrderNotFound => 80,
            ContractError::CustomerInvoiceNotFound => 81,
            ContractError::WarehouseReceiptNotFound => 82,
            ContractError::VLEIDocumentsNotFound => 83,
            ContractError::BuyerVLEINotValidated => 84,
            ContractError::SellerVLEINotValidated => 85,
            ContractError::DescriptionMismatch => 100,
            ContractError::QuantityVarianceTooHigh => 101,
            ContractError::PriceVarianceTooHigh => 102,
            ContractError::ThreeWayMatchFailed => 103,
            ContractError::InvalidAmount => 120,
            ContractError::InvalidFeeRate => 121,
            ContractError::OverflowError => 122,
            ContractError::DivisionByZero => 123,
        }
    }

    /// The number under which the error is reported.
    pub fn code(self) -> (r: u32)
        ensures
            r == self.spec_code(),
    {
        match self {
            ContractError::BuyerNotRegistered => 1,
            ContractError::SellerNotRegistered => 2,
            ContractError::BuyerAlreadyRegistered => 3,
            ContractError::SellerAlreadyRegistered => 4,
            ContractError::BuyerInactive => 5,
            ContractError::SellerInactive => 6,
            ContractError::BuyerNameTaken => 7,
            ContractError::SellerNameTaken => 8,
            ContractError::Unauthorized => 20,
            ContractError::NotContractOwner => 21,
            ContractError::NotBuyer => 22,
            ContractError::NotSeller => 23,
            ContractError::InvalidTradeState => 40,
            ContractError::TradeNotFound => 41,
            ContractError::TradeAlreadyExists => 42,
            ContractError::TradeNotOrdered => 43,
            ContractError::TradeNotFulfilled => 44,
            ContractError::BuyerCannotBeSeller => 45,
            ContractError::InsufficientEscrowFunding => 60,
            ContractError::EscrowNotFunded => 61,
            ContractError::EscrowAlreadyFunded => 62,
            ContractError::PurchaseOrderNotFound => 80,
            ContractError::CustomerInvoiceNotFound => 81,
            ContractError::WarehouseReceiptNotFound => 82,
            ContractError::VLEIDocumentsNotFound => 83,
            ContractError::BuyerVLEINotValidated => 84,
            ContractError::SellerVLEINotValidated => 85,
            ContractError::DescriptionMismatch => 100,
            ContractError::QuantityVarianceTooHigh => 101,
            ContractError::PriceVarianceTooHigh => 102,
            ContractError::ThreeWayMatchFailed => 103,
            ContractError::InvalidAmount => 120,
            ContractError::InvalidFeeRate => 121,
            ContractError::OverflowError => 122,
            ContractError::DivisionByZero => 123,
        }
    }

    /// The error that is reported under `code`, if there is one.
    pub fn from_code(code: u32) -> (r: Option<ContractError>)
        ensures
            match r {
                Some(e) => e.spec_code() == code,
                None => forall|e: ContractError| e.spec_code() != code,
            },
    {
        match code {
            1 => Some(ContractError::BuyerNotRegistered),
            2 => Some(ContractError::SellerNotRegistered),
            3 => Some(ContractError::BuyerAlreadyRegistered),
            4 => Some(ContractError::SellerAlreadyRegistered),
            5 => Some(ContractError::BuyerInactive),
            6 => Some(ContractError::SellerInactive),
            7 => Some(ContractError::BuyerNameTaken),
            8 => Some(ContractError::SellerNameTaken),
            20 => Some(ContractError::Unauthorized),
            21 => Some(ContractError::NotContractOwner),
            22 => Some(ContractError::NotBuyer),
            23 => Some(ContractError::NotSeller),
            40 => Some(ContractError::InvalidTradeState),
            41 => Some(ContractError::TradeNotFound),
            42 => Some(ContractError::TradeAlreadyExists),
            43 => Some(ContractError::TradeNotOrdered),
            44 => Some(ContractError::TradeNotFulfilled),
            45 => Some(ContractError::BuyerCannotBeSeller),
            60 => Some(ContractError::InsufficientEscrowFunding),
            61 => Some(ContractError::EscrowNotFunded),
            62 => Some(ContractError::EscrowAlreadyFunded),
            80 => Some(ContractError::PurchaseOrderNotFound),
            81 => Some(ContractError::CustomerInvoiceNotFound),
            82 => Some(ContractError::WarehouseReceiptNotFound),
            83 => Some(ContractError::VLEIDocumentsNotFound),
            84 => Some(ContractError::BuyerVLEINotValidated),
            85 => Some(ContractError::SellerVLEINotValidated),
            100 => Some(ContractError::DescriptionMismatch),
            101 => Some(ContractError::QuantityVarianceTooHigh),
            102 => Some(ContractError::PriceVarianceTooHigh),
            103 => Some(ContractError::ThreeWayMatchFailed),
            120 => Some(ContractError::InvalidAmount),
            121 => Some(ContractError::InvalidFeeRate),
            122 => Some(ContractError::OverflowError),
            123 => Some(ContractError::DivisionByZero),
            _ => None,
        }
    }
}

/// Two errors with the same number are the same error.
pub proof fn lemma_code_identifies_error(a: ContractError, b: ContractError)
    requires
        a.spec_code() == b.spec_code(),
    ensures
        a == b,
{
}

} // verus!
