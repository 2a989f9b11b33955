use vstd::prelude::*;

verus! {

/// Every way in which an operation on an option series can fail.
///
/// A failed operation changes nothing and issues no ledger operation.
#[derive(Clone, Copy, Debug, PartialEq, Eq, Structural)]
pub enum ErrorCode {
    UnauthorizedAdmin,
    TokenAccountMintMismatch,
    InvalidTokenAccountOwner,
    InsufficientFunds,
    InsufficientOptionsToBurn,
    OnlyCreatorCanCloseOptionAccount,
    OptionExpirationMustBeInTheFuture,
    NotPastOptionCloseTime,
    OnlyAdminCanOverrideSettlementPrice,
    BeforeSetSettlementPriceTime,
    AfterSetSettlementPriceTime,
    SettlementPriceAlreadySet,
    InvalidOracle,
    InvalidSettlementOptionMint,
    CannotBurnOptionsAfterExpiry,
    CannotBurnOptionsAfterSettlementPriceIsSet,
    /// The strike of a new series is zero.
    InvalidStrike,
    /// The collateral of a new series is not a whole number of lots.
    CollateralNotMultipleOfLotSize,
    /// The underlying mint's decimals give no lot size (fewer than the claim
    /// mint's, or more than a `u64` power of ten can hold).
    UnsupportedMintDecimals,
    /// The oracle reports a negative price or a positive exponent.
    InvalidOraclePrice,
    /// A checked add, subtract or multiply left the range of its integer type.
    ArithmeticOverflow,
    /// The profit owed to claim holders exceeds what the vault holds.
    PayoutExceedsVault,
    /// An account is not at the address that its seeds and nonce derive.
    InvalidSeeds,
}

} // verus!
