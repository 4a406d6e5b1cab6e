//! Error codes of the protocol's contracts.
use vstd::prelude::*;

verus! {

/// Errors of the smart account and of account creation.
#[derive(PartialEq, Eq, Structural, Clone, Copy, Debug)]
pub enum AccountError {
    InvalidSignature,
    InvalidConfig,
    AlreadyInitialized,
    PasskeyNotFound,
    RpidNotFound,
    AccountVersionNotFound,
    InvalidBlsKey,
    InvalidPoPSignature,
    TooManyKeys,
    InsufficientKeys,
    DuplicateKeys,
    MissingBlsKeys,
    KeyAtInfinity,
    ClientDataTooLarge,
    InvalidClientDataType,
    InvalidChallenge,
    InvalidRpIdHash,
    InvalidAuthenticatorData,
    UserPresenceRequired,
    UserVerificationRequired,
    StellarSignerMismatch,
    InvalidStellarSigner,
    StellarSignerNotFound,
    InvalidEvmRecoveryId,
    EvmSignerNotFound,
    InvalidNetwork,
    NonceAlreadyUsed,
    CreationProofExpired,
    InvalidCreationExpiry,
    MigrationNotRequired,
    MaxGuardiansExceeded,
    DuplicateGuardian,
    GuardianNotFound,
    UnauthorizedGuardian,
    InvalidGuardian,
    RemovalAlreadyScheduled,
    RemovalNotScheduled,
    GuardianRemovalDelayNotElapsed,
    AccountPaused,
    UnpauseNotApproved,
    InvalidSessionPolicy,
    SessionRevoked,
    SessionAlreadyExists,
    SessionNotFound,
    SessionUnavailable,
    SessionUnauthorized,
    SessionLimitExceeded,
    ArithmeticOverflow,
}

impl AccountError {
    /// The numeric code under which the contract reports this error.
    pub fn code(&self) -> (r: u32)
        ensures
            r == account_error_code(*self),
    {
        match self {
            AccountError::InvalidSignature => 100,
            AccountError::InvalidConfig => 121,
            AccountError::AlreadyInitialized => 200,
            AccountError::PasskeyNotFound => 201,
            AccountError::RpidNotFound => 202,
            AccountError::AccountVersionNotFound => 203,
            AccountError::InvalidBlsKey => 300,
            AccountError::InvalidPoPSignature => 301,
            AccountError::TooManyKeys => 302,
            AccountError::InsufficientKeys => 303,
            AccountError::DuplicateKeys => 304,
            AccountError::MissingBlsKeys => 305,
            AccountError::KeyAtInfinity => 306,
            AccountError::ClientDataTooLarge => 400,
            AccountError::InvalidClientDataType => 401,
            AccountError::InvalidChallenge => 402,
            AccountError::InvalidRpIdHash => 403,
            AccountError::InvalidAuthenticatorData => 404,
            AccountError::UserPresenceRequired => 405,
            AccountError::UserVerificationRequired => 406,
            AccountError::StellarSignerMismatch => 420,
            AccountError::InvalidStellarSigner => 421,
            AccountError::StellarSignerNotFound => 456,
            AccountError::InvalidEvmRecoveryId => 471,
            AccountError::EvmSignerNotFound => 473,
            AccountError::InvalidNetwork => 500,
            AccountError::NonceAlreadyUsed => 501,
            AccountError::CreationProofExpired => 502,
            AccountError::InvalidCreationExpiry => 503,
            AccountError::MigrationNotRequired => 550,
            AccountError::MaxGuardiansExceeded => 600,
            AccountError::DuplicateGuardian => 601,
            AccountError::GuardianNotFound => 602,
            AccountError::UnauthorizedGuardian => 603,
            AccountError::InvalidGuardian => 604,
            AccountError::RemovalAlreadyScheduled => 700,
            AccountError::RemovalNotScheduled => 701,
            AccountError::GuardianRemovalDelayNotElapsed => 702,
            AccountError::AccountPaused => 800,
            AccountError::UnpauseNotApproved => 801,
            AccountError::InvalidSessionPolicy => 811,
            AccountError::SessionRevoked => 812,
            AccountError::SessionAlreadyExists => 813,
            AccountError::SessionNotFound => 814,
            AccountError::SessionUnavailable => 815,
            AccountError::SessionUnauthorized => 816,
            AccountError::SessionLimitExceeded => 817,
            AccountError::ArithmeticOverflow => 818,
        }
    }
}

/// The numeric code of an account error.
pub open spec fn account_error_code(e: AccountError) -> u32 {
    match e {
        AccountError::InvalidSignature => 100,
        AccountError::InvalidConfig => 121,
        AccountError::AlreadyInitialized => 200,
        AccountError::PasskeyNotFound => 201,
        AccountError::RpidNotFound => 202,
        AccountError::AccountVersionNotFound => 203,
        AccountError::InvalidBlsKey => 300,
        AccountError::InvalidPoPSignature => 301,
        AccountError::TooManyKeys => 302,
        AccountError::InsufficientKeys => 303,
        AccountError::DuplicateKeys => 304,
        AccountError::MissingBlsKeys => 305,
        AccountError::KeyAtInfinity => 306,
        AccountError::ClientDataTooLarge => 400,
        AccountError::InvalidClientDataType => 401,
        AccountError::InvalidChallenge => 402,
        AccountError::InvalidRpIdHash => 403,
        AccountError::InvalidAuthenticatorData => 404,
        AccountError::UserPresenceRequired => 405,
        AccountError::UserVerificationRequired => 406,
        AccountError::StellarSignerMismatch => 420,
        AccountError::InvalidStellarSigner => 421,
        AccountError::StellarSignerNotFound => 456,
        AccountError::InvalidEvmRecoveryId => 471,
        AccountError::EvmSignerNotFound => 473,
        AccountError::InvalidNetwork => 500,
        AccountError::NonceAlreadyUsed => 501,
        AccountError::CreationProofExpired => 502,
        AccountError::InvalidCreationExpiry => 503,
        AccountError::MigrationNotRequired => 550,
        AccountError::MaxGuardiansExceeded => 600,
        AccountError::DuplicateGuardian => 601,
        AccountError::GuardianNotFound => 602,
        AccountError::UnauthorizedGuardian => 603,
        AccountError::InvalidGuardian => 604,
        AccountError::RemovalAlreadyScheduled => 700,
        AccountError::RemovalNotScheduled => 701,
        AccountError::GuardianRemovalDelayNotElapsed => 702,
        AccountError::AccountPaused => 800,
        AccountError::UnpauseNotApproved => 801,
        AccountError::InvalidSessionPolicy => 811,
        AccountError::SessionRevoked => 812,
        AccountError::SessionAlreadyExists => 813,
        AccountError::SessionNotFound => 814,
        AccountError::SessionUnavailable => 815,
        AccountError::SessionUnauthorized => 816,
        AccountError::SessionLimitExceeded => 817,
        AccountError::ArithmeticOverflow => 818,
    }
}

/// Errors of the earlier wallet contract generation.
#[derive(PartialEq, Eq, Structural, Clone, Copy, Debug)]
pub enum WalletError {
    InvalidSignature,
    AlreadyInitialized,
    PasskeyNotFound,
    RpidNotFound,
    WalletVersionNotFound,
    InvalidBlsKey,
    InvalidPoPSignature,
    TooManyKeys,
    InsufficientKeys,
    DuplicateKeys,
    MissingBlsKeys,
    KeyAtInfinity,
    ClientDataTooLarge,
    InvalidClientDataType,
    InvalidChallenge,
    InvalidRpIdHash,
    InvalidAuthenticatorData,
    UserPresenceRequired,
    UserVerificationRequired,
    InvalidNetwork,
    NonceAlreadyUsed,
    MaxGuardiansExceeded,
    DuplicateGuardian,
    GuardianNotFound,
    UnauthorizedGuardian,
    InvalidGuardian,
    RemovalAlreadyScheduled,
    RemovalNotScheduled,
    GuardianRemovalDelayNotElapsed,
    WalletPaused,
    UnpauseNotApproved,
}

impl WalletError {
    /// The numeric code under which the contract reports this error.
    pub fn code(&self) -> (r: u32)
        ensures
            r == wallet_error_code(*self),
    {
        match self {
            WalletError::InvalidSignature => 100,
            WalletError::AlreadyInitialized => 200,
            WalletError::PasskeyNotFound => 201,
            WalletError::RpidNotFound => 202,
            WalletError::WalletVersionNotFound => 203,
            WalletError::InvalidBlsKey => 300,
            WalletError::InvalidPoPSignature => 301,
            WalletError::TooManyKeys => 302,
            WalletError::InsufficientKeys => 303,
            WalletError::DuplicateKeys => 304,
            WalletError::MissingBlsKeys => 305,
            WalletError::KeyAtInfinity => 306,
            WalletError::ClientDataTooLarge => 400,
            WalletError::InvalidClientDataType => 401,
            WalletError::InvalidChallenge => 402,
            WalletError::InvalidRpIdHash => 403,
            WalletError::InvalidAuthenticatorData => 404,
            WalletError::UserPresenceRequired => 405,
            WalletError::UserVerificationRequired => 406,
            WalletError::InvalidNetwork => 500,
            WalletError::NonceAlreadyUsed => 501,
            WalletError::MaxGuardiansExceeded => 600,
            WalletError::DuplicateGuardian => 601,
            WalletError::GuardianNotFound => 602,
            WalletError::UnauthorizedGuardian => 603,
            WalletError::InvalidGuardian => 604,
            WalletError::RemovalAlreadyScheduled => 700,
            WalletError::RemovalNotScheduled => 701,
            WalletError::GuardianRemovalDelayNotElapsed => 702,
            WalletError::WalletPaused => 800,
            WalletError::UnpauseNotApproved => 801,
        }
    }
}

/// The numeric code of a wallet error.
pub open spec fn wallet_error_code(e: WalletError) -> u32 {
    match e {
        WalletError::InvalidSignature => 100,
        WalletError::AlreadyInitialized => 200,
        WalletError::PasskeyNotFound => 201,
        WalletError::RpidNotFound => 202,
        WalletError::WalletVersionNotFound => 203,
        WalletError::InvalidBlsKey => 300,
        WalletError::InvalidPoPSignature => 301,
        WalletError::TooManyKeys => 302,
        WalletError::InsufficientKeys => 303,
        WalletError::DuplicateKeys => 304,
        WalletError::MissingBlsKeys => 305,
        WalletError::KeyAtInfinity => 306,
        WalletError::ClientDataTooLarge => 400,
        WalletError::InvalidClientDataType => 401,
        WalletError::InvalidChallenge => 402,
        WalletError::InvalidRpIdHash => 403,
        WalletError::InvalidAuthenticatorData => 404,
        WalletError::UserPresenceRequired => 405,
        WalletError::UserVerificationRequired => 406,
        WalletError::InvalidNetwork => 500,
        WalletError::NonceAlreadyUsed => 501,
        WalletError::MaxGuardiansExceeded => 600,
        WalletError::DuplicateGuardian => 601,
        WalletError::GuardianNotFound => 602,
        WalletError::UnauthorizedGuardian => 603,
        WalletError::InvalidGuardian => 604,
        WalletError::RemovalAlreadyScheduled => 700,
        WalletError::RemovalNotScheduled => 701,
        WalletError::GuardianRemovalDelayNotElapsed => 702,
        WalletError::WalletPaused => 800,
        WalletError::UnpauseNotApproved => 801,
    }
}

/// Errors of the identity registry and of the social payments router.
#[derive(PartialEq, Eq, Structural, Clone, Copy, Debug)]
pub enum RegistryError {
    DuplicateValidator,
    ValidatorAlreadyExists,
    InvalidThreshold,
    NotValidator,
    IncorrectNumberOfSignatures,
    PlatformNotSupported,
    UnsupportedAsset,
    UseridAlreadyMapped,
    PasskeyAlreadyMapped,
    NotClaimable,
    Expired,
    Unauthorized,
    NotRefundable,
    NotExpired,
    InvalidAmount,
    InvalidUserId,
    UpperNotAllowed,
    SpacesNotAllowed,
    MaxLengthExceeded,
    IdentityNotFound,
    NotRegistryManager,
    FactoryNotSet,
    WalletAlreadyMapped,
}

impl RegistryError {
    /// The numeric code under which the contract reports this error.
    pub fn code(&self) -> (r: u32)
        ensures
            r == registry_error_code(*self),
    {
        match self {
            RegistryError::DuplicateValidator => 101,
            RegistryError::ValidatorAlreadyExists => 103,
            RegistryError::InvalidThreshold => 106,
            RegistryError::NotValidator => 107,
            RegistryError::IncorrectNumberOfSignatures => 108,
            RegistryError::PlatformNotSupported => 409,
            RegistryError::UnsupportedAsset => 417,
            RegistryError::UseridAlreadyMapped => 443,
            RegistryError::PasskeyAlreadyMapped => 444,
            RegistryError::NotClaimable => 457,
            RegistryError::Expired => 459,
            RegistryError::Unauthorized => 461,
            RegistryError::NotRefundable => 463,
            RegistryError::NotExpired => 465,
            RegistryError::InvalidAmount => 729,
            RegistryError::InvalidUserId => 742,
            RegistryError::UpperNotAllowed => 743,
            RegistryError::SpacesNotAllowed => 744,
            RegistryError::MaxLengthExceeded => 745,
            RegistryError::IdentityNotFound => 4001,
            RegistryError::NotRegistryManager => 4051,
            RegistryError::FactoryNotSet => 4101,
            RegistryError::WalletAlreadyMapped => 5001,
        }
    }
}

/// The numeric code of a registry error.
pub open spec fn registry_error_code(e: RegistryError) -> u32 {
    match e {
        RegistryError::DuplicateValidator => 101,
        RegistryError::ValidatorAlreadyExists => 103,
        RegistryError::InvalidThreshold => 106,
        RegistryError::NotValidator => 107,
        RegistryError::IncorrectNumberOfSignatures => 108,
        RegistryError::PlatformNotSupported => 409,
        RegistryError::UnsupportedAsset => 417,
        RegistryError::UseridAlreadyMapped => 443,
        RegistryError::PasskeyAlreadyMapped => 444,
        RegistryError::NotClaimable => 457,
        RegistryError::Expired => 459,
        RegistryError::Unauthorized => 461,
        RegistryError::NotRefundable => 463,
        RegistryError::NotExpired => 465,
        RegistryError::InvalidAmount => 729,
        RegistryError::InvalidUserId => 742,
        RegistryError::UpperNotAllowed => 743,
        RegistryError::SpacesNotAllowed => 744,
        RegistryError::MaxLengthExceeded => 745,
        RegistryError::IdentityNotFound => 4001,
        RegistryError::NotRegistryManager => 4051,
        RegistryError::FactoryNotSet => 4101,
        RegistryError::WalletAlreadyMapped => 5001,
    }
}

/// Errors of upgrade governance.
#[derive(PartialEq, Eq, Structural, Clone, Copy, Debug)]
pub enum UpgradeError {
    AlreadyInitialized,
    AnotherUpgradePending,
    NoPendingUpgradeAction,
    UpgradeTypeNotFound,
    VotingClosed,
    VotingStillOngoing,
    InvalidUpgradeHash,
    AlreadyVoted,
    NotInVotersList,
    DidNotPass,
    NotEnoughVoters,
    NotFound,
}

impl UpgradeError {
    /// The numeric code under which the contract reports this error.
    pub fn code(&self) -> (r: u32)
        ensures
            r == upgrade_error_code(*self),
    {
        match self {
            UpgradeError::AlreadyInitialized => 411,
            UpgradeError::AnotherUpgradePending => 1001,
            UpgradeError::NoPendingUpgradeAction => 1005,
            UpgradeError::UpgradeTypeNotFound => 1008,
            UpgradeError::VotingClosed => 1009,
            UpgradeError::VotingStillOngoing => 1010,
            UpgradeError::InvalidUpgradeHash => 1011,
            UpgradeError::AlreadyVoted => 1013,
            UpgradeError::NotInVotersList => 1025,
            UpgradeError::DidNotPass => 1027,
            UpgradeError::NotEnoughVoters => 1037,
            UpgradeError::NotFound => 1040,
        }
    }
}

/// The numeric code of an upgrade error.
pub open spec fn upgrade_error_code(e: UpgradeError) -> u32 {
    match e {
        UpgradeError::AlreadyInitialized => 411,
        UpgradeError::AnotherUpgradePending => 1001,
        UpgradeError::NoPendingUpgradeAction => 1005,
        UpgradeError::UpgradeTypeNotFound => 1008,
        UpgradeError::VotingClosed => 1009,
        UpgradeError::VotingStillOngoing => 1010,
        UpgradeError::InvalidUpgradeHash => 1011,
        UpgradeError::AlreadyVoted => 1013,
        UpgradeError::NotInVotersList => 1025,
        UpgradeError::DidNotPass => 1027,
        UpgradeError::NotEnoughVoters => 1037,
        UpgradeError::NotFound => 1040,
    }
}

/// Errors of the fee manager.
#[derive(PartialEq, Eq, Structural, Clone, Copy, Debug)]
pub enum ContractError {
    MaxDeferredFeeNotFound,
    BaseFeeNotConfigured,
    FeeRateNotSet,
    InvalidAmount,
    MathOverflow,
    Unauthorized,
    InvalidFeeConfig,
    InvalidDeferredFee,
    UnsupportedFeeAsset,
    FeeExceedsMaximum,
    MaxDeferredFeeExceeded,
    InvalidMaxTotalFee,
}

impl ContractError {
    /// The numeric code under which the contract reports this error.
    pub fn code(&self) -> (r: u32)
        ensures
            r == contract_error_code(*self),
    {
        match self {
            ContractError::MaxDeferredFeeNotFound => 423,
            ContractError::BaseFeeNotConfigured => 424,
            ContractError::FeeRateNotSet => 425,
            ContractError::InvalidAmount => 729,
            ContractError::MathOverflow => 733,
            ContractError::Unauthorized => 739,
            ContractError::InvalidFeeConfig => 811,
            ContractError::InvalidDeferredFee => 831,
            ContractError::UnsupportedFeeAsset => 901,
            ContractError::FeeExceedsMaximum => 911,
            ContractError::MaxDeferredFeeExceeded => 921,
            ContractError::InvalidMaxTotalFee => 931,
        }
    }
}

/// The numeric code of a fee manager error.
pub open spec fn contract_error_code(e: ContractError) -> u32 {
    match e {
        ContractError::MaxDeferredFeeNotFound => 423,
        ContractError::BaseFeeNotConfigured => 424,
        ContractError::FeeRateNotSet => 425,
        ContractError::InvalidAmount => 729,
        ContractError::MathOverflow => 733,
        ContractError::Unauthorized => 739,
        ContractError::InvalidFeeConfig => 811,
        ContractError::InvalidDeferredFee => 831,
        ContractError::UnsupportedFeeAsset => 901,
        ContractError::FeeExceedsMaximum => 911,
        ContractError::MaxDeferredFeeExceeded => 921,
        ContractError::InvalidMaxTotalFee => 931,
    }
}

} // verus!
