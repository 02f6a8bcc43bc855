//! The errors that the pool program reports.
use vstd::prelude::*;
use vstd::std_specs::convert::FromSpecImpl;

verus! {

/// An error of the pool program. Each has a numeric code, from 6000 upwards
/// in the order of the variants.
#[derive(Debug, Clone, Copy, PartialEq, Eq, Structural)]
pub enum AeX402Error {
    Paused,
    InvalidAmp,
    MathOverflow,
    ZeroAmount,
    SlippageExceeded,
    InvalidInvariant,
    InsufficientLiquidity,
    VaultMismatch,
    Expired,
    AlreadyInitialized,
    Unauthorized,
    RampConstraint,
    Locked,
    FarmingError,
    InvalidOwner,
    InvalidDiscriminator,
    CpiFailed,
}

/// The former name of [`AeX402Error`].
pub type StableSwapError = AeX402Error;

/// The error that the code `code` stands for; a code that stands for none
/// reads as [`AeX402Error::MathOverflow`].
pub open spec fn error_of_code(code: u32) -> AeX402Error {
    if code == 6000 {
        AeX402Error::Paused
    } else if code == 6001 {
        AeX402Error::InvalidAmp
    } else if code == 6002 {
        AeX402Error::MathOverflow
    } else if code == 6003 {
        AeX402Error::ZeroAmount
    } else if code == 6004 {
        AeX402Error::SlippageExceeded
    } else if code == 6005 {
        AeX402Error::InvalidInvariant
    } else if code == 6006 {
        AeX402Error::InsufficientLiquidity
    } else if code == 6007 {
        AeX402Error::VaultMismatch
    } else if code == 6008 {
        AeX402Error::Expired
    } else if code == 6009 {
        AeX402Error::AlreadyInitialized
    } else if code == 6010 {
        AeX402Error::Unauthorized
    } else if code == 6011 {
        AeX402Error::RampConstraint
    } else if code == 6012 {
        AeX402Error::Locked
    } else if code == 6013 {
        AeX402Error::FarmingError
    } else if code == 6014 {
        AeX402Error::InvalidOwner
    } else if code == 6015 {
        AeX402Error::InvalidDiscriminator
    } else if code == 6016 {
        AeX402Error::CpiFailed
    } else {
        AeX402Error::MathOverflow
    }
}

impl AeX402Error {
    /// The numeric code of the error.
    pub open spec fn code_of(self) -> u32 {
        match self {
            AeX402Error::Paused => 6000,
            AeX402Error::InvalidAmp => 6001,
            AeX402Error::MathOverflow => 6002,
            AeX402Error::ZeroAmount => 6003,
            AeX402Error::SlippageExceeded => 6004,
            AeX402Error::InvalidInvariant => 6005,
            AeX402Error::InsufficientLiquidity => 6006,
            AeX402Error::VaultMismatch => 6007,
            AeX402Error::Expired => 6008,
            AeX402Error::AlreadyInitialized => 6009,
            AeX402Error::Unauthorized => 6010,
            AeX402Error::RampConstraint => 6011,
            AeX402Error::Locked => 6012,
            AeX402Error::FarmingError => 6013,
            AeX402Error::InvalidOwner => 6014,
            AeX402Error::InvalidDiscriminator => 6015,
            AeX402Error::CpiFailed => 6016,
        }
    }

    /// Returns the numeric code of the error.
    pub fn code(self) -> (c: u32)
        ensures
            c == self.code_of(),
            error_of_code(c) == self,
    {
        match self {
            AeX402Error::Paused => 6000,
            AeX402Error::InvalidAmp => 6001,
            AeX402Error::MathOverflow => 6002,
            AeX402Error::ZeroAmount => 6003,
            AeX402Error::SlippageExceeded => 6004,
            AeX402Error::InvalidInvariant => 6005,
            AeX402Error::InsufficientLiquidity => 6006,
            AeX402Error::VaultMismatch => 6007,
            AeX402Error::Expired => 6008,
            AeX402Error::AlreadyInitialized => 6009,
            AeX402Error::Unauthorized => 6010,
            AeX402Error::RampConstraint => 6011,
            AeX402Error::Locked => 6012,
            AeX402Error::FarmingError => 6013,
            AeX402Error::InvalidOwner => 6014,
            AeX402Error::InvalidDiscriminator => 6015,
            AeX402Error::CpiFailed => 6016,
        }
    }

    /// Returns the text that describes the error.
    pub fn message(self) -> (m: &'static str)
        ensures
            m@ == self.message_of(),
    {
        match self {
            AeX402Error::Paused => "Pool is paused",
            AeX402Error::InvalidAmp => "Invalid amplification coefficient",
            AeX402Error::MathOverflow => "Math overflow",
            AeX402Error::ZeroAmount => "Zero amount",
            AeX402Error::SlippageExceeded => "Slippage exceeded",
            AeX402Error::InvalidInvariant => "Invalid invariant or PDA mismatch",
            AeX402Error::InsufficientLiquidity => "Insufficient liquidity",
            AeX402Error::VaultMismatch => "Vault mismatch",
            AeX402Error::Expired => "Expired or ended",
            AeX402Error::AlreadyInitialized => "Already initialized",
            AeX402Error::Unauthorized => "Unauthorized",
            AeX402Error::RampConstraint => "Ramp constraint violated",
            AeX402Error::Locked => "Tokens are locked",
            AeX402Error::FarmingError => "Farming error",
            AeX402Error::InvalidOwner => "Invalid account owner",
            AeX402Error::InvalidDiscriminator => "Invalid account discriminator",
            AeX402Error::CpiFailed => "CPI call failed",
        }
    }

    /// The text that describes the error.
    pub open spec fn message_of(self) -> Seq<char> {
        match self {
            AeX402Error::Paused => "Pool is paused"@,
            AeX402Error::InvalidAmp => "Invalid amplification coefficient"@,
            AeX402Error::MathOverflow => "Math overflow"@,
            AeX402Error::ZeroAmount => "Zero amount"@,
            AeX402Error::SlippageExceeded => "Slippage exceeded"@,
            AeX402Error::InvalidInvariant => "Invalid invariant or PDA mismatch"@,
            AeX402Error::InsufficientLiquidity => "Insufficient liquidity"@,
            AeX402Error::VaultMismatch => "Vault mismatch"@,
            AeX402Error::Expired => "Expired or ended"@,
            AeX402Error::AlreadyInitialized => "Already initialized"@,
            AeX402Error::Unauthorized => "Unauthorized"@,
            AeX402Error::RampConstraint => "Ramp constraint violated"@,
            AeX402Error::Locked => "Tokens are locked"@,
            AeX402Error::FarmingError => "Farming error"@,
            AeX402Error::InvalidOwner => "Invalid account owner"@,
            AeX402Error::InvalidDiscriminator => "Invalid account discriminator"@,
            AeX402Error::CpiFailed => "CPI call failed"@,
        }
    }
}

impl From<u32> for AeX402Error {
    /// Reads a numeric code; a code that stands for no error reads as
    /// [`AeX402Error::MathOverflow`].
    fn from(code: u32) -> (e: Self) {
        match code {
            6000 => AeX402Error::Paused,
            6001 => AeX402Error::InvalidAmp,
            6002 => AeX402Error::MathOverflow,
            6003 => AeX402Error::ZeroAmount,
            6004 => AeX402Error::SlippageExceeded,
            6005 => AeX402Error::InvalidInvariant,
            6006 => AeX402Error::InsufficientLiquidity,
            6007 => AeX402Error::VaultMismatch,
            6008 => AeX402Error::Expired,
            6009 => AeX402Error::AlreadyInitialized,
            6010 => AeX402Error::Unauthorized,
            6011 => AeX402Error::RampConstraint,
            6012 => AeX402Error::Locked,
            6013 => AeX402Error::FarmingError,
            6014 => AeX402Error::InvalidOwner,
            6015 => AeX402Error::InvalidDiscriminator,
            6016 => AeX402Error::CpiFailed,
            _ => AeX402Error::MathOverflow,
        }
    }
}

impl FromSpecImpl<u32> for AeX402Error {
    open spec fn obeys_from_spec() -> bool {
        true
    }

    open spec fn from_spec(code: u32) -> Self {
        error_of_code(code)
    }
}

/// Reading the code of an error gives the error back.
pub proof fn lemma_code_round_trip(e: AeX402Error)
    ensures
        error_of_code(e.code_of()) == e,
        6000 <= e.code_of() <= 6016,
{
}

} // verus!
