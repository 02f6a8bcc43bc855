use aex402_sdk::{AeX402Error, StableSwapError, TwapWindow};

const ALL: [AeX402Error; 17] = [
    AeX402Error::Paused,
    AeX402Error::InvalidAmp,
    AeX402Error::MathOverflow,
    AeX402Error::ZeroAmount,
    AeX402Error::SlippageExceeded,
    AeX402Error::InvalidInvariant,
    AeX402Error::InsufficientLiquidity,
    AeX402Error::VaultMismatch,
    AeX402Error::Expired,
    AeX402Error::AlreadyInitialized,
    AeX402Error::Unauthorized,
    AeX402Error::RampConstraint,
    AeX402Error::Locked,
    AeX402Error::FarmingError,
    AeX402Error::InvalidOwner,
    AeX402Error::InvalidDiscriminator,
    AeX402Error::CpiFailed,
];

#[test]
fn error_codes_run_from_6000() {
    for (i, e) in ALL.iter().enumerate() {
        assert_eq!(e.code(), 6000 + i as u32);
    }
}

#[test]
fn error_from_code_round_trip() {
    for e in ALL {
        assert_eq!(AeX402Error::from(e.code()), e);
    }
    assert_eq!(AeX402Error::from(6000), AeX402Error::Paused);
    assert_eq!(AeX402Error::from(6006), AeX402Error::InsufficientLiquidity);
    assert_eq!(AeX402Error::from(6016), AeX402Error::CpiFailed);
}

#[test]
fn error_from_unknown_code_is_math_overflow() {
    assert_eq!(AeX402Error::from(0), AeX402Error::MathOverflow);
    assert_eq!(AeX402Error::from(5999), AeX402Error::MathOverflow);
    assert_eq!(AeX402Error::from(6017), AeX402Error::MathOverflow);
    assert_eq!(AeX402Error::from(u32::MAX), AeX402Error::MathOverflow);
}

#[test]
fn error_messages() {
    assert_eq!(AeX402Error::Paused.message(), "Pool is paused");
    assert_eq!(AeX402Error::InvalidAmp.message(), "Invalid amplification coefficient");
    assert_eq!(AeX402Error::MathOverflow.message(), "Math overflow");
    assert_eq!(AeX402Error::ZeroAmount.message(), "Zero amount");
    assert_eq!(AeX402Error::SlippageExceeded.message(), "Slippage exceeded");
    assert_eq!(AeX402Error::InvalidInvariant.message(), "Invalid invariant or PDA mismatch");
    assert_eq!(AeX402Error::InsufficientLiquidity.message(), "Insufficient liquidity");
    assert_eq!(AeX402Error::VaultMismatch.message(), "Vault mismatch");
    assert_eq!(AeX402Error::Expired.message(), "Expired or ended");
    assert_eq!(AeX402Error::AlreadyInitialized.message(), "Already initialized");
    assert_eq!(AeX402Error::Unauthorized.message(), "Unauthorized");
    assert_eq!(AeX402Error::RampConstraint.message(), "Ramp constraint violated");
    assert_eq!(AeX402Error::Locked.message(), "Tokens are locked");
    assert_eq!(AeX402Error::FarmingError.message(), "Farming error");
    assert_eq!(AeX402Error::InvalidOwner.message(), "Invalid account owner");
    assert_eq!(AeX402Error::InvalidDiscriminator.message(), "Invalid account discriminator");
    assert_eq!(AeX402Error::CpiFailed.message(), "CPI call failed");
}

#[test]
fn former_error_name_is_the_same_type() {
    let e: StableSwapError = AeX402Error::Locked;
    assert_eq!(e, AeX402Error::Locked);
}

#[test]
fn twap_window_codes() {
    assert_eq!(TwapWindow::Hour1.to_u8(), 0);
    assert_eq!(TwapWindow::Hour4.to_u8(), 1);
    assert_eq!(TwapWindow::Hour24.to_u8(), 2);
    assert_eq!(TwapWindow::Day7.to_u8(), 3);
    assert_eq!(TwapWindow::Day7 as u8, 3);
}
