use meteora_damm_v2_cpi::MeteoraDAMMError;

#[test]
fn codes_count_up_from_the_offset() {
    assert_eq!(MeteoraDAMMError::InvalidLiquidityDelta.code(), 6000);
    assert_eq!(MeteoraDAMMError::SlippageExceeded.code(), 6001);
    assert_eq!(MeteoraDAMMError::InvalidSwapAmount.code(), 6002);
    assert_eq!(MeteoraDAMMError::InvalidPoolState.code(), 6003);
    assert_eq!(MeteoraDAMMError::InsufficientLiquidity.code(), 6004);
}

#[test]
fn messages_are_the_declared_texts() {
    assert_eq!(MeteoraDAMMError::InvalidLiquidityDelta.message(), "Invalid liquidity delta");
    assert_eq!(MeteoraDAMMError::SlippageExceeded.message(), "Slippage tolerance exceeded");
    assert_eq!(MeteoraDAMMError::InvalidSwapAmount.message(), "Invalid swap amount");
    assert_eq!(MeteoraDAMMError::InvalidPoolState.message(), "Invalid pool state");
    assert_eq!(MeteoraDAMMError::InsufficientLiquidity.message(), "Insufficient liquidity");
}
