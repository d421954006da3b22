use streamflow::error::StreamflowError;
use streamflow::fees::{compute_fee, FeeConfig};
use streamflow::metrics::StreamMetrics;
use streamflow::address::Address;

#[test]
fn compute_fee_rounds_down() {
    assert_eq!(compute_fee(10_000, 25), (9_975, 25));
    assert_eq!(compute_fee(399, 25), (399, 0));
    assert_eq!(compute_fee(401, 25), (400, 1));
    assert_eq!(compute_fee(1000, 0), (1000, 0));
    assert_eq!(compute_fee(1000, 10_000), (0, 1000));
    assert_eq!(compute_fee(u64::MAX, 10_000), (0, u64::MAX));
    assert_eq!(compute_fee(u64::MAX, 5_000), (u64::MAX - u64::MAX / 2, u64::MAX / 2));
}

#[test]
fn charge_layers_platform_fee() {
    let f = FeeConfig {
        platform_fee_rate: 1_000,
        withdrawal_fee_rate: 5_000,
        cancellation_fee_rate: 0,
        fee_recipient: Address::zero(),
    };
    assert_eq!(f.charge(1000, f.withdrawal_fee_rate), (450, 550));
    assert_eq!(f.charge(1000, f.cancellation_fee_rate), (900, 100));
}

#[test]
fn fee_config_validation() {
    let mut f = FeeConfig::default();
    assert_eq!(f.platform_fee_rate, 25);
    assert_eq!(f.withdrawal_fee_rate, 0);
    assert_eq!(f.cancellation_fee_rate, 0);
    assert!(f.fee_recipient == Address::zero());
    assert_eq!(f.validate(), Ok(()));
    f.cancellation_fee_rate = 10_000;
    assert_eq!(f.validate(), Ok(()));
    f.cancellation_fee_rate = 10_001;
    assert_eq!(f.validate(), Err(StreamflowError::InvalidFeeConfig));
}

#[test]
fn metrics_saturate() {
    let mut m = StreamMetrics::default();
    assert_eq!(m.total_withdrawn, 0);
    m.update_withdrawal(100, 7);
    assert_eq!(m.total_withdrawn, 100);
    assert_eq!(m.withdrawal_count, 1);
    assert_eq!(m.last_withdrawal_time, 7);
    m.update_withdrawal(u64::MAX, 8);
    assert_eq!(m.total_withdrawn, u64::MAX);
    assert_eq!(m.available_to_withdraw(50), 0);
    m.total_withdrawn = 30;
    assert_eq!(m.available_to_withdraw(50), 20);
    m.update_pause(10);
    assert_eq!(m.pause_count, 1);
    assert_eq!(m.total_paused_duration, 10);
    m.update_pause(i64::MAX);
    assert_eq!(m.total_paused_duration, i64::MAX);
    m.total_paused_duration = -5;
    m.update_pause(i64::MIN);
    assert_eq!(m.total_paused_duration, i64::MIN);
    m.withdrawal_count = u32::MAX;
    m.update_withdrawal(1, 9);
    assert_eq!(m.withdrawal_count, u32::MAX);
}
