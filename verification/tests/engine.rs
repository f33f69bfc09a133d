//! End-to-end tests of the exchange engine on concrete ledgers.

use wasabi::errors::WasabiError;
use wasabi::state::{init, update_params, update_price, StateAccount};
use wasabi::swap::{swap_exact_in, swap_exact_out, PairLedger};

fn state(price: u64, spread_bps: u64) -> StateAccount {
    StateAccount { authority: 7, x_to_y_scaled_price: price, spread_bps, tx_exp_duration: 0 }
}

fn ledger(price: u64, spread_bps: u64) -> PairLedger {
    PairLedger {
        state: state(price, spread_bps),
        vault_x: 1_000_000,
        vault_y: 1_000_000,
        user_x: 100_000,
        user_y: 100_000,
    }
}

#[test]
fn init_starts_disabled_with_given_spread() {
    let s = init(42, 250);
    assert_eq!(s.authority, 42);
    assert_eq!(s.x_to_y_scaled_price, 0);
    assert_eq!(s.spread_bps, 250);
    assert_eq!(s.tx_exp_duration, 0);
}

#[test]
fn exact_in_worked_example() {
    // Price 2.0 (scaled 2_000_000), spread 100 bps, 1000 X in:
    // gross = 1000 * 2_000_000 / 1_000_000 = 2000; fee = 2000 * 100 / 10_000 = 20.
    let mut l = ledger(2_000_000, 100);
    let r = swap_exact_in(&mut l, 1000, true, 1980, 0, 0);
    assert_eq!(r, Ok(1980));
    assert_eq!(l.user_x, 99_000);
    assert_eq!(l.vault_x, 1_001_000);
    assert_eq!(l.user_y, 101_980);
    assert_eq!(l.vault_y, 998_020);
}

#[test]
fn exact_in_min_exactly_met_succeeds_one_more_fails() {
    let mut l = ledger(2_000_000, 100);
    let before = l;
    let refused = swap_exact_in(&mut l, 1000, true, 1981, 0, 0);
    assert_eq!(refused, Err(WasabiError::OutputTooSmall));
    assert_eq!(l, before);
    let accepted = swap_exact_in(&mut l, 1000, true, 1980, 0, 0);
    assert_eq!(accepted, Ok(1980));
}

#[test]
fn exact_in_y_to_x_direction() {
    // Price 2.0: 1000 Y buys 500 X gross; spread 100 bps takes 5.
    let mut l = ledger(2_000_000, 100);
    let r = swap_exact_in(&mut l, 1000, false, 0, 0, 0);
    assert_eq!(r, Ok(495));
    assert_eq!(l.user_y, 99_000);
    assert_eq!(l.vault_y, 1_001_000);
    assert_eq!(l.user_x, 100_495);
    assert_eq!(l.vault_x, 999_505);
}

#[test]
fn exact_in_clamps_to_user_balance() {
    // Asking for more than the balance swaps exactly the balance.
    let mut l = ledger(1_000_000, 0);
    l.user_x = 700;
    let r = swap_exact_in(&mut l, 5_000, true, 0, 0, 0);
    assert_eq!(r, Ok(700));
    assert_eq!(l.user_x, 0);
    assert_eq!(l.vault_x, 1_000_700);
    assert_eq!(l.user_y, 100_700);
}

#[test]
fn exact_in_tiny_amount_passes_whole_despite_spread() {
    // 1 unit at price 1.0 and the worst spread: the fee truncates to zero.
    let mut l = ledger(1_000_000, 9_999);
    let r = swap_exact_in(&mut l, 1, true, 1, 0, 0);
    assert_eq!(r, Ok(1));
}

#[test]
fn exact_in_conserves_totals() {
    let mut l = PairLedger::new(state(3_141_592, 250), 1_000_000, 1_000_000, 100_000, 100_000);
    let total_x = l.vault_x as u128 + l.user_x as u128;
    let total_y = l.vault_y as u128 + l.user_y as u128;
    swap_exact_in(&mut l, 12_345, true, 0, 0, 0).unwrap();
    assert_eq!(l.vault_x as u128 + l.user_x as u128, total_x);
    assert_eq!(l.vault_y as u128 + l.user_y as u128, total_y);
}

#[test]
fn exact_in_zero_price_fails() {
    let mut l = ledger(0, 100);
    let before = l;
    assert_eq!(swap_exact_in(&mut l, 1000, true, 0, 0, 0), Err(WasabiError::PairNotInitialized));
    assert_eq!(swap_exact_in(&mut l, 1000, false, 0, 0, 0), Err(WasabiError::PairNotInitialized));
    assert_eq!(l, before);
}

#[test]
fn exact_in_overflow_is_reported_not_truncated() {
    // Converting the whole u64 range at price 2.0 leaves 64 bits.
    let mut l = ledger(2_000_000, 0);
    l.user_x = u64::MAX;
    l.vault_x = 0;
    let before = l;
    let r = swap_exact_in(&mut l, u64::MAX, true, 0, 0, 0);
    assert_eq!(r, Err(WasabiError::ArithmeticOverflow));
    assert_eq!(l, before);
}

#[test]
fn exact_in_vault_shortfall_fails_without_effect() {
    let mut l = ledger(1_000_000, 0);
    l.vault_y = 10;
    let before = l;
    assert_eq!(swap_exact_in(&mut l, 1000, true, 0, 0, 0), Err(WasabiError::TransferFailed));
    assert_eq!(l, before);
}

#[test]
fn exact_in_expiration_window() {
    let mut l = ledger(1_000_000, 0);
    l.state.tx_exp_duration = 5;
    let before = l;
    assert_eq!(swap_exact_in(&mut l, 100, true, 0, 100, 106), Err(WasabiError::ExpirationError));
    assert_eq!(l, before);
    assert_eq!(swap_exact_in(&mut l, 100, true, 0, 100, 105), Ok(100));
}

#[test]
fn exact_out_worked_example() {
    // Want 100 X at price 2.0, spread 9000 bps: pre-fee input 200 Y,
    // grossed up by 10_000 / 1_000 to 2000 Y.
    let mut l = ledger(2_000_000, 9_000);
    let r = swap_exact_out(&mut l, 100, true, 2_000, 0, 0);
    assert_eq!(r, Ok(2_000));
    assert_eq!(l.user_y, 98_000);
    assert_eq!(l.vault_y, 1_002_000);
    assert_eq!(l.user_x, 100_100);
    assert_eq!(l.vault_x, 999_900);
}

#[test]
fn exact_out_y_direction_no_spread() {
    // Want 500 Y at price 2.0: needs 250 X.
    let mut l = ledger(2_000_000, 0);
    let r = swap_exact_out(&mut l, 500, false, 250, 0, 0);
    assert_eq!(r, Ok(250));
    assert_eq!(l.user_x, 99_750);
    assert_eq!(l.user_y, 100_500);
}

#[test]
fn exact_out_rejects_input_over_maximum() {
    let mut l = ledger(2_000_000, 0);
    let before = l;
    // 100 X needs 200 Y; a maximum of 199 is too tight.
    assert_eq!(swap_exact_out(&mut l, 100, true, 199, 0, 0), Err(WasabiError::InputTooLarge));
    assert_eq!(l, before);
}

#[test]
fn exact_out_rejects_insufficient_balance_no_clamping() {
    let mut l = ledger(2_000_000, 0);
    l.user_y = 150;
    let before = l;
    // 100 X needs 200 Y but the caller only holds 150: hard failure, unlike exact-in.
    assert_eq!(
        swap_exact_out(&mut l, 100, true, 10_000, 0, 0),
        Err(WasabiError::UserInsufficientBalance)
    );
    assert_eq!(l, before);
}

#[test]
fn exact_out_zero_price_fails_both_directions() {
    let mut l = ledger(0, 0);
    let before = l;
    assert_eq!(swap_exact_out(&mut l, 100, true, 1_000, 0, 0), Err(WasabiError::PairNotInitialized));
    assert_eq!(swap_exact_out(&mut l, 100, false, 1_000, 0, 0), Err(WasabiError::PairNotInitialized));
    assert_eq!(l, before);
}

#[test]
fn exact_out_overflow_in_gross_up() {
    // Pre-fee input near the u64 ceiling grossed up by 10_000x leaves 64 bits.
    let mut l = ledger(1_000_000, 9_999);
    l.user_y = u64::MAX;
    l.vault_y = 0;
    let before = l;
    let r = swap_exact_out(&mut l, u64::MAX / 2, true, u64::MAX, 0, 0);
    assert_eq!(r, Err(WasabiError::ArithmeticOverflow));
    assert_eq!(l, before);
}

#[test]
fn exact_out_vault_shortfall_fails_without_effect() {
    let mut l = ledger(1_000_000, 0);
    l.vault_x = 50;
    let before = l;
    assert_eq!(swap_exact_out(&mut l, 100, true, 1_000, 0, 0), Err(WasabiError::TransferFailed));
    assert_eq!(l, before);
}

#[test]
fn exact_out_expiration_window() {
    let mut l = ledger(1_000_000, 0);
    l.state.tx_exp_duration = 3;
    let before = l;
    assert_eq!(swap_exact_out(&mut l, 10, true, 100, 0, 4), Err(WasabiError::ExpirationError));
    assert_eq!(l, before);
    assert_eq!(swap_exact_out(&mut l, 10, true, 100, 0, 3), Ok(10));
}

#[test]
fn round_trip_in_then_out_never_profits() {
    // Swap 1000 X in, then ask for the 1000 X back exact-out: the required
    // input is at least what the first swap paid out.
    let mut l = ledger(2_000_000, 100);
    let net = swap_exact_in(&mut l, 1000, true, 0, 0, 0).unwrap();
    assert_eq!(net, 1980);
    let needed = swap_exact_out(&mut l, 1000, true, u64::MAX, 0, 0).unwrap();
    assert_eq!(needed, 2_020);
    assert!(needed >= net);
}

#[test]
fn round_trip_out_then_in_reproduces_target_when_divisions_are_exact() {
    // Want 100 X at price 2.0, spread 9000 bps: required input is 2000 Y
    // with every division exact. Fed back through exact-in, those 2000 Y
    // yield gross 1000 X, fee 900, net exactly the 100 X asked for.
    let mut l = ledger(2_000_000, 9_000);
    let needed = swap_exact_out(&mut l, 100, true, u64::MAX, 0, 0).unwrap();
    assert_eq!(needed, 2_000);
    let mut l2 = ledger(2_000_000, 9_000);
    let back = swap_exact_in(&mut l2, needed, false, 0, 0, 0).unwrap();
    assert_eq!(back, 100);
}

#[test]
fn update_price_requires_administrator() {
    let mut s = init(7, 100);
    let r = update_price(&mut s, 8, 123);
    assert_eq!(r, Err(WasabiError::Unauthorized));
    assert_eq!(s.x_to_y_scaled_price, 0);
    let r2 = update_price(&mut s, 7, 123);
    assert_eq!(r2, Ok(()));
    assert_eq!(s.x_to_y_scaled_price, 123);
}

#[test]
fn update_price_may_disable_the_pair_again() {
    let mut s = init(7, 100);
    update_price(&mut s, 7, 123).unwrap();
    update_price(&mut s, 7, 0).unwrap();
    assert_eq!(s.x_to_y_scaled_price, 0);
    let mut l = ledger(0, 100);
    l.state = s;
    assert_eq!(swap_exact_in(&mut l, 10, true, 0, 0, 0), Err(WasabiError::PairNotInitialized));
}

#[test]
fn update_params_updates_only_given_fields() {
    let mut s = init(7, 100);
    update_params(&mut s, 7, Some(55), None).unwrap();
    assert_eq!(s.x_to_y_scaled_price, 55);
    assert_eq!(s.spread_bps, 100);
    update_params(&mut s, 7, None, Some(40)).unwrap();
    assert_eq!(s.x_to_y_scaled_price, 55);
    assert_eq!(s.spread_bps, 40);
    update_params(&mut s, 7, None, None).unwrap();
    assert_eq!(s.x_to_y_scaled_price, 55);
    assert_eq!(s.spread_bps, 40);
    update_params(&mut s, 7, Some(1), Some(2)).unwrap();
    assert_eq!(s.x_to_y_scaled_price, 1);
    assert_eq!(s.spread_bps, 2);
}

#[test]
fn update_params_requires_administrator() {
    let mut s = init(7, 100);
    let r = update_params(&mut s, 9, Some(55), Some(44));
    assert_eq!(r, Err(WasabiError::Unauthorized));
    assert_eq!(s.x_to_y_scaled_price, 0);
    assert_eq!(s.spread_bps, 100);
}
