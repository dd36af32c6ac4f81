use utxo_dex::checker::{ConstraintChecker, SimpleConstraintChecker};
use utxo_dex::dex::{DexConfig, DexError, MakeOrder, MatchOrders, Order};
use utxo_dex::ledger::{Hash256, Output};
use utxo_dex::payload::{DynamicTypingError, TypedPayload};

fn test_pair() -> DexConfig {
    DexConfig { token_a: 0, token_b: 1 }
}

fn who(n: u128) -> Hash256 {
    Hash256 { lo: n, hi: 0 }
}

fn test_order(offer: u128, ask: u128) -> Order {
    Order { offer_amount: offer, ask_amount: ask, payout_verifier: who(7) }
}

fn make_test_order() -> MakeOrder {
    MakeOrder { pair: test_pair() }
}

fn match_orders() -> MatchOrders {
    MatchOrders { pair: test_pair() }
}

fn order_output(order: &Order, pair: &DexConfig) -> Output {
    Output { redeemer: who(99), payload: order.to_payload(pair) }
}

fn payout(token: u8, value: u128, to: Hash256) -> Output {
    Output { redeemer: to, payload: TypedPayload::coin(token, value) }
}

#[test]
fn summing_two_coins_for_collateral_works() {
    let order = test_order(100, 150);
    let first_coin = TypedPayload::coin(0, 40);
    let second_coin = TypedPayload::coin(0, 60);
    let result = make_test_order().check(
        &vec![first_coin, second_coin],
        &vec![order.to_payload(&test_pair())],
    );
    assert!(result.is_ok());
}

#[test]
fn making_order_with_inputs_and_outputs_reversed_fails() {
    let order = test_order(100, 150);
    let first_coin = TypedPayload::coin(0, 40);
    let second_coin = TypedPayload::coin(0, 60);
    let result = make_test_order().check(
        &vec![order.to_payload(&test_pair())],
        &vec![first_coin, second_coin],
    );
    assert_eq!(result, Err(DexError::TooManyOutputsWhenMakingOrder));
}

#[test]
fn making_order_succeeds_with_priority_zero() {
    let order = test_order(100, 150);
    let result = make_test_order().check(
        &vec![TypedPayload::coin(0, 100)],
        &vec![order.to_payload(&test_pair())],
    );
    assert_eq!(result, Ok(0));
}

#[test]
fn making_order_with_too_little_collateral_fails() {
    let order = test_order(100, 150);
    let result = make_test_order().check(
        &vec![TypedPayload::coin(0, 40), TypedPayload::coin(0, 59)],
        &vec![order.to_payload(&test_pair())],
    );
    assert_eq!(result, Err(DexError::NotEnoughCollateralToOpenOrder));
}

#[test]
fn making_order_with_too_much_collateral_fails() {
    let order = test_order(100, 150);
    let result = make_test_order().check(
        &vec![TypedPayload::coin(0, 40), TypedPayload::coin(0, 61)],
        &vec![order.to_payload(&test_pair())],
    );
    assert_eq!(result, Err(DexError::NotEnoughCollateralToOpenOrder));
}

#[test]
fn making_order_with_no_inputs_and_zero_offer_works() {
    let order = test_order(0, 150);
    let result = make_test_order().check(&vec![], &vec![order.to_payload(&test_pair())]);
    assert_eq!(result, Ok(0));
}

#[test]
fn making_order_with_collateral_that_overflows_fails() {
    let order = test_order(u128::MAX, 150);
    let result = make_test_order().check(
        &vec![TypedPayload::coin(0, u128::MAX), TypedPayload::coin(0, 1)],
        &vec![order.to_payload(&test_pair())],
    );
    assert_eq!(result, Err(DexError::NotEnoughCollateralToOpenOrder));
}

#[test]
fn making_order_with_no_output_fails() {
    let result = make_test_order().check(&vec![TypedPayload::coin(0, 100)], &vec![]);
    assert_eq!(result, Err(DexError::OrderMissing));
}

#[test]
fn making_order_with_two_orders_fails() {
    let order = test_order(100, 150);
    let result = make_test_order().check(
        &vec![TypedPayload::coin(0, 100)],
        &vec![order.to_payload(&test_pair()), order.to_payload(&test_pair())],
    );
    assert_eq!(result, Err(DexError::TooManyOutputsWhenMakingOrder));
}

#[test]
fn making_order_with_coin_of_other_token_fails() {
    let order = test_order(100, 150);
    let result = make_test_order().check(
        &vec![TypedPayload::coin(1, 100)],
        &vec![order.to_payload(&test_pair())],
    );
    assert_eq!(result, Err(DexError::TypeError));
}

#[test]
fn making_order_on_opposite_side_is_a_type_error() {
    let order = test_order(100, 150);
    let result = make_test_order().check(
        &vec![TypedPayload::coin(0, 100)],
        &vec![order.to_payload(&test_pair().opposite_side())],
    );
    assert_eq!(result, Err(DexError::TypeError));
}

#[test]
fn making_order_with_truncated_order_fails() {
    let mut payload = test_order(100, 150).to_payload(&test_pair());
    payload.data.truncate(63);
    let result = make_test_order().check(&vec![TypedPayload::coin(0, 100)], &vec![payload]);
    assert_eq!(result, Err(DexError::TypeError));
}

#[test]
fn matching_with_count_mismatch_fails() {
    let order = test_order(100, 150);
    let result = match_orders().check(&vec![order_output(&order, &test_pair())], &vec![]);
    assert_eq!(result, Err(DexError::OrderAndPayoutCountDiffer));
}

#[test]
fn matching_with_short_payout_fails() {
    let order = test_order(100, 150);
    let result = match_orders().check(
        &vec![order_output(&order, &test_pair())],
        &vec![payout(1, 149, who(7))],
    );
    assert_eq!(result, Err(DexError::PayoutDoesNotSatisfyOrder));
}

#[test]
fn matching_with_excess_payout_fails() {
    let order = test_order(100, 150);
    let result = match_orders().check(
        &vec![order_output(&order, &test_pair())],
        &vec![payout(1, 151, who(7))],
    );
    assert_eq!(result, Err(DexError::PayoutDoesNotSatisfyOrder));
}

#[test]
fn matching_single_order_with_exact_payout_needs_the_other_side() {
    let order = test_order(100, 150);
    let result = match_orders().check(
        &vec![order_output(&order, &test_pair())],
        &vec![payout(1, 150, who(7))],
    );
    assert_eq!(result, Err(DexError::InsufficientTokenBForMatch));
}

#[test]
fn matching_single_order_asking_nothing_works() {
    let order = test_order(100, 0);
    let result = match_orders().check(
        &vec![order_output(&order, &test_pair())],
        &vec![payout(1, 0, who(7))],
    );
    assert_eq!(result, Ok(0));
}

#[test]
fn matching_with_wrong_verifier_fails() {
    let order = test_order(100, 150);
    let result = match_orders().check(
        &vec![order_output(&order, &test_pair())],
        &vec![payout(1, 150, who(8))],
    );
    assert_eq!(result, Err(DexError::VerifierMismatchForTrade));
}

#[test]
fn matching_two_opposite_orders_works() {
    let first = Order { offer_amount: 100, ask_amount: 150, payout_verifier: who(1) };
    let second = Order { offer_amount: 150, ask_amount: 100, payout_verifier: who(2) };
    let result = match_orders().check(
        &vec![order_output(&first, &test_pair()), order_output(&second, &test_pair().opposite_side())],
        &vec![payout(1, 150, who(1)), payout(0, 100, who(2))],
    );
    assert_eq!(result, Ok(0));
}

#[test]
fn matching_with_surplus_works() {
    let first = Order { offer_amount: 120, ask_amount: 150, payout_verifier: who(1) };
    let second = Order { offer_amount: 160, ask_amount: 100, payout_verifier: who(2) };
    let result = match_orders().check(
        &vec![order_output(&first, &test_pair()), order_output(&second, &test_pair().opposite_side())],
        &vec![payout(1, 150, who(1)), payout(0, 100, who(2))],
    );
    assert_eq!(result, Ok(0));
}

#[test]
fn matching_with_too_little_token_a_fails() {
    let first = Order { offer_amount: 90, ask_amount: 150, payout_verifier: who(1) };
    let second = Order { offer_amount: 150, ask_amount: 100, payout_verifier: who(2) };
    let result = match_orders().check(
        &vec![order_output(&first, &test_pair()), order_output(&second, &test_pair().opposite_side())],
        &vec![payout(1, 150, who(1)), payout(0, 100, who(2))],
    );
    assert_eq!(result, Err(DexError::InsufficientTokenAForMatch));
}

#[test]
fn matching_with_too_little_token_b_fails() {
    let first = Order { offer_amount: 100, ask_amount: 150, payout_verifier: who(1) };
    let second = Order { offer_amount: 140, ask_amount: 100, payout_verifier: who(2) };
    let result = match_orders().check(
        &vec![order_output(&first, &test_pair()), order_output(&second, &test_pair().opposite_side())],
        &vec![payout(1, 150, who(1)), payout(0, 100, who(2))],
    );
    assert_eq!(result, Err(DexError::InsufficientTokenBForMatch));
}

#[test]
fn matching_a_coin_as_order_is_a_type_error() {
    let result = match_orders().check(
        &vec![payout(0, 100, who(1))],
        &vec![payout(1, 150, who(1))],
    );
    assert_eq!(result, Err(DexError::TypeError));
}

#[test]
fn matching_with_payout_in_wrong_token_is_a_type_error() {
    let order = test_order(100, 150);
    let result = match_orders().check(
        &vec![order_output(&order, &test_pair())],
        &vec![payout(0, 150, who(7))],
    );
    assert_eq!(result, Err(DexError::TypeError));
}

#[test]
fn typing_error_converts_to_type_error() {
    assert_eq!(DexError::from(DynamicTypingError::WrongType), DexError::TypeError);
    assert_eq!(DexError::from(DynamicTypingError::DecodingFailed), DexError::TypeError);
}

#[test]
fn opposite_side_swaps_tokens() {
    let pair = DexConfig { token_a: 3, token_b: 9 };
    assert_eq!(pair.opposite_side(), DexConfig { token_a: 9, token_b: 3 });
}

#[test]
fn making_order_on_the_opposite_side_works() {
    let opposite = test_pair().opposite_side();
    let order = test_order(150, 100);
    let result = MakeOrder { pair: opposite }.check(
        &vec![TypedPayload::coin(1, 150)],
        &vec![order.to_payload(&opposite)],
    );
    assert_eq!(result, Ok(0));
}
