//! An order-book exchange over one trading pair of tokens.
//!
//! Orders offer an amount of one token and ask an amount of the other in return.
//! Opening an order locks its offer as collateral; matching a batch of orders pays
//! every order its ask, out of what the orders of the batch offer together.
use crate::checker::{ConstraintChecker, SimpleConstraintChecker};
use crate::codec::{decode_u128_at, le_u128, push_u128};
use crate::ledger::{same_type_id, Hash256, Output, Redeemer, TypeId};
use crate::payload::{spec_extract_coin, DynamicTypingError, TypedPayload};
use crate::wide::WideSum;
use vstd::prelude::*;

verus! {

/// A trading pair: the token that orders on this side offer (`token_a`) and the
/// one they ask for (`token_b`).
#[derive(Clone, Copy, Debug, PartialEq, Eq, Structural)]
pub struct DexConfig {
    pub token_a: u8,
    pub token_b: u8,
}

impl DexConfig {
    /// The same pair seen from the other side: the two tokens swapped.
    pub open spec fn spec_opposite(self) -> DexConfig {
        DexConfig { token_a: self.token_b, token_b: self.token_a }
    }

    /// The same pair seen from the other side.
    pub fn opposite_side(&self) -> (r: DexConfig)
        ensures
            r == self.spec_opposite(),
    {
        DexConfig { token_a: self.token_b, token_b: self.token_a }
    }
}

/// The tag of an order on the side `pair`: "$$" followed by the two tokens, so
/// that different pairs, and the two sides of one pair, never share a tag.
pub open spec fn order_type_id(pair: DexConfig) -> Seq<u8> {
    seq![36u8, 36u8, pair.token_a, pair.token_b]
}

/// The tag of an order on the side `pair`.
pub fn order_tag(pair: &DexConfig) -> (r: TypeId)
    ensures
        r@ == order_type_id(*pair),
{
    let r: TypeId = [36u8, 36u8, pair.token_a, pair.token_b];
    assert(r@ =~= order_type_id(*pair));
    r
}

/// A collateralized offer to trade `offer_amount` of one token of its pair for
/// `ask_amount` of the other, paid out to `payout_verifier`.
#[derive(Clone, Copy, Debug, PartialEq, Eq, Structural)]
pub struct Order {
    pub offer_amount: u128,
    pub ask_amount: u128,
    pub payout_verifier: Redeemer,
}

impl Order {
    /// The payload that holds this order on the side `pair`.
    pub fn to_payload(&self, pair: &DexConfig) -> (r: TypedPayload)
        ensures
            spec_extract_order(r, *pair) == Ok::<Order, DynamicTypingError>(*self),
    {
        let mut data: Vec<u8> = Vec::new();
        push_u128(&mut data, self.offer_amount);
        let ghost d1 = data@;
        push_u128(&mut data, self.ask_amount);
        let ghost d2 = data@;
        push_u128(&mut data, self.payout_verifier.lo);
        let ghost d3 = data@;
        push_u128(&mut data, self.payout_verifier.hi);
        proof {
            let d4 = data@;
            assert(d4.subrange(0, 16) =~= d1.subrange(0, 16));
            assert(d4.subrange(16, 32) =~= d2.subrange(16, 32));
            assert(d4.subrange(32, 48) =~= d3.subrange(32, 48));
            assert(le_u128(d4, 0) == le_u128(d1, 0));
            assert(le_u128(d4, 16) == le_u128(d2, 16));
            assert(le_u128(d4, 32) == le_u128(d3, 32));
        }
        TypedPayload { data, type_id: order_tag(pair) }
    }
}

/// What reading a payload as an order on the side `pair` gives.
pub open spec fn spec_extract_order(p: TypedPayload, pair: DexConfig) -> Result<Order, DynamicTypingError> {
    if p.type_id@ != order_type_id(pair) {
        Err(DynamicTypingError::WrongType)
    } else if p.data@.len() < 64 {
        Err(DynamicTypingError::DecodingFailed)
    } else {
        Ok(Order {
            offer_amount: le_u128(p.data@, 0),
            ask_amount: le_u128(p.data@, 16),
            payout_verifier: Hash256 { lo: le_u128(p.data@, 32), hi: le_u128(p.data@, 48) },
        })
    }
}

/// Reads a payload as an order on the side `pair`.
pub fn extract_order(p: &TypedPayload, pair: &DexConfig) -> (r: Result<Order, DynamicTypingError>)
    ensures
        r == spec_extract_order(*p, *pair),
{
    if !same_type_id(&p.type_id, &order_tag(pair)) {
        return Err(DynamicTypingError::WrongType);
    }
    let bytes = p.data.as_slice();
    if bytes.len() < 64 {
        return Err(DynamicTypingError::DecodingFailed);
    }
    match (decode_u128_at(bytes, 0), decode_u128_at(bytes, 16), decode_u128_at(bytes, 32), decode_u128_at(bytes, 48)) {
        (Some(offer_amount), Some(ask_amount), Some(lo), Some(hi)) => Ok(Order {
            offer_amount,
            ask_amount,
            payout_verifier: Hash256 { lo, hi },
        }),
        _ => Err(DynamicTypingError::DecodingFailed),
    }
}

/// All the things that can go wrong while checking exchange transactions.
#[derive(Clone, Copy, Debug, PartialEq, Eq, Structural)]
pub enum DexError {
    /// Some typed data was not of the expected type.
    TypeError,
    /// No output was supplied when making an order.
    OrderMissing,
    /// More than one output was supplied when making an order.
    TooManyOutputsWhenMakingOrder,
    /// The coins supplied do not add up to the offer of the order being opened.
    NotEnoughCollateralToOpenOrder,
    /// A match has a different number of orders than of payouts.
    OrderAndPayoutCountDiffer,
    /// A payout is not exactly the ask of its order.
    PayoutDoesNotSatisfyOrder,
    /// The orders do not offer enough of token A to pay what is asked of it.
    InsufficientTokenAForMatch,
    /// The orders do not offer enough of token B to pay what is asked of it.
    InsufficientTokenBForMatch,
    /// A payout goes to another verifier than its order names.
    VerifierMismatchForTrade,
}

impl From<DynamicTypingError> for DexError {
    fn from(_value: DynamicTypingError) -> (r: DexError)
        ensures
            r == DexError::TypeError,
    {
        DexError::TypeError
    }
}

impl vstd::std_specs::convert::FromSpecImpl<DynamicTypingError> for DexError {
    open spec fn obeys_from_spec() -> bool {
        true
    }

    open spec fn from_spec(v: DynamicTypingError) -> DexError {
        DexError::TypeError
    }
}

/// The value of the first `n` payloads read as coins of `token`, or the error of
/// the first that is not one.
pub open spec fn collateral(ins: Seq<TypedPayload>, token: u8, n: int) -> Result<int, DexError>
    decreases n,
{
    if n <= 0 {
        Ok(0)
    } else {
        match collateral(ins, token, n - 1) {
            Err(e) => Err(e),
            Ok(t) => match spec_extract_coin(ins[n - 1], token) {
                Err(_) => Err(DexError::TypeError),
                Ok(v) => Ok(t + v),
            },
        }
    }
}

/// What opening an order on the side `pair` gives: exactly one output, which is an
/// order, backed by inputs that are all coins of the offered token and add up to
/// exactly its offer.
pub open spec fn make_order_outcome(pair: DexConfig, ins: Seq<TypedPayload>, outs: Seq<TypedPayload>) -> Result<u64, DexError> {
    if outs.len() == 0 {
        Err(DexError::OrderMissing)
    } else if outs.len() != 1 {
        Err(DexError::TooManyOutputsWhenMakingOrder)
    } else {
        match spec_extract_order(outs[0], pair) {
            Err(_) => Err(DexError::TypeError),
            Ok(order) => match collateral(ins, pair.token_a, ins.len() as int) {
                Err(e) => Err(e),
                Ok(total) => if total == order.offer_amount {
                    Ok(0)
                } else {
                    Err(DexError::NotEnoughCollateralToOpenOrder)
                },
            },
        }
    }
}

/// What a match batch has offered and asked so far.
pub struct MatchTotals {
    pub a_offered: int,
    pub b_required: int,
    pub b_offered: int,
    pub a_required: int,
}

/// Checks the payout `output` for `order`, whose ask is paid in `token`.
pub open spec fn payout_check(order: Order, output: Output, token: u8) -> Result<(), DexError> {
    match spec_extract_coin(output.payload, token) {
        Err(_) => Err(DexError::TypeError),
        Ok(v) => if v != order.ask_amount {
            Err(DexError::PayoutDoesNotSatisfyOrder)
        } else if output.redeemer != order.payout_verifier {
            Err(DexError::VerifierMismatchForTrade)
        } else {
            Ok(())
        },
    }
}

/// The totals of the first `n` pairs of a match batch, or the error of the first
/// pair that fails. An input is an order on the primary side of `pair` if it reads
/// as one, else an order on the opposite side, else a type error.
pub open spec fn match_totals(pair: DexConfig, ins: Seq<Output>, outs: Seq<Output>, n: int) -> Result<MatchTotals, DexError>
    decreases n,
{
    if n <= 0 {
        Ok(MatchTotals { a_offered: 0, b_required: 0, b_offered: 0, a_required: 0 })
    } else {
        match match_totals(pair, ins, outs, n - 1) {
            Err(e) => Err(e),
            Ok(t) => match spec_extract_order(ins[n - 1].payload, pair) {
                Ok(order) => match payout_check(order, outs[n - 1], pair.token_b) {
                    Err(e) => Err(e),
                    Ok(_) => Ok(MatchTotals {
                        a_offered: t.a_offered + order.offer_amount,
                        b_required: t.b_required + order.ask_amount,
                        ..t
                    }),
                },
                Err(_) => match spec_extract_order(ins[n - 1].payload, pair.spec_opposite()) {
                    Ok(order) => match payout_check(order, outs[n - 1], pair.token_a) {
                        Err(e) => Err(e),
                        Ok(_) => Ok(MatchTotals {
                            b_offered: t.b_offered + order.offer_amount,
                            a_required: t.a_required + order.ask_amount,
                            ..t
                        }),
                    },
                    Err(_) => Err(DexError::TypeError),
                },
            },
        }
    }
}

/// What matching a batch of orders gives: orders and payouts pair up one to one,
/// every payout fills its order, and the orders offer at least what they ask of
/// each token.
pub open spec fn match_outcome(pair: DexConfig, ins: Seq<Output>, outs: Seq<Output>) -> Result<u64, DexError> {
    if ins.len() != outs.len() {
        Err(DexError::OrderAndPayoutCountDiffer)
    } else {
        match match_totals(pair, ins, outs, ins.len() as int) {
            Err(e) => Err(e),
            Ok(t) => if t.a_offered < t.a_required {
                Err(DexError::InsufficientTokenAForMatch)
            } else if t.b_offered < t.b_required {
                Err(DexError::InsufficientTokenBForMatch)
            } else {
                Ok(0)
            },
        }
    }
}

/// Once a prefix of the inputs fails, every longer prefix fails the same way.
proof fn lemma_collateral_error_sticks(ins: Seq<TypedPayload>, token: u8, i: int, n: int)
    requires
        0 <= i <= n,
        collateral(ins, token, i) is Err,
    ensures
        collateral(ins, token, n) == collateral(ins, token, i),
    decreases n - i,
{
    if n > i {
        lemma_collateral_error_sticks(ins, token, i, n - 1);
    }
}

/// Once a prefix of a match batch fails, every longer prefix fails the same way.
proof fn lemma_match_error_sticks(pair: DexConfig, ins: Seq<Output>, outs: Seq<Output>, i: int, n: int)
    requires
        0 <= i <= n,
        match_totals(pair, ins, outs, i) is Err,
    ensures
        match_totals(pair, ins, outs, n) == match_totals(pair, ins, outs, i),
    decreases n - i,
{
    if n > i {
        lemma_match_error_sticks(pair, ins, outs, i, n - 1);
    }
}

/// The check for opening an order on the side `pair`.
#[derive(Clone, Copy, Debug, PartialEq, Eq, Structural)]
pub struct MakeOrder {
    pub pair: DexConfig,
}

impl SimpleConstraintChecker for MakeOrder {
    type Error = DexError;

    /// Accepts, with priority 0, a single order output whose offer the coin inputs
    /// pay exactly.
    open spec fn spec_check(&self, input_data: Seq<TypedPayload>, output_data: Seq<TypedPayload>) -> Result<u64, DexError> {
        make_order_outcome(self.pair, input_data, output_data)
    }

    fn check(&self, input_data: &[TypedPayload], output_data: &[TypedPayload]) -> (r: Result<u64, DexError>) {
        if output_data.len() == 0 {
            return Err(DexError::OrderMissing);
        }
        if output_data.len() != 1 {
            return Err(DexError::TooManyOutputsWhenMakingOrder);
        }
        let order = match extract_order(&output_data[0], &self.pair) {
            Ok(order) => order,
            Err(e) => return Err(DexError::from(e)),
        };
        let mut total_collateral = WideSum::zero();
        let mut i: usize = 0;
        while i < input_data.len()
            invariant
                i <= input_data@.len(),
                output_data@.len() == 1,
                spec_extract_order(output_data@[0], self.pair) == Ok::<Order, DynamicTypingError>(order),
                total_collateral.hi <= i,
                collateral(input_data@, self.pair.token_a, i as int) == Ok::<int, DexError>(total_collateral.value()),
            decreases input_data@.len() - i,
        {
            let coin = match input_data[i].extract_coin(self.pair.token_a) {
                Ok(v) => v,
                Err(e) => {
                    proof {
                        lemma_collateral_error_sticks(input_data@, self.pair.token_a, i + 1, input_data@.len() as int);
                    }
                    return Err(DexError::from(e));
                },
            };
            total_collateral.add(coin);
            i = i + 1;
        }
        if !total_collateral.equals(order.offer_amount) {
            return Err(DexError::NotEnoughCollateralToOpenOrder);
        }
        Ok(0)
    }
}

/// The check for matching open orders of the pair `pair` against one another.
#[derive(Clone, Copy, Debug, PartialEq, Eq, Structural)]
pub struct MatchOrders {
    pub pair: DexConfig,
}

impl ConstraintChecker for MatchOrders {
    type Error = DexError;

    /// Accepts, with priority 0, a batch where the i-th output pays the i-th
    /// input's order, and the orders together offer at least what they ask.
    open spec fn spec_check(&self, inputs: Seq<Output>, outputs: Seq<Output>) -> Result<u64, DexError> {
        match_outcome(self.pair, inputs, outputs)
    }

    fn check(&self, inputs: &[Output], outputs: &[Output]) -> (r: Result<u64, DexError>) {
        if inputs.len() != outputs.len() {
            return Err(DexError::OrderAndPayoutCountDiffer);
        }
        let opposite = self.pair.opposite_side();
        let mut total_a_required = WideSum::zero();
        let mut total_b_required = WideSum::zero();
        let mut a_so_far = WideSum::zero();
        let mut b_so_far = WideSum::zero();
        let mut i: usize = 0;
        while i < inputs.len()
            invariant
                i <= inputs@.len(),
                inputs@.len() == outputs@.len(),
                opposite == self.pair.spec_opposite(),
                total_a_required.hi <= i,
                total_b_required.hi <= i,
                a_so_far.hi <= i,
                b_so_far.hi <= i,
                match_totals(self.pair, inputs@, outputs@, i as int) == Ok::<MatchTotals, DexError>(MatchTotals {
                    a_offered: a_so_far.value(),
                    b_required: total_b_required.value(),
                    b_offered: b_so_far.value(),
                    a_required: total_a_required.value(),
                }),
            decreases inputs@.len() - i,
        {
            let input = &inputs[i];
            let output = &outputs[i];
            let n = Ghost(inputs@.len() as int);
            match extract_order(&input.payload, &self.pair) {
                Ok(order) => {
                    let payout = match output.payload.extract_coin(self.pair.token_b) {
                        Ok(v) => v,
                        Err(e) => {
                            proof {
                                lemma_match_error_sticks(self.pair, inputs@, outputs@, i + 1, n@);
                            }
                            return Err(DexError::from(e));
                        },
                    };
                    if payout != order.ask_amount {
                        proof {
                            lemma_match_error_sticks(self.pair, inputs@, outputs@, i + 1, n@);
                        }
                        return Err(DexError::PayoutDoesNotSatisfyOrder);
                    }
                    if output.redeemer != order.payout_verifier {
                        proof {
                            lemma_match_error_sticks(self.pair, inputs@, outputs@, i + 1, n@);
                        }
                        return Err(DexError::VerifierMismatchForTrade);
                    }
                    a_so_far.add(order.offer_amount);
                    total_b_required.add(order.ask_amount);
                },
                Err(_) => match extract_order(&input.payload, &opposite) {
                    Ok(order) => {
                        let payout = match output.payload.extract_coin(self.pair.token_a) {
                            Ok(v) => v,
                            Err(e) => {
                                proof {
                                    lemma_match_error_sticks(self.pair, inputs@, outputs@, i + 1, n@);
                                }
                                return Err(DexError::from(e));
                            },
                        };
                        if payout != order.ask_amount {
                            proof {
                                lemma_match_error_sticks(self.pair, inputs@, outputs@, i + 1, n@);
                            }
                            return Err(DexError::PayoutDoesNotSatisfyOrder);
                        }
                        if output.redeemer != order.payout_verifier {
                            proof {
                                lemma_match_error_sticks(self.pair, inputs@, outputs@, i + 1, n@);
                            }
                            return Err(DexError::VerifierMismatchForTrade);
                        }
                        b_so_far.add(order.offer_amount);
                        total_a_required.add(order.ask_amount);
                    },
                    Err(_) => {
                        proof {
                            lemma_match_error_sticks(self.pair, inputs@, outputs@, i + 1, n@);
                        }
                        return Err(DexError::TypeError);
                    },
                },
            }
            i = i + 1;
        }
        if !a_so_far.at_least(&total_a_required) {
            return Err(DexError::InsufficientTokenAForMatch);
        }
        if !b_so_far.at_least(&total_b_required) {
            return Err(DexError::InsufficientTokenBForMatch);
        }
        Ok(0)
    }
}

/// Opening an order backed only by coins of the offered token succeeds exactly
/// when their values add up to the order's offer, and otherwise fails for want of
/// collateral.
pub proof fn lemma_exact_collateral_opens_order(pair: DexConfig, ins: Seq<TypedPayload>, order: TypedPayload)
    requires
        spec_extract_order(order, pair) is Ok,
        collateral(ins, pair.token_a, ins.len() as int) is Ok,
    ensures
        make_order_outcome(pair, ins, seq![order]) == (if collateral(ins, pair.token_a, ins.len() as int)->Ok_0
            == spec_extract_order(order, pair)->Ok_0.offer_amount {
            Ok::<u64, DexError>(0)
        } else {
            Err(DexError::NotEnoughCollateralToOpenOrder)
        }),
{
    assert(seq![order][0] == order);
}

/// Opening an order with no output fails with `OrderMissing`, and with two or more
/// with `TooManyOutputsWhenMakingOrder`, whatever the inputs.
pub proof fn lemma_order_output_count(pair: DexConfig, ins: Seq<TypedPayload>, outs: Seq<TypedPayload>)
    ensures
        outs.len() == 0 ==> make_order_outcome(pair, ins, outs) == Err::<u64, DexError>(DexError::OrderMissing),
        outs.len() >= 2 ==> make_order_outcome(pair, ins, outs) == Err::<u64, DexError>(
            DexError::TooManyOutputsWhenMakingOrder,
        ),
{
}

/// A match whose orders and payouts differ in number fails with
/// `OrderAndPayoutCountDiffer`.
pub proof fn lemma_match_count_differ(pair: DexConfig, ins: Seq<Output>, outs: Seq<Output>)
    requires
        ins.len() != outs.len(),
    ensures
        match_outcome(pair, ins, outs) == Err::<u64, DexError>(DexError::OrderAndPayoutCountDiffer),
{
}

/// A match of one order with one payout of the asked token: a payout above or below
/// the ask fails with `PayoutDoesNotSatisfyOrder`; one equal to the ask, to the
/// right verifier, passes the payout checks, and the batch then stands or falls by
/// its totals: the lone order's ask is covered only when it is zero.
pub proof fn lemma_single_order_payout(pair: DexConfig, order: Output, payout: Output)
    requires
        spec_extract_order(order.payload, pair) is Ok,
        spec_extract_coin(payout.payload, pair.token_b) is Ok,
    ensures
        ({
            let o = spec_extract_order(order.payload, pair)->Ok_0;
            let v = spec_extract_coin(payout.payload, pair.token_b)->Ok_0;
            &&& v != o.ask_amount ==> match_outcome(pair, seq![order], seq![payout]) == Err::<u64, DexError>(
                DexError::PayoutDoesNotSatisfyOrder,
            )
            &&& v == o.ask_amount && payout.redeemer == o.payout_verifier ==> match_outcome(
                pair,
                seq![order],
                seq![payout],
            ) == (if o.ask_amount == 0 {
                Ok::<u64, DexError>(0)
            } else {
                Err(DexError::InsufficientTokenBForMatch)
            })
        }),
{
    assert(seq![order][0] == order);
    assert(seq![payout][0] == payout);
    assert(match_totals(pair, seq![order], seq![payout], 0) is Ok);
}

/// A match of one order whose payout has the asked amount but goes to another
/// verifier than the order names fails with `VerifierMismatchForTrade`.
pub proof fn lemma_single_order_wrong_verifier(pair: DexConfig, order: Output, payout: Output)
    requires
        spec_extract_order(order.payload, pair) is Ok,
        spec_extract_coin(payout.payload, pair.token_b) == Ok::<u128, DynamicTypingError>(
            spec_extract_order(order.payload, pair)->Ok_0.ask_amount,
        ),
        payout.redeemer != spec_extract_order(order.payload, pair)->Ok_0.payout_verifier,
    ensures
        match_outcome(pair, seq![order], seq![payout]) == Err::<u64, DexError>(DexError::VerifierMismatchForTrade),
{
    assert(seq![order][0] == order);
    assert(seq![payout][0] == payout);
    assert(match_totals(pair, seq![order], seq![payout], 0) is Ok);
}

/// Two orders on opposite sides of a pair of distinct tokens, each offering at
/// least what the other asks, each paid exactly its ask to its own verifier, match
/// with priority 0.
pub proof fn lemma_two_sided_match(pair: DexConfig, in1: Output, in2: Output, out1: Output, out2: Output)
    requires
        pair.token_a != pair.token_b,
        spec_extract_order(in1.payload, pair) is Ok,
        spec_extract_order(in2.payload, pair.spec_opposite()) is Ok,
        ({
            let o1 = spec_extract_order(in1.payload, pair)->Ok_0;
            let o2 = spec_extract_order(in2.payload, pair.spec_opposite())->Ok_0;
            &&& o1.offer_amount >= o2.ask_amount
            &&& o2.offer_amount >= o1.ask_amount
            &&& spec_extract_coin(out1.payload, pair.token_b) == Ok::<u128, DynamicTypingError>(o1.ask_amount)
            &&& out1.redeemer == o1.payout_verifier
            &&& spec_extract_coin(out2.payload, pair.token_a) == Ok::<u128, DynamicTypingError>(o2.ask_amount)
            &&& out2.redeemer == o2.payout_verifier
        }),
    ensures
        match_outcome(pair, seq![in1, in2], seq![out1, out2]) == Ok::<u64, DexError>(0),
{
    let ins = seq![in1, in2];
    let outs = seq![out1, out2];
    assert(ins[0] == in1 && ins[1] == in2);
    assert(outs[0] == out1 && outs[1] == out2);
    assert(order_type_id(pair) != order_type_id(pair.spec_opposite())) by {
        assert(order_type_id(pair)[2] != order_type_id(pair.spec_opposite())[2]);
    }
    assert(spec_extract_order(in2.payload, pair) is Err);
    assert(match_totals(pair, ins, outs, 0) is Ok);
    assert(match_totals(pair, ins, outs, 1) is Ok);
}

} // verus!
