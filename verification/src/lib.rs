//! Guard logic for a token bonding-curve calculator.
//!
//! The calculator offers three operations: the spot price of a token, the
//! number of tokens a spend of base currency buys, and the amount of base
//! currency a sale of tokens returns. Each operation first decides, from
//! comparisons on its numeric inputs, whether it short-circuits to a zero
//! quote or goes on to evaluate its curve formula. That decision is the
//! discrete heart of the calculator and is verified here; the formulas
//! themselves are IEEE-754 double-precision arithmetic, which Verus has no
//! model of, so the embedding application evaluates them.
//!
//! Callers hand this module the outcomes of their own floating-point
//! comparisons (`supply == 0.0`, `amount_in <= 0.0`, and so on). Passing the
//! raw comparison outcomes keeps the decisions faithful even for NaN inputs,
//! where every ordering comparison is false and the operation therefore
//! falls through to its formula.

use vstd::prelude::*;

verus! {

/// What a bonding-curve operation does with a given set of inputs: either it
/// short-circuits to a zero quote, or it evaluates its curve formula.
#[derive(Clone, Copy, Debug, PartialEq, Eq, Structural)]
pub enum QuoteDecision {
    /// The inputs hit a guard: the operation returns a zero quote without
    /// touching its formula.
    ZeroQuote,
    /// The inputs pass every guard: the operation evaluates its formula.
    EvaluateFormula,
}

/// The spot-price guard. The price is a zero quote when the supply is zero
/// (no tokens are in circulation) or the reserve ratio is zero (the price
/// formula would divide by zero); otherwise the formula
/// `reserve_balance / (supply * reserve_ratio)` applies. No other input is
/// rejected: a negative supply or ratio, or a zero reserve balance, flows
/// straight into the formula.
pub open spec fn price_decision(supply_is_zero: bool, reserve_ratio_is_zero: bool) -> QuoteDecision {
    if supply_is_zero || reserve_ratio_is_zero {
        QuoteDecision::ZeroQuote
    } else {
        QuoteDecision::EvaluateFormula
    }
}

/// Decide the spot-price operation. The arguments are the outcomes of the
/// caller's comparisons `supply == 0.0` and `reserve_ratio == 0.0`.
pub fn decide_price(supply_is_zero: bool, reserve_ratio_is_zero: bool) -> (d: QuoteDecision)
    ensures
        d == price_decision(supply_is_zero, reserve_ratio_is_zero),
{
    if supply_is_zero || reserve_ratio_is_zero {
        QuoteDecision::ZeroQuote
    } else {
        QuoteDecision::EvaluateFormula
    }
}

/// The purchase guard. A spend that is not positive buys nothing and yields
/// a zero quote; any positive spend reaches the formula
/// `current_supply * ((1 + amount_in / reserve_balance)^reserve_ratio - 1)`,
/// whatever the other inputs are — a zero reserve balance or a ratio outside
/// (0, 1] is deliberately left to the formula's arithmetic.
pub open spec fn purchase_decision(amount_in_non_positive: bool) -> QuoteDecision {
    if amount_in_non_positive {
        QuoteDecision::ZeroQuote
    } else {
        QuoteDecision::EvaluateFormula
    }
}

/// Decide the purchase operation. The argument is the outcome of the
/// caller's comparison `amount_in <= 0.0`.
pub fn decide_purchase(amount_in_non_positive: bool) -> (d: QuoteDecision)
    ensures
        d == purchase_decision(amount_in_non_positive),
{
    if amount_in_non_positive {
        QuoteDecision::ZeroQuote
    } else {
        QuoteDecision::EvaluateFormula
    }
}

/// The sale guard. Selling a non-positive number of tokens, or more tokens
/// than are in circulation, returns nothing and yields a zero quote; any
/// other sale reaches the formula
/// `reserve_balance * (1 - (1 - tokens_to_sell / current_supply)^(1 / reserve_ratio))`.
/// A zero reserve ratio is deliberately left to the formula's arithmetic.
pub open spec fn sale_decision(tokens_non_positive: bool, tokens_exceed_supply: bool) -> QuoteDecision {
    if tokens_non_positive || tokens_exceed_supply {
        QuoteDecision::ZeroQuote
    } else {
        QuoteDecision::EvaluateFormula
    }
}

/// Decide the sale operation. The arguments are the outcomes of the caller's
/// comparisons `tokens_to_sell <= 0.0` and `tokens_to_sell > current_supply`.
pub fn decide_sale(tokens_non_positive: bool, tokens_exceed_supply: bool) -> (d: QuoteDecision)
    ensures
        d == sale_decision(tokens_non_positive, tokens_exceed_supply),
{
    if tokens_non_positive || tokens_exceed_supply {
        QuoteDecision::ZeroQuote
    } else {
        QuoteDecision::EvaluateFormula
    }
}

/// A degenerate spot-price input — a zero supply or a zero reserve ratio —
/// always yields the zero quote, never the formula.
pub proof fn lemma_price_zero_on_degenerate_input(supply_is_zero: bool, reserve_ratio_is_zero: bool)
    requires
        supply_is_zero || reserve_ratio_is_zero,
    ensures
        price_decision(supply_is_zero, reserve_ratio_is_zero) is ZeroQuote,
{
}

/// A spend that is not positive — zero or negative — always yields the zero
/// quote, never the purchase formula.
pub proof fn lemma_purchase_zero_on_non_positive_spend(amount_in_non_positive: bool)
    requires
        amount_in_non_positive,
    ensures
        purchase_decision(amount_in_non_positive) is ZeroQuote,
{
}

/// A sale of a non-positive number of tokens, or of more tokens than the
/// current supply, always yields the zero quote, never the sale formula.
pub proof fn lemma_sale_zero_on_guarded_input(tokens_non_positive: bool, tokens_exceed_supply: bool)
    requires
        tokens_non_positive || tokens_exceed_supply,
    ensures
        sale_decision(tokens_non_positive, tokens_exceed_supply) is ZeroQuote,
{
}

/// The sale formula is reached only when the sell amount passed both guards:
/// it is positive and does not exceed the current supply. In particular a
/// positive sale against a zero supply exceeds it, so the formula's divisor,
/// the current supply, is never zero when the formula runs.
pub proof fn lemma_sale_formula_only_within_supply(tokens_non_positive: bool, tokens_exceed_supply: bool)
    ensures
        sale_decision(tokens_non_positive, tokens_exceed_supply) is EvaluateFormula
            ==> !tokens_non_positive && !tokens_exceed_supply,
{
}

} // verus!
