//! The route executor: two swap legs in fixed order, each checked against its
//! slippage floor, followed by the profit gate.
//!
//! The functions that take an `Env` call the venues and are meant to run
//! inside a contract invocation; outside of one the host aborts with a
//! panic.

use vstd::prelude::*;
use soroban_sdk::{Address, Env};
use crate::arithmetic::{bps_of, fee_of, fits_i128, flash_loan_fee, min_profit_floor, overflow_checked, slippage_floor};
use crate::dex_interface::{calculate_dex_output, execute_dex_swap, priced_on_curve, DexType};
use crate::errors::Error;
use crate::flash_loan::FlashLoanContext;
use crate::security::{check_minimum_profit, check_slippage, profit_verdict, within_slippage};

verus! {

/// One leg's venue: its kind and the pool to trade on.
#[derive(Clone)]
pub struct DexConfig {
    pub dex_type: DexType,
    pub pool_address: Address,
}

/// One arbitrage attempt: borrow `amount` of `token_borrow`, swap it to
/// `token_intermediate` on `dex_a` and back on `dex_b`.
#[derive(Clone)]
pub struct ArbitrageRoute {
    pub route_id: u32,
    pub dex_a: DexConfig,
    pub dex_b: DexConfig,
    pub token_borrow: Address,
    pub token_intermediate: Address,
    pub amount: i128,
    /// Least net profit, in basis points of `amount`.
    pub min_profit_bps: u32,
    /// Greatest shortfall of a leg's output, in basis points of its expected
    /// output.
    pub max_slippage_bps: u32,
}

/// What a successful route execution produced.
#[derive(Clone, Copy, Debug, PartialEq, Eq, Structural)]
pub struct ArbitrageResult {
    pub success: bool,
    pub amount_in: i128,
    pub amount_after_swap1: i128,
    pub amount_after_swap2: i128,
    pub gross_profit: i128,
    pub net_profit: i128,
    pub fees_paid: i128,
}

/// What one executed leg expected and what it received.
#[derive(Clone, Copy, Debug, PartialEq, Eq, Structural)]
pub struct LegOutcome {
    pub expected_output: i128,
    pub actual_output: i128,
}

/// Executes two-leg arbitrage routes funded by a flash loan.
pub struct ArbitrageExecutor;

impl ArbitrageExecutor {
    /// The verdict on a route's amount.
    pub open spec fn route_verdict(amount: int) -> Result<(), Error> {
        if amount <= 0 {
            Err(Error::InvalidFlashLoanAmount)
        } else {
            Ok(())
        }
    }

    /// The result of a route that started with `amount_start`, received
    /// `after_swap1` and `after_swap2` from its legs, and owes `repay_amount`
    /// of which `fee` is the loan fee: an overflow in the gross profit, the
    /// net profit or the profit floor fails first, then the profit gate
    /// decides.
    pub open spec fn settlement(
        amount_start: i128,
        after_swap1: i128,
        after_swap2: i128,
        fee: i128,
        repay_amount: i128,
        min_profit_bps: u32,
    ) -> Result<ArbitrageResult, Error> {
        if !fits_i128(after_swap2 - amount_start) || !fits_i128(after_swap2 - repay_amount) || !fits_i128(
            amount_start * min_profit_bps,
        ) {
            Err(Error::ArithmeticOverflow)
        } else {
            match profit_verdict(after_swap2 - repay_amount, bps_of(amount_start as int, min_profit_bps as int)) {
                Err(e) => Err(e),
                Ok(_) => Ok(
                    ArbitrageResult {
                        success: true,
                        amount_in: amount_start,
                        amount_after_swap1: after_swap1,
                        amount_after_swap2: after_swap2,
                        gross_profit: (after_swap2 - amount_start) as i128,
                        net_profit: (after_swap2 - repay_amount) as i128,
                        fees_paid: fee,
                    },
                ),
            }
        }
    }

    /// The net profit a dry run projects when `amount` is borrowed and the
    /// second leg is expected to return `final_output`.
    pub open spec fn projection(amount: int, final_output: int) -> Result<int, Error> {
        if !fits_i128(amount * 9) || !fits_i128(final_output - amount) || !fits_i128(
            final_output - amount - fee_of(amount),
        ) {
            Err(Error::ArithmeticOverflow)
        } else {
            Ok(final_output - amount - fee_of(amount))
        }
    }

    /// Whether a dry run that borrows `amount` and expects `final_output`
    /// back from the second leg projects the net profit `profit`.
    pub open spec fn projects_to(amount: i128, final_output: i128, profit: i128) -> bool {
        Self::projection(amount as int, final_output as int) == Ok::<int, Error>(profit as int)
    }

    /// Whether executing a route that moves `amount` can fail with `e`: a
    /// non-positive amount fails as invalid and in no other way; a positive
    /// one fails only on a venue, on arithmetic, on slippage or at the
    /// profit gate.
    pub open spec fn may_fail_with(amount: int, e: Error) -> bool {
        if amount <= 0 {
            e == Error::InvalidFlashLoanAmount
        } else {
            ||| e == Error::InvalidPoolAddress
            ||| e == Error::ArithmeticOverflow
            ||| e == Error::SwapFailed
            ||| e == Error::SlippageExceeded
            ||| e == Error::NoProfitGenerated
            ||| e == Error::ProfitBelowThreshold
        }
    }

    /// Accepts a route only when it moves a positive amount.
    pub fn validate_route(route: &ArbitrageRoute) -> (res: Result<(), Error>)
        ensures
            res == Self::route_verdict(route.amount as int),
    {
        if route.amount <= 0 {
            return Err(Error::InvalidFlashLoanAmount);
        }
        Ok(())
    }

    /// The output that the leg's venue expects for `amount_in`: computed on
    /// the constant-product curve from the pool's reserves where the venue
    /// is Soroswap, and quoted by the venue otherwise.
    pub fn calculate_expected_output(
        env: &Env,
        dex: &DexConfig,
        token_in: &Address,
        token_out: &Address,
        amount_in: i128,
    ) -> (res: Result<i128, Error>)
        ensures
            res matches Err(e) ==> e == Error::InvalidPoolAddress || e == Error::ArithmeticOverflow,
            dex.dex_type == DexType::Soroswap ==> (res matches Ok(amount_out) ==> exists|
                reserve_in: i128,
                reserve_out: i128,
            | priced_on_curve(reserve_in, reserve_out, amount_in, amount_out)),
    {
        calculate_dex_output(env, dex.dex_type, &dex.pool_address, token_in, token_out, amount_in)
    }

    /// The least acceptable output for `expected` under a tolerance of
    /// `slippage_bps`; a tolerance above 10000 has no floor and fails.
    pub fn apply_slippage(expected: i128, slippage_bps: u32) -> (res: Result<i128, Error>)
        ensures
            slippage_bps <= 10000 && fits_i128(expected * (10000 - slippage_bps)) ==> res == Ok::<i128, Error>(
                slippage_floor(expected as int, slippage_bps as int) as i128,
            ),
            slippage_bps <= 10000 && fits_i128(expected * (10000 - slippage_bps)) ==> fits_i128(
                slippage_floor(expected as int, slippage_bps as int),
            ),
            slippage_bps > 10000 || !fits_i128(expected * (10000 - slippage_bps)) ==> res == Err::<i128, Error>(
                Error::ArithmeticOverflow,
            ),
    {
        crate::arithmetic::apply_slippage(expected, slippage_bps)
    }

    /// Executes one leg: asks the venue for the expected output, swaps with
    /// the slippage floor as the venue's minimum, and checks the amount
    /// received against that floor again.
    pub fn execute_leg(
        env: &Env,
        dex: &DexConfig,
        token_in: &Address,
        token_out: &Address,
        amount_in: i128,
        max_slippage_bps: u32,
    ) -> (res: Result<LegOutcome, Error>)
        ensures
            res matches Ok(leg) ==> max_slippage_bps <= 10000 && within_slippage(
                leg.expected_output as int,
                leg.actual_output as int,
                max_slippage_bps as int,
            ),
            res matches Err(e) ==> e == Error::InvalidPoolAddress || e == Error::ArithmeticOverflow || e
                == Error::SwapFailed || e == Error::SlippageExceeded,
    {
        let expected_output = Self::calculate_expected_output(env, dex, token_in, token_out, amount_in)?;
        let min_output = Self::apply_slippage(expected_output, max_slippage_bps)?;
        let actual_output = execute_dex_swap(
            env,
            dex.dex_type,
            &dex.pool_address,
            token_in,
            token_out,
            amount_in,
            min_output,
        )?;
        check_slippage(expected_output, actual_output, max_slippage_bps)?;
        Ok(LegOutcome { expected_output, actual_output })
    }

    /// Computes the profits of a route whose legs returned `after_swap1` and
    /// `after_swap2`, and passes them through the profit gate.
    pub fn settle_route(
        amount_start: i128,
        after_swap1: i128,
        after_swap2: i128,
        flash_loan_ctx: &FlashLoanContext,
        min_profit_bps: u32,
    ) -> (res: Result<ArbitrageResult, Error>)
        ensures
            res == Self::settlement(
                amount_start,
                after_swap1,
                after_swap2,
                flash_loan_ctx.fee,
                flash_loan_ctx.repay_amount,
                min_profit_bps,
            ),
    {
        let gross_profit = overflow_checked(after_swap2.checked_sub(amount_start))?;
        let net_profit = flash_loan_ctx.checked_net_profit(after_swap2)?;
        let min_profit = min_profit_floor(amount_start, min_profit_bps)?;
        check_minimum_profit(net_profit, min_profit)?;
        Ok(
            ArbitrageResult {
                success: true,
                amount_in: amount_start,
                amount_after_swap1: after_swap1,
                amount_after_swap2: after_swap2,
                gross_profit,
                net_profit,
                fees_paid: flash_loan_ctx.fee,
            },
        )
    }

    /// Executes a complete arbitrage cycle: the leg on venue A from the
    /// borrowed asset to the intermediate one, the leg on venue B back, then
    /// the profit gate. The result is the settlement of the amounts that the
    /// two legs returned.
    pub fn execute_arbitrage(env: &Env, route: &ArbitrageRoute, flash_loan_ctx: &FlashLoanContext) -> (res: Result<
        ArbitrageResult,
        Error,
    >)
        ensures
            route.amount <= 0 ==> res == Err::<ArbitrageResult, Error>(Error::InvalidFlashLoanAmount),
            res matches Ok(result) ==> route.amount > 0 && route.max_slippage_bps <= 10000 && Self::settlement(
                route.amount,
                result.amount_after_swap1,
                result.amount_after_swap2,
                flash_loan_ctx.fee,
                flash_loan_ctx.repay_amount,
                route.min_profit_bps,
            ) == Ok::<ArbitrageResult, Error>(result),
            res matches Err(e) ==> Self::may_fail_with(route.amount as int, e),
    {
        Self::validate_route(route)?;
        let amount_start = route.amount;
        let leg1 = Self::execute_leg(
            env,
            &route.dex_a,
            &route.token_borrow,
            &route.token_intermediate,
            amount_start,
            route.max_slippage_bps,
        )?;
        let leg2 = Self::execute_leg(
            env,
            &route.dex_b,
            &route.token_intermediate,
            &route.token_borrow,
            leg1.actual_output,
            route.max_slippage_bps,
        )?;
        Self::settle_route(
            amount_start,
            leg1.actual_output,
            leg2.actual_output,
            flash_loan_ctx,
            route.min_profit_bps,
        )
    }

    /// The net profit projected for borrowing `amount` when the second leg
    /// is expected to return `final_output`: what is left after returning the
    /// loan and paying its fee.
    pub fn projected_net_profit(amount: i128, final_output: i128) -> (res: Result<i128, Error>)
        ensures
            match Self::projection(amount as int, final_output as int) {
                Ok(profit) => res == Ok::<i128, Error>(profit as i128) && fits_i128(profit),
                Err(e) => res == Err::<i128, Error>(e),
            },
    {
        let fee = flash_loan_fee(amount)?;
        let gross = overflow_checked(final_output.checked_sub(amount))?;
        overflow_checked(gross.checked_sub(fee))
    }

    /// Simulates a route without swapping: asks both venues for their
    /// expected outputs and projects the net profit. The profit returned is
    /// what is left of the second venue's expected output after the routed
    /// amount and its loan fee; an amount whose fee is not representable
    /// has no projection.
    pub fn simulate_arbitrage(env: &Env, route: &ArbitrageRoute) -> (res: Result<i128, Error>)
        ensures
            res matches Err(e) ==> e == Error::InvalidPoolAddress || e == Error::ArithmeticOverflow,
            res matches Ok(profit) ==> exists|final_output: i128| Self::projects_to(route.amount, final_output, profit),
            !fits_i128(route.amount * 9) ==> res is Err,
    {
        let output_1 = Self::calculate_expected_output(
            env,
            &route.dex_a,
            &route.token_borrow,
            &route.token_intermediate,
            route.amount,
        )?;
        let output_2 = Self::calculate_expected_output(
            env,
            &route.dex_b,
            &route.token_intermediate,
            &route.token_borrow,
            output_1,
        )?;
        let projected = Self::projected_net_profit(route.amount, output_2);
        proof {
            if let Ok(profit) = projected {
                assert(Self::projects_to(route.amount, output_2, profit));
            }
        }
        projected
    }
}

/// A route settled against a well-formed loan of the routed amount nets the
/// gross profit less the loan fee, and its second leg returned enough to
/// cover the repayment with a strictly positive remainder that reaches the
/// caller's floor.
pub proof fn lemma_settlement_accounts(
    context: FlashLoanContext,
    after_swap1: i128,
    after_swap2: i128,
    min_profit_bps: u32,
)
    requires
        context.wf(),
        ArbitrageExecutor::settlement(
            context.borrowed_amount,
            after_swap1,
            after_swap2,
            context.fee,
            context.repay_amount,
            min_profit_bps,
        ) is Ok,
    ensures
        ({
            let result = ArbitrageExecutor::settlement(
                context.borrowed_amount,
                after_swap1,
                after_swap2,
                context.fee,
                context.repay_amount,
                min_profit_bps,
            )->Ok_0;
            &&& result.success
            &&& result.amount_in == context.borrowed_amount
            &&& result.amount_after_swap1 == after_swap1
            &&& result.amount_after_swap2 == after_swap2
            &&& result.fees_paid == fee_of(context.borrowed_amount as int)
            &&& result.gross_profit == after_swap2 - context.borrowed_amount
            &&& result.net_profit == result.gross_profit - result.fees_paid
            &&& result.net_profit == context.net_profit(after_swap2 as int)
            &&& result.net_profit > 0
            &&& result.net_profit >= bps_of(context.borrowed_amount as int, min_profit_bps as int)
            &&& after_swap2 > context.repay_amount
        }),
{
}

/// A settlement fails in exactly three ways: with an overflow, without any
/// profit, or with a profit under the floor; and the two profit failures are
/// told apart by the sign of the net profit alone.
pub proof fn lemma_settlement_failures(
    amount_start: i128,
    after_swap1: i128,
    after_swap2: i128,
    fee: i128,
    repay_amount: i128,
    min_profit_bps: u32,
)
    ensures
        ({
            let outcome = ArbitrageExecutor::settlement(
                amount_start,
                after_swap1,
                after_swap2,
                fee,
                repay_amount,
                min_profit_bps,
            );
            let net = after_swap2 - repay_amount;
            let floor = bps_of(amount_start as int, min_profit_bps as int);
            let representable = fits_i128(after_swap2 - amount_start) && fits_i128(net) && fits_i128(
                amount_start * min_profit_bps,
            );
            &&& outcome == Err::<ArbitrageResult, Error>(Error::ArithmeticOverflow) <==> !representable
            &&& outcome == Err::<ArbitrageResult, Error>(Error::NoProfitGenerated) <==> representable && net <= 0
            &&& outcome == Err::<ArbitrageResult, Error>(Error::ProfitBelowThreshold) <==> representable && 0 < net
                < floor
            &&& outcome is Ok <==> representable && net > 0 && net >= floor
        }),
{
}

} // verus!
