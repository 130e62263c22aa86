//! Atomic flash loan arbitrage across two trading venues.
//!
//! One invocation borrows an asset through a flash loan, routes it through
//! two swaps on independent venues, checks that the net profit reaches the
//! caller's floor, repays the loan with its fee and adds the surplus to a
//! per-asset profit ledger. Any failure aborts the invocation; the host
//! discards every effect of an invocation that fails.
//!
//! Every function that takes an `Env` talks to the host and is meant to run
//! inside a contract invocation. Outside of one, or where the host meets an
//! error it cannot recover from, the host aborts the invocation with a
//! panic; no contract here speaks of those cases. A token or a venue pool
//! that is no contract is refused with an error before it is called.
//! Functions without an `Env` never panic.

use vstd::prelude::*;
use soroban_sdk::{Address, Env};

pub mod arbitrage;
pub mod arithmetic;
pub mod dex_interface;
pub mod errors;
pub mod flash_loan;
pub mod host;
pub mod security;

use crate::arbitrage::{ArbitrageExecutor, ArbitrageResult, ArbitrageRoute, DexConfig};
use crate::arithmetic::{bps_of, fee_of, fits_i128, overflow_checked};
use crate::dex_interface::DexType;
use crate::errors::Error;
use crate::flash_loan::{FlashLoanContext, FlashLoanManager, RepaymentStep};
use crate::host::{
    is_symbol_char, is_symbol_text, instance_get_counter, instance_has, instance_set_counter, instance_set_flag, persistent_get_amount,
    persistent_set_amount,
};
use crate::security::{require_not_paused, require_owner, set_owner, ReentrancyGuard};

verus! {

/// The orchestrator: composes guard, loan, route, profit gate, repayment and
/// ledger into one atomic operation.
pub struct FlashLoanExecutorContract;

/// What a completed arbitrage leaves behind: the identifier its route was
/// given and the amounts it settled.
#[derive(Clone, Copy, Debug, PartialEq, Eq, Structural)]
pub struct ArbitrageReceipt {
    pub route_id: u32,
    pub result: ArbitrageResult,
}

impl FlashLoanExecutorContract {
    /// The venue that an integer code selects.
    pub open spec fn dex_type_of(type_id: u32) -> Result<DexType, Error> {
        if type_id == 0 {
            Ok(DexType::Soroswap)
        } else if type_id == 1 {
            Ok(DexType::Aquarius)
        } else {
            Err(Error::InvalidRoute)
        }
    }

    /// The ledger balance after a profit of `net_profit` is added.
    pub open spec fn credited(balance: int, net_profit: int) -> Result<int, Error> {
        if fits_i128(balance + net_profit) {
            Ok(balance + net_profit)
        } else {
            Err(Error::ArithmeticOverflow)
        }
    }

    /// Whether `net_profit` can be added to a ledger balance of `balance`.
    pub open spec fn credit_verdict(balance: i128, net_profit: i128) -> Result<(), Error> {
        match Self::credited(balance as int, net_profit as int) {
            Ok(_) => Ok(()),
            Err(e) => Err(e),
        }
    }

    /// The ledger balance after `amount` is withdrawn: only a positive amount
    /// within the balance can leave, so a withdrawal never takes the balance
    /// below zero.
    pub open spec fn debited(balance: int, amount: int) -> Result<int, Error> {
        if amount <= 0 || amount > balance {
            Err(Error::InvalidWithdrawAmount)
        } else {
            Ok(balance - amount)
        }
    }

    /// The route identifier that follows the stored counter.
    pub open spec fn route_id_after(current: Option<u32>) -> Result<u32, Error> {
        match current {
            None => Ok(1u32),
            Some(n) => if n < u32::MAX {
                Ok((n + 1) as u32)
            } else {
                Err(Error::ArithmeticOverflow)
            },
        }
    }

    /// Maps a venue code to its venue: 0 and 1 are known, every other code is
    /// an invalid route.
    pub fn parse_dex_type(type_id: u32) -> (res: Result<DexType, Error>)
        ensures
            res == Self::dex_type_of(type_id),
    {
        match type_id {
            0 => Ok(DexType::Soroswap),
            1 => Ok(DexType::Aquarius),
            _ => Err(Error::InvalidRoute),
        }
    }

    /// Adds `net_profit` to a ledger balance.
    pub fn credit_profit(balance: i128, net_profit: i128) -> (res: Result<i128, Error>)
        ensures
            match Self::credited(balance as int, net_profit as int) {
                Ok(total) => res == Ok::<i128, Error>(total as i128) && fits_i128(total),
                Err(e) => res == Err::<i128, Error>(e),
            },
    {
        overflow_checked(balance.checked_add(net_profit))
    }

    /// Takes `amount` from a ledger balance.
    pub fn debit_profit(balance: i128, amount: i128) -> (res: Result<i128, Error>)
        ensures
            match Self::debited(balance as int, amount as int) {
                Ok(rest) => res == Ok::<i128, Error>(rest as i128) && 0 <= rest <= balance,
                Err(e) => res == Err::<i128, Error>(e),
            },
    {
        if amount <= 0 {
            return Err(Error::InvalidWithdrawAmount);
        }
        if amount > balance {
            return Err(Error::InvalidWithdrawAmount);
        }
        Ok(balance - amount)
    }

    /// The identifier for the next route, one above the stored counter.
    pub fn next_route_id(current: Option<u32>) -> (res: Result<u32, Error>)
        ensures
            res == Self::route_id_after(current),
    {
        match current {
            None => Ok(1),
            Some(n) => {
                if n < u32::MAX {
                    Ok(n + 1)
                } else {
                    Err(Error::ArithmeticOverflow)
                }
            },
        }
    }

    /// Initializes the contract with its owner; a contract is initialized
    /// once.
    pub fn initialize(env: Env, owner: Address) -> (res: Result<(), Error>)
        ensures
            res matches Err(e) ==> e == Error::AlreadyInitialized,
    {
        if instance_has(&env, "initialized") {
            return Err(Error::AlreadyInitialized);
        }
        set_owner(&env, &owner);
        instance_set_flag(&env, "initialized", true);
        Ok(())
    }

    /// Executes a complete flash loan arbitrage and returns its net profit,
    /// which has been added to the ledger of `token_borrow`. The reentrancy
    /// marker is held for the duration of the call and cleared on every way
    /// out of it.
    pub fn execute_flash_loan_arbitrage(
        env: Env,
        pool_address: Address,
        token_borrow: Address,
        token_intermediate: Address,
        amount: i128,
        dex_a_type: u32,
        dex_a_pool: Address,
        dex_b_type: u32,
        dex_b_pool: Address,
        min_profit_bps: u32,
        max_slippage_bps: u32,
    ) -> (res: Result<i128, Error>)
        ensures
            res matches Ok(net_profit) ==> Self::profitable(amount as int, net_profit as int, min_profit_bps as int)
                && Self::dex_type_of(dex_a_type) is Ok && Self::dex_type_of(dex_b_type) is Ok
                && max_slippage_bps <= 10000,
            res matches Err(e) ==> Self::may_fail_with(dex_a_type, dex_b_type, amount, e),
            Self::dex_type_of(dex_a_type) is Err || Self::dex_type_of(dex_b_type) is Err ==> (res matches Err(e) && (e
                == Error::ContractPaused || e == Error::ReentrancyGuard || e == Error::InvalidRoute)),
            Self::dex_type_of(dex_a_type) is Ok && Self::dex_type_of(dex_b_type) is Ok && amount <= 0 ==> (res matches Err(
                e,
            ) && (e == Error::ContractPaused || e == Error::ReentrancyGuard || e == Error::InvalidFlashLoanAmount)),
    {
        let receipt = Self::execute_with_receipt(
            &env,
            pool_address,
            token_borrow,
            token_intermediate,
            amount,
            dex_a_type,
            dex_a_pool,
            dex_b_type,
            dex_b_pool,
            min_profit_bps,
            max_slippage_bps,
        )?;
        Ok(receipt.result.net_profit)
    }

    /// Executes a complete flash loan arbitrage as
    /// `execute_flash_loan_arbitrage` does and returns the whole receipt:
    /// refuses a paused contract, takes the reentrancy marker, runs the
    /// arbitrage and clears the marker again, whatever the outcome.
    pub fn execute_with_receipt(
        env: &Env,
        pool_address: Address,
        token_borrow: Address,
        token_intermediate: Address,
        amount: i128,
        dex_a_type: u32,
        dex_a_pool: Address,
        dex_b_type: u32,
        dex_b_pool: Address,
        min_profit_bps: u32,
        max_slippage_bps: u32,
    ) -> (res: Result<ArbitrageReceipt, Error>)
        ensures
            res matches Ok(receipt) ==> Self::settled(receipt, amount, min_profit_bps) && Self::dex_type_of(
                dex_a_type,
            ) is Ok && Self::dex_type_of(dex_b_type) is Ok && max_slippage_bps <= 10000,
            res matches Err(e) ==> Self::may_fail_with(dex_a_type, dex_b_type, amount, e),
            Self::dex_type_of(dex_a_type) is Err || Self::dex_type_of(dex_b_type) is Err ==> (res matches Err(e) && (e
                == Error::ContractPaused || e == Error::ReentrancyGuard || e == Error::InvalidRoute)),
            Self::dex_type_of(dex_a_type) is Ok && Self::dex_type_of(dex_b_type) is Ok && amount <= 0 ==> (res matches Err(
                e,
            ) && (e == Error::ContractPaused || e == Error::ReentrancyGuard || e == Error::InvalidFlashLoanAmount)),
    {
        require_not_paused(env)?;
        let guard = ReentrancyGuard::enter(env)?;
        let outcome = Self::run_arbitrage(
            env,
            pool_address,
            token_borrow,
            token_intermediate,
            amount,
            dex_a_type,
            dex_a_pool,
            dex_b_type,
            dex_b_pool,
            min_profit_bps,
            max_slippage_bps,
        );
        guard.release();
        outcome
    }

    /// Whether the guarded part of an arbitrage can fail with `e`: an
    /// unknown venue code fails as an invalid route and in no other way; with
    /// known codes a non-positive amount fails as an invalid amount and in no
    /// other way; everything else fails only on the loan, the route, the
    /// profit gate, the repayment or the ledger.
    pub open spec fn run_may_fail_with(dex_a_type: u32, dex_b_type: u32, amount: i128, e: Error) -> bool {
        if Self::dex_type_of(dex_a_type) is Err || Self::dex_type_of(dex_b_type) is Err {
            e == Error::InvalidRoute
        } else if amount <= 0 {
            e == Error::InvalidFlashLoanAmount
        } else {
            ||| e == Error::InvalidTokenAddress
            ||| e == Error::InsufficientLiquidity
            ||| e == Error::ArithmeticOverflow
            ||| e == Error::InvalidPoolAddress
            ||| e == Error::SwapFailed
            ||| e == Error::SlippageExceeded
            ||| e == Error::NoProfitGenerated
            ||| e == Error::ProfitBelowThreshold
            ||| e == Error::RepaymentFailed
        }
    }

    /// Whether an arbitrage can fail with `e`: on a paused contract, on a
    /// held reentrancy marker, or as its guarded part can.
    pub open spec fn may_fail_with(dex_a_type: u32, dex_b_type: u32, amount: i128, e: Error) -> bool {
        ||| e == Error::ContractPaused
        ||| e == Error::ReentrancyGuard
        ||| Self::run_may_fail_with(dex_a_type, dex_b_type, amount, e)
    }

    /// Whether a simulation can fail with `e`: an unknown venue code fails
    /// as an invalid route and in no other way; with known codes only a
    /// venue or the arithmetic can fail.
    pub open spec fn simulation_may_fail_with(dex_a_type: u32, dex_b_type: u32, e: Error) -> bool {
        if Self::dex_type_of(dex_a_type) is Err || Self::dex_type_of(dex_b_type) is Err {
            e == Error::InvalidRoute
        } else {
            e == Error::InvalidPoolAddress || e == Error::ArithmeticOverflow
        }
    }

    /// The balance that a ledger entry stands for: an asset without an
    /// entry has none.
    pub open spec fn balance_of(stored: Option<i128>) -> i128 {
        match stored {
            Some(balance) => balance,
            None => 0,
        }
    }

    /// What holds of the receipt of every arbitrage that succeeds: it
    /// borrowed `amount`, which was positive; its fee is the flash loan fee
    /// on `amount`; its profits are exact; and its net profit passed the
    /// gate for `min_profit_bps`.
    pub open spec fn settled(receipt: ArbitrageReceipt, amount: i128, min_profit_bps: u32) -> bool {
        let result = receipt.result;
        &&& receipt.route_id >= 1
        &&& result.success
        &&& result.amount_in == amount
        &&& result.fees_paid == fee_of(amount as int)
        &&& result.gross_profit == result.amount_after_swap2 - amount
        &&& result.net_profit == result.gross_profit - result.fees_paid
        &&& Self::profitable(amount as int, result.net_profit as int, min_profit_bps as int)
    }

    /// What holds of the net profit of every arbitrage that succeeds: the
    /// amount borrowed was positive and the profit is strictly positive and
    /// no less than the floor of `min_profit_bps` on the amount.
    pub open spec fn profitable(amount: int, net_profit: int, min_profit_bps: int) -> bool {
        &&& amount > 0
        &&& net_profit > 0
        &&& net_profit >= bps_of(amount, min_profit_bps)
    }

    /// The guarded part of an arbitrage: venue selection, loan, route, profit
    /// gate, repayment and ledger update, in that order. The ledger is
    /// written last, after everything else has succeeded.
    pub fn run_arbitrage(
        env: &Env,
        pool_address: Address,
        token_borrow: Address,
        token_intermediate: Address,
        amount: i128,
        dex_a_type: u32,
        dex_a_pool: Address,
        dex_b_type: u32,
        dex_b_pool: Address,
        min_profit_bps: u32,
        max_slippage_bps: u32,
    ) -> (res: Result<ArbitrageReceipt, Error>)
        ensures
            Self::dex_type_of(dex_a_type) is Err || Self::dex_type_of(dex_b_type) is Err ==> res == Err::<
                ArbitrageReceipt,
                Error,
            >(Error::InvalidRoute),
            Self::dex_type_of(dex_a_type) is Ok && Self::dex_type_of(dex_b_type) is Ok && amount <= 0 ==> res
                == Err::<ArbitrageReceipt, Error>(Error::InvalidFlashLoanAmount),
            res matches Ok(receipt) ==> Self::settled(receipt, amount, min_profit_bps) && max_slippage_bps <= 10000,
            res matches Err(e) ==> Self::run_may_fail_with(dex_a_type, dex_b_type, amount, e),
    {
        let dex_a_type_enum = Self::parse_dex_type(dex_a_type)?;
        let dex_b_type_enum = Self::parse_dex_type(dex_b_type)?;
        let mut flash_loan_ctx = FlashLoanManager::request_flash_loan(env, &pool_address, &token_borrow, amount)?;
        let route_id = Self::generate_route_id(env)?;
        let route = ArbitrageRoute {
            route_id,
            dex_a: DexConfig { dex_type: dex_a_type_enum, pool_address: dex_a_pool },
            dex_b: DexConfig { dex_type: dex_b_type_enum, pool_address: dex_b_pool },
            token_borrow: token_borrow.clone(),
            token_intermediate,
            amount,
            min_profit_bps,
            max_slippage_bps,
        };
        let result = ArbitrageExecutor::execute_arbitrage(env, &route, &flash_loan_ctx)?;
        FlashLoanManager::repay_flash_loan(env, &mut flash_loan_ctx)?;
        Self::add_profit(env, &token_borrow, result.net_profit)?;
        Ok(ArbitrageReceipt { route_id, result })
    }

    /// Simulates an arbitrage without executing it and returns the projected
    /// net profit.
    pub fn simulate_arbitrage(
        env: Env,
        token_borrow: Address,
        token_intermediate: Address,
        amount: i128,
        dex_a_type: u32,
        dex_a_pool: Address,
        dex_b_type: u32,
        dex_b_pool: Address,
    ) -> (res: Result<i128, Error>)
        ensures
            Self::dex_type_of(dex_a_type) is Err || Self::dex_type_of(dex_b_type) is Err ==> res == Err::<
                i128,
                Error,
            >(Error::InvalidRoute),
            res matches Err(e) ==> Self::simulation_may_fail_with(dex_a_type, dex_b_type, e),
            res matches Ok(profit) ==> exists|final_output: i128|
                ArbitrageExecutor::projects_to(amount, final_output, profit),
            !fits_i128(amount * 9) ==> res is Err,
    {
        let dex_a_type_enum = Self::parse_dex_type(dex_a_type)?;
        let dex_b_type_enum = Self::parse_dex_type(dex_b_type)?;
        let route = ArbitrageRoute {
            route_id: 0,
            dex_a: DexConfig { dex_type: dex_a_type_enum, pool_address: dex_a_pool },
            dex_b: DexConfig { dex_type: dex_b_type_enum, pool_address: dex_b_pool },
            token_borrow,
            token_intermediate,
            amount,
            min_profit_bps: 0,
            max_slippage_bps: 10000,
        };
        ArbitrageExecutor::simulate_arbitrage(&env, &route)
    }

    /// Withdraws `amount` of the accumulated profit of `token`. Only the
    /// owner may withdraw, and only a positive amount within the balance.
    /// That `caller` authorized the invocation is for the contract's entry
    /// point to establish; no funds move here, so `recipient` is only
    /// carried.
    pub fn withdraw_profit(env: Env, caller: Address, token: Address, amount: i128, recipient: Address) -> (res:
        Result<(), Error>)
        ensures
            res matches Err(e) ==> e == Error::Unauthorized || e == Error::InvalidWithdrawAmount,
            res is Ok ==> amount > 0,
    {
        require_owner(&env, &caller)?;
        Self::subtract_profit(&env, &token, amount)
    }

    /// The accumulated profit of `token`.
    pub fn get_profit_balance(env: Env, token: Address) -> i128 {
        Self::get_profit(&env, &token)
    }

    /// Pauses the contract; only the owner may.
    pub fn pause(env: Env, caller: Address) -> (res: Result<(), Error>)
        ensures
            res matches Err(e) ==> e == Error::Unauthorized,
    {
        require_owner(&env, &caller)?;
        crate::security::pause(&env);
        Ok(())
    }

    /// Resumes the contract; only the owner may.
    pub fn unpause(env: Env, caller: Address) -> (res: Result<(), Error>)
        ensures
            res matches Err(e) ==> e == Error::Unauthorized,
    {
        require_owner(&env, &caller)?;
        crate::security::unpause(&env);
        Ok(())
    }

    /// Takes the next route identifier and stores it as the new counter.
    /// Runs inside a contract invocation.
    pub fn generate_route_id(env: &Env) -> (res: Result<u32, Error>)
        ensures
            res matches Ok(id) ==> id >= 1,
            res matches Err(e) ==> e == Error::ArithmeticOverflow,
    {
        proof {
            lemma_route_counter_is_symbol();
        }
        let next = Self::next_route_id(instance_get_counter(env, "route_counter"))?;
        instance_set_counter(env, "route_counter", next);
        Ok(next)
    }

    /// Reads a ledger entry as a balance: an asset without an entry has
    /// none.
    pub fn stored_balance(stored: Option<i128>) -> (res: i128)
        ensures
            res == Self::balance_of(stored),
    {
        match stored {
            Some(balance) => balance,
            None => 0,
        }
    }

    /// The stored profit of `token`; an asset without an entry has none.
    /// Runs inside a contract invocation.
    pub fn get_profit(env: &Env, token: &Address) -> i128 {
        Self::stored_balance(persistent_get_amount(env, "profit", token))
    }

    /// Adds `amount` to the stored profit of `token`: the outcome is that of
    /// crediting `amount` to the balance that is stored, so adding nothing
    /// always succeeds and only a total that is not representable fails.
    pub fn add_profit(env: &Env, token: &Address, amount: i128) -> (res: Result<(), Error>)
        ensures
            res matches Err(e) ==> e == Error::ArithmeticOverflow,
            exists|balance: i128| res == Self::credit_verdict(balance, amount),
            amount == 0 ==> res is Ok,
    {
        let current = Self::get_profit(env, token);
        assert(amount == 0 ==> Self::credit_verdict(current, amount) is Ok);
        match Self::credit_profit(current, amount) {
            Ok(new_total) => {
                persistent_set_amount(env, "profit", token, new_total);
                assert(Ok::<(), Error>(()) == Self::credit_verdict(current, amount));
                Ok(())
            },
            Err(e) => {
                assert(Err::<(), Error>(e) == Self::credit_verdict(current, amount));
                Err(e)
            },
        }
    }

    /// Takes `amount` from the stored profit of `token`.
    pub fn subtract_profit(env: &Env, token: &Address, amount: i128) -> (res: Result<(), Error>)
        ensures
            res matches Err(e) ==> e == Error::InvalidWithdrawAmount,
            res is Ok ==> amount > 0,
    {
        let current = Self::get_profit(env, token);
        let new_total = Self::debit_profit(current, amount)?;
        persistent_set_amount(env, "profit", token, new_total);
        Ok(())
    }
}

/// The key of the route counter is the text of a symbol.
pub proof fn lemma_route_counter_is_symbol()
    ensures
        is_symbol_text("route_counter"@),
{
    reveal_strlit("route_counter");
    let text = "route_counter"@;
    assert(text.len() == 13);
    assert forall|i: int| 0 <= i < text.len() implies is_symbol_char(#[trigger] text[i]) by {
        if i == 0 {
        } else if i == 1 {
        } else if i == 2 {
        } else if i == 3 {
        } else if i == 4 {
        } else if i == 5 {
        } else if i == 6 {
        } else if i == 7 {
        } else if i == 8 {
        } else if i == 9 {
        } else if i == 10 {
        } else if i == 11 {
        } else {
        }
    }
}

/// End to end, for every loan that the pool can cover: the fee and the
/// total owed are representable; a route whose legs returned `after_swap1`
/// and `after_swap2` settles exactly when its profits are representable and
/// the net profit is positive and reaches the floor; a settled route nets
/// the second leg's return less the total owed, that return covers the
/// repayment, which is a transfer of the total owed, and crediting the net
/// profit to a ledger balance raises it by exactly that profit; and a
/// positive net profit under the floor fails at the profit gate.
pub proof fn lemma_arbitrage_end_to_end(
    context: FlashLoanContext,
    pool_balance: i128,
    after_swap1: i128,
    after_swap2: i128,
    min_profit_bps: u32,
    ledger: i128,
)
    requires
        context.wf(),
        !context.is_repaid,
        FlashLoanManager::terms_of(context.borrowed_amount as int, pool_balance as int) is Ok,
    ensures
        ({
            let amount = context.borrowed_amount;
            let net = after_swap2 - context.repay_amount;
            let floor = bps_of(amount as int, min_profit_bps as int);
            let representable = fits_i128(after_swap2 - amount) && fits_i128(net) && fits_i128(
                amount * min_profit_bps,
            );
            let outcome = ArbitrageExecutor::settlement(
                amount,
                after_swap1,
                after_swap2,
                context.fee,
                context.repay_amount,
                min_profit_bps,
            );
            &&& FlashLoanManager::terms_of(amount as int, pool_balance as int) == Ok::<(int, int), Error>(
                (context.fee as int, context.repay_amount as int),
            )
            &&& outcome is Ok <==> representable && net > 0 && net >= floor
            &&& representable && 0 < net < floor ==> outcome == Err::<ArbitrageResult, Error>(
                Error::ProfitBelowThreshold,
            )
            &&& outcome matches Ok(result) ==> {
                &&& result.net_profit == net
                &&& result.net_profit == result.gross_profit - fee_of(amount as int)
                &&& context.repayment_step(after_swap2 as int) == Ok::<RepaymentStep, Error>(
                    RepaymentStep::Transfer(context.repay_amount),
                )
                &&& fits_i128(ledger + net) ==> FlashLoanExecutorContract::credited(ledger as int, net) == Ok::<
                    int,
                    Error,
                >(ledger + net)
                &&& !fits_i128(ledger + net) ==> FlashLoanExecutorContract::credited(ledger as int, net) == Err::<
                    int,
                    Error,
                >(Error::ArithmeticOverflow)
            }
        }),
{
}

} // verus!
