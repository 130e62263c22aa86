//! The flash loan lifecycle: borrow, then repay with the fee, within one
//! atomic invocation.
//!
//! The functions that take an `Env` call the token and are meant to run
//! inside a contract invocation; outside of one the host aborts with a
//! panic. A token that is no contract is refused as an invalid token
//! before it is called.

use vstd::prelude::*;
use soroban_sdk::{Address, Env};
use crate::arithmetic::{fee_of, fits_i128, flash_loan_fee, overflow_checked};
use crate::errors::Error;
use crate::host::{current_contract_address, token_balance, token_transfer, ContractAddress};

verus! {

/// An active flash loan: what was borrowed, from where, and what is owed.
#[derive(Clone)]
pub struct FlashLoanContext {
    pub pool: Address,
    pub token: Address,
    pub borrowed_amount: i128,
    pub fee: i128,
    pub repay_amount: i128,
    pub is_repaid: bool,
}

/// The fee and the total owed on a loan.
pub struct LoanTerms {
    pub fee: i128,
    pub repay_amount: i128,
}

/// What repaying a loan asks of the asset transfer primitive.
#[derive(Clone, Copy, Debug, PartialEq, Eq, Structural)]
pub enum RepaymentStep {
    /// The loan is already repaid: nothing is transferred.
    AlreadySettled,
    /// The given amount goes back to the pool.
    Transfer(i128),
}

impl FlashLoanContext {
    /// A context is well formed when it records a positive loan, its nine
    /// basis point fee and their sum.
    pub open spec fn wf(&self) -> bool {
        &&& self.borrowed_amount > 0
        &&& self.fee == fee_of(self.borrowed_amount as int)
        &&& self.repay_amount == self.borrowed_amount + self.fee
    }

    /// What is left of `current_balance` after repaying: may be negative.
    pub open spec fn net_profit(&self, current_balance: int) -> int {
        current_balance - self.repay_amount
    }

    /// The net profit at `current_balance`. The difference must be
    /// representable; `checked_net_profit` has no such demand.
    pub fn calculate_net_profit(&self, current_balance: i128) -> (res: i128)
        requires
            fits_i128(self.net_profit(current_balance as int)),
        ensures
            res == self.net_profit(current_balance as int),
    {
        current_balance - self.repay_amount
    }

    /// The net profit at `current_balance`, or `Error::ArithmeticOverflow`
    /// when the difference is not representable.
    pub fn checked_net_profit(&self, current_balance: i128) -> (res: Result<i128, Error>)
        ensures
            fits_i128(self.net_profit(current_balance as int)) ==> res == Ok::<i128, Error>(
                self.net_profit(current_balance as int) as i128,
            ),
            !fits_i128(self.net_profit(current_balance as int)) ==> res == Err::<i128, Error>(
                Error::ArithmeticOverflow,
            ),
    {
        overflow_checked(current_balance.checked_sub(self.repay_amount))
    }

    /// Whether `current_balance` covers the repayment.
    pub fn can_repay(&self, current_balance: i128) -> (res: bool)
        ensures
            res == (current_balance >= self.repay_amount),
            res == (self.net_profit(current_balance as int) >= 0),
    {
        current_balance >= self.repay_amount
    }

    /// The step that repaying takes at `current_balance`.
    pub open spec fn repayment_step(&self, current_balance: int) -> Result<RepaymentStep, Error> {
        if self.is_repaid {
            Ok(RepaymentStep::AlreadySettled)
        } else if current_balance < self.repay_amount {
            Err(Error::RepaymentFailed)
        } else {
            Ok(RepaymentStep::Transfer(self.repay_amount))
        }
    }

    /// Decides how to repay at `current_balance`: nothing for a loan already
    /// repaid, a transfer of the whole amount owed when the balance covers
    /// it, and `Error::RepaymentFailed` otherwise.
    pub fn plan_repayment(&self, current_balance: i128) -> (res: Result<RepaymentStep, Error>)
        ensures
            res == self.repayment_step(current_balance as int),
    {
        if self.is_repaid {
            Ok(RepaymentStep::AlreadySettled)
        } else if !self.can_repay(current_balance) {
            Err(Error::RepaymentFailed)
        } else {
            Ok(RepaymentStep::Transfer(self.repay_amount))
        }
    }

    /// Records that the loan has been repaid.
    pub fn mark_repaid(&mut self)
        ensures
            final(self).is_repaid,
            final(self).pool == old(self).pool,
            final(self).token == old(self).token,
            final(self).borrowed_amount == old(self).borrowed_amount,
            final(self).fee == old(self).fee,
            final(self).repay_amount == old(self).repay_amount,
    {
        self.is_repaid = true;
    }
}

/// Repaying is idempotent: once a loan is marked repaid, repaying again
/// transfers nothing and does not fail, whatever the balance.
pub proof fn lemma_repay_idempotent(context: FlashLoanContext, balance: int)
    requires
        context.is_repaid,
    ensures
        context.repayment_step(balance) == Ok::<RepaymentStep, Error>(RepaymentStep::AlreadySettled),
{
}

/// Borrows and repays flash loans against a liquidity pool.
pub struct FlashLoanManager;

impl FlashLoanManager {
    /// The terms of a loan of `amount` from a pool that holds `pool_balance`.
    pub open spec fn terms_of(amount: int, pool_balance: int) -> Result<(int, int), Error> {
        if amount <= 0 {
            Err(Error::InvalidFlashLoanAmount)
        } else if pool_balance < amount {
            Err(Error::InsufficientLiquidity)
        } else if !fits_i128(amount * 9) || !fits_i128(amount + fee_of(amount)) {
            Err(Error::ArithmeticOverflow)
        } else {
            Ok((fee_of(amount), amount + fee_of(amount)))
        }
    }

    /// Whether a request for `amount` can fail with `e`: a non-positive
    /// amount fails as invalid and in no other way; a positive one fails only
    /// on an unknown token, on a pool that cannot cover it, or on a fee or
    /// total that is not representable.
    pub open spec fn may_refuse(amount: int, e: Error) -> bool {
        if amount <= 0 {
            e == Error::InvalidFlashLoanAmount
        } else if e == Error::ArithmeticOverflow {
            !fits_i128(amount * 9) || !fits_i128(amount + fee_of(amount))
        } else {
            e == Error::InvalidTokenAddress || e == Error::InsufficientLiquidity
        }
    }

    /// The flash loan fee on `amount`: nine basis points, rounded down.
    pub fn calculate_flash_loan_fee(amount: i128) -> (res: Result<i128, Error>)
        ensures
            fits_i128(amount * 9) ==> res == Ok::<i128, Error>(fee_of(amount as int) as i128),
            fits_i128(amount * 9) ==> fits_i128(fee_of(amount as int)),
            !fits_i128(amount * 9) ==> res == Err::<i128, Error>(Error::ArithmeticOverflow),
    {
        flash_loan_fee(amount)
    }

    /// Accepts a loan of `amount` only from a pool that holds at least as
    /// much.
    pub fn check_pool_liquidity(pool_balance: i128, amount: i128) -> (res: Result<(), Error>)
        ensures
            res == (if pool_balance < amount {
                Err::<(), Error>(Error::InsufficientLiquidity)
            } else {
                Ok::<(), Error>(())
            }),
    {
        if pool_balance < amount {
            return Err(Error::InsufficientLiquidity);
        }
        Ok(())
    }

    /// Validates a loan of `amount` against `pool_balance` and computes its
    /// fee and the total owed.
    pub fn loan_terms(amount: i128, pool_balance: i128) -> (res: Result<LoanTerms, Error>)
        ensures
            match Self::terms_of(amount as int, pool_balance as int) {
                Ok((fee, repay_amount)) => res matches Ok(terms) && terms.fee == fee && terms.repay_amount
                    == repay_amount,
                Err(e) => res matches Err(found) && found == e,
            },
    {
        if amount <= 0 {
            return Err(Error::InvalidFlashLoanAmount);
        }
        Self::check_pool_liquidity(pool_balance, amount)?;
        let fee = Self::calculate_flash_loan_fee(amount)?;
        let repay_amount = overflow_checked(amount.checked_add(fee))?;
        Ok(LoanTerms { fee, repay_amount })
    }

    /// The balance that `holder` has of a token that was checked to be a
    /// contract; a token that gives no balance is an invalid token.
    pub fn balance_held(env: &Env, token: &ContractAddress, holder: &Address) -> (res: Result<i128, Error>)
        ensures
            res matches Err(e) ==> e == Error::InvalidTokenAddress,
    {
        match token_balance(env, token, holder) {
            Some(balance) => Ok(balance),
            None => Err(Error::InvalidTokenAddress),
        }
    }

    /// The balance of `token` that `holder` has, read from the token. A
    /// token that is no contract, or that gives no balance, is an invalid
    /// token.
    pub fn get_token_balance(env: &Env, token: &Address, holder: &Address) -> (res: Result<i128, Error>)
        ensures
            res matches Err(e) ==> e == Error::InvalidTokenAddress,
    {
        let contract = ContractAddress::token(token)?;
        Self::balance_held(env, &contract, holder)
    }

    /// Borrows `amount` of `token` from the pool: validates the amount,
    /// checks the pool's liquidity, computes the fee, and moves the funds to
    /// the running contract. The context records the pool and the token it
    /// was given. A token that is no contract is an invalid token. Runs
    /// inside a contract invocation.
    pub fn request_flash_loan(env: &Env, pool_address: &Address, token: &Address, amount: i128) -> (res: Result<
        FlashLoanContext,
        Error,
    >)
        ensures
            amount <= 0 ==> res == Err::<FlashLoanContext, Error>(Error::InvalidFlashLoanAmount),
            res matches Ok(context) ==> context.wf() && context.borrowed_amount == amount
                && !context.is_repaid && context.pool == *pool_address && context.token == *token,
            res matches Err(e) ==> Self::may_refuse(amount as int, e),
    {
        if amount <= 0 {
            return Err(Error::InvalidFlashLoanAmount);
        }
        let contract = ContractAddress::token(token)?;
        let pool_balance = Self::balance_held(env, &contract, pool_address)?;
        let terms = Self::loan_terms(amount, pool_balance)?;
        let borrower = current_contract_address(env);
        if !token_transfer(env, &contract, pool_address, &borrower, amount) {
            return Err(Error::InsufficientLiquidity);
        }
        Ok(
            FlashLoanContext {
                pool: pool_address.clone(),
                token: token.clone(),
                borrowed_amount: amount,
                fee: terms.fee,
                repay_amount: terms.repay_amount,
                is_repaid: false,
            },
        )
    }

    /// Repays the loan with its fee. A loan already repaid is left alone;
    /// otherwise the running contract must hold the amount owed, and the
    /// context's token must be a contract. Runs inside a contract
    /// invocation.
    pub fn repay_flash_loan(env: &Env, context: &mut FlashLoanContext) -> (res: Result<(), Error>)
        ensures
            old(context).is_repaid ==> res is Ok && *final(context) == *old(context),
            res is Ok ==> final(context).is_repaid,
            res matches Err(e) ==> *final(context) == *old(context) && (e == Error::RepaymentFailed || e
                == Error::InvalidTokenAddress),
            final(context).pool == old(context).pool,
            final(context).token == old(context).token,
            final(context).borrowed_amount == old(context).borrowed_amount,
            final(context).fee == old(context).fee,
            final(context).repay_amount == old(context).repay_amount,
    {
        if context.is_repaid {
            return Ok(());
        }
        let holder = current_contract_address(env);
        let contract = ContractAddress::token(&context.token)?;
        let balance = Self::balance_held(env, &contract, &holder)?;
        match context.plan_repayment(balance)? {
            RepaymentStep::AlreadySettled => {},
            RepaymentStep::Transfer(amount) => {
                if !token_transfer(env, &contract, &holder, &context.pool, amount) {
                    return Err(Error::RepaymentFailed);
                }
                context.mark_repaid();
            },
        }
        Ok(())
    }
}

} // verus!
