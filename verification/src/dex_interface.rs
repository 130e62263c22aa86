//! The exchange adapter capability: one adapter per supported venue, each
//! able to quote a price, report reserves, compute an expected output and
//! execute a swap.
//!
//! Every adapter function calls its venue and is meant to run inside a
//! contract invocation; outside of one the host aborts with a panic. A pool
//! that is no contract is refused as an invalid pool before it is called.

use vstd::prelude::*;
use soroban_sdk::{Address, Env};
use crate::arithmetic::{constant_product_defined, constant_product_out, constant_product_output};
use crate::errors::Error;
use crate::host::{venue_quote, venue_reserves, venue_swap, ContractAddress};

verus! {

/// The supported venues.
#[derive(Clone, Copy, Debug, PartialEq, Eq, Structural)]
pub enum DexType {
    Soroswap,
    Aquarius,
}

/// What every venue adapter offers. An adapter only delegates to its venue;
/// whatever the venue promises about a swap's output, the route executor
/// checks it again on its own.
pub trait DexInterface {
    /// The amount of `token_out` received for one unit of `token_in`.
    fn get_price(env: &Env, pool_address: &Address, token_in: &Address, token_out: &Address) -> (res: Result<
        i128,
        Error,
    >)
        ensures
            res matches Err(e) ==> e == Error::InvalidPoolAddress || e == Error::ArithmeticOverflow,
    ;

    /// Executes a swap of `amount_in` and returns the amount actually
    /// received; the venue is asked for at least `min_amount_out`. A pool
    /// that is no contract is an invalid pool; a venue that does not
    /// execute the swap fails it.
    fn swap(
        env: &Env,
        pool_address: &Address,
        token_in: &Address,
        token_out: &Address,
        amount_in: i128,
        min_amount_out: i128,
    ) -> (res: Result<i128, Error>)
        ensures
            res matches Err(e) ==> e == Error::InvalidPoolAddress || e == Error::SwapFailed,
    ;

    /// The pool's reserves of `token_a` and `token_b`, in that order.
    fn get_reserves(env: &Env, pool_address: &Address, token_a: &Address, token_b: &Address) -> (res: Result<
        (i128, i128),
        Error,
    >)
        ensures
            res matches Err(e) ==> e == Error::InvalidPoolAddress,
    ;

    /// The output expected for `amount_in`, venue fee included.
    fn calculate_output(
        env: &Env,
        pool_address: &Address,
        token_in: &Address,
        token_out: &Address,
        amount_in: i128,
    ) -> (res: Result<i128, Error>)
        ensures
            res matches Err(e) ==> e == Error::InvalidPoolAddress || e == Error::ArithmeticOverflow,
    ;
}

/// The outcome of a venue's swap call as the adapters report it.
pub fn swap_outcome(received: Option<i128>) -> (res: Result<i128, Error>)
    ensures
        res == (match received {
            Some(amount) => Ok::<i128, Error>(amount),
            None => Err::<i128, Error>(Error::SwapFailed),
        }),
{
    match received {
        Some(amount) => Ok(amount),
        None => Err(Error::SwapFailed),
    }
}

/// The outcome of a venue's reserve query as the adapters report it.
pub fn reserves_outcome(reserves: Option<(i128, i128)>) -> (res: Result<(i128, i128), Error>)
    ensures
        res == (match reserves {
            Some(pair) => Ok::<(i128, i128), Error>(pair),
            None => Err::<(i128, i128), Error>(Error::InvalidPoolAddress),
        }),
{
    match reserves {
        Some(pair) => Ok(pair),
        None => Err(Error::InvalidPoolAddress),
    }
}

/// The outcome of a venue's quote as the adapters report it.
pub fn quote_outcome(quote: Option<i128>) -> (res: Result<i128, Error>)
    ensures
        res == (match quote {
            Some(amount) => Ok::<i128, Error>(amount),
            None => Err::<i128, Error>(Error::InvalidPoolAddress),
        }),
{
    match quote {
        Some(amount) => Ok(amount),
        None => Err(Error::InvalidPoolAddress),
    }
}

/// Whether `amount_out` is what the constant-product curve pays for
/// `amount_in` on a pool with the given reserves.
pub open spec fn priced_on_curve(reserve_in: i128, reserve_out: i128, amount_in: i128, amount_out: i128) -> bool {
    &&& constant_product_defined(reserve_in as int, reserve_out as int, amount_in as int)
    &&& amount_out == constant_product_out(reserve_in as int, reserve_out as int, amount_in as int)
}

/// Adapter for Soroswap, a constant-product venue: expected outputs are
/// computed here from the pool's reserves.
pub struct SoroswapDex;

impl DexInterface for SoroswapDex {
    fn get_price(env: &Env, pool_address: &Address, token_in: &Address, token_out: &Address) -> (res: Result<
        i128,
        Error,
    >)
        ensures
            res matches Ok(price) ==> exists|reserve_in: i128, reserve_out: i128|
                priced_on_curve(reserve_in, reserve_out, 1, price),
    {
        Self::calculate_output(env, pool_address, token_in, token_out, 1)
    }

    fn swap(
        env: &Env,
        pool_address: &Address,
        token_in: &Address,
        token_out: &Address,
        amount_in: i128,
        min_amount_out: i128,
    ) -> (res: Result<i128, Error>) {
        let pool = ContractAddress::pool(pool_address)?;
        swap_outcome(venue_swap(env, &pool, token_in, token_out, amount_in, min_amount_out))
    }

    fn get_reserves(env: &Env, pool_address: &Address, token_a: &Address, token_b: &Address) -> (res: Result<
        (i128, i128),
        Error,
    >) {
        let pool = ContractAddress::pool(pool_address)?;
        reserves_outcome(venue_reserves(env, &pool, token_a, token_b))
    }

    fn calculate_output(
        env: &Env,
        pool_address: &Address,
        token_in: &Address,
        token_out: &Address,
        amount_in: i128,
    ) -> (res: Result<i128, Error>)
        ensures
            res matches Ok(amount_out) ==> exists|reserve_in: i128, reserve_out: i128|
                priced_on_curve(reserve_in, reserve_out, amount_in, amount_out),
    {
        let (reserve_in, reserve_out) = Self::get_reserves(env, pool_address, token_in, token_out)?;
        let priced = constant_product_output(reserve_in, reserve_out, amount_in);
        proof {
            if let Ok(amount_out) = priced {
                assert(priced_on_curve(reserve_in, reserve_out, amount_in, amount_out));
            }
        }
        priced
    }
}

/// Adapter for Aquarius, whose pools price by their own curves: expected
/// outputs are asked of the venue.
pub struct AquariusDex;

impl DexInterface for AquariusDex {
    fn get_price(env: &Env, pool_address: &Address, token_in: &Address, token_out: &Address) -> (res: Result<
        i128,
        Error,
    >) {
        Self::calculate_output(env, pool_address, token_in, token_out, 1)
    }

    fn swap(
        env: &Env,
        pool_address: &Address,
        token_in: &Address,
        token_out: &Address,
        amount_in: i128,
        min_amount_out: i128,
    ) -> (res: Result<i128, Error>) {
        let pool = ContractAddress::pool(pool_address)?;
        swap_outcome(venue_swap(env, &pool, token_in, token_out, amount_in, min_amount_out))
    }

    fn get_reserves(env: &Env, pool_address: &Address, token_a: &Address, token_b: &Address) -> (res: Result<
        (i128, i128),
        Error,
    >) {
        let pool = ContractAddress::pool(pool_address)?;
        reserves_outcome(venue_reserves(env, &pool, token_a, token_b))
    }

    fn calculate_output(
        env: &Env,
        pool_address: &Address,
        token_in: &Address,
        token_out: &Address,
        amount_in: i128,
    ) -> (res: Result<i128, Error>) {
        let pool = ContractAddress::pool(pool_address)?;
        quote_outcome(venue_quote(env, &pool, token_in, token_out, amount_in))
    }
}

/// Executes a swap on the venue that `dex_type` selects. A pool that is no
/// contract is an invalid pool; a venue that does not execute the swap
/// fails it.
pub fn execute_dex_swap(
    env: &Env,
    dex_type: DexType,
    pool_address: &Address,
    token_in: &Address,
    token_out: &Address,
    amount_in: i128,
    min_amount_out: i128,
) -> (res: Result<i128, Error>)
    ensures
        res matches Err(e) ==> e == Error::InvalidPoolAddress || e == Error::SwapFailed,
{
    match dex_type {
        DexType::Soroswap => SoroswapDex::swap(env, pool_address, token_in, token_out, amount_in, min_amount_out),
        DexType::Aquarius => AquariusDex::swap(env, pool_address, token_in, token_out, amount_in, min_amount_out),
    }
}

/// Computes the expected output on the venue that `dex_type` selects. On
/// Soroswap the output is what the constant-product curve pays for
/// `amount_in` on the reserves that the pool reported; on Aquarius it is the
/// venue's own quote.
pub fn calculate_dex_output(
    env: &Env,
    dex_type: DexType,
    pool_address: &Address,
    token_in: &Address,
    token_out: &Address,
    amount_in: i128,
) -> (res: Result<i128, Error>)
    ensures
        res matches Err(e) ==> e == Error::InvalidPoolAddress || e == Error::ArithmeticOverflow,
        dex_type == DexType::Soroswap ==> (res matches Ok(amount_out) ==> exists|reserve_in: i128, reserve_out: i128|
            priced_on_curve(reserve_in, reserve_out, amount_in, amount_out)),
{
    match dex_type {
        DexType::Soroswap => SoroswapDex::calculate_output(env, pool_address, token_in, token_out, amount_in),
        DexType::Aquarius => AquariusDex::calculate_output(env, pool_address, token_in, token_out, amount_in),
    }
}

} // verus!
