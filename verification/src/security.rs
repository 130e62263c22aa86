//! Reentrancy protection, administrative gates and the validation checks on
//! slippage and profit.
//!
//! The functions that take an `Env` read or write the instance storage and
//! are meant to run inside a contract invocation; outside of one the host
//! aborts with a panic.

use vstd::prelude::*;
use soroban_sdk::{Address, Env};
use crate::arithmetic::{apply_slippage, fits_i128, slippage_floor};
use crate::errors::Error;
use crate::host::{
    instance_get_address, instance_get_flag, instance_has, instance_remove, instance_set_address,
    instance_set_flag, same_address,
};

verus! {

/// The reentrancy marker as a plain value: present while one orchestration
/// call is in flight, absent otherwise.
#[derive(Clone, Copy, Debug, PartialEq, Eq, Structural)]
pub struct ReentrancyMarker {
    pub held: bool,
}

impl ReentrancyMarker {
    /// The outcome of trying to enter in this state: only an absent marker
    /// admits the caller.
    pub open spec fn enter_outcome(self) -> Result<(), Error> {
        if self.held {
            Err(Error::ReentrancyGuard)
        } else {
            Ok(())
        }
    }

    /// The state after an attempt to enter: the marker is present, whether
    /// the attempt set it or found it.
    pub open spec fn entered(self) -> ReentrancyMarker {
        ReentrancyMarker { held: true }
    }

    /// The state after a release: the marker is absent.
    pub open spec fn released(self) -> ReentrancyMarker {
        ReentrancyMarker { held: false }
    }

    /// A marker in the given state.
    pub open spec fn new_spec(held: bool) -> ReentrancyMarker {
        ReentrancyMarker { held }
    }

    /// A marker in the given state.
    pub fn new(held: bool) -> (res: ReentrancyMarker)
        ensures
            res == Self::new_spec(held),
    {
        ReentrancyMarker { held }
    }

    /// Claims the marker. Fails, leaving it in place, when it is already held.
    pub fn acquire(&mut self) -> (res: Result<(), Error>)
        ensures
            res == old(self).enter_outcome(),
            *final(self) == old(self).entered(),
    {
        if self.held {
            return Err(Error::ReentrancyGuard);
        }
        self.held = true;
        Ok(())
    }

    /// Clears the marker, whatever its state.
    pub fn release(&mut self)
        ensures
            *final(self) == old(self).released(),
    {
        self.held = false;
    }
}

/// From any state, an entry that follows an entry fails with
/// `Error::ReentrancyGuard`, so at most one orchestration call is in flight;
/// and an entry that follows a release succeeds, whether the call that
/// released the marker had succeeded or failed.
pub proof fn lemma_guard_excludes_reentry(marker: ReentrancyMarker)
    ensures
        marker.entered().enter_outcome() == Err::<(), Error>(Error::ReentrancyGuard),
        marker.entered().entered() == marker.entered(),
        marker.released().enter_outcome() == Ok::<(), Error>(()),
        marker.entered().released().enter_outcome() == Ok::<(), Error>(()),
        marker.enter_outcome() is Ok <==> !marker.held,
{
}

/// Whether `actual` meets the floor that `max_slippage_bps` leaves under
/// `expected`.
pub open spec fn within_slippage(expected: int, actual: int, max_slippage_bps: int) -> bool {
    actual >= slippage_floor(expected, max_slippage_bps)
}

/// Accepts `actual_output` when it is no less than `expected_output` reduced
/// by `max_slippage_bps` basis points.
pub fn check_slippage(expected_output: i128, actual_output: i128, max_slippage_bps: u32) -> (res: Result<(), Error>)
    ensures
        res == (if max_slippage_bps > 10000 || !fits_i128(expected_output * (10000 - max_slippage_bps)) {
            Err::<(), Error>(Error::ArithmeticOverflow)
        } else if within_slippage(expected_output as int, actual_output as int, max_slippage_bps as int) {
            Ok::<(), Error>(())
        } else {
            Err::<(), Error>(Error::SlippageExceeded)
        }),
{
    let min_output = apply_slippage(expected_output, max_slippage_bps)?;
    if actual_output < min_output {
        return Err(Error::SlippageExceeded);
    }
    Ok(())
}

/// The verdict of the profit gate on a net `profit` against `min_profit`.
pub open spec fn profit_verdict(profit: int, min_profit: int) -> Result<(), Error> {
    if profit <= 0 {
        Err(Error::NoProfitGenerated)
    } else if profit < min_profit {
        Err(Error::ProfitBelowThreshold)
    } else {
        Ok(())
    }
}

/// Accepts only a strictly positive profit that reaches `min_profit`.
pub fn check_minimum_profit(profit: i128, min_profit: i128) -> (res: Result<(), Error>)
    ensures
        res == profit_verdict(profit as int, min_profit as int),
{
    if profit <= 0 {
        return Err(Error::NoProfitGenerated);
    }
    if profit < min_profit {
        return Err(Error::ProfitBelowThreshold);
    }
    Ok(())
}

} // verus!

verus! {

/// A held reentrancy marker in the instance storage of the running contract.
/// It is set by `enter` and cleared by `release`; the orchestrator releases
/// it on every path out of the guarded call. Both run inside a contract
/// invocation.
pub struct ReentrancyGuard<'a> {
    env: &'a Env,
    marker: ReentrancyMarker,
}

impl<'a> ReentrancyGuard<'a> {
    /// The state of the marker that this guard stored.
    pub closed spec fn marker(&self) -> ReentrancyMarker {
        self.marker
    }

    /// Writes the marker's state to the instance storage: a held marker is
    /// stored, one that is not held is removed.
    fn store_marker(env: &Env, marker: ReentrancyMarker) {
        if marker.held {
            instance_set_flag(env, "reentrancy_guard", true);
        } else {
            instance_remove(env, "reentrancy_guard");
        }
    }

    /// Enters the guarded section: fails with `Error::ReentrancyGuard` when
    /// the marker is already stored, and stores it otherwise.
    pub fn enter(env: &'a Env) -> (res: Result<ReentrancyGuard<'a>, Error>)
        ensures
            res matches Err(e) ==> e == Error::ReentrancyGuard,
            res matches Ok(guard) ==> guard.marker() == ReentrancyMarker::new_spec(false).entered(),
    {
        let mut marker = ReentrancyMarker::new(instance_has(env, "reentrancy_guard"));
        match marker.acquire() {
            Err(e) => Err(e),
            Ok(()) => {
                Self::store_marker(env, marker);
                Ok(ReentrancyGuard { env, marker })
            },
        }
    }

    /// Leaves the guarded section: releases the marker and removes it from
    /// the instance storage.
    pub fn release(self) {
        let mut marker = self.marker;
        marker.release();
        Self::store_marker(self.env, marker);
    }
}

/// The verdict on a caller, given the stored owner's presence and whether the
/// caller is that owner.
pub open spec fn owner_verdict(is_owner: Option<bool>) -> Result<(), Error> {
    if is_owner == Some(true) {
        Ok(())
    } else {
        Err(Error::Unauthorized)
    }
}

/// Accepts the caller only when an owner is stored and the caller is that
/// owner; `is_owner` is `None` when no owner is stored.
pub fn check_owner(is_owner: Option<bool>) -> (res: Result<(), Error>)
    ensures
        res == owner_verdict(is_owner),
{
    match is_owner {
        Some(true) => Ok(()),
        _ => Err(Error::Unauthorized),
    }
}

/// Checks that `caller` is the stored contract owner. A contract without an
/// owner authorizes nobody. Runs inside a contract invocation.
pub fn require_owner(env: &Env, caller: &Address) -> (res: Result<(), Error>)
    ensures
        res matches Err(e) ==> e == Error::Unauthorized,
{
    let is_owner = match get_owner(env) {
        Some(owner) => Some(same_address(caller, &owner)),
        None => None,
    };
    check_owner(is_owner)
}

/// Stores the contract owner. Runs inside a contract invocation.
pub fn set_owner(env: &Env, owner: &Address) {
    instance_set_address(env, "owner", owner);
}

/// The stored contract owner, if the contract has one. Runs inside a
/// contract invocation.
pub fn get_owner(env: &Env) -> Option<Address> {
    instance_get_address(env, "owner")
}

/// The verdict on an operation, given the stored pause flag; an absent flag
/// counts as not paused.
pub open spec fn pause_verdict(paused: Option<bool>) -> Result<(), Error> {
    if paused == Some(true) {
        Err(Error::ContractPaused)
    } else {
        Ok(())
    }
}

/// Rejects the operation exactly when the pause flag is stored and set.
pub fn check_not_paused(paused: Option<bool>) -> (res: Result<(), Error>)
    ensures
        res == pause_verdict(paused),
{
    match paused {
        Some(true) => Err(Error::ContractPaused),
        _ => Ok(()),
    }
}

/// Checks that the contract is not paused. Runs inside a contract
/// invocation.
pub fn require_not_paused(env: &Env) -> (res: Result<(), Error>)
    ensures
        res matches Err(e) ==> e == Error::ContractPaused,
{
    check_not_paused(instance_get_flag(env, "paused"))
}

/// Pauses the contract. Runs inside a contract invocation.
pub fn pause(env: &Env) {
    instance_set_flag(env, "paused", true);
}

/// Resumes the contract. Runs inside a contract invocation.
pub fn unpause(env: &Env) {
    instance_set_flag(env, "paused", false);
}

} // verus!
