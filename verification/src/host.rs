//! The boundary to the Soroban host: the outside types the library carries
//! and the calls it makes into `soroban_sdk`.
//!
//! Apart from `AddressKind::holds_contract` and the functions of
//! `ContractAddress`, nothing here is proved. Each other function makes one
//! host call and converts its arguments and result; what a call returns
//! depends on the state of the ledger, so no contract promises a particular
//! outcome.
//!
//! The host aborts a call into an address that is no contract. The calls
//! into other contracts therefore take a `ContractAddress`, which is built
//! only of an address at which the host reported a contract.
//!
//! Two conditions of the host cannot be told from a function's arguments,
//! and where one fails the host aborts the invocation with a panic:
//!
//! - a contract must be executing, for every call into storage and for the
//!   running contract's address;
//! - no call may meet an error that the host cannot recover from, such as an
//!   exhausted budget.
//!
//! The functions below, and every function of the library that takes an
//! `Env`, are therefore free of panics only inside a contract invocation and
//! short of such an error. Each function below names the first where it
//! applies; the second applies to all of them.

use vstd::prelude::*;
use soroban_sdk::{Address, Env, Executable, IntoVal, Symbol, TryFromVal, Val};
use crate::errors::Error;

verus! {

/// `soroban_sdk::Env`, the handle to the host. Opaque to the verifier.
#[verifier::external_type_specification]
#[verifier::external_body]
pub struct ExEnv(soroban_sdk::Env);

/// `soroban_sdk::Address`, an account or contract identifier. Opaque to the
/// verifier.
#[verifier::external_type_specification]
#[verifier::external_body]
pub struct ExAddress(soroban_sdk::Address);

/// Whether `c` may stand in a symbol: a letter, a digit or an underscore.
pub open spec fn is_symbol_char(c: char) -> bool {
    ||| 'a' <= c <= 'z'
    ||| 'A' <= c <= 'Z'
    ||| '0' <= c <= '9'
    ||| c == '_'
}

/// Whether `text` is the text of a symbol: at most 32 characters, each a
/// letter, a digit or an underscore.
pub open spec fn is_symbol_text(text: Seq<char>) -> bool {
    &&& text.len() <= 32
    &&& forall|i: int| 0 <= i < text.len() ==> is_symbol_char(#[trigger] text[i])
}

/// `Instance::has`: whether the instance storage of the running contract holds
/// `key`. Nothing is claimed of the answer. Panics where no contract is
/// executing.
#[verifier::external_body]
pub(crate) fn instance_has(env: &Env, key: &str) -> bool {
    env.storage().instance().has(&key)
}

/// `Instance::remove`: deletes `key` from the instance storage; a no-op when
/// the key is absent. Panics where no contract is executing.
#[verifier::external_body]
pub(crate) fn instance_remove(env: &Env, key: &str) {
    env.storage().instance().remove(&key)
}

/// `Instance::set` with a boolean value. Panics where no contract is
/// executing.
#[verifier::external_body]
pub(crate) fn instance_set_flag(env: &Env, key: &str, value: bool) {
    env.storage().instance().set(&key, &value)
}

/// `Instance::get` of the raw value under `key`, converted with
/// `bool::try_from_val`: `None` where nothing is stored or what is stored is
/// no boolean. Nothing is claimed of the answer. Panics where no contract is
/// executing.
#[verifier::external_body]
pub(crate) fn instance_get_flag(env: &Env, key: &str) -> Option<bool> {
    match env.storage().instance().get::<&str, Val>(&key) {
        Some(stored) => bool::try_from_val(env, &stored).ok(),
        None => None,
    }
}

/// `Instance::set` with an address value. Panics where no contract is
/// executing.
#[verifier::external_body]
pub(crate) fn instance_set_address(env: &Env, key: &str, value: &Address) {
    env.storage().instance().set(&key, value)
}

/// `Instance::get` of the raw value under `key`, converted with
/// `Address::try_from_val`: `None` where nothing is stored or what is stored
/// is no address. Nothing is claimed of the answer. Panics where no contract
/// is executing.
#[verifier::external_body]
pub(crate) fn instance_get_address(env: &Env, key: &str) -> Option<Address> {
    match env.storage().instance().get::<&str, Val>(&key) {
        Some(stored) => Address::try_from_val(env, &stored).ok(),
        None => None,
    }
}

/// `Instance::get` of the raw value under the symbol that `Symbol::new`
/// makes of `key`, converted with `u32::try_from_val`: `None` where nothing
/// is stored or what is stored is no 32-bit number. `Symbol::new` panics on
/// text that is no symbol, which the precondition leaves out. Nothing is
/// claimed of the answer. Panics where no contract is executing.
#[verifier::external_body]
pub(crate) fn instance_get_counter(env: &Env, key: &str) -> Option<u32>
    requires
        is_symbol_text(key@),
{
    match env.storage().instance().get::<Symbol, Val>(&Symbol::new(env, key)) {
        Some(stored) => u32::try_from_val(env, &stored).ok(),
        None => None,
    }
}

/// `Instance::set` of a 32-bit counter under the symbol that `Symbol::new`
/// makes of `key`. `Symbol::new` panics on text that is no symbol, which the
/// precondition leaves out. Panics where no contract is executing.
#[verifier::external_body]
pub(crate) fn instance_set_counter(env: &Env, key: &str, value: u32)
    requires
        is_symbol_text(key@),
{
    env.storage().instance().set(&Symbol::new(env, key), &value)
}

/// `Persistent::get` of the raw value under the pair of `prefix` and
/// `token`, converted with `i128::try_from_val`: `None` where nothing is
/// stored or what is stored is no 128-bit amount. Nothing is claimed of the
/// answer. Panics where no contract is executing.
#[verifier::external_body]
pub(crate) fn persistent_get_amount(env: &Env, prefix: &str, token: &Address) -> Option<i128> {
    match env.storage().persistent().get::<(&str, &Address), Val>(&(prefix, token)) {
        Some(stored) => i128::try_from_val(env, &stored).ok(),
        None => None,
    }
}

/// `Persistent::set` of an amount under the pair of `prefix` and `token`.
/// Panics where no contract is executing.
#[verifier::external_body]
pub(crate) fn persistent_set_amount(env: &Env, prefix: &str, token: &Address, value: i128) {
    env.storage().persistent().set(&(prefix, token), &value)
}

/// `Env::current_contract_address`: the identifier of the running contract.
/// Panics where no contract is executing.
#[verifier::external_body]
pub(crate) fn current_contract_address(env: &Env) -> Address {
    env.current_contract_address()
}

/// `Address::clone`, which the type derives: the copy is the same
/// identifier on the same host.
pub assume_specification[ <soroban_sdk::Address as std::clone::Clone>::clone ](address: &Address) -> (res: Address)
    ensures
        res == *address,
;

/// `Address::eq`: whether two handles name the same identifier. Nothing is
/// claimed of the answer.
#[verifier::external_body]
pub(crate) fn same_address(left: &Address, right: &Address) -> bool {
    left == right
}

/// What the ledger holds at an address.
#[derive(Clone, Copy, Debug, PartialEq, Eq, Structural)]
pub enum AddressKind {
    /// A contract that runs Wasm code.
    Wasm,
    /// The built-in contract of a Stellar asset.
    StellarAsset,
    /// An account.
    Account,
    /// Nothing: no contract is deployed and no account exists there.
    Nothing,
}

impl AddressKind {
    /// Whether a contract stands at the address.
    pub open spec fn is_contract(self) -> bool {
        self == AddressKind::Wasm || self == AddressKind::StellarAsset
    }

    /// Whether a contract stands at the address.
    pub fn holds_contract(self) -> (res: bool)
        ensures
            res == self.is_contract(),
    {
        match self {
            AddressKind::Wasm => true,
            AddressKind::StellarAsset => true,
            AddressKind::Account => false,
            AddressKind::Nothing => false,
        }
    }
}

/// `Address::executable`: what the ledger holds at `address`, one kind for
/// each of the three executables and one for none. The host reports a Wasm
/// or a Stellar asset executable only of a contract address. Nothing is
/// claimed of the answer.
#[verifier::external_body]
pub(crate) fn address_kind(address: &Address) -> AddressKind {
    match address.executable() {
        Some(Executable::Wasm(_)) => AddressKind::Wasm,
        Some(Executable::StellarAsset) => AddressKind::StellarAsset,
        Some(Executable::Account) => AddressKind::Account,
        None => AddressKind::Nothing,
    }
}

/// An address at which the host reported a contract. Only `token` and
/// `pool` build one, so every call into another contract names a contract
/// address.
pub struct ContractAddress {
    address: Address,
}

impl ContractAddress {
    /// The address that was checked.
    pub closed spec fn address(&self) -> Address {
        self.address
    }

    /// Accepts `address` where the host reports a contract at it, and fails
    /// with `otherwise` where it reports an account or nothing.
    fn holding_contract(address: &Address, otherwise: Error) -> (res: Result<ContractAddress, Error>)
        ensures
            res matches Ok(contract) ==> contract.address() == *address,
            res matches Err(e) ==> e == otherwise,
    {
        if address_kind(address).holds_contract() {
            Ok(ContractAddress { address: address.clone() })
        } else {
            Err(otherwise)
        }
    }

    /// Accepts `address` as a token where the host reports a contract at it;
    /// an account, or an address that holds nothing, is an invalid token.
    pub fn token(address: &Address) -> (res: Result<ContractAddress, Error>)
        ensures
            res matches Ok(contract) ==> contract.address() == *address,
            res matches Err(e) ==> e == Error::InvalidTokenAddress,
    {
        Self::holding_contract(address, Error::InvalidTokenAddress)
    }

    /// Accepts `address` as a venue pool where the host reports a contract
    /// at it; an account, or an address that holds nothing, is an invalid
    /// pool.
    pub fn pool(address: &Address) -> (res: Result<ContractAddress, Error>)
        ensures
            res matches Ok(contract) ==> contract.address() == *address,
            res matches Err(e) ==> e == Error::InvalidPoolAddress,
    {
        Self::holding_contract(address, Error::InvalidPoolAddress)
    }

    /// The address that was checked.
    pub fn as_address(&self) -> (res: &Address)
        ensures
            *res == self.address(),
    {
        &self.address
    }
}

/// `Env::try_invoke_contract` of the token's `balance` entry point for
/// `holder`; `None` when the call fails or yields no amount. The address was checked to hold a contract, so the host does
/// not refuse the call before it is made.
#[verifier::external_body]
pub(crate) fn token_balance(env: &Env, token: &ContractAddress, holder: &Address) -> Option<i128> {
    let args = (holder.clone(),).into_val(env);
    match env.try_invoke_contract::<i128, soroban_sdk::Error>(&token.address, &Symbol::new(env, "balance"), args) {
        Ok(Ok(amount)) => Some(amount),
        _ => None,
    }
}

/// `Env::try_invoke_contract` of the token's `transfer` entry point; `true`
/// when the token reported success. The address was checked to hold a contract, so the host does
/// not refuse the call before it is made.
#[verifier::external_body]
pub(crate) fn token_transfer(env: &Env, token: &ContractAddress, from: &Address, to: &Address, amount: i128) -> bool {
    let args = (from.clone(), to.clone(), amount).into_val(env);
    match env.try_invoke_contract::<(), soroban_sdk::Error>(&token.address, &Symbol::new(env, "transfer"), args) {
        Ok(Ok(())) => true,
        _ => false,
    }
}

/// `Env::try_invoke_contract` of a venue's `get_reserves` entry point for a
/// pair; `None` when the call fails or yields no pair of amounts. The address was checked to hold a contract, so the host does
/// not refuse the call before it is made.
#[verifier::external_body]
pub(crate) fn venue_reserves(env: &Env, pool: &ContractAddress, token_a: &Address, token_b: &Address) -> Option<(i128, i128)> {
    let args = (token_a.clone(), token_b.clone()).into_val(env);
    match env.try_invoke_contract::<(i128, i128), soroban_sdk::Error>(&pool.address, &Symbol::new(env, "get_reserves"), args) {
        Ok(Ok(reserves)) => Some(reserves),
        _ => None,
    }
}

/// `Env::try_invoke_contract` of a venue's `calculate_output` entry point;
/// `None` when the call fails or yields no amount. The address was checked to hold a contract, so the host does
/// not refuse the call before it is made.
#[verifier::external_body]
pub(crate) fn venue_quote(env: &Env, pool: &ContractAddress, token_in: &Address, token_out: &Address, amount_in: i128) -> Option<i128> {
    let args = (token_in.clone(), token_out.clone(), amount_in).into_val(env);
    match env.try_invoke_contract::<i128, soroban_sdk::Error>(&pool.address, &Symbol::new(env, "calculate_output"), args) {
        Ok(Ok(amount)) => Some(amount),
        _ => None,
    }
}

/// `Env::try_invoke_contract` of a venue's `swap` entry point; `None` when
/// the call fails or yields no amount. The address was checked to hold a contract, so the host does
/// not refuse the call before it is made.
#[verifier::external_body]
pub(crate) fn venue_swap(env: &Env, pool: &ContractAddress, token_in: &Address, token_out: &Address, amount_in: i128, min_amount_out: i128) -> Option<i128> {
    let args = (token_in.clone(), token_out.clone(), amount_in, min_amount_out).into_val(env);
    match env.try_invoke_contract::<i128, soroban_sdk::Error>(&pool.address, &Symbol::new(env, "swap"), args) {
        Ok(Ok(amount)) => Some(amount),
        _ => None,
    }
}

} // verus!
