//! Pass-through query declarations: a tagged union of query kinds addressed
//! to host modules (bank, denom, oracle, interchain accounts), each paired
//! with a fixed response shape. Plain data with no behavior; the host answers
//! them outside this crate. Addresses travel as plain strings here; the
//! host validates them at its boundary.

use vstd::prelude::*;

use crate::Coin;

verus! {

/// A token denomination, as the host's bank module names it.
#[derive(Clone, Debug, PartialEq, Eq)]
pub struct Denom(pub String);

/// A fixed-point decimal with 18 fractional digits, held as its integer
/// number of atomic units.
#[derive(Clone, Copy, Debug, PartialEq, Eq, Structural)]
pub struct Decimal {
    pub atomics: u128,
}

/// The queries an actor can address to host modules.
pub enum KujiraQuery {
    Bank(BankQuery),
    Denom(DenomQuery),
    Oracle(OracleQuery),
    Ica(IcaQuery),
}

/// Queries to the host's bank module.
pub enum BankQuery {
    Supply { denom: Denom },
}

/// Queries to the host's denom module.
pub enum DenomQuery {
    /// Given a subdenom minted by a contract, returns the full denom as the
    /// bank module uses it.
    FullDenom { creator_addr: String, subdenom: String },
    /// Returns the admin of a denom, if the denom is a token-factory denom.
    DenomAdmin { subdenom: String },
}

/// Queries to the host's oracle module.
pub enum OracleQuery {
    /// Returns the exchange rate of this denom.
    ExchangeRate { denom: String },
}

/// Queries to the host's interchain-account module.
pub enum IcaQuery {
    /// Returns the address of an interchain account.
    AccountAddress { owner: String, connection_id: String, account_id: String },
}

/// Response shape of [`OracleQuery::ExchangeRate`].
pub struct ExchangeRateResponse {
    pub rate: Decimal,
}

/// Response shape of [`BankQuery::Supply`].
pub struct SupplyResponse {
    pub amount: Coin,
}

/// Response shape of [`DenomQuery::FullDenom`].
pub struct FullDenomResponse {
    pub denom: Denom,
}

/// Response shape of [`DenomQuery::DenomAdmin`].
pub struct DenomAdminResponse {
    pub admin: String,
}

/// Response shape of [`IcaQuery::AccountAddress`].
pub struct AccountAddressResponse {
    pub address: String,
}

} // verus!
