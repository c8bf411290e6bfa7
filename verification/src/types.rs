//! Domain types shared by the freeze controls and the event payloads.

use vstd::prelude::*;

verus! {

/// Structured reason recorded with every draw freeze, so that indexers and
/// governance tooling can classify operational actions.
#[derive(Clone, Copy, Debug, PartialEq, Eq, Structural)]
pub enum FreezeReason {
    LiquidityReserve,
    Compliance,
    RiskInvestigation,
    OperationalMaintenance,
    BorrowerRequest,
}

/// Lifecycle status of a credit line, as carried in event payloads.
#[derive(Clone, Copy, Debug, PartialEq, Eq, Structural)]
pub enum CreditStatus {
    Active,
    Suspended,
    Defaulted,
    Closed,
}

/// How a grace-period waiver was applied to a suspended line's accrual.
#[derive(Clone, Copy, Debug, PartialEq, Eq, Structural)]
pub enum GraceWaiverMode {
    FullWaiver,
    ReducedRate,
}

/// Errors with which the contract reverts.
#[derive(Clone, Copy, Debug, PartialEq, Eq, Structural)]
pub enum ContractError {
    /// No credit line exists for the borrower.
    CreditLineNotFound,
}

impl ContractError {
    /// The numeric code the contract reports for this error.
    pub fn code(&self) -> (c: u32)
        ensures
            *self == ContractError::CreditLineNotFound ==> c == 3,
    {
        match self {
            ContractError::CreditLineNotFound => 3,
        }
    }
}

/// A character that may appear in a Soroban symbol: `a-z`, `A-Z`, `0-9`, `_`.
pub open spec fn is_symbol_char(c: char) -> bool {
    ('a' <= c && c <= 'z') || ('A' <= c && c <= 'Z') || ('0' <= c && c <= '9') || c == '_'
}

/// Text that a Soroban symbol can hold: at most 32 symbol characters.
pub open spec fn is_symbol_name(s: Seq<char>) -> bool {
    s.len() <= 32 && forall|i: int| 0 <= i < s.len() ==> is_symbol_char(#[trigger] s[i])
}

/// Text short enough for the compact symbol encoding: at most 9 symbol
/// characters.
pub open spec fn is_short_symbol_name(s: Seq<char>) -> bool {
    is_symbol_name(s) && s.len() <= 9
}

/// State of the global draw switch as it is stored: whether draws are
/// frozen, and the last reason recorded (kept after an unfreeze for audit).
#[derive(Clone, Copy, Debug, PartialEq, Eq, Structural)]
pub struct DrawsFreezeState {
    pub frozen: bool,
    pub reason: FreezeReason,
}

/// A Stellar account or contract address, held as its strkey text
/// (`G...` for accounts, `C...` for contracts). Two addresses are the same
/// account exactly when their strkeys are equal.
#[derive(Debug, PartialEq, Eq)]
pub struct Address {
    pub strkey: String,
}

impl View for Address {
    type V = Seq<char>;

    open spec fn view(&self) -> Seq<char> {
        self.strkey@
    }
}

impl Address {
    /// Whether `self` and `other` name the same account.
    pub fn same_as(&self, other: &Address) -> (b: bool)
        ensures
            b == (self@ == other@),
    {
        self.strkey == other.strkey
    }
}

impl Clone for Address {
    fn clone(&self) -> (r: Self)
        ensures
            r == *self,
    {
        Address { strkey: self.strkey.clone() }
    }
}

} // verus!
