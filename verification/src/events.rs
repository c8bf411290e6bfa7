//! Event payloads, topics and the `publish_*` builders of the credit
//! contract.
//!
//! Event topics and payload layouts are part of the contract's public ABI.
//! Each `publish_*` function builds the [`Emission`] the contract publishes:
//! its topic, fixed per kind of event ([`topic_of`]), and its payload. The
//! host then receives the topic as symbols ([`crate::host::topic_symbols`])
//! and the payload as a contract value.
//!
//! Topics live under the `credit` namespace, except the single-name
//! `("blk_chg",)` topic of borrower blocklist changes. The laws at the end of
//! this file state that every topic name is a valid Soroban symbol and that
//! no two kinds of event share a topic.

use vstd::prelude::*;
use crate::types::{
    is_short_symbol_name, is_symbol_name, Address, CreditStatus, FreezeReason, GraceWaiverMode,
};

verus! {

/// Lifecycle change of a credit line (opened, suspended, closed, ...).
#[derive(Clone, Debug, PartialEq, Eq)]
pub struct CreditLineEvent {
    pub borrower: Address,
    pub status: CreditStatus,
    pub credit_limit: i128,
    pub interest_rate_bps: u32,
    pub risk_score: u32,
}

/// A repayment and the utilization it left.
#[derive(Clone, Debug, PartialEq, Eq)]
pub struct RepaymentEvent {
    pub borrower: Address,
    pub amount: i128,
    pub new_utilized_amount: i128,
}

/// A draw and the utilization it left.
#[derive(Clone, Debug, PartialEq, Eq)]
pub struct DrawnEvent {
    pub borrower: Address,
    pub amount: i128,
    pub new_utilized_amount: i128,
}

/// Interest accrued onto a line.
#[derive(Clone, Debug, PartialEq, Eq)]
pub struct InterestAccruedEvent {
    pub borrower: Address,
    pub accrued_amount: i128,
    pub new_utilized_amount: i128,
}

/// Settlement of a defaulted line's liquidation.
#[derive(Debug, PartialEq, Eq)]
pub struct DefaultLiquidationSettledEvent {
    pub borrower: Address,
    pub settlement_id: soroban_sdk::Symbol,
    pub recovered_amount: i128,
    pub remaining_utilized_amount: i128,
    pub status: CreditStatus,
    pub close_factor_bps: u32,
}

/// A proposed admin and the time after which it may accept.
#[derive(Clone, Debug, PartialEq, Eq)]
pub struct AdminRotationProposedEvent {
    pub proposed_admin: Address,
    pub accept_after: u64,
}

/// An accepted admin rotation.
#[derive(Clone, Debug, PartialEq, Eq)]
pub struct AdminRotationAcceptedEvent {
    pub new_admin: Address,
}

/// New risk parameters of a line.
#[derive(Clone, Debug, PartialEq, Eq)]
pub struct RiskParametersUpdatedEvent {
    pub borrower: Address,
    pub credit_limit: i128,
    pub interest_rate_bps: u32,
    pub risk_score: u32,
}

/// An admin reversal of an earlier draw.
#[derive(Clone, Debug, PartialEq, Eq)]
pub struct DrawReversedEvent {
    pub borrower: Address,
    pub amount: i128,
    pub original_ts: u64,
    pub reason_code: u32,
    pub new_utilized_amount: i128,
    pub timestamp: u64,
    pub admin: Address,
    pub accounting_only: bool,
}

/// A change of the global draw switch, with its reason.
#[derive(Clone, Copy, Debug, PartialEq, Eq, Structural)]
pub struct DrawsFrozenEvent {
    pub frozen: bool,
    pub reason: FreezeReason,
}

/// A per-credit-line freeze (`frozen == true`) or unfreeze, with the ledger sequence at the time of the change.
#[derive(Clone, Debug, PartialEq, Eq)]
pub struct CreditLineFreezeEvent {
    pub borrower: Address,
    pub reason: FreezeReason,
    pub frozen: bool,
    pub ledger: u32,
}

/// A borrower blocked (`blocked == true`) or unblocked, with the ledger sequence at the time of the change.
#[derive(Clone, Debug, PartialEq, Eq)]
pub struct BorrowerBlockedEvent {
    pub borrower: Address,
    pub blocked: bool,
    pub ledger: u32,
}

/// A time-bounded freeze of a borrower's draws: `frozen_until` is the ledger timestamp at which it expires.
#[derive(Clone, Debug, PartialEq, Eq)]
pub struct BorrowerFrozenEvent {
    pub borrower: Address,
    pub frozen_until: u64,
    pub ledger: u32,
}

/// A draw with its recipient and reserve source.
#[derive(Clone, Debug, PartialEq, Eq)]
pub struct DrawnEventV2 {
    pub borrower: Address,
    pub recipient: Address,
    pub reserve_source: Address,
    pub amount: i128,
    pub new_utilized_amount: i128,
    pub timestamp: u64,
}

/// A protocol fee and the treasury balance after it.
#[derive(Clone, Debug, PartialEq, Eq)]
pub struct FeeAccruedEvent {
    pub borrower: Address,
    pub fee_amount: i128,
    pub new_treasury_balance: i128,
}

/// A delinquent line moved to its penalty rate.
#[derive(Clone, Debug, PartialEq, Eq)]
pub struct PenaltyRateEnteredEvent {
    pub borrower: Address,
    pub base_rate_bps: u32,
    pub penalty_surcharge_bps: u32,
    pub effective_rate_bps: u32,
}

/// A line left its penalty rate.
#[derive(Clone, Debug, PartialEq, Eq)]
pub struct PenaltyRateExitedEvent {
    pub borrower: Address,
    pub previous_rate_bps: u32,
    pub new_rate_bps: u32,
}

/// A grace-period waiver applied to a suspended line's accrual.
#[derive(Clone, Debug, PartialEq, Eq)]
pub struct GraceWaiverAppliedEvent {
    pub borrower: Address,
    pub waived_amount: i128,
    pub mode: GraceWaiverMode,
}

/// Collateral deposited and the balance after it.
#[derive(Clone, Debug, PartialEq, Eq)]
pub struct CollateralDepositedEvent {
    pub borrower: Address,
    pub amount: i128,
    pub new_balance: i128,
}

/// Collateral withdrawn and the balance after it.
#[derive(Clone, Debug, PartialEq, Eq)]
pub struct CollateralWithdrawnEvent {
    pub borrower: Address,
    pub amount: i128,
    pub new_balance: i128,
}

/// Tokens rescued from the contract to a recipient.
#[derive(Clone, Debug, PartialEq, Eq)]
pub struct TokenRescuedEvent {
    pub token: Address,
    pub recipient: Address,
    pub amount: i128,
}

/// A code upgrade: the old and new wasm hashes.
#[derive(Clone, Debug, PartialEq, Eq)]
pub struct ContractUpgradedEvent {
    pub old_wasm_hash: [u8; 32],
    pub new_wasm_hash: [u8; 32],
}

/// A late fee charged for a missed installment.
#[derive(Clone, Debug, PartialEq, Eq)]
pub struct LateFeeChargedEvent {
    pub borrower: Address,
    pub fee: i128,
    pub installment_index: u64,
}

/// The kinds of event whose topic the contract fixes.
#[derive(Clone, Copy, Debug, PartialEq, Eq, Structural)]
pub enum EventKind {
    Repayment,
    Drawn,
    DrawReversed,
    DrawnV2,
    FeeAccrued,
    AdminRotationProposed,
    AdminRotationAccepted,
    RiskParametersUpdated,
    InterestAccrued,
    DrawsFrozen,
    CreditLineFreeze,
    RateFormulaConfig,
    DefaultLiquidationRequested,
    DefaultLiquidationSettled,
    Paused,
    Unpaused,
    BorrowerBlocked,
    BorrowerFrozen,
    PenaltyRateEntered,
    PenaltyRateExited,
    CollateralDeposited,
    CollateralWithdrawn,
    TokenRescued,
    ContractUpgraded,
    OracleConfigSet,
    OraclePriceAccepted,
    LateFeeCharged,
    GraceWaiverApplied,
}

/// The topic an event is published under: fixed by its kind, or a pair of
/// symbols chosen by the caller (credit-line lifecycle events).
#[derive(Debug)]
pub enum EventTopic {
    Fixed(EventKind),
    Given(soroban_sdk::Symbol, soroban_sdk::Symbol),
}

/// The payload an event carries.
#[derive(Debug, PartialEq, Eq)]
pub enum EventData {
    CreditLine(CreditLineEvent),
    Repayment(RepaymentEvent),
    Drawn(DrawnEvent),
    DrawReversed(DrawReversedEvent),
    DrawnV2(DrawnEventV2),
    FeeAccrued(FeeAccruedEvent),
    AdminRotationProposed(AdminRotationProposedEvent),
    AdminRotationAccepted(AdminRotationAcceptedEvent),
    RiskParametersUpdated(RiskParametersUpdatedEvent),
    InterestAccrued(InterestAccruedEvent),
    DrawsFrozen(DrawsFrozenEvent),
    CreditLineFreeze(CreditLineFreezeEvent),
    /// Whether the rate formula is enabled.
    RateFormulaConfig(bool),
    /// The borrower and its utilized amount.
    DefaultLiquidationRequested(Address, i128),
    DefaultLiquidationSettled(DefaultLiquidationSettledEvent),
    /// Whether the protocol is now paused.
    Paused(bool),
    BorrowerBlocked(BorrowerBlockedEvent),
    BorrowerFrozen(BorrowerFrozenEvent),
    PenaltyRateEntered(PenaltyRateEnteredEvent),
    PenaltyRateExited(PenaltyRateExitedEvent),
    CollateralDeposited(CollateralDepositedEvent),
    CollateralWithdrawn(CollateralWithdrawnEvent),
    TokenRescued(TokenRescuedEvent),
    ContractUpgraded(ContractUpgradedEvent),
    /// The maximum price deviation (bps) and maximum price age (seconds).
    OracleConfigSet(u32, u64),
    /// The accepted price and its timestamp.
    OraclePriceAccepted(i128, u64),
    LateFeeCharged(LateFeeChargedEvent),
    GraceWaiverApplied(GraceWaiverAppliedEvent),
}

/// An event ready to be published: its topic and its payload.
#[derive(Debug)]
pub struct Emission {
    pub topic: EventTopic,
    pub data: EventData,
}

/// The event of `kind` with payload `data`.
pub open spec fn fixed_emission(kind: EventKind, data: EventData) -> Emission {
    Emission { topic: EventTopic::Fixed(kind), data }
}

fn fixed(kind: EventKind, data: EventData) -> (em: Emission)
    ensures
        em == fixed_emission(kind, data),
{
    Emission { topic: EventTopic::Fixed(kind), data }
}

/// An event of a fixed kind goes out under that kind's topic and carries
/// exactly the payload it was built from.
pub proof fn law_fixed_emission_keeps_kind_and_payload(kind: EventKind, data: EventData)
    ensures
        fixed_emission(kind, data).topic == EventTopic::Fixed(kind),
        fixed_emission(kind, data).data == data,
{
}

/// The names that make up the topic of each kind of event, in order.
pub open spec fn topic_of(kind: EventKind) -> Seq<Seq<char>> {
    match kind {
        EventKind::Repayment => seq!["credit"@, "repay"@],
        EventKind::Drawn => seq!["credit"@, "drawn"@],
        EventKind::DrawReversed => seq!["credit"@, "draw_rev"@],
        EventKind::DrawnV2 => seq!["credit"@, "drawn_v2"@],
        EventKind::FeeAccrued => seq!["credit"@, "fee_accrd"@],
        EventKind::AdminRotationProposed => seq!["credit"@, "admin_prp"@],
        EventKind::AdminRotationAccepted => seq!["credit"@, "admin_acc"@],
        EventKind::RiskParametersUpdated => seq!["credit"@, "risk_upd"@],
        EventKind::InterestAccrued => seq!["credit"@, "accrue"@],
        EventKind::DrawsFrozen => seq!["credit"@, "drw_freeze"@],
        EventKind::CreditLineFreeze => seq!["credit"@, "line_frz"@],
        EventKind::RateFormulaConfig => seq!["credit"@, "rate_form"@],
        EventKind::DefaultLiquidationRequested => seq!["credit"@, "liq_req"@],
        EventKind::DefaultLiquidationSettled => seq!["credit"@, "liq_setl"@],
        EventKind::Paused => seq!["credit"@, "paused"@],
        EventKind::Unpaused => seq!["credit"@, "unpaused"@],
        EventKind::BorrowerBlocked => seq!["blk_chg"@],
        EventKind::BorrowerFrozen => seq!["credit"@, "brw_frz"@],
        EventKind::PenaltyRateEntered => seq!["credit"@, "pen_enter"@],
        EventKind::PenaltyRateExited => seq!["credit"@, "pen_exit"@],
        EventKind::CollateralDeposited => seq!["credit"@, "col_dep"@],
        EventKind::CollateralWithdrawn => seq!["credit"@, "col_wit"@],
        EventKind::TokenRescued => seq!["credit"@, "tok_resc"@],
        EventKind::ContractUpgraded => seq!["credit"@, "upgraded"@],
        EventKind::OracleConfigSet => seq!["credit"@, "orc_cfg"@],
        EventKind::OraclePriceAccepted => seq!["credit"@, "orc_price"@],
        EventKind::LateFeeCharged => seq!["credit"@, "late_fee"@],
        EventKind::GraceWaiverApplied => seq!["credit"@, "grace_wv"@],
    }
}

/// The names of the topic of `kind`, in order.
pub fn topic_names(kind: EventKind) -> (names: Vec<&'static str>)
    ensures
        names@.len() == topic_of(kind).len(),
        forall|i: int| 0 <= i < names@.len() ==> (#[trigger] names@[i])@ == topic_of(kind)[i],
{
    match kind {
        EventKind::Repayment => vec!["credit", "repay"],
        EventKind::Drawn => vec!["credit", "drawn"],
        EventKind::DrawReversed => vec!["credit", "draw_rev"],
        EventKind::DrawnV2 => vec!["credit", "drawn_v2"],
        EventKind::FeeAccrued => vec!["credit", "fee_accrd"],
        EventKind::AdminRotationProposed => vec!["credit", "admin_prp"],
        EventKind::AdminRotationAccepted => vec!["credit", "admin_acc"],
        EventKind::RiskParametersUpdated => vec!["credit", "risk_upd"],
        EventKind::InterestAccrued => vec!["credit", "accrue"],
        EventKind::DrawsFrozen => vec!["credit", "drw_freeze"],
        EventKind::CreditLineFreeze => vec!["credit", "line_frz"],
        EventKind::RateFormulaConfig => vec!["credit", "rate_form"],
        EventKind::DefaultLiquidationRequested => vec!["credit", "liq_req"],
        EventKind::DefaultLiquidationSettled => vec!["credit", "liq_setl"],
        EventKind::Paused => vec!["credit", "paused"],
        EventKind::Unpaused => vec!["credit", "unpaused"],
        EventKind::BorrowerBlocked => vec!["blk_chg"],
        EventKind::BorrowerFrozen => vec!["credit", "brw_frz"],
        EventKind::PenaltyRateEntered => vec!["credit", "pen_enter"],
        EventKind::PenaltyRateExited => vec!["credit", "pen_exit"],
        EventKind::CollateralDeposited => vec!["credit", "col_dep"],
        EventKind::CollateralWithdrawn => vec!["credit", "col_wit"],
        EventKind::TokenRescued => vec!["credit", "tok_resc"],
        EventKind::ContractUpgraded => vec!["credit", "upgraded"],
        EventKind::OracleConfigSet => vec!["credit", "orc_cfg"],
        EventKind::OraclePriceAccepted => vec!["credit", "orc_price"],
        EventKind::LateFeeCharged => vec!["credit", "late_fee"],
        EventKind::GraceWaiverApplied => vec!["credit", "grace_wv"],
    }
}

/// Builds a credit-line lifecycle event to be published under the topic the caller
/// chose (such as `("credit", "opened")`).
pub fn publish_credit_line_event(
    topic: (soroban_sdk::Symbol, soroban_sdk::Symbol),
    event: CreditLineEvent,
) -> (em: Emission)
    ensures
        em == (Emission { topic: EventTopic::Given(topic.0, topic.1), data: EventData::CreditLine(event) }),
{
    Emission { topic: EventTopic::Given(topic.0, topic.1), data: EventData::CreditLine(event) }
}

/// Builds the event that publishes `event` under `("credit", "repay")`.
pub fn publish_repayment_event(event: RepaymentEvent) -> (em: Emission)
    ensures
        em == fixed_emission(EventKind::Repayment, EventData::Repayment(event)),
{
    fixed(EventKind::Repayment, EventData::Repayment(event))
}

/// Builds the event that publishes `event` under `("credit", "drawn")`.
pub fn publish_drawn_event(event: DrawnEvent) -> (em: Emission)
    ensures
        em == fixed_emission(EventKind::Drawn, EventData::Drawn(event)),
{
    fixed(EventKind::Drawn, EventData::Drawn(event))
}

/// Builds the event that publishes `event` under `("credit", "draw_rev")`.
pub fn publish_draw_reversed_event(event: DrawReversedEvent) -> (em: Emission)
    ensures
        em == fixed_emission(EventKind::DrawReversed, EventData::DrawReversed(event)),
{
    fixed(EventKind::DrawReversed, EventData::DrawReversed(event))
}

/// Builds the event that publishes `event` under `("credit", "drawn_v2")`.
pub fn publish_drawn_event_v2(event: DrawnEventV2) -> (em: Emission)
    ensures
        em == fixed_emission(EventKind::DrawnV2, EventData::DrawnV2(event)),
{
    fixed(EventKind::DrawnV2, EventData::DrawnV2(event))
}

/// Builds the event that publishes `event` under `("credit", "fee_accrd")`.
pub fn publish_fee_accrued_event(event: FeeAccruedEvent) -> (em: Emission)
    ensures
        em == fixed_emission(EventKind::FeeAccrued, EventData::FeeAccrued(event)),
{
    fixed(EventKind::FeeAccrued, EventData::FeeAccrued(event))
}

/// Builds the event that publishes `event` under `("credit", "accrue")`.
pub fn publish_interest_accrued_event(event: InterestAccruedEvent) -> (em: Emission)
    ensures
        em == fixed_emission(EventKind::InterestAccrued, EventData::InterestAccrued(event)),
{
    fixed(EventKind::InterestAccrued, EventData::InterestAccrued(event))
}

/// Builds the event that publishes `event` under `("credit", "liq_setl")`.
pub fn publish_default_liquidation_settled_event(event: DefaultLiquidationSettledEvent) -> (em: Emission)
    ensures
        em == fixed_emission(EventKind::DefaultLiquidationSettled, EventData::DefaultLiquidationSettled(event)),
{
    fixed(EventKind::DefaultLiquidationSettled, EventData::DefaultLiquidationSettled(event))
}

/// Builds the event that publishes `event` under `("credit", "col_dep")`.
pub fn publish_collateral_deposited_event(event: CollateralDepositedEvent) -> (em: Emission)
    ensures
        em == fixed_emission(EventKind::CollateralDeposited, EventData::CollateralDeposited(event)),
{
    fixed(EventKind::CollateralDeposited, EventData::CollateralDeposited(event))
}

/// Builds the event that publishes `event` under `("credit", "col_wit")`.
pub fn publish_collateral_withdrawn_event(event: CollateralWithdrawnEvent) -> (em: Emission)
    ensures
        em == fixed_emission(EventKind::CollateralWithdrawn, EventData::CollateralWithdrawn(event)),
{
    fixed(EventKind::CollateralWithdrawn, EventData::CollateralWithdrawn(event))
}

/// Builds the event that publishes `event` under `("credit", "tok_resc")`.
pub fn publish_token_rescued_event(event: TokenRescuedEvent) -> (em: Emission)
    ensures
        em == fixed_emission(EventKind::TokenRescued, EventData::TokenRescued(event)),
{
    fixed(EventKind::TokenRescued, EventData::TokenRescued(event))
}

/// Builds the event that publishes `event` under `("credit", "upgraded")`.
pub fn publish_contract_upgraded_event(event: ContractUpgradedEvent) -> (em: Emission)
    ensures
        em == fixed_emission(EventKind::ContractUpgraded, EventData::ContractUpgraded(event)),
{
    fixed(EventKind::ContractUpgraded, EventData::ContractUpgraded(event))
}

/// Builds the event that publishes `event` under `("credit", "late_fee")`.
pub fn publish_late_fee_charged_event(event: LateFeeChargedEvent) -> (em: Emission)
    ensures
        em == fixed_emission(EventKind::LateFeeCharged, EventData::LateFeeCharged(event)),
{
    fixed(EventKind::LateFeeCharged, EventData::LateFeeCharged(event))
}

/// Builds the event of a proposed admin rotation, published under `("credit", "admin_prp")`.
pub fn publish_admin_rotation_proposed(
    proposed_admin: &Address,
    accept_after: u64,
) -> (em: Emission)
    ensures
        em == fixed_emission(EventKind::AdminRotationProposed, EventData::AdminRotationProposed(
            AdminRotationProposedEvent {
                proposed_admin: *proposed_admin,
                accept_after,
            },
        )),
{
    fixed(EventKind::AdminRotationProposed, EventData::AdminRotationProposed(
        AdminRotationProposedEvent {
            proposed_admin: proposed_admin.clone(),
            accept_after,
        },
    ))
}

/// Builds the event of an accepted admin rotation, published under `("credit", "admin_acc")`.
pub fn publish_admin_rotation_accepted(new_admin: &Address) -> (em: Emission)
    ensures
        em == fixed_emission(EventKind::AdminRotationAccepted, EventData::AdminRotationAccepted(
            AdminRotationAcceptedEvent {
                new_admin: *new_admin,
            },
        )),
{
    fixed(EventKind::AdminRotationAccepted, EventData::AdminRotationAccepted(
        AdminRotationAcceptedEvent {
            new_admin: new_admin.clone(),
        },
    ))
}

/// Builds the event of new risk parameters of `borrower`'s line, published
/// under `("credit", "risk_upd")`.
pub fn publish_risk_parameters_updated(
    borrower: &Address,
    credit_limit: i128,
    interest_rate_bps: u32,
    risk_score: u32,
) -> (em: Emission)
    ensures
        em == fixed_emission(EventKind::RiskParametersUpdated, EventData::RiskParametersUpdated(
            RiskParametersUpdatedEvent {
                borrower: *borrower,
                credit_limit,
                interest_rate_bps,
                risk_score,
            },
        )),
{
    fixed(EventKind::RiskParametersUpdated, EventData::RiskParametersUpdated(
        RiskParametersUpdatedEvent {
            borrower: borrower.clone(),
            credit_limit,
            interest_rate_bps,
            risk_score,
        },
    ))
}

/// Builds the event of a change of the global draw switch, published under
/// `("credit", "drw_freeze")`.
pub fn publish_draws_frozen_event(frozen: bool, reason: FreezeReason) -> (em: Emission)
    ensures
        em == fixed_emission(EventKind::DrawsFrozen, EventData::DrawsFrozen(DrawsFrozenEvent { frozen, reason })),
{
    fixed(EventKind::DrawsFrozen, EventData::DrawsFrozen(DrawsFrozenEvent { frozen, reason }))
}

/// Builds the event of a per-credit-line freeze or unfreeze, published under
/// `("credit", "line_frz")` and stamped with `ledger`, the current ledger sequence.
pub fn publish_credit_line_freeze_event(
    borrower: &Address,
    reason: FreezeReason,
    frozen: bool,
    ledger: u32,
) -> (em: Emission)
    ensures
        em == fixed_emission(EventKind::CreditLineFreeze, EventData::CreditLineFreeze(
            CreditLineFreezeEvent {
                borrower: *borrower,
                reason,
                frozen,
                ledger,
            },
        )),
{
    fixed(EventKind::CreditLineFreeze, EventData::CreditLineFreeze(
        CreditLineFreezeEvent {
            borrower: borrower.clone(),
            reason,
            frozen,
            ledger,
        },
    ))
}

/// Builds the event of whether the rate formula is enabled, published under
/// `("credit", "rate_form")`.
pub fn publish_rate_formula_config_event(enabled: bool) -> (em: Emission)
    ensures
        em == fixed_emission(EventKind::RateFormulaConfig, EventData::RateFormulaConfig(enabled)),
{
    fixed(EventKind::RateFormulaConfig, EventData::RateFormulaConfig(enabled))
}

/// Builds the event of a liquidation request for `borrower`, published under
/// `("credit", "liq_req")`.
pub fn publish_default_liquidation_requested_event(
    borrower: &Address,
    utilized_amount: i128,
) -> (em: Emission)
    ensures
        em == fixed_emission(EventKind::DefaultLiquidationRequested, EventData::DefaultLiquidationRequested(*borrower, utilized_amount)),
{
    fixed(EventKind::DefaultLiquidationRequested, EventData::DefaultLiquidationRequested(borrower.clone(), utilized_amount))
}

/// Builds the event of a borrower blocked or unblocked, published under
/// `("blk_chg",)` and stamped with `ledger`, the current ledger sequence.
pub fn publish_borrower_blocked_event(
    borrower: &Address,
    blocked: bool,
    ledger: u32,
) -> (em: Emission)
    ensures
        em == fixed_emission(EventKind::BorrowerBlocked, EventData::BorrowerBlocked(
            BorrowerBlockedEvent {
                borrower: *borrower,
                blocked,
                ledger,
            },
        )),
{
    fixed(EventKind::BorrowerBlocked, EventData::BorrowerBlocked(
        BorrowerBlockedEvent {
            borrower: borrower.clone(),
            blocked,
            ledger,
        },
    ))
}

/// Builds the event of a time-bounded freeze of `borrower`'s draws, published
/// under `("credit", "brw_frz")`: `frozen_until` is the ledger timestamp at which it
/// expires; the event is stamped with `ledger`, the current ledger sequence.
pub fn publish_borrower_frozen_event(
    borrower: &Address,
    frozen_until: u64,
    ledger: u32,
) -> (em: Emission)
    ensures
        em == fixed_emission(EventKind::BorrowerFrozen, EventData::BorrowerFrozen(
            BorrowerFrozenEvent {
                borrower: *borrower,
                frozen_until,
                ledger,
            },
        )),
{
    fixed(EventKind::BorrowerFrozen, EventData::BorrowerFrozen(
        BorrowerFrozenEvent {
            borrower: borrower.clone(),
            frozen_until,
            ledger,
        },
    ))
}

/// Builds the event that `borrower`'s delinquent line entered its penalty
/// rate, published under `("credit", "pen_enter")`.
pub fn publish_penalty_rate_entered_event(
    borrower: &Address,
    base_rate_bps: u32,
    penalty_surcharge_bps: u32,
    effective_rate_bps: u32,
) -> (em: Emission)
    ensures
        em == fixed_emission(EventKind::PenaltyRateEntered, EventData::PenaltyRateEntered(
            PenaltyRateEnteredEvent {
                borrower: *borrower,
                base_rate_bps,
                penalty_surcharge_bps,
                effective_rate_bps,
            },
        )),
{
    fixed(EventKind::PenaltyRateEntered, EventData::PenaltyRateEntered(
        PenaltyRateEnteredEvent {
            borrower: borrower.clone(),
            base_rate_bps,
            penalty_surcharge_bps,
            effective_rate_bps,
        },
    ))
}

/// Builds the event that `borrower`'s line left its penalty rate, published
/// under `("credit", "pen_exit")`.
pub fn publish_penalty_rate_exited_event(
    borrower: &Address,
    previous_rate_bps: u32,
    new_rate_bps: u32,
) -> (em: Emission)
    ensures
        em == fixed_emission(EventKind::PenaltyRateExited, EventData::PenaltyRateExited(
            PenaltyRateExitedEvent {
                borrower: *borrower,
                previous_rate_bps,
                new_rate_bps,
            },
        )),
{
    fixed(EventKind::PenaltyRateExited, EventData::PenaltyRateExited(
        PenaltyRateExitedEvent {
            borrower: borrower.clone(),
            previous_rate_bps,
            new_rate_bps,
        },
    ))
}

/// Builds the event of the oracle configuration, published under `("credit", "orc_cfg")`.
pub fn publish_oracle_config_set_event(
    max_deviation_bps: u32,
    max_age_seconds: u64,
) -> (em: Emission)
    ensures
        em == fixed_emission(EventKind::OracleConfigSet, EventData::OracleConfigSet(max_deviation_bps, max_age_seconds)),
{
    fixed(EventKind::OracleConfigSet, EventData::OracleConfigSet(max_deviation_bps, max_age_seconds))
}

/// Builds the event of an accepted oracle price, published under `("credit", "orc_price")`.
pub fn publish_oracle_price_accepted_event(price: i128, timestamp: u64) -> (em: Emission)
    ensures
        em == fixed_emission(EventKind::OraclePriceAccepted, EventData::OraclePriceAccepted(price, timestamp)),
{
    fixed(EventKind::OraclePriceAccepted, EventData::OraclePriceAccepted(price, timestamp))
}

/// Builds the event of a grace-period waiver for `borrower`, published under
/// `("credit", "grace_wv")`.
pub fn publish_grace_waiver_applied_event(
    borrower: &Address,
    waived_amount: i128,
    mode: GraceWaiverMode,
) -> (em: Emission)
    ensures
        em == fixed_emission(EventKind::GraceWaiverApplied, EventData::GraceWaiverApplied(
            GraceWaiverAppliedEvent {
                borrower: *borrower,
                waived_amount,
                mode,
            },
        )),
{
    fixed(EventKind::GraceWaiverApplied, EventData::GraceWaiverApplied(
        GraceWaiverAppliedEvent {
            borrower: borrower.clone(),
            waived_amount,
            mode,
        },
    ))
}

/// Builds the event of the protocol pause switch, published under
/// `("credit", "paused")` when `paused` and under `("credit", "unpaused")`
/// otherwise; the payload is `paused`.
pub fn publish_paused_event(paused: bool) -> (em: Emission)
    ensures
        em == fixed_emission(
            if paused {
                EventKind::Paused
            } else {
                EventKind::Unpaused
            },
            EventData::Paused(paused),
        ),
{
    let kind = if paused {
        EventKind::Paused
    } else {
        EventKind::Unpaused
    };
    fixed(kind, EventData::Paused(paused))
}

/// The kind of event a topic belongs to, for the topics of [`topic_of`]
/// (any other topic gives `Repayment`). The last name of a topic is told
/// apart from every other by its length, its third character and its
/// second-to-last character; this reads the kind off those three. It serves
/// to prove that no two kinds share a topic.
pub open spec fn kind_of_topic(topic: Seq<Seq<char>>) -> EventKind {
    let n = topic.last();
    let key = (n.len(), n[2], n[n.len() - 2]);
    if key == (5nat, 'p', 'a') {
        EventKind::Repayment
    } else if key == (5nat, 'a', 'w') {
        EventKind::Drawn
    } else if key == (8nat, 'a', 'e') {
        EventKind::DrawReversed
    } else if key == (8nat, 'a', 'v') {
        EventKind::DrawnV2
    } else if key == (9nat, 'e', 'r') {
        EventKind::FeeAccrued
    } else if key == (9nat, 'm', 'r') {
        EventKind::AdminRotationProposed
    } else if key == (9nat, 'm', 'c') {
        EventKind::AdminRotationAccepted
    } else if key == (8nat, 's', 'p') {
        EventKind::RiskParametersUpdated
    } else if key == (6nat, 'c', 'u') {
        EventKind::InterestAccrued
    } else if key == (10nat, 'w', 'z') {
        EventKind::DrawsFrozen
    } else if key == (8nat, 'n', 'r') {
        EventKind::CreditLineFreeze
    } else if key == (9nat, 't', 'r') {
        EventKind::RateFormulaConfig
    } else if key == (7nat, 'q', 'e') {
        EventKind::DefaultLiquidationRequested
    } else if key == (8nat, 'q', 't') {
        EventKind::DefaultLiquidationSettled
    } else if key == (6nat, 'u', 'e') {
        EventKind::Paused
    } else if key == (8nat, 'p', 'e') {
        EventKind::Unpaused
    } else if key == (7nat, 'k', 'h') {
        EventKind::BorrowerBlocked
    } else if key == (7nat, 'w', 'r') {
        EventKind::BorrowerFrozen
    } else if key == (9nat, 'n', 'e') {
        EventKind::PenaltyRateEntered
    } else if key == (8nat, 'n', 'i') {
        EventKind::PenaltyRateExited
    } else if key == (7nat, 'l', 'e') {
        EventKind::CollateralDeposited
    } else if key == (7nat, 'l', 'i') {
        EventKind::CollateralWithdrawn
    } else if key == (8nat, 'k', 's') {
        EventKind::TokenRescued
    } else if key == (8nat, 'g', 'e') {
        EventKind::ContractUpgraded
    } else if key == (7nat, 'c', 'f') {
        EventKind::OracleConfigSet
    } else if key == (9nat, 'c', 'c') {
        EventKind::OraclePriceAccepted
    } else if key == (8nat, 't', 'e') {
        EventKind::LateFeeCharged
    } else if key == (8nat, 'a', 'w') {
        EventKind::GraceWaiverApplied
    } else {
        EventKind::Repayment
    }
}

/// What the literal names of the topic of `kind` are: one or two valid
/// symbol names, at most 9 characters each but for `drw_freeze`, and a last
/// name from which [`kind_of_topic`] recovers `kind`.
proof fn lemma_topic_literals(kind: EventKind)
    ensures
        1 <= topic_of(kind).len() <= 2,
        forall|i: int| 0 <= i < topic_of(kind).len() ==> is_symbol_name(#[trigger] topic_of(kind)[i]),
        kind != EventKind::DrawsFrozen ==> forall|i: int|
            0 <= i < topic_of(kind).len() ==> is_short_symbol_name(#[trigger] topic_of(kind)[i]),
        kind_of_topic(topic_of(kind)) == kind,
{
    reveal_strlit("credit");
    match kind {
        EventKind::Repayment => {
            reveal_strlit("repay");
        },
        EventKind::Drawn => {
            reveal_strlit("drawn");
        },
        EventKind::DrawReversed => {
            reveal_strlit("draw_rev");
        },
        EventKind::DrawnV2 => {
            reveal_strlit("drawn_v2");
        },
        EventKind::FeeAccrued => {
            reveal_strlit("fee_accrd");
        },
        EventKind::AdminRotationProposed => {
            reveal_strlit("admin_prp");
        },
        EventKind::AdminRotationAccepted => {
            reveal_strlit("admin_acc");
        },
        EventKind::RiskParametersUpdated => {
            reveal_strlit("risk_upd");
        },
        EventKind::InterestAccrued => {
            reveal_strlit("accrue");
        },
        EventKind::DrawsFrozen => {
            reveal_strlit("drw_freeze");
        },
        EventKind::CreditLineFreeze => {
            reveal_strlit("line_frz");
        },
        EventKind::RateFormulaConfig => {
            reveal_strlit("rate_form");
        },
        EventKind::DefaultLiquidationRequested => {
            reveal_strlit("liq_req");
        },
        EventKind::DefaultLiquidationSettled => {
            reveal_strlit("liq_setl");
        },
        EventKind::Paused => {
            reveal_strlit("paused");
        },
        EventKind::Unpaused => {
            reveal_strlit("unpaused");
        },
        EventKind::BorrowerBlocked => {
            reveal_strlit("blk_chg");
        },
        EventKind::BorrowerFrozen => {
            reveal_strlit("brw_frz");
        },
        EventKind::PenaltyRateEntered => {
            reveal_strlit("pen_enter");
        },
        EventKind::PenaltyRateExited => {
            reveal_strlit("pen_exit");
        },
        EventKind::CollateralDeposited => {
            reveal_strlit("col_dep");
        },
        EventKind::CollateralWithdrawn => {
            reveal_strlit("col_wit");
        },
        EventKind::TokenRescued => {
            reveal_strlit("tok_resc");
        },
        EventKind::ContractUpgraded => {
            reveal_strlit("upgraded");
        },
        EventKind::OracleConfigSet => {
            reveal_strlit("orc_cfg");
        },
        EventKind::OraclePriceAccepted => {
            reveal_strlit("orc_price");
        },
        EventKind::LateFeeCharged => {
            reveal_strlit("late_fee");
        },
        EventKind::GraceWaiverApplied => {
            reveal_strlit("grace_wv");
        },
    }
}

/// Every topic is made of one or two names, and each name is text a Soroban
/// symbol can hold, so that building the topic's symbols never fails.
pub proof fn lemma_topic_names_are_symbols(kind: EventKind)
    ensures
        1 <= topic_of(kind).len() <= 2,
        forall|i: int| 0 <= i < topic_of(kind).len() ==> is_symbol_name(#[trigger] topic_of(kind)[i]),
{
    lemma_topic_literals(kind);
}

/// The topic of an event identifies its kind: `kind_of_topic` recovers it.
pub proof fn lemma_topic_identifies_kind(kind: EventKind)
    ensures
        kind_of_topic(topic_of(kind)) == kind,
{
    lemma_topic_literals(kind);
}

/// No two kinds of event share a topic.
pub proof fn lemma_topics_distinct(k1: EventKind, k2: EventKind)
    requires
        k1 != k2,
    ensures
        topic_of(k1) != topic_of(k2),
{
    lemma_topic_identifies_kind(k1);
    lemma_topic_identifies_kind(k2);
}

/// Every topic lives under the `credit` namespace, except the single-name
/// topic of borrower blocklist changes.
pub proof fn lemma_topic_namespace(kind: EventKind)
    ensures
        kind == EventKind::BorrowerBlocked ==> topic_of(kind) == seq!["blk_chg"@],
        kind != EventKind::BorrowerBlocked ==> topic_of(kind).len() == 2 && topic_of(kind)[0]
            == "credit"@,
{
}

/// All topic names fit the compact symbol encoding (at most 9 characters),
/// except the second name of the global draw-freeze topic, `drw_freeze`.
pub proof fn lemma_short_topic_names(kind: EventKind)
    requires
        kind != EventKind::DrawsFrozen,
    ensures
        forall|i: int| 0 <= i < topic_of(kind).len() ==> is_short_symbol_name(#[trigger] topic_of(kind)[i]),
{
    lemma_topic_literals(kind);
}

} // verus!
