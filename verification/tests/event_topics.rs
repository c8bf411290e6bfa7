//! Event topics and payloads.

use creditra_credit::events::{
    publish_admin_rotation_accepted, publish_admin_rotation_proposed,
    publish_collateral_deposited_event,
    publish_collateral_withdrawn_event, publish_contract_upgraded_event, publish_credit_line_event,
    publish_default_liquidation_requested_event, publish_default_liquidation_settled_event,
    publish_draw_reversed_event, publish_draws_frozen_event, publish_drawn_event,
    publish_drawn_event_v2, publish_fee_accrued_event, publish_grace_waiver_applied_event,
    publish_interest_accrued_event, publish_late_fee_charged_event,
    publish_oracle_config_set_event, publish_oracle_price_accepted_event, publish_paused_event,
    publish_penalty_rate_entered_event, publish_penalty_rate_exited_event,
    publish_rate_formula_config_event, publish_repayment_event, publish_risk_parameters_updated,
    publish_token_rescued_event, publish_credit_line_freeze_event,
    publish_borrower_blocked_event, publish_borrower_frozen_event, topic_names,
    AdminRotationAcceptedEvent, AdminRotationProposedEvent, BorrowerBlockedEvent,
    BorrowerFrozenEvent, CollateralDepositedEvent, CollateralWithdrawnEvent,
    ContractUpgradedEvent, CreditLineEvent, CreditLineFreezeEvent, DefaultLiquidationSettledEvent,
    DrawReversedEvent, DrawnEvent, DrawnEventV2, DrawsFrozenEvent, Emission, EventData, EventKind,
    EventTopic, FeeAccruedEvent, GraceWaiverAppliedEvent, InterestAccruedEvent,
    LateFeeChargedEvent, PenaltyRateEnteredEvent, PenaltyRateExitedEvent, RepaymentEvent,
    RiskParametersUpdatedEvent, TokenRescuedEvent,
};
use creditra_credit::host::{topic_symbols, TopicSymbols};
use creditra_credit::types::{Address, CreditStatus, FreezeReason, GraceWaiverMode};

const ALL_KINDS: [EventKind; 28] = [
    EventKind::Repayment,
    EventKind::Drawn,
    EventKind::DrawReversed,
    EventKind::DrawnV2,
    EventKind::FeeAccrued,
    EventKind::AdminRotationProposed,
    EventKind::AdminRotationAccepted,
    EventKind::RiskParametersUpdated,
    EventKind::InterestAccrued,
    EventKind::DrawsFrozen,
    EventKind::CreditLineFreeze,
    EventKind::RateFormulaConfig,
    EventKind::DefaultLiquidationRequested,
    EventKind::DefaultLiquidationSettled,
    EventKind::Paused,
    EventKind::Unpaused,
    EventKind::BorrowerBlocked,
    EventKind::BorrowerFrozen,
    EventKind::PenaltyRateEntered,
    EventKind::PenaltyRateExited,
    EventKind::CollateralDeposited,
    EventKind::CollateralWithdrawn,
    EventKind::TokenRescued,
    EventKind::ContractUpgraded,
    EventKind::OracleConfigSet,
    EventKind::OraclePriceAccepted,
    EventKind::LateFeeCharged,
    EventKind::GraceWaiverApplied,
];

fn account(strkey: &str) -> Address {
    Address { strkey: strkey.to_string() }
}

fn who() -> Address {
    account("GBORROWERAAAAAAAAAAAAAAAAAAAAAAAAAAAAAAAAAAAAAAAAAAAAAAA")
}

fn names(em: &Emission) -> Vec<&'static str> {
    match em.topic {
        EventTopic::Fixed(kind) => topic_names(kind),
        EventTopic::Given(_, _) => panic!("expected a fixed topic"),
    }
}

#[test]
fn every_topic_name_is_a_valid_symbol() {
    for kind in ALL_KINDS {
        let ns = topic_names(kind);
        assert!(ns.len() == 1 || ns.len() == 2);
        for n in ns {
            assert!(!n.is_empty() && n.len() <= 32, "{n}");
            assert!(n.bytes().all(|b| b.is_ascii_alphanumeric() || b == b'_'), "{n}");
        }
    }
}

#[test]
fn topics_are_distinct_and_namespaced() {
    let all: Vec<Vec<&str>> = ALL_KINDS.iter().map(|k| topic_names(*k)).collect();
    for i in 0..all.len() {
        for j in 0..all.len() {
            if i != j {
                assert_ne!(all[i], all[j]);
            }
        }
        if ALL_KINDS[i] == EventKind::BorrowerBlocked {
            assert_eq!(all[i], vec!["blk_chg"]);
        } else {
            assert_eq!(all[i][0], "credit");
        }
    }
}

#[test]
fn only_draw_freeze_topic_name_exceeds_nine_characters() {
    let long: Vec<&str> = ALL_KINDS
        .iter()
        .flat_map(|k| topic_names(*k))
        .filter(|n| n.len() > 9)
        .collect();
    assert_eq!(long, vec!["drw_freeze"]);
}

#[test]
fn topic_symbols_carry_the_names() {
    let env = soroban_sdk::Env::default();
    match topic_symbols(&env, EventTopic::Fixed(EventKind::DrawsFrozen)) {
        TopicSymbols::Two(a, b) => {
            assert_eq!(a.to_string(), "credit");
            assert_eq!(b.to_string(), "drw_freeze");
        }
        TopicSymbols::One(_) => panic!("expected two symbols"),
    }
    match topic_symbols(&env, EventTopic::Fixed(EventKind::BorrowerBlocked)) {
        TopicSymbols::One(a) => assert_eq!(a.to_string(), "blk_chg"),
        TopicSymbols::Two(_, _) => panic!("expected one symbol"),
    }
    let opened = soroban_sdk::Symbol::new(&env, "opened");
    let credit = soroban_sdk::Symbol::new(&env, "credit");
    match topic_symbols(&env, EventTopic::Given(credit, opened)) {
        TopicSymbols::Two(a, b) => {
            assert_eq!(a.to_string(), "credit");
            assert_eq!(b.to_string(), "opened");
        }
        TopicSymbols::One(_) => panic!("expected two symbols"),
    }
}

#[test]
fn credit_line_event_keeps_caller_topic() {
    let env = soroban_sdk::Env::default();
    let topic = (soroban_sdk::Symbol::new(&env, "credit"), soroban_sdk::Symbol::new(&env, "opened"));
    let event = CreditLineEvent {
        borrower: who(),
        status: CreditStatus::Active,
        credit_limit: 1_000,
        interest_rate_bps: 300,
        risk_score: 50,
    };
    let em = publish_credit_line_event(topic, event.clone());
    match em.topic {
        EventTopic::Given(a, b) => {
            assert_eq!(a.to_string(), "credit");
            assert_eq!(b.to_string(), "opened");
        }
        EventTopic::Fixed(_) => panic!("expected the caller's topic"),
    }
    assert_eq!(em.data, EventData::CreditLine(event));
}

#[test]
fn payload_events_use_their_topics() {
    let b = who();
    let em = publish_repayment_event(RepaymentEvent { borrower: b.clone(), amount: 5, new_utilized_amount: 7 });
    assert_eq!(names(&em), vec!["credit", "repay"]);
    assert_eq!(em.data, EventData::Repayment(RepaymentEvent { borrower: b.clone(), amount: 5, new_utilized_amount: 7 }));

    let em = publish_drawn_event(DrawnEvent { borrower: b.clone(), amount: 100, new_utilized_amount: 100 });
    assert_eq!(names(&em), vec!["credit", "drawn"]);

    let rev = DrawReversedEvent {
        borrower: b.clone(),
        amount: 10,
        original_ts: 1,
        reason_code: 2,
        new_utilized_amount: 0,
        timestamp: 3,
        admin: account("GADMIN"),
        accounting_only: true,
    };
    let em = publish_draw_reversed_event(rev.clone());
    assert_eq!(names(&em), vec!["credit", "draw_rev"]);
    assert_eq!(em.data, EventData::DrawReversed(rev));

    let v2 = DrawnEventV2 {
        borrower: b.clone(),
        recipient: account("GRECIPIENT"),
        reserve_source: account("GSOURCE"),
        amount: 1,
        new_utilized_amount: 1,
        timestamp: 9,
    };
    assert_eq!(names(&publish_drawn_event_v2(v2)), vec!["credit", "drawn_v2"]);
    assert_eq!(
        names(&publish_fee_accrued_event(FeeAccruedEvent { borrower: b.clone(), fee_amount: 1, new_treasury_balance: 2 })),
        vec!["credit", "fee_accrd"]
    );
    assert_eq!(
        names(&publish_interest_accrued_event(InterestAccruedEvent {
            borrower: b.clone(),
            accrued_amount: 3,
            new_utilized_amount: 4
        })),
        vec!["credit", "accrue"]
    );
    let env = soroban_sdk::Env::default();
    let settled = || DefaultLiquidationSettledEvent {
        borrower: b.clone(),
        settlement_id: soroban_sdk::Symbol::new(&env, "s1"),
        recovered_amount: 10,
        remaining_utilized_amount: 5,
        status: CreditStatus::Defaulted,
        close_factor_bps: 5000,
    };
    let em = publish_default_liquidation_settled_event(settled());
    assert_eq!(names(&em), vec!["credit", "liq_setl"]);
    assert_eq!(em.data, EventData::DefaultLiquidationSettled(settled()));
    assert_eq!(
        names(&publish_collateral_deposited_event(CollateralDepositedEvent { borrower: b.clone(), amount: 1, new_balance: 1 })),
        vec!["credit", "col_dep"]
    );
    assert_eq!(
        names(&publish_collateral_withdrawn_event(CollateralWithdrawnEvent { borrower: b.clone(), amount: 1, new_balance: 0 })),
        vec!["credit", "col_wit"]
    );
    assert_eq!(
        names(&publish_token_rescued_event(TokenRescuedEvent {
            token: account("CTOKEN"),
            recipient: account("GRECIPIENT"),
            amount: 8
        })),
        vec!["credit", "tok_resc"]
    );
    let upgraded = ContractUpgradedEvent { old_wasm_hash: [1u8; 32], new_wasm_hash: [2u8; 32] };
    let em = publish_contract_upgraded_event(upgraded.clone());
    assert_eq!(names(&em), vec!["credit", "upgraded"]);
    assert_eq!(em.data, EventData::ContractUpgraded(upgraded));
    assert_eq!(
        names(&publish_late_fee_charged_event(LateFeeChargedEvent { borrower: b.clone(), fee: 2, installment_index: 3 })),
        vec!["credit", "late_fee"]
    );
}

#[test]
fn field_events_build_their_payloads() {
    let b = who();
    let admin = account("GNEWADMIN");

    let em = publish_admin_rotation_proposed(&admin, 1_000);
    assert_eq!(names(&em), vec!["credit", "admin_prp"]);
    assert_eq!(
        em.data,
        EventData::AdminRotationProposed(AdminRotationProposedEvent { proposed_admin: admin.clone(), accept_after: 1_000 })
    );

    let em = publish_admin_rotation_accepted(&admin);
    assert_eq!(names(&em), vec!["credit", "admin_acc"]);
    assert_eq!(em.data, EventData::AdminRotationAccepted(AdminRotationAcceptedEvent { new_admin: admin.clone() }));

    let em = publish_risk_parameters_updated(&b, 900_000, 400, 50);
    assert_eq!(names(&em), vec!["credit", "risk_upd"]);
    assert_eq!(
        em.data,
        EventData::RiskParametersUpdated(RiskParametersUpdatedEvent {
            borrower: b.clone(),
            credit_limit: 900_000,
            interest_rate_bps: 400,
            risk_score: 50
        })
    );

    let em = publish_draws_frozen_event(true, FreezeReason::Compliance);
    assert_eq!(names(&em), vec!["credit", "drw_freeze"]);
    assert_eq!(em.data, EventData::DrawsFrozen(DrawsFrozenEvent { frozen: true, reason: FreezeReason::Compliance }));

    let em = publish_credit_line_freeze_event(&b, FreezeReason::RiskInvestigation, false, 77);
    assert_eq!(names(&em), vec!["credit", "line_frz"]);
    assert_eq!(
        em.data,
        EventData::CreditLineFreeze(CreditLineFreezeEvent {
            borrower: b.clone(),
            reason: FreezeReason::RiskInvestigation,
            frozen: false,
            ledger: 77
        })
    );

    let em = publish_rate_formula_config_event(true);
    assert_eq!(names(&em), vec!["credit", "rate_form"]);
    assert_eq!(em.data, EventData::RateFormulaConfig(true));

    let em = publish_default_liquidation_requested_event(&b, 300_000);
    assert_eq!(names(&em), vec!["credit", "liq_req"]);
    assert_eq!(em.data, EventData::DefaultLiquidationRequested(b.clone(), 300_000));

    let em = publish_borrower_blocked_event(&b, true, 12);
    assert_eq!(names(&em), vec!["blk_chg"]);
    assert_eq!(em.data, EventData::BorrowerBlocked(BorrowerBlockedEvent { borrower: b.clone(), blocked: true, ledger: 12 }));

    let em = publish_borrower_frozen_event(&b, 86_400, 13);
    assert_eq!(names(&em), vec!["credit", "brw_frz"]);
    assert_eq!(
        em.data,
        EventData::BorrowerFrozen(BorrowerFrozenEvent { borrower: b.clone(), frozen_until: 86_400, ledger: 13 })
    );

    let em = publish_penalty_rate_entered_event(&b, 300, 200, 500);
    assert_eq!(names(&em), vec!["credit", "pen_enter"]);
    assert_eq!(
        em.data,
        EventData::PenaltyRateEntered(PenaltyRateEnteredEvent {
            borrower: b.clone(),
            base_rate_bps: 300,
            penalty_surcharge_bps: 200,
            effective_rate_bps: 500
        })
    );

    let em = publish_penalty_rate_exited_event(&b, 500, 300);
    assert_eq!(names(&em), vec!["credit", "pen_exit"]);
    assert_eq!(
        em.data,
        EventData::PenaltyRateExited(PenaltyRateExitedEvent { borrower: b.clone(), previous_rate_bps: 500, new_rate_bps: 300 })
    );

    let em = publish_oracle_config_set_event(250, 3_600);
    assert_eq!(names(&em), vec!["credit", "orc_cfg"]);
    assert_eq!(em.data, EventData::OracleConfigSet(250, 3_600));

    let em = publish_oracle_price_accepted_event(-5, 99);
    assert_eq!(names(&em), vec!["credit", "orc_price"]);
    assert_eq!(em.data, EventData::OraclePriceAccepted(-5, 99));

    let em = publish_grace_waiver_applied_event(&b, 40, GraceWaiverMode::FullWaiver);
    assert_eq!(names(&em), vec!["credit", "grace_wv"]);
    assert_eq!(
        em.data,
        EventData::GraceWaiverApplied(GraceWaiverAppliedEvent {
            borrower: b.clone(),
            waived_amount: 40,
            mode: GraceWaiverMode::FullWaiver
        })
    );
}

#[test]
fn paused_switch_picks_topic_by_state() {
    let on = publish_paused_event(true);
    assert_eq!(names(&on), vec!["credit", "paused"]);
    assert_eq!(on.data, EventData::Paused(true));
    let off = publish_paused_event(false);
    assert_eq!(names(&off), vec!["credit", "unpaused"]);
    assert_eq!(off.data, EventData::Paused(false));
}

#[test]
fn addresses_compare_by_strkey() {
    let a = account("GAAA");
    let same = account("GAAA");
    let other = account("GBBB");
    assert!(a.same_as(&same));
    assert!(!a.same_as(&other));
    assert_eq!(a.clone(), a);
}

