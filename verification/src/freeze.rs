//! Global and per-credit-line draw freezes.
//!
//! Two complementary mechanisms block `draw_credit` while repayments stay
//! available:
//!
//! | Mechanism | Scope | Stored as |
//! | --------- | ----- | --------- |
//! | Global draw freeze | all borrowers | one [`DrawsFreezeState`] |
//! | Credit-line freeze | one borrower | one [`FreezeReason`] per borrower |
//!
//! [`FreezeStore`] holds exactly what the contract keeps in storage for these
//! two mechanisms; its view is the stored global state and the map from a
//! borrower's strkey to the recorded reason.

use vstd::prelude::*;
use crate::types::{Address, ContractError, DrawsFreezeState, FreezeReason};
use crate::events::{
    publish_credit_line_freeze_event, publish_draws_frozen_event, CreditLineFreezeEvent,
    DrawsFrozenEvent, Emission, EventData, EventKind, EventTopic, fixed_emission, topic_of,
};

verus! {

/// One stored per-borrower freeze record.
struct LineFreeze {
    borrower: Address,
    reason: FreezeReason,
}

/// The freeze state kept in contract storage: the global draw switch (absent
/// until first set) and at most one freeze record per borrower.
pub struct FreezeStore {
    draws: Option<DrawsFreezeState>,
    lines: Vec<LineFreeze>,
}

/// Mathematical model of a [`FreezeStore`].
pub struct FreezeStoreView {
    pub draws: Option<DrawsFreezeState>,
    pub lines: Map<Seq<char>, FreezeReason>,
}

/// Whether some record in `lines` belongs to the account with strkey `key`.
spec fn has_record(lines: Seq<LineFreeze>, key: Seq<char>) -> bool {
    exists|i: int| 0 <= i < lines.len() && (#[trigger] lines[i]).borrower@ == key
}

/// No two records belong to the same account.
spec fn records_unique(lines: Seq<LineFreeze>) -> bool {
    forall|i: int, j: int|
        0 <= i < lines.len() && 0 <= j < lines.len() && i != j
            ==> (#[trigger] lines[i]).borrower@ != (#[trigger] lines[j]).borrower@
}

/// The reason recorded for `key` (meaningful when `has_record(lines, key)`).
spec fn record_reason(lines: Seq<LineFreeze>, key: Seq<char>) -> FreezeReason {
    lines[choose|i: int| 0 <= i < lines.len() && (#[trigger] lines[i]).borrower@ == key].reason
}

/// The map from borrower strkey to recorded reason that `lines` stands for.
spec fn records_map(lines: Seq<LineFreeze>) -> Map<Seq<char>, FreezeReason> {
    Map::new(|k: Seq<char>| has_record(lines, k), |k: Seq<char>| record_reason(lines, k))
}

impl View for FreezeStore {
    type V = FreezeStoreView;

    closed spec fn view(&self) -> FreezeStoreView {
        FreezeStoreView { draws: self.draws, lines: records_map(self.lines@) }
    }
}

/// In a list without duplicate owners, the record found at `i` is the one the
/// map gives for its owner.
proof fn lemma_record_at(lines: Seq<LineFreeze>, i: int)
    requires
        records_unique(lines),
        0 <= i < lines.len(),
    ensures
        records_map(lines).contains_key(lines[i].borrower@),
        records_map(lines)[lines[i].borrower@] == lines[i].reason,
{
    let k = lines[i].borrower@;
    assert(has_record(lines, k));
    let j = choose|j: int| 0 <= j < lines.len() && (#[trigger] lines[j]).borrower@ == k;
    assert(lines[j].borrower@ == k);
}

/// Replacing the record at `i` by one for the same owner rebinds that owner.
proof fn lemma_map_update(lines: Seq<LineFreeze>, i: int, rec: LineFreeze)
    requires
        records_unique(lines),
        0 <= i < lines.len(),
        lines[i].borrower@ == rec.borrower@,
    ensures
        records_unique(lines.update(i, rec)),
        records_map(lines.update(i, rec)) == records_map(lines).insert(rec.borrower@, rec.reason),
{
    let new = lines.update(i, rec);
    assert(records_unique(new)) by {
        assert forall|a: int, b: int|
            0 <= a < new.len() && 0 <= b < new.len() && a != b implies (#[trigger] new[a]).borrower@
            != (#[trigger] new[b]).borrower@ by {
            assert(lines[a].borrower@ != lines[b].borrower@);
        }
    }
    let target = records_map(lines).insert(rec.borrower@, rec.reason);
    assert forall|k: Seq<char>| #[trigger] records_map(new).contains_key(k) implies target.contains_key(k)
        && records_map(new)[k] == target[k] by {
        let j = choose|j: int| 0 <= j < new.len() && (#[trigger] new[j]).borrower@ == k;
        lemma_record_at(new, j);
        if j != i {
            lemma_record_at(lines, j);
        }
    }
    assert forall|k: Seq<char>| #[trigger] target.contains_key(k) implies records_map(new).contains_key(k) by {
        if k == rec.borrower@ {
            assert(new[i].borrower@ == k);
        } else {
            let j = choose|j: int| 0 <= j < lines.len() && (#[trigger] lines[j]).borrower@ == k;
            assert(new[j].borrower@ == k);
        }
    }
    assert(records_map(new) =~= target);
}

/// Appending a record for an owner that has none binds that owner.
proof fn lemma_map_push(lines: Seq<LineFreeze>, rec: LineFreeze)
    requires
        records_unique(lines),
        !has_record(lines, rec.borrower@),
    ensures
        records_unique(lines.push(rec)),
        records_map(lines.push(rec)) == records_map(lines).insert(rec.borrower@, rec.reason),
{
    let new = lines.push(rec);
    let n = lines.len() as int;
    assert(records_unique(new)) by {
        assert forall|a: int, b: int|
            0 <= a < new.len() && 0 <= b < new.len() && a != b implies (#[trigger] new[a]).borrower@
            != (#[trigger] new[b]).borrower@ by {
            if a == n {
                assert(lines[b].borrower@ != rec.borrower@);
            } else if b == n {
                assert(lines[a].borrower@ != rec.borrower@);
            } else {
                assert(lines[a].borrower@ != lines[b].borrower@);
            }
        }
    }
    let target = records_map(lines).insert(rec.borrower@, rec.reason);
    assert forall|k: Seq<char>| #[trigger] records_map(new).contains_key(k) implies target.contains_key(k)
        && records_map(new)[k] == target[k] by {
        let j = choose|j: int| 0 <= j < new.len() && (#[trigger] new[j]).borrower@ == k;
        lemma_record_at(new, j);
        if j != n {
            lemma_record_at(lines, j);
        }
    }
    assert forall|k: Seq<char>| #[trigger] target.contains_key(k) implies records_map(new).contains_key(k) by {
        if k == rec.borrower@ {
            assert(new[n].borrower@ == k);
        } else {
            let j = choose|j: int| 0 <= j < lines.len() && (#[trigger] lines[j]).borrower@ == k;
            assert(new[j].borrower@ == k);
        }
    }
    assert(records_map(new) =~= target);
}

/// Dropping the record at `i` unbinds its owner and nothing else.
proof fn lemma_map_remove(lines: Seq<LineFreeze>, i: int)
    requires
        records_unique(lines),
        0 <= i < lines.len(),
    ensures
        records_unique(lines.remove(i)),
        records_map(lines.remove(i)) == records_map(lines).remove(lines[i].borrower@),
{
    let new = lines.remove(i);
    let key = lines[i].borrower@;
    assert forall|j: int| 0 <= j < new.len() implies #[trigger] new[j] == (if j < i {
        lines[j]
    } else {
        lines[j + 1]
    }) by {}
    assert(records_unique(new)) by {
        assert forall|a: int, b: int|
            0 <= a < new.len() && 0 <= b < new.len() && a != b implies (#[trigger] new[a]).borrower@
            != (#[trigger] new[b]).borrower@ by {
            let a2 = if a < i { a } else { a + 1 };
            let b2 = if b < i { b } else { b + 1 };
            assert(lines[a2].borrower@ != lines[b2].borrower@);
        }
    }
    let target = records_map(lines).remove(key);
    assert forall|k: Seq<char>| #[trigger] records_map(new).contains_key(k) implies target.contains_key(k)
        && records_map(new)[k] == target[k] by {
        let j = choose|j: int| 0 <= j < new.len() && (#[trigger] new[j]).borrower@ == k;
        let j2 = if j < i { j } else { j + 1 };
        lemma_record_at(new, j);
        lemma_record_at(lines, j2);
        assert(lines[j2].borrower@ != key);
    }
    assert forall|k: Seq<char>| #[trigger] target.contains_key(k) implies records_map(new).contains_key(k) by {
        let j = choose|j: int| 0 <= j < lines.len() && (#[trigger] lines[j]).borrower@ == k;
        assert(j != i);
        let j1 = if j < i { j } else { j - 1 };
        assert(new[j1].borrower@ == k);
    }
    assert(records_map(new) =~= target);
}

impl FreezeStore {
    #[verifier::type_invariant]
    closed spec fn wf(self) -> bool {
        records_unique(self.lines@)
    }

    /// A store as the contract has it before any freeze was ever recorded.
    pub fn new() -> (s: FreezeStore)
        ensures
            s@.draws is None,
            s@.lines == Map::<Seq<char>, FreezeReason>::empty(),
    {
        let s = FreezeStore { draws: None, lines: Vec::new() };
        assert(s@.lines =~= Map::<Seq<char>, FreezeReason>::empty());
        s
    }

    /// Position of the record that belongs to `borrower`, if any.
    fn find(&self, borrower: &Address) -> (r: Option<usize>)
        ensures
            r matches Some(i) ==> i < self.lines@.len() && self.lines@[i as int].borrower@
                == borrower@,
            r is None ==> !has_record(self.lines@, borrower@),
    {
        let mut i: usize = 0;
        while i < self.lines.len()
            invariant
                i <= self.lines@.len(),
                forall|j: int| 0 <= j < i ==> (#[trigger] self.lines@[j]).borrower@ != borrower@,
            decreases self.lines@.len() - i,
        {
            if self.lines[i].borrower.same_as(borrower) {
                return Some(i);
            }
            i = i + 1;
        }
        None
    }

    /// Records `reason` for `borrower`, replacing any earlier record.
    fn put_line(&mut self, borrower: &Address, reason: FreezeReason)
        ensures
            final(self)@.draws == old(self)@.draws,
            final(self)@.lines == old(self)@.lines.insert(borrower@, reason),
    {
        proof {
            use_type_invariant(&*self);
        }
        let rec = LineFreeze { borrower: borrower.clone(), reason };
        let found = self.find(borrower);
        let mut lines = Vec::new();
        std::mem::swap(&mut lines, &mut self.lines);
        match found {
            Some(i) => {
                proof {
                    lemma_map_update(lines@, i as int, rec);
                }
                lines.set(i, rec);
            },
            None => {
                proof {
                    lemma_map_push(lines@, rec);
                }
                lines.push(rec);
            },
        }
        self.lines = lines;
    }

    /// Drops the record of `borrower` and hands back its reason; `None`, with
    /// the store unchanged, when there was no record.
    fn take_line(&mut self, borrower: &Address) -> (r: Option<FreezeReason>)
        ensures
            final(self)@.draws == old(self)@.draws,
            final(self)@.lines == old(self)@.lines.remove(borrower@),
            r == (if old(self)@.lines.contains_key(borrower@) {
                Some(old(self)@.lines[borrower@])
            } else {
                None::<FreezeReason>
            }),
    {
        proof {
            use_type_invariant(&*self);
        }
        match self.find(borrower) {
            Some(i) => {
                proof {
                    lemma_map_remove(self.lines@, i as int);
                    lemma_record_at(self.lines@, i as int);
                }
                let mut lines = Vec::new();
                std::mem::swap(&mut lines, &mut self.lines);
                let rec = lines.remove(i);
                self.lines = lines;
                Some(rec.reason)
            },
            None => {
                assert(self@.lines.remove(borrower@) =~= self@.lines);
                None
            },
        }
    }

    /// The record stored for `borrower`, if any.
    fn line(&self, borrower: &Address) -> (r: Option<FreezeReason>)
        ensures
            r == (if self@.lines.contains_key(borrower@) {
                Some(self@.lines[borrower@])
            } else {
                None::<FreezeReason>
            }),
    {
        proof {
            use_type_invariant(self);
        }
        match self.find(borrower) {
            Some(i) => {
                proof {
                    lemma_record_at(self.lines@, i as int);
                }
                Some(self.lines[i].reason)
            },
            None => None,
        }
    }
}


// ---------------------------------------------------------------------------
// The operations as functions on the model
// ---------------------------------------------------------------------------

/// The reason kept by the global switch: the last one recorded, or
/// `LiquidityReserve` when the switch was never set.
pub open spec fn recorded_draws_reason(draws: Option<DrawsFreezeState>) -> FreezeReason {
    match draws {
        Some(s) => s.reason,
        None => FreezeReason::LiquidityReserve,
    }
}

/// Whether draws are globally frozen in `v`.
pub open spec fn draws_frozen(v: FreezeStoreView) -> bool {
    v.draws matches Some(s) && s.frozen
}

/// The active global freeze reason in `v`: present only while frozen.
pub open spec fn draws_reason(v: FreezeStoreView) -> Option<FreezeReason> {
    match v.draws {
        Some(s) => if s.frozen {
            Some(s.reason)
        } else {
            None
        },
        None => None,
    }
}

/// Whether `borrower`'s line carries a freeze record in `v`.
pub open spec fn line_frozen(v: FreezeStoreView, borrower: Seq<char>) -> bool {
    v.lines.contains_key(borrower)
}

/// The recorded freeze reason of `borrower`'s line in `v`.
pub open spec fn line_reason(v: FreezeStoreView, borrower: Seq<char>) -> Option<FreezeReason> {
    if v.lines.contains_key(borrower) {
        Some(v.lines[borrower])
    } else {
        None
    }
}

/// `v` after a global freeze with `reason`.
pub open spec fn after_freeze_draws(v: FreezeStoreView, reason: FreezeReason) -> FreezeStoreView {
    FreezeStoreView { draws: Some(DrawsFreezeState { frozen: true, reason }), lines: v.lines }
}

/// `v` after lifting the global freeze: unfrozen, keeping the recorded reason.
pub open spec fn after_unfreeze_draws(v: FreezeStoreView) -> FreezeStoreView {
    FreezeStoreView {
        draws: Some(DrawsFreezeState { frozen: false, reason: recorded_draws_reason(v.draws) }),
        lines: v.lines,
    }
}

/// `v` after freezing `borrower`'s line with `reason`.
pub open spec fn after_freeze_line(v: FreezeStoreView, borrower: Seq<char>, reason: FreezeReason) -> FreezeStoreView {
    FreezeStoreView { draws: v.draws, lines: v.lines.insert(borrower, reason) }
}

/// `v` after lifting the freeze of `borrower`'s line.
pub open spec fn after_unfreeze_line(v: FreezeStoreView, borrower: Seq<char>) -> FreezeStoreView {
    FreezeStoreView { draws: v.draws, lines: v.lines.remove(borrower) }
}

/// The event announcing a change of the global switch.
pub open spec fn draws_frozen_emission(frozen: bool, reason: FreezeReason) -> Emission {
    fixed_emission(EventKind::DrawsFrozen, EventData::DrawsFrozen(DrawsFrozenEvent { frozen, reason }))
}

/// The event announcing a per-line freeze change.
pub open spec fn line_freeze_emission(
    borrower: Address,
    reason: FreezeReason,
    frozen: bool,
    ledger: u32,
) -> Emission {
    fixed_emission(
        EventKind::CreditLineFreeze,
        EventData::CreditLineFreeze(CreditLineFreezeEvent { borrower, reason, frozen, ledger }),
    )
}

// ---------------------------------------------------------------------------
// Operations
// ---------------------------------------------------------------------------

impl FreezeStore {
    /// The store as read back from storage: the stored global switch (if
    /// ever set) and no per-line records yet.
    pub fn from_draws_state(draws: Option<DrawsFreezeState>) -> (s: FreezeStore)
        ensures
            s@.draws == draws,
            s@.lines == Map::<Seq<char>, FreezeReason>::empty(),
    {
        let s = FreezeStore { draws, lines: Vec::new() };
        assert(s@.lines =~= Map::<Seq<char>, FreezeReason>::empty());
        s
    }

    /// Loads the stored freeze record of `borrower`.
    pub fn load_line_freeze(&mut self, borrower: &Address, reason: FreezeReason)
        ensures
            final(self)@ == after_freeze_line(old(self)@, borrower@, reason),
    {
        self.put_line(borrower, reason);
    }
}

/// Freezes all draws globally, recording `reason`.
///
/// Stores `frozen = true` with `reason` and announces it with a
/// `DrawsFrozenEvent { frozen: true, reason }` on `("credit", "drw_freeze")`.
/// Per-line records are untouched. The caller must have checked the admin's
/// authorization.
pub fn freeze_draws(store: &mut FreezeStore, reason: FreezeReason) -> (em: Emission)
    ensures
        final(store)@ == after_freeze_draws(old(store)@, reason),
        em == draws_frozen_emission(true, reason),
        em.topic == EventTopic::Fixed(EventKind::DrawsFrozen),
        em.data == EventData::DrawsFrozen(
            DrawsFrozenEvent {
                frozen: draws_frozen(final(store)@),
                reason: recorded_draws_reason(final(store)@.draws),
            },
        ),
{
    proof {
        use_type_invariant(&*store);
    }
    store.draws = Some(DrawsFreezeState { frozen: true, reason });
    publish_draws_frozen_event(true, reason)
}

/// Lifts the global draw freeze.
///
/// Stores `frozen = false` while keeping the last recorded reason for audit
/// reads (`LiquidityReserve` when draws were never frozen), and announces it
/// with a `DrawsFrozenEvent` carrying that reason. The caller must have
/// checked the admin's authorization.
pub fn unfreeze_draws(store: &mut FreezeStore) -> (em: Emission)
    ensures
        final(store)@ == after_unfreeze_draws(old(store)@),
        em == draws_frozen_emission(false, recorded_draws_reason(old(store)@.draws)),
        em.topic == EventTopic::Fixed(EventKind::DrawsFrozen),
        em.data == EventData::DrawsFrozen(
            DrawsFrozenEvent {
                frozen: draws_frozen(final(store)@),
                reason: recorded_draws_reason(final(store)@.draws),
            },
        ),
{
    let reason = match get_draws_freeze_state(store) {
        Some(state) => state.reason,
        None => FreezeReason::LiquidityReserve,
    };
    proof {
        use_type_invariant(&*store);
    }
    store.draws = Some(DrawsFreezeState { frozen: false, reason });
    publish_draws_frozen_event(false, reason)
}

/// Whether draws are globally frozen; `false` when the switch was never set.
pub fn is_draws_frozen(store: &FreezeStore) -> (b: bool)
    ensures
        b == draws_frozen(store@),
{
    match get_draws_freeze_state(store) {
        Some(state) => state.frozen,
        None => false,
    }
}

/// The active global freeze reason, present only while draws are frozen.
pub fn get_draws_freeze_reason(store: &FreezeStore) -> (r: Option<FreezeReason>)
    ensures
        r == draws_reason(store@),
{
    match get_draws_freeze_state(store) {
        Some(state) => if state.frozen {
            Some(state.reason)
        } else {
            None
        },
        None => None,
    }
}

/// Freezes the draws of `borrower`'s credit line, recording `reason`; the
/// announcement is stamped with `ledger`, the current ledger sequence.
///
/// Fails with [`ContractError::CreditLineNotFound`], changing nothing, when
/// no credit line exists for `borrower` (`credit_line_exists` is false).
/// Otherwise records `reason` for the borrower, replacing any earlier
/// record, and announces it on `("credit", "line_frz")` with
/// `frozen = true`. The line's status and the global switch are untouched.
/// The caller must have checked the admin's authorization.
pub fn freeze_credit_line(
    store: &mut FreezeStore,
    borrower: &Address,
    reason: FreezeReason,
    credit_line_exists: bool,
    ledger: u32,
) -> (r: Result<Emission, ContractError>)
    ensures
        !credit_line_exists ==> r == Err::<Emission, ContractError>(ContractError::CreditLineNotFound)
            && final(store)@ == old(store)@,
        credit_line_exists ==> r == Ok::<Emission, ContractError>(
            line_freeze_emission(*borrower, reason, true, ledger),
        ) && final(store)@ == after_freeze_line(old(store)@, borrower@, reason),
        credit_line_exists ==> (r matches Ok(em) && em.topic == EventTopic::Fixed(
            EventKind::CreditLineFreeze,
        ) && em.data == EventData::CreditLineFreeze(
            CreditLineFreezeEvent {
                borrower: *borrower,
                reason: final(store)@.lines[borrower@],
                frozen: line_frozen(final(store)@, borrower@),
                ledger,
            },
        )),
{
    if !credit_line_exists {
        return Err(ContractError::CreditLineNotFound);
    }
    store.put_line(borrower, reason);
    Ok(publish_credit_line_freeze_event(borrower, reason, true, ledger))
}

/// Lifts the freeze of `borrower`'s credit line; the announcement is stamped
/// with `ledger`, the current ledger sequence.
///
/// A no-op, announcing nothing, when the line carries no freeze record.
/// Otherwise removes the record and announces it on `("credit", "line_frz")`
/// with `frozen = false` and the removed reason. The caller must have checked
/// the admin's authorization.
pub fn unfreeze_credit_line(store: &mut FreezeStore, borrower: &Address, ledger: u32) -> (r:
    Option<Emission>)
    ensures
        !line_frozen(old(store)@, borrower@) ==> r is None && final(store)@ == old(store)@,
        line_frozen(old(store)@, borrower@) ==> r == Some(
            line_freeze_emission(*borrower, old(store)@.lines[borrower@], false, ledger),
        ) && final(store)@ == after_unfreeze_line(old(store)@, borrower@),
        line_frozen(old(store)@, borrower@) ==> (r matches Some(em) && em.topic == EventTopic::Fixed(
            EventKind::CreditLineFreeze,
        ) && em.data == EventData::CreditLineFreeze(
            CreditLineFreezeEvent {
                borrower: *borrower,
                reason: old(store)@.lines[borrower@],
                frozen: line_frozen(final(store)@, borrower@),
                ledger,
            },
        )),
{
    match store.take_line(borrower) {
        Some(reason) => Some(publish_credit_line_freeze_event(borrower, reason, false, ledger)),
        None => {
            assert(store@ == old(store)@) by {
                assert(store@.lines =~= old(store)@.lines);
            }
            None
        },
    }
}

/// Whether `borrower`'s credit line carries an admin freeze.
pub fn is_credit_line_frozen(store: &FreezeStore, borrower: &Address) -> (b: bool)
    ensures
        b == line_frozen(store@, borrower@),
{
    store.line(borrower).is_some()
}

/// The recorded freeze reason of `borrower`'s credit line, if frozen.
pub fn get_credit_line_freeze_reason(store: &FreezeStore, borrower: &Address) -> (r: Option<
    FreezeReason,
>)
    ensures
        r == line_reason(store@, borrower@),
{
    store.line(borrower)
}

/// The stored state of the global draw switch; `None` when never set.
pub fn get_draws_freeze_state(store: &FreezeStore) -> (r: Option<DrawsFreezeState>)
    ensures
        r == store@.draws,
{
    store.draws
}

// ---------------------------------------------------------------------------
// Laws
// ---------------------------------------------------------------------------

/// A store that never recorded a freeze has draws open and no frozen line.
pub proof fn law_fresh_store_is_open(borrower: Seq<char>)
    ensures
        !draws_frozen(FreezeStoreView { draws: None, lines: Map::empty() }),
        draws_reason(FreezeStoreView { draws: None, lines: Map::empty() }) is None,
        !line_frozen(FreezeStoreView { draws: None, lines: Map::empty() }, borrower),
        line_reason(FreezeStoreView { draws: None, lines: Map::empty() }, borrower) is None,
{
}

/// After a global freeze, draws read as frozen with exactly that reason.
pub proof fn law_freeze_draws_reads_back(v: FreezeStoreView, reason: FreezeReason)
    ensures
        draws_frozen(after_freeze_draws(v, reason)),
        draws_reason(after_freeze_draws(v, reason)) == Some(reason),
{
}

/// After lifting the global freeze, draws read as open and no active reason
/// is reported, while the last recorded reason stays stored for audit.
pub proof fn law_unfreeze_draws_reads_back(v: FreezeStoreView)
    ensures
        !draws_frozen(after_unfreeze_draws(v)),
        draws_reason(after_unfreeze_draws(v)) is None,
        recorded_draws_reason(after_unfreeze_draws(v).draws) == recorded_draws_reason(v.draws),
{
}

/// Lifting a global freeze keeps the reason of that freeze on record.
pub proof fn law_unfreeze_draws_keeps_freeze_reason(v: FreezeStoreView, reason: FreezeReason)
    ensures
        after_unfreeze_draws(after_freeze_draws(v, reason)).draws == Some(
            DrawsFreezeState { frozen: false, reason },
        ),
{
}

/// An active global reason is reported exactly while draws are frozen, and
/// it is the stored one.
pub proof fn law_draws_reason_iff_frozen(v: FreezeStoreView)
    ensures
        draws_reason(v) is Some <==> draws_frozen(v),
        draws_reason(v) matches Some(r) ==> r == recorded_draws_reason(v.draws),
{
}

/// The announced global-switch payload is the state just stored.
pub proof fn law_draws_event_matches_state(v: FreezeStoreView, reason: FreezeReason)
    ensures
        after_freeze_draws(v, reason).draws == Some(
            DrawsFreezeState { frozen: true, reason },
        ),
        draws_frozen_emission(true, reason).data == EventData::DrawsFrozen(
            DrawsFrozenEvent { frozen: true, reason },
        ),
        after_unfreeze_draws(v).draws == Some(
            DrawsFreezeState { frozen: false, reason: recorded_draws_reason(v.draws) },
        ),
        draws_frozen_emission(false, recorded_draws_reason(v.draws)).data == EventData::DrawsFrozen(
            DrawsFrozenEvent { frozen: false, reason: recorded_draws_reason(v.draws) },
        ),
{
}

/// Every announcement of the global switch, freeze or lift, goes out on
/// `("credit", "drw_freeze")` (the same topic for both) and carries exactly
/// the flag and reason announced.
pub proof fn law_draw_switch_announcement_topic(frozen: bool, reason: FreezeReason, other: FreezeReason)
    ensures
        draws_frozen_emission(frozen, reason).topic == EventTopic::Fixed(EventKind::DrawsFrozen),
        draws_frozen_emission(true, reason).topic == draws_frozen_emission(false, other).topic,
        topic_of(EventKind::DrawsFrozen) == seq!["credit"@, "drw_freeze"@],
        draws_frozen_emission(frozen, reason).data == EventData::DrawsFrozen(
            DrawsFrozenEvent { frozen, reason },
        ),
{
}

/// What a global freeze or lift announces is the switch state it leaves
/// stored: its flag and its recorded reason.
pub proof fn law_draw_switch_announces_stored_state(v: FreezeStoreView, reason: FreezeReason)
    ensures
        draws_frozen_emission(true, reason).data == EventData::DrawsFrozen(
            DrawsFrozenEvent {
                frozen: draws_frozen(after_freeze_draws(v, reason)),
                reason: recorded_draws_reason(after_freeze_draws(v, reason).draws),
            },
        ),
        draws_frozen_emission(false, recorded_draws_reason(v.draws)).data == EventData::DrawsFrozen(
            DrawsFrozenEvent {
                frozen: draws_frozen(after_unfreeze_draws(v)),
                reason: recorded_draws_reason(after_unfreeze_draws(v).draws),
            },
        ),
{
}

/// Every per-line announcement, freeze or lift, goes out on
/// `("credit", "line_frz")` (the same topic for both) and carries exactly
/// the borrower, reason, flag and ledger announced.
pub proof fn law_line_announcement_topic(
    borrower: Address,
    reason: FreezeReason,
    frozen: bool,
    ledger: u32,
    other: FreezeReason,
    other_ledger: u32,
)
    ensures
        line_freeze_emission(borrower, reason, frozen, ledger).topic == EventTopic::Fixed(
            EventKind::CreditLineFreeze,
        ),
        line_freeze_emission(borrower, reason, true, ledger).topic == line_freeze_emission(
            borrower,
            other,
            false,
            other_ledger,
        ).topic,
        topic_of(EventKind::CreditLineFreeze) == seq!["credit"@, "line_frz"@],
        line_freeze_emission(borrower, reason, frozen, ledger).data == EventData::CreditLineFreeze(
            CreditLineFreezeEvent { borrower, reason, frozen, ledger },
        ),
{
}

/// A line freeze announces the reason it leaves stored for the borrower and
/// `frozen = true`; lifting a frozen line announces the reason it removes
/// and `frozen = false`, which is whether the line is still frozen after.
pub proof fn law_line_announces_stored_state(
    v: FreezeStoreView,
    borrower: Address,
    reason: FreezeReason,
    ledger: u32,
)
    ensures
        line_freeze_emission(borrower, reason, true, ledger).data == EventData::CreditLineFreeze(
            CreditLineFreezeEvent {
                borrower,
                reason: after_freeze_line(v, borrower@, reason).lines[borrower@],
                frozen: line_frozen(after_freeze_line(v, borrower@, reason), borrower@),
                ledger,
            },
        ),
        line_frozen(v, borrower@) ==> line_freeze_emission(
            borrower,
            v.lines[borrower@],
            false,
            ledger,
        ).data == EventData::CreditLineFreeze(
            CreditLineFreezeEvent {
                borrower,
                reason: v.lines[borrower@],
                frozen: line_frozen(after_unfreeze_line(v, borrower@), borrower@),
                ledger,
            },
        ),
{
}

/// After freezing a line, it reads as frozen with exactly that reason.
pub proof fn law_freeze_line_reads_back(v: FreezeStoreView, borrower: Seq<char>, reason: FreezeReason)
    ensures
        line_frozen(after_freeze_line(v, borrower, reason), borrower),
        line_reason(after_freeze_line(v, borrower, reason), borrower) == Some(reason),
{
}

/// Freezing a frozen line again overwrites its reason: only the latest
/// freeze counts.
pub proof fn law_freeze_line_overwrites(
    v: FreezeStoreView,
    borrower: Seq<char>,
    first: FreezeReason,
    second: FreezeReason,
)
    ensures
        after_freeze_line(after_freeze_line(v, borrower, first), borrower, second) == after_freeze_line(
            v,
            borrower,
            second,
        ),
{
    assert(v.lines.insert(borrower, first).insert(borrower, second) =~= v.lines.insert(
        borrower,
        second,
    ));
}

/// Lifting a line freeze undoes it: a line that was not frozen before the
/// freeze is back to exactly the state before.
pub proof fn law_unfreeze_line_undoes_freeze(v: FreezeStoreView, borrower: Seq<char>, reason: FreezeReason)
    requires
        !line_frozen(v, borrower),
    ensures
        after_unfreeze_line(after_freeze_line(v, borrower, reason), borrower) == v,
        !line_frozen(after_unfreeze_line(after_freeze_line(v, borrower, reason), borrower), borrower),
        line_reason(after_unfreeze_line(after_freeze_line(v, borrower, reason), borrower), borrower) is None,
{
    assert(v.lines.insert(borrower, reason).remove(borrower) =~= v.lines);
}

/// Lifting the freeze of any line leaves it unfrozen with no reason.
pub proof fn law_unfreeze_line_reads_back(v: FreezeStoreView, borrower: Seq<char>)
    ensures
        !line_frozen(after_unfreeze_line(v, borrower), borrower),
        line_reason(after_unfreeze_line(v, borrower), borrower) is None,
{
}

/// A line is frozen exactly when it has a recorded reason.
pub proof fn law_line_frozen_iff_reason(v: FreezeStoreView, borrower: Seq<char>)
    ensures
        line_frozen(v, borrower) <==> line_reason(v, borrower) is Some,
{
}

/// Freezing or unfreezing one line leaves every other line as it was.
pub proof fn law_line_changes_are_isolated(
    v: FreezeStoreView,
    borrower: Seq<char>,
    other: Seq<char>,
    reason: FreezeReason,
)
    requires
        other != borrower,
    ensures
        line_reason(after_freeze_line(v, borrower, reason), other) == line_reason(v, other),
        line_reason(after_unfreeze_line(v, borrower), other) == line_reason(v, other),
{
}

/// The two mechanisms are independent: the global switch never touches a
/// line record, a line freeze never touches the global switch, and applying
/// one after the other gives the same store in either order.
pub proof fn law_mechanisms_independent(
    v: FreezeStoreView,
    borrower: Seq<char>,
    line: FreezeReason,
    global: FreezeReason,
)
    ensures
        line_reason(after_freeze_draws(v, global), borrower) == line_reason(v, borrower),
        line_reason(after_unfreeze_draws(v), borrower) == line_reason(v, borrower),
        draws_frozen(after_freeze_line(v, borrower, line)) == draws_frozen(v),
        draws_reason(after_freeze_line(v, borrower, line)) == draws_reason(v),
        draws_frozen(after_unfreeze_line(v, borrower)) == draws_frozen(v),
        draws_reason(after_unfreeze_line(v, borrower)) == draws_reason(v),
        after_freeze_draws(after_freeze_line(v, borrower, line), global) == after_freeze_line(
            after_freeze_draws(v, global),
            borrower,
            line,
        ),
        after_unfreeze_draws(after_unfreeze_line(v, borrower)) == after_unfreeze_line(
            after_unfreeze_draws(v),
            borrower,
        ),
{
}

} // verus!
