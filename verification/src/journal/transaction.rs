//! Double-entry transactions: validating and booking a set of entries.

use crate::authority::Authority;
use crate::idmap::{IdMap, IdSet};
use crate::ids::{AccountId, ActivityId, EntryId, FundId, JournalId, TransactionId};
use crate::journal::Journal;
use crate::journal::account::{AccountType, actor_member, actor_member_query};
use crate::journal::activity::ActivityType;
use crate::journal::entry::{EntryKind, EntrySide};
use crate::journal::error::{JournalError, TransactionValidationError};
use crate::journal::event::JournalDomainEvent;
use crate::journal::member::JournalMember;
use crate::journal::{permitted, validate_permissions};
use crate::permissions::Permissions;
use crate::status::Status;
use crate::store::Timestamp;
use vstd::prelude::*;

verus! {

/// The month of the financial year a transaction belongs to.
#[derive(Clone, Copy, PartialEq, Eq, Structural, Debug, Hash)]
pub enum FinancialPeriod {
    January,
    February,
    March,
    April,
    May,
    June,
    July,
    August,
    September,
    October,
    November,
    December,
}

/// A stored period outside 1..=12.
#[derive(Debug, Clone, PartialEq, Eq)]
pub struct FinancialPeriodFromIntError(pub i8);

impl FinancialPeriod {
    /// The month's number, 1 to 12.
    pub open spec fn spec_code(&self) -> i8 {
        match self {
            FinancialPeriod::January => 1,
            FinancialPeriod::February => 2,
            FinancialPeriod::March => 3,
            FinancialPeriod::April => 4,
            FinancialPeriod::May => 5,
            FinancialPeriod::June => 6,
            FinancialPeriod::July => 7,
            FinancialPeriod::August => 8,
            FinancialPeriod::September => 9,
            FinancialPeriod::October => 10,
            FinancialPeriod::November => 11,
            FinancialPeriod::December => 12,
        }
    }

    /// The month's number.
    pub fn code(&self) -> (c: i8)
        ensures
            c == self.spec_code(),
    {
        match self {
            FinancialPeriod::January => 1,
            FinancialPeriod::February => 2,
            FinancialPeriod::March => 3,
            FinancialPeriod::April => 4,
            FinancialPeriod::May => 5,
            FinancialPeriod::June => 6,
            FinancialPeriod::July => 7,
            FinancialPeriod::August => 8,
            FinancialPeriod::September => 9,
            FinancialPeriod::October => 10,
            FinancialPeriod::November => 11,
            FinancialPeriod::December => 12,
        }
    }

    /// The month with this number.
    pub fn try_from(value: i8) -> (r: Result<FinancialPeriod, FinancialPeriodFromIntError>)
        ensures
            r matches Ok(p) ==> p.spec_code() == value,
            r is Err <==> !(1 <= value <= 12),
            r matches Err(e) ==> e == FinancialPeriodFromIntError(value),
    {
        match value {
            1 => Ok(FinancialPeriod::January),
            2 => Ok(FinancialPeriod::February),
            3 => Ok(FinancialPeriod::March),
            4 => Ok(FinancialPeriod::April),
            5 => Ok(FinancialPeriod::May),
            6 => Ok(FinancialPeriod::June),
            7 => Ok(FinancialPeriod::July),
            8 => Ok(FinancialPeriod::August),
            9 => Ok(FinancialPeriod::September),
            10 => Ok(FinancialPeriod::October),
            11 => Ok(FinancialPeriod::November),
            12 => Ok(FinancialPeriod::December),
            _ => Err(FinancialPeriodFromIntError(value)),
        }
    }
}

impl Default for FinancialPeriod {
    fn default() -> (p: FinancialPeriod)
        ensures
            p == FinancialPeriod::January,
    {
        FinancialPeriod::January
    }
}

/// One entry of a submitted transaction: an amount in cents on one side of an account or
/// an activity.
#[derive(Clone, Copy, PartialEq, Eq, Structural, Debug, Hash)]
pub struct TransactionEntry {
    pub amount: u64,
    pub entry_side: EntrySide,
    pub entry_kind: EntryKind,
}

/// The entries of a submitted transaction.
#[derive(Debug)]
pub struct TransactionEntries(pub Vec<TransactionEntry>);

impl Clone for TransactionEntries {
    fn clone(&self) -> (r: Self)
        ensures
            r.0@ == self.0@,
    {
        let mut v: Vec<TransactionEntry> = Vec::new();
        let mut i: usize = 0;
        while i < self.0.len()
            invariant
                i <= self.0@.len(),
                v@ == self.0@.take(i as int),
            decreases self.0@.len() - i,
        {
            v.push(self.0[i]);
            i = i + 1;
            assert(v@ =~= self.0@.take(i as int));
        }
        assert(self.0@.take(self.0@.len() as int) =~= self.0@);
        TransactionEntries(v)
    }
}

/// The identifiers of the booked entries of a transaction.
#[derive(Debug)]
pub struct TransactionEntryIds(pub Vec<EntryId>);

} // verus!

verus! {

/// The accounts, funds and activities of a journal, as folded from their creation and
/// deletion events: what a transaction may book against.
#[derive(Debug)]
pub struct JournalAFTs {
    pub journal_id: JournalId,
    pub accounts: IdMap<AccountId, AccountType>,
    pub funds: IdSet<FundId>,
    pub activities: IdMap<ActivityId, ActivityType>,
}

impl JournalAFTs {
    pub open spec fn wf(&self) -> bool {
        self.accounts.wf() && self.funds.wf() && self.activities.wf()
    }

    /// A journal without accounts, funds or activities.
    pub fn new(journal_id: JournalId) -> (a: JournalAFTs)
        ensures
            a.wf(),
            a.journal_id == journal_id,
            a.accounts.spec_map() == Map::<AccountId, AccountType>::empty(),
            a.funds.spec_set() == Set::<FundId>::empty(),
            a.activities.spec_map() == Map::<ActivityId, ActivityType>::empty(),
    {
        JournalAFTs {
            journal_id,
            accounts: IdMap::new(),
            funds: IdSet::new(),
            activities: IdMap::new(),
        }
    }

    /// Applies a creation or deletion event of an account, fund or activity; other events
    /// leave the state unchanged.
    pub fn mutate(&mut self, event: JournalDomainEvent)
        requires
            old(self).wf(),
        ensures
            final(self).wf(),
            final(self).journal_id == old(self).journal_id,
            match event {
                JournalDomainEvent::AccountCreated { account_id, account_type, .. } => {
                    &&& final(self).accounts.spec_map() == old(self).accounts.spec_map().insert(
                        account_id,
                        account_type,
                    )
                    &&& final(self).funds.spec_set() == old(self).funds.spec_set()
                    &&& final(self).activities.spec_map() == old(self).activities.spec_map()
                },
                JournalDomainEvent::AccountDeleted { account_id, .. } => {
                    &&& final(self).accounts.spec_map() == old(self).accounts.spec_map().remove(
                        account_id,
                    )
                    &&& final(self).funds.spec_set() == old(self).funds.spec_set()
                    &&& final(self).activities.spec_map() == old(self).activities.spec_map()
                },
                JournalDomainEvent::FundCreated { fund_id, .. } => {
                    &&& final(self).accounts.spec_map() == old(self).accounts.spec_map()
                    &&& final(self).funds.spec_set() == old(self).funds.spec_set().insert(fund_id)
                    &&& final(self).activities.spec_map() == old(self).activities.spec_map()
                },
                JournalDomainEvent::ActivityCreated { activity_id, activity_type, .. } => {
                    &&& final(self).accounts.spec_map() == old(self).accounts.spec_map()
                    &&& final(self).funds.spec_set() == old(self).funds.spec_set()
                    &&& final(self).activities.spec_map() == old(
                        self,
                    ).activities.spec_map().insert(activity_id, activity_type)
                },
                _ => {
                    &&& final(self).accounts.spec_map() == old(self).accounts.spec_map()
                    &&& final(self).funds.spec_set() == old(self).funds.spec_set()
                    &&& final(self).activities.spec_map() == old(self).activities.spec_map()
                },
            },
    {
        match event {
            JournalDomainEvent::AccountCreated { account_id, account_type, .. } => {
                self.accounts.insert(account_id, account_type);
            },
            JournalDomainEvent::AccountDeleted { account_id, .. } => {
                let _ = self.accounts.remove(&account_id);
            },
            JournalDomainEvent::FundCreated { fund_id, .. } => {
                self.funds.insert(fund_id);
            },
            JournalDomainEvent::ActivityCreated { activity_id, activity_type, .. } => {
                self.activities.insert(activity_id, activity_type);
            },
            _ => {},
        }
    }
}

/// A transaction, as folded from its creation event.
#[derive(Debug)]
pub struct Transaction {
    pub transaction_id: TransactionId,
    pub journal_id: JournalId,
    pub entries: TransactionEntryIds,
    pub status: Status,
}

impl Transaction {
    /// A transaction that was never created.
    pub fn new(transaction_id: TransactionId) -> (t: Transaction)
        ensures
            t.transaction_id == transaction_id,
            t.journal_id.0 == crate::ident::Ident::spec_nil(),
            t.entries.0@ == Seq::<EntryId>::empty(),
            t.status == Status::Missing,
    {
        Transaction {
            transaction_id,
            journal_id: JournalId::default(),
            entries: TransactionEntryIds(Vec::new()),
            status: Status::default(),
        }
    }

    /// Applies the creation event; other events leave the transaction unchanged.
    pub fn mutate(&mut self, event: JournalDomainEvent)
        ensures
            match event {
                JournalDomainEvent::TransactionCreated { entries, journal_id, .. } => *final(self)
                    == (Transaction {
                    journal_id,
                    entries,
                    status: Status::Valid,
                    transaction_id: old(self).transaction_id,
                }),
                _ => *final(self) == *old(self),
            },
    {
        match event {
            JournalDomainEvent::TransactionCreated { entries, journal_id, .. } => {
                self.journal_id = journal_id;
                self.entries = entries;
                self.status = Status::Valid;
            },
            _ => {},
        }
    }
}

/// An amount in cents read as an `i64`: above `i64::MAX` it wraps to a negative number.
pub open spec fn wrapped_amount(a: u64) -> int {
    if a <= 0x7fff_ffff_ffff_ffffu64 {
        a as int
    } else {
        a as int - 0x1_0000_0000_0000_0000int
    }
}

/// What an entry adds to the balance of a transaction: its amount for a credit, minus its
/// amount for a debit.
pub open spec fn entry_change(e: TransactionEntry) -> int {
    match e.entry_side {
        EntrySide::Credit => wrapped_amount(e.amount),
        EntrySide::Debit => -wrapped_amount(e.amount),
    }
}

/// What an entry adds to the balance of the transfers in a transaction.
pub open spec fn transfer_change(e: TransactionEntry) -> int {
    match e.entry_kind {
        EntryKind::Activity { transfer, .. } => if transfer {
            entry_change(e)
        } else {
            0
        },
        _ => 0,
    }
}

/// The sum of `entry_change` over the first `k` entries.
pub open spec fn overall_sum(es: Seq<TransactionEntry>, k: int) -> int
    decreases k,
{
    if k <= 0 {
        0
    } else {
        overall_sum(es, k - 1) + entry_change(es[k - 1])
    }
}

/// The sum of `transfer_change` over the first `k` entries.
pub open spec fn transfer_sum(es: Seq<TransactionEntry>, k: int) -> int
    decreases k,
{
    if k <= 0 {
        0
    } else {
        transfer_sum(es, k - 1) + transfer_change(es[k - 1])
    }
}

/// Booking one more entry moves the overall balance by its signed amount (plus for a
/// credit, minus for a debit; an amount above `i64::MAX` counts as stored, wrapped to a
/// negative number), and moves the balance of the transfers by the same amount
/// exactly when the entry is an activity entry marked as a transfer, and not at all
/// otherwise. So a transaction whose transfer entries do not cancel out is imbalanced,
/// however its other entries balance them.
pub proof fn lemma_balances_follow_signed_amounts(es: Seq<TransactionEntry>, k: int)
    requires
        0 <= k < es.len(),
    ensures
        ({
            let stored = if es[k].amount <= 0x7fff_ffff_ffff_ffffu64 {
                es[k].amount as int
            } else {
                es[k].amount as int - 0x1_0000_0000_0000_0000int
            };
            let signed = if es[k].entry_side == EntrySide::Credit {
                stored
            } else {
                -stored
            };
            &&& overall_sum(es, k + 1) == overall_sum(es, k) + signed
            &&& (es[k].entry_kind matches EntryKind::Activity { transfer, .. } && transfer)
                ==> transfer_sum(es, k + 1) == transfer_sum(es, k) + signed
            &&& !(es[k].entry_kind matches EntryKind::Activity { transfer, .. } && transfer)
                ==> transfer_sum(es, k + 1) == transfer_sum(es, k)
        }),
{
}

/// Why an entry cannot be booked in a journal with these accounts, funds and activities.
pub open spec fn entry_error(afts: JournalAFTs, e: TransactionEntry) -> Option<JournalError> {
    match e.entry_kind {
        EntryKind::Account { account_id } => if !afts.accounts.spec_map().dom().contains(
            account_id,
        ) {
            Some(JournalError::InvalidAccount(account_id))
        } else {
            None
        },
        EntryKind::Activity { activity_id, fund_id, transfer } => if !afts.funds.spec_set().contains(
            fund_id,
        ) {
            Some(JournalError::InvalidActivity(activity_id))
        } else if !afts.activities.spec_map().dom().contains(activity_id) {
            Some(JournalError::InvalidActivity(activity_id))
        } else if transfer && afts.activities.spec_map()[activity_id] != ActivityType::Transfer {
            Some(
                JournalError::TransactionValidation(
                    TransactionValidationError::TransferViolation(activity_id),
                ),
            )
        } else {
            None
        },
    }
}

/// The index of the first entry from `k` on that cannot be booked, or the number of
/// entries if there is none.
pub open spec fn first_error_from(afts: JournalAFTs, es: Seq<TransactionEntry>, k: int) -> int
    decreases es.len() - k,
{
    if k < 0 || k >= es.len() {
        es.len() as int
    } else if entry_error(afts, es[k]) is Some {
        k
    } else {
        first_error_from(afts, es, k + 1)
    }
}

proof fn lemma_first_error_bounds(afts: JournalAFTs, es: Seq<TransactionEntry>, k: int)
    requires
        0 <= k <= es.len(),
    ensures
        k <= first_error_from(afts, es, k) <= es.len(),
        first_error_from(afts, es, k) < es.len() ==> entry_error(
            afts,
            es[first_error_from(afts, es, k)],
        ) is Some,
    decreases es.len() - k,
{
    if k < es.len() && entry_error(afts, es[k]) is None {
        lemma_first_error_bounds(afts, es, k + 1);
    }
}

proof fn lemma_first_error_skip(afts: JournalAFTs, es: Seq<TransactionEntry>, k: int, i: int)
    requires
        0 <= k <= i <= es.len(),
        forall|j: int| k <= j < i ==> entry_error(afts, #[trigger] es[j]) is None,
    ensures
        first_error_from(afts, es, k) == first_error_from(afts, es, i),
    decreases i - k,
{
    if k < i {
        lemma_first_error_skip(afts, es, k + 1, i);
    }
}

/// Booking the transaction reaches entry `k` (adds its change to the balance) exactly when
/// every earlier entry can be booked; these conditions say that doing so never overflows
/// an `i64`.
pub open spec fn balances_fit(afts: JournalAFTs, es: Seq<TransactionEntry>) -> bool {
    forall|k: int|
        #![trigger es[k]]
        0 <= k < es.len() && k <= first_error_from(afts, es, 0) ==> {
            &&& !(es[k].entry_side == EntrySide::Debit && es[k].amount == 0x8000_0000_0000_0000u64)
            &&& i64::MIN <= overall_sum(es, k + 1) <= i64::MAX
            &&& (k < first_error_from(afts, es, 0) ==> i64::MIN <= transfer_sum(es, k + 1)
                <= i64::MAX)
        }
}

proof fn lemma_wrap(a: u64)
    ensures
        a <= 0x7fff_ffff_ffff_ffffu64 ==> (a as i64) as int == a as int,
        a > 0x7fff_ffff_ffff_ffffu64 ==> (a as i64) as int == a as int
            - 0x1_0000_0000_0000_0000int,
{
    assert(a <= 0x7fff_ffff_ffff_ffffu64 ==> (a as i64) == a) by (bit_vector);
    assert(a > 0x7fff_ffff_ffff_ffffu64 ==> (a as i64) as int == a as int
        - 0x1_0000_0000_0000_0000int) by (bit_vector);
}

/// Books a transaction: a set of entries whose credits and debits balance, both overall and
/// among transfer entries.
pub struct CreateTransaction {
    pub transaction_id: TransactionId,
    pub journal_id: JournalId,
    pub entries: TransactionEntries,
    pub period: FinancialPeriod,
    pub authority: Authority,
    pub timestamp: Timestamp,
}

impl CreateTransaction {
    pub fn new(
        transaction_id: TransactionId,
        journal_id: JournalId,
        entries: TransactionEntries,
        period: FinancialPeriod,
        authority: Authority,
        timestamp: Timestamp,
    ) -> (c: CreateTransaction)
        ensures
            c == (CreateTransaction {
                transaction_id,
                journal_id,
                entries,
                period,
                authority,
                timestamp,
            }),
    {
        CreateTransaction { transaction_id, journal_id, entries, period, authority, timestamp }
    }

    /// The transaction, the journal's accounts, funds and activities, the journal, and the
    /// actor's membership.
    pub fn state_query(&self) -> (q: (Transaction, JournalAFTs, Journal, JournalMember))
        ensures
            q.0.transaction_id == self.transaction_id,
            q.0.status == Status::Missing,
            q.1.wf(),
            q.1.journal_id == self.journal_id,
            q.1.accounts.spec_map() == Map::<AccountId, AccountType>::empty(),
            q.1.funds.spec_set() == Set::<FundId>::empty(),
            q.1.activities.spec_map() == Map::<ActivityId, ActivityType>::empty(),
            q.2.journal_id == self.journal_id,
            q.2.status == Status::Missing,
            q.3 == actor_member(self.journal_id, self.authority),
    {
        (
            Transaction::new(self.transaction_id),
            JournalAFTs::new(self.journal_id),
            Journal::new(self.journal_id),
            actor_member_query(self.journal_id, self.authority),
        )
    }

    /// Fails if the identifier is taken, if the journal does not exist, if the actor may not
    /// append transactions, at the first entry that cannot be booked, or if the entries do
    /// not balance (overall, or among transfers); otherwise every entry is booked under a
    /// fresh identifier, followed by the transaction that lists them.
    pub fn process(
        &self,
        transaction: &Transaction,
        afts: &JournalAFTs,
        journal: &Journal,
        actor: &JournalMember,
    ) -> (r: Result<Vec<JournalDomainEvent>, JournalError>)
        requires
            afts.wf(),
            transaction.status == Status::Missing && journal.status == Status::Valid && permitted(
                *actor,
                self.authority,
                journal.owner,
                Permissions { bits: 32 },
            ) ==> balances_fit(*afts, self.entries.0@),
        ensures
            ({
                let es = self.entries.0@;
                let n = es.len() as int;
                let first = first_error_from(*afts, es, 0);
                if transaction.status != Status::Missing {
                    r == Err::<Vec<JournalDomainEvent>, JournalError>(
                        JournalError::TransactionIdCollision(self.transaction_id),
                    )
                } else if journal.status != Status::Valid {
                    r == Err::<Vec<JournalDomainEvent>, JournalError>(
                        JournalError::InvalidJournal(self.journal_id),
                    )
                } else if !permitted(*actor, self.authority, journal.owner, Permissions { bits: 32 }) {
                    r == Err::<Vec<JournalDomainEvent>, JournalError>(
                        JournalError::Permissions(Permissions { bits: 32 }),
                    )
                } else if first < n {
                    r == Err::<Vec<JournalDomainEvent>, JournalError>(
                        entry_error(*afts, es[first]).unwrap(),
                    )
                } else if overall_sum(es, n) != 0 || transfer_sum(es, n) != 0 {
                    r matches Err(
                        JournalError::TransactionValidation(
                            TransactionValidationError::ImbalancedTransaction(t),
                        ),
                    ) && t.0@ == es
                } else {
                    r matches Ok(evs) && evs@.len() == n + 1 && (evs@[n]
                        matches JournalDomainEvent::TransactionCreated {
                        transaction_id,
                        journal_id,
                        entries,
                        financial_period,
                        authority,
                        timestamp,
                    } && transaction_id == self.transaction_id && journal_id == self.journal_id
                        && financial_period == self.period && authority == self.authority
                        && timestamp == self.timestamp && entries.0@.len() == n && forall|i: int|
                        0 <= i < n ==> #[trigger] evs@[i] == (JournalDomainEvent::EntryCreated {
                            entry_id: entries.0@[i],
                            journal_id: self.journal_id,
                            amount: es[i].amount,
                            entry_side: es[i].entry_side,
                            entry_kind: es[i].entry_kind,
                            authority: self.authority,
                            timestamp: self.timestamp,
                        }))
                }
            }),
            r is Ok ==> overall_sum(self.entries.0@, self.entries.0@.len() as int) == 0
                && transfer_sum(self.entries.0@, self.entries.0@.len() as int) == 0,
    {
        if transaction.status.found() {
            return Err(JournalError::TransactionIdCollision(self.transaction_id));
        }
        if !journal.status.valid() {
            return Err(JournalError::InvalidJournal(self.journal_id));
        }
        if !validate_permissions(
            actor,
            self.authority,
            journal.owner,
            Permissions::append_transaction(),
        ) {
            return Err(JournalError::Permissions(Permissions::append_transaction()));
        }
        let ghost es = self.entries.0@;
        let mut overall_balance: i64 = 0;
        let mut transfer_balance: i64 = 0;
        let mut entry_ids: Vec<EntryId> = Vec::new();
        let mut events: Vec<JournalDomainEvent> = Vec::new();
        let mut i: usize = 0;
        while i < self.entries.0.len()
            invariant
                afts.wf(),
                transaction.status == Status::Missing,
                journal.status == Status::Valid,
                permitted(*actor, self.authority, journal.owner, Permissions { bits: 32 }),
                es == self.entries.0@,
                balances_fit(*afts, es),
                i <= es.len(),
                forall|j: int| 0 <= j < i ==> entry_error(*afts, #[trigger] es[j]) is None,
                first_error_from(*afts, es, 0) == first_error_from(*afts, es, i as int),
                overall_balance as int == overall_sum(es, i as int),
                transfer_balance as int == transfer_sum(es, i as int),
                entry_ids@.len() == i,
                events@.len() == i,
                forall|j: int|
                    0 <= j < i ==> #[trigger] events@[j] == (JournalDomainEvent::EntryCreated {
                        entry_id: entry_ids@[j],
                        journal_id: self.journal_id,
                        amount: es[j].amount,
                        entry_side: es[j].entry_side,
                        entry_kind: es[j].entry_kind,
                        authority: self.authority,
                        timestamp: self.timestamp,
                    }),
            decreases es.len() - i,
        {
            let entry = self.entries.0[i];
            proof {
                lemma_first_error_skip(*afts, es, 0, i as int);
                lemma_first_error_bounds(*afts, es, i as int);
                lemma_wrap(entry.amount);
                assert(i as int <= first_error_from(*afts, es, 0));
                assert(es[i as int] == entry);
            }
            let change: i64 = match entry.entry_side {
                EntrySide::Credit => #[verifier::truncate] (entry.amount as i64),
                EntrySide::Debit => -(#[verifier::truncate] (entry.amount as i64)),
            };
            assert(change as int == entry_change(entry));
            overall_balance = overall_balance + change;
            match entry.entry_kind {
                EntryKind::Account { account_id } => {
                    if !afts.accounts.contains_key(&account_id) {
                        assert(entry_error(*afts, es[i as int]) is Some);
                        assert(first_error_from(*afts, es, i as int) == i);
                        return Err(JournalError::InvalidAccount(account_id));
                    }
                },
                EntryKind::Activity { activity_id, fund_id, transfer } => {
                    if !afts.funds.contains(&fund_id) {
                        assert(entry_error(*afts, es[i as int]) is Some);
                        assert(first_error_from(*afts, es, i as int) == i);
                        return Err(JournalError::InvalidActivity(activity_id));
                    }
                    match afts.activities.get(&activity_id) {
                        Some(activity_type) => {
                            if transfer {
                                if *activity_type != ActivityType::Transfer {
                                    assert(entry_error(*afts, es[i as int]) is Some);
                                    assert(first_error_from(*afts, es, i as int) == i);
                                    return Err(
                                        JournalError::TransactionValidation(
                                            TransactionValidationError::TransferViolation(
                                                activity_id,
                                            ),
                                        ),
                                    );
                                }
                                proof {
                                    lemma_first_error_skip(*afts, es, i as int + 1, i as int + 1);
                                }
                                transfer_balance = transfer_balance + change;
                            }
                        },
                        None => {
                            assert(entry_error(*afts, es[i as int]) is Some);
                            assert(first_error_from(*afts, es, i as int) == i);
                            return Err(JournalError::InvalidActivity(activity_id));
                        },
                    }
                },
            }
            let entry_id = EntryId::new();
            entry_ids.push(entry_id);
            events.push(
                JournalDomainEvent::EntryCreated {
                    entry_id,
                    journal_id: self.journal_id,
                    amount: entry.amount,
                    entry_side: entry.entry_side,
                    entry_kind: entry.entry_kind,
                    authority: self.authority,
                    timestamp: self.timestamp,
                },
            );
            i = i + 1;
            proof {
                lemma_first_error_skip(*afts, es, 0, i as int);
            }
        }
        if transfer_balance != 0 || overall_balance != 0 {
            return Err(
                JournalError::TransactionValidation(
                    TransactionValidationError::ImbalancedTransaction(self.entries.clone()),
                ),
            );
        }
        let ghost ids = entry_ids@;
        events.push(
            JournalDomainEvent::TransactionCreated {
                transaction_id: self.transaction_id,
                journal_id: self.journal_id,
                entries: TransactionEntryIds(entry_ids),
                financial_period: self.period,
                authority: self.authority,
                timestamp: self.timestamp,
            },
        );
        Ok(events)
    }
}

/// A booked entry as the read model stores it.
#[derive(Clone, Copy, Debug)]
pub struct StoredTransactionEntry {
    pub id: EntryId,
    pub journal_id: JournalId,
    pub amount: i64,
    pub entry_side: EntrySide,
    pub entry_kind: EntryKind,
}

/// A booked transaction with its entries, in the order they were booked.
#[derive(Debug)]
pub struct TransactionState {
    pub id: TransactionId,
    pub journal_id: JournalId,
    pub entries: Vec<StoredTransactionEntry>,
}

/// The index of the first identifier that has no stored entry, or the number of
/// identifiers if every one has.
pub open spec fn first_missing_entry(
    ids: Seq<EntryId>,
    stored: Map<EntryId, StoredTransactionEntry>,
    k: int,
) -> int
    decreases ids.len() - k,
{
    if k < 0 || k >= ids.len() {
        ids.len() as int
    } else if !stored.dom().contains(ids[k]) {
        k
    } else {
        first_missing_entry(ids, stored, k + 1)
    }
}

proof fn lemma_first_missing_entry(ids: Seq<EntryId>, stored: Map<EntryId, StoredTransactionEntry>, k: int, i: int)
    requires
        0 <= k <= i <= ids.len(),
        forall|j: int| k <= j < i ==> stored.dom().contains(#[trigger] ids[j]),
    ensures
        first_missing_entry(ids, stored, k) == first_missing_entry(ids, stored, i),
    decreases i - k,
{
    if k < i {
        lemma_first_missing_entry(ids, stored, k + 1, i);
    }
}

/// The stored entries of a transaction, in the order of its entry identifiers; the first
/// identifier without a stored entry is an error.
pub fn collect_entries(ids: &Vec<EntryId>, stored: &IdMap<EntryId, StoredTransactionEntry>) -> (r:
    Result<Vec<StoredTransactionEntry>, JournalError>)
    requires
        stored.wf(),
    ensures
        ({
            let first = first_missing_entry(ids@, stored.spec_map(), 0);
            if first < ids@.len() {
                r matches Err(JournalError::InvalidEntry(e)) && e == ids@[first]
            } else {
                r matches Ok(v) && v@.len() == ids@.len() && forall|i: int|
                    0 <= i < ids@.len() ==> #[trigger] v@[i] == stored.spec_map()[ids@[i]]
            }
        }),
{
    let mut v: Vec<StoredTransactionEntry> = Vec::new();
    let mut i: usize = 0;
    while i < ids.len()
        invariant
            stored.wf(),
            i <= ids@.len(),
            v@.len() == i,
            forall|j: int| 0 <= j < i ==> stored.spec_map().dom().contains(#[trigger] ids@[j]),
            forall|j: int| 0 <= j < i ==> #[trigger] v@[j] == stored.spec_map()[ids@[j]],
        decreases ids@.len() - i,
    {
        match stored.get(&ids[i]) {
            Some(e) => {
                v.push(*e);
            },
            None => {
                proof {
                    lemma_first_missing_entry(ids@, stored.spec_map(), 0, i as int);
                }
                return Err(JournalError::InvalidEntry(ids[i]));
            },
        }
        i = i + 1;
    }
    proof {
        lemma_first_missing_entry(ids@, stored.spec_map(), 0, ids@.len() as int);
    }
    Ok(v)
}

} // verus!
