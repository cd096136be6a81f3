//! The threshold multi-party transaction engine: registered owners submit
//! transactions and approve them, and anyone may finalise a transaction once
//! enough owners have approved it.

use vstd::prelude::*;
use crate::address::{contains_address, copy_addresses, Address};
use crate::store::Store;

verus! {

/// A proposed transfer of `value` to `to`, and whether it has been executed.
#[derive(Clone, Copy, Debug, PartialEq, Eq, Structural)]
pub struct Transaction {
    pub to: Address,
    pub value: i128,
    pub executed: bool,
}

/// Why an operation of the engine was rejected.
#[derive(Clone, Copy, Debug, PartialEq, Eq, Structural)]
pub enum MultisigError {
    /// The caller did not prove its identity, or is not a registered owner.
    Unauthorized,
    /// No transaction is stored under the given id.
    NotFound,
    /// The transaction has been executed before.
    AlreadyExecuted,
    /// Fewer owners than the threshold have approved the transaction.
    InsufficientApprovals,
}

/// A notification that the engine records for outside watchers.
#[derive(Clone, Copy, Debug, PartialEq, Eq, Structural)]
pub enum MultisigEvent {
    /// A transaction was submitted under `tx_id`.
    TransactionSubmitted { tx_id: u32, to: Address, value: i128 },
    /// `owner` approved the transaction `tx_id`.
    Approval { tx_id: u32, owner: Address },
}

impl MultisigEvent {
    /// The topic under which the event is published, as characters.
    pub open spec fn topic_name(self) -> Seq<char> {
        match self {
            MultisigEvent::TransactionSubmitted { .. } => "transaction_submitted"@,
            MultisigEvent::Approval { .. } => "approval"@,
        }
    }

    /// The topic under which the event is published.
    pub fn topic(&self) -> (name: &'static str)
        ensures
            name@ == self.topic_name(),
    {
        match self {
            MultisigEvent::TransactionSubmitted { .. } => "transaction_submitted",
            MultisigEvent::Approval { .. } => "approval",
        }
    }
}

/// Whether `owner` is marked as having approved `tx_id`.
pub open spec fn is_approved(
    approvals: Map<(u32, Address), bool>,
    tx_id: u32,
    owner: Address,
) -> bool {
    approvals.contains_key((tx_id, owner)) && approvals[(tx_id, owner)]
}

/// The number of positions of `owners` whose owner has approved `tx_id`.
pub open spec fn count_approvals(
    owners: Seq<Address>,
    approvals: Map<(u32, Address), bool>,
    tx_id: u32,
) -> nat
    decreases owners.len(),
{
    if owners.len() == 0 {
        0
    } else {
        count_approvals(owners.drop_last(), approvals, tx_id) + if is_approved(
            approvals,
            tx_id,
            owners.last(),
        ) {
            1nat
        } else {
            0nat
        }
    }
}

/// The engine's state as mathematics.
pub struct MultisigState {
    /// The registered owners, in the order in which they were given.
    pub owners: Seq<Address>,
    /// How many owners must approve a transaction before it may execute.
    pub threshold: u32,
    /// The id that the next submitted transaction gets.
    pub next_tx_id: u32,
    /// The transactions, by id.
    pub transactions: Map<u32, Transaction>,
    /// The approval markers, by transaction id and owner.
    pub approvals: Map<(u32, Address), bool>,
    /// The events recorded so far, oldest first.
    pub events: Seq<MultisigEvent>,
}

impl MultisigState {
    /// The state before anything has been set up: no owners, no transactions.
    pub open spec fn empty() -> MultisigState {
        MultisigState {
            owners: Seq::empty(),
            threshold: 0,
            next_tx_id: 0,
            transactions: Map::empty(),
            approvals: Map::empty(),
            events: Seq::empty(),
        }
    }

    /// The state after setting up `owners` and `threshold`: both are stored as
    /// given and ids start again at 0; transactions, approvals and events stay.
    pub open spec fn after_init(self, owners: Seq<Address>, threshold: u32) -> MultisigState {
        MultisigState { owners, threshold, next_tx_id: 0, ..self }
    }

    /// Whether `who` is a registered owner.
    pub open spec fn is_owner(self, who: Address) -> bool {
        self.owners.contains(who)
    }

    /// Whether `who` may submit and approve: it has proved its identity and is
    /// a registered owner.
    pub open spec fn may_act(self, who: Address, authorized: bool) -> bool {
        authorized && self.is_owner(who)
    }

    /// What submitting returns: the next id, or `Unauthorized`.
    pub open spec fn submit_result(self, from: Address, authorized: bool) -> Result<
        u32,
        MultisigError,
    > {
        if self.may_act(from, authorized) {
            Ok(self.next_tx_id)
        } else {
            Err(MultisigError::Unauthorized)
        }
    }

    /// The state after a submission: on success the transaction is stored,
    /// unexecuted, under the next id, the next id moves on by one and the event
    /// is recorded; on failure nothing changes.
    pub open spec fn after_submit(
        self,
        from: Address,
        authorized: bool,
        to: Address,
        value: i128,
    ) -> MultisigState {
        if self.may_act(from, authorized) {
            MultisigState {
                next_tx_id: (self.next_tx_id + 1) as u32,
                transactions: self.transactions.insert(
                    self.next_tx_id,
                    Transaction { to, value, executed: false },
                ),
                events: self.events.push(
                    MultisigEvent::TransactionSubmitted { tx_id: self.next_tx_id, to, value },
                ),
                ..self
            }
        } else {
            self
        }
    }

    /// What approving returns: nothing, or `Unauthorized`.
    pub open spec fn approve_result(self, owner: Address, authorized: bool) -> Result<
        (),
        MultisigError,
    > {
        if self.may_act(owner, authorized) {
            Ok(())
        } else {
            Err(MultisigError::Unauthorized)
        }
    }

    /// The state after an approval: on success the marker of `(tx_id, owner)`
    /// is set and the event is recorded, whether or not a transaction is stored
    /// under `tx_id`; on failure nothing changes.
    pub open spec fn after_approve(
        self,
        owner: Address,
        authorized: bool,
        tx_id: u32,
    ) -> MultisigState {
        if self.may_act(owner, authorized) {
            MultisigState {
                approvals: self.approvals.insert((tx_id, owner), true),
                events: self.events.push(MultisigEvent::Approval { tx_id, owner }),
                ..self
            }
        } else {
            self
        }
    }

    /// The number of approvals of `tx_id`, counted over the registered owners.
    pub open spec fn tally(self, tx_id: u32) -> nat {
        count_approvals(self.owners, self.approvals, tx_id)
    }

    /// What looking up a transaction returns: the transaction, or `NotFound`.
    pub open spec fn transaction_result(self, tx_id: u32) -> Result<Transaction, MultisigError> {
        if self.transactions.contains_key(tx_id) {
            Ok(self.transactions[tx_id])
        } else {
            Err(MultisigError::NotFound)
        }
    }

    /// What executing returns. The checks come in this order: the transaction
    /// exists, it has not been executed, and the tally reaches the threshold.
    pub open spec fn execute_result(self, tx_id: u32) -> Result<(), MultisigError> {
        if !self.transactions.contains_key(tx_id) {
            Err(MultisigError::NotFound)
        } else if self.transactions[tx_id].executed {
            Err(MultisigError::AlreadyExecuted)
        } else if self.tally(tx_id) < self.threshold {
            Err(MultisigError::InsufficientApprovals)
        } else {
            Ok(())
        }
    }

    /// The state after an execution: on success the transaction is marked
    /// executed and nothing else changes; on failure nothing changes.
    pub open spec fn after_execute(self, tx_id: u32) -> MultisigState {
        if self.execute_result(tx_id) is Ok {
            MultisigState {
                transactions: self.transactions.insert(
                    tx_id,
                    Transaction { executed: true, ..self.transactions[tx_id] },
                ),
                ..self
            }
        } else {
            self
        }
    }
}

/// The engine: the owner registry, the id allocator, the transaction store,
/// the approval ledger and the event log, held as one value.
pub struct Multisig {
    pub owners: Vec<Address>,
    pub threshold: u32,
    pub next_tx_id: u32,
    pub transactions: Store<u32, Transaction>,
    pub approvals: Store<(u32, Address), bool>,
    pub events: Vec<MultisigEvent>,
}

impl View for Multisig {
    type V = MultisigState;

    open spec fn view(&self) -> MultisigState {
        MultisigState {
            owners: self.owners@,
            threshold: self.threshold,
            next_tx_id: self.next_tx_id,
            transactions: self.transactions@,
            approvals: self.approvals@,
            events: self.events@,
        }
    }
}

impl Multisig {
    /// An engine that has not been set up yet.
    pub fn new() -> (engine: Multisig)
        ensures
            engine@ == MultisigState::empty(),
    {
        Multisig {
            owners: Vec::new(),
            threshold: 0,
            next_tx_id: 0,
            transactions: Store::new(),
            approvals: Store::new(),
            events: Vec::new(),
        }
    }

    /// Sets up the owners and the threshold, as given and unchecked, and starts
    /// the ids again at 0.
    pub fn init(&mut self, owners: Vec<Address>, threshold: u32)
        ensures
            final(self)@ == old(self)@.after_init(owners@, threshold),
    {
        self.owners = owners;
        self.threshold = threshold;
        self.next_tx_id = 0;
    }

    /// Whether `who` is a registered owner.
    pub fn is_owner(&self, who: Address) -> (found: bool)
        ensures
            found == self@.is_owner(who),
    {
        contains_address(&self.owners, who)
    }

    /// Hands out the next transaction id and moves the allocator on by one.
    fn allocate_tx_id(&mut self) -> (tx_id: u32)
        requires
            old(self)@.next_tx_id < u32::MAX,
        ensures
            tx_id == old(self)@.next_tx_id,
            final(self)@ == (MultisigState { next_tx_id: (tx_id + 1) as u32, ..old(self)@ }),
    {
        let tx_id = self.next_tx_id;
        self.next_tx_id = tx_id + 1;
        tx_id
    }

    /// Submits a transaction of `value` to `to` in the name of `from`;
    /// `authorized` says whether `from` has proved its identity for this call.
    pub fn submit_transaction(
        &mut self,
        from: Address,
        authorized: bool,
        to: Address,
        value: i128,
    ) -> (result: Result<u32, MultisigError>)
        requires
            old(self)@.may_act(from, authorized) ==> old(self)@.next_tx_id < u32::MAX,
        ensures
            result == old(self)@.submit_result(from, authorized),
            final(self)@ == old(self)@.after_submit(from, authorized, to, value),
    {
        if !authorized || !self.is_owner(from) {
            return Err(MultisigError::Unauthorized);
        }
        let tx_id = self.allocate_tx_id();
        self.transactions.set(tx_id, Transaction { to, value, executed: false });
        self.events.push(MultisigEvent::TransactionSubmitted { tx_id, to, value });
        Ok(tx_id)
    }

    /// Records that `owner` approves the transaction `tx_id`; `authorized` says
    /// whether `owner` has proved its identity for this call.
    pub fn approve(&mut self, owner: Address, authorized: bool, tx_id: u32) -> (result: Result<
        (),
        MultisigError,
    >)
        ensures
            result == old(self)@.approve_result(owner, authorized),
            final(self)@ == old(self)@.after_approve(owner, authorized, tx_id),
    {
        if !authorized || !self.is_owner(owner) {
            return Err(MultisigError::Unauthorized);
        }
        self.approvals.set((tx_id, owner), true);
        self.events.push(MultisigEvent::Approval { tx_id, owner });
        Ok(())
    }

    /// The number of approvals of `tx_id`, counted over the registered owners.
    pub fn approval_count(&self, tx_id: u32) -> (count: usize)
        ensures
            count == self@.tally(tx_id),
    {
        let mut count: usize = 0;
        let mut i: usize = 0;
        while i < self.owners.len()
            invariant
                i <= self.owners@.len(),
                count <= i,
                count == count_approvals(self.owners@.take(i as int), self.approvals@, tx_id),
            decreases self.owners@.len() - i,
        {
            let approved = match self.approvals.get(&(tx_id, self.owners[i])) {
                Some(marker) => *marker,
                None => false,
            };
            proof {
                let longer = self.owners@.take(i + 1);
                assert(longer.drop_last() =~= self.owners@.take(i as int));
                assert(longer.last() == self.owners@[i as int]);
            }
            if approved {
                count += 1;
            }
            i += 1;
        }
        proof {
            assert(self.owners@.take(self.owners@.len() as int) =~= self.owners@);
        }
        count
    }

    /// Marks the transaction `tx_id` as executed, if it exists, has not been
    /// executed and has enough approvals. Any caller may do this.
    pub fn execute(&mut self, tx_id: u32) -> (result: Result<(), MultisigError>)
        ensures
            result == old(self)@.execute_result(tx_id),
            final(self)@ == old(self)@.after_execute(tx_id),
    {
        let tx = match self.transactions.get(&tx_id) {
            Some(found) => *found,
            None => {
                return Err(MultisigError::NotFound);
            },
        };
        if tx.executed {
            return Err(MultisigError::AlreadyExecuted);
        }
        let count = self.approval_count(tx_id);
        if (count as u64) < (self.threshold as u64) {
            return Err(MultisigError::InsufficientApprovals);
        }
        self.transactions.set(tx_id, Transaction { to: tx.to, value: tx.value, executed: true });
        Ok(())
    }

    /// The registered owners, in the stored order.
    pub fn get_owners(&self) -> (owners: Vec<Address>)
        ensures
            owners@ == self@.owners,
    {
        copy_addresses(&self.owners)
    }

    /// The approval threshold.
    pub fn get_threshold(&self) -> (threshold: u32)
        ensures
            threshold == self@.threshold,
    {
        self.threshold
    }

    /// The transaction stored under `tx_id`.
    pub fn get_transaction(&self, tx_id: u32) -> (result: Result<Transaction, MultisigError>)
        ensures
            result == self@.transaction_result(tx_id),
    {
        match self.transactions.get(&tx_id) {
            Some(found) => Ok(*found),
            None => Err(MultisigError::NotFound),
        }
    }

    /// The events recorded so far, oldest first.
    pub fn events(&self) -> (events: &Vec<MultisigEvent>)
        ensures
            events@ == self@.events,
    {
        &self.events
    }
}

/// One authenticated call of `submit_transaction`, as data.
pub struct Submission {
    pub from: Address,
    pub to: Address,
    pub value: i128,
}

/// One call of `approve`, as data.
pub struct ApprovalCall {
    pub owner: Address,
    pub authorized: bool,
    pub tx_id: u32,
}

impl MultisigState {
    /// The state after the authenticated submissions `calls`, made in order.
    pub open spec fn after_submissions(self, calls: Seq<Submission>) -> MultisigState
        decreases calls.len(),
    {
        if calls.len() == 0 {
            self
        } else {
            self.after_submissions(calls.drop_last()).after_submit(
                calls.last().from,
                true,
                calls.last().to,
                calls.last().value,
            )
        }
    }

    /// The state after the approval calls `calls`, made in order.
    pub open spec fn after_approvals(self, calls: Seq<ApprovalCall>) -> MultisigState
        decreases calls.len(),
    {
        if calls.len() == 0 {
            self
        } else {
            self.after_approvals(calls.drop_last()).after_approve(
                calls.last().owner,
                calls.last().authorized,
                calls.last().tx_id,
            )
        }
    }

    /// Every stored transaction has an id that the allocator has handed out.
    pub open spec fn ids_are_allocated(self) -> bool {
        forall|tx_id: u32| #[trigger]
            self.transactions.contains_key(tx_id) ==> tx_id < self.next_tx_id
    }
}

/// After a set-up, the owners are exactly those given, in the given order, and
/// the threshold is the one given.
pub proof fn lemma_init_stores_owners(state: MultisigState, owners: Seq<Address>, threshold: u32)
    ensures
        state.after_init(owners, threshold).owners == owners,
        state.after_init(owners, threshold).threshold == threshold,
        state.after_init(owners, threshold).next_tx_id == 0,
{
}

/// A submission by someone who is not an owner, or has not proved its
/// identity, is rejected as `Unauthorized` and leaves the state as it was;
/// where no transaction was stored under the id that it would have got, none is
/// stored under it afterwards.
pub proof fn lemma_rejected_submit_stores_nothing(
    state: MultisigState,
    from: Address,
    authorized: bool,
    to: Address,
    value: i128,
)
    requires
        !state.may_act(from, authorized),
        !state.transactions.contains_key(state.next_tx_id),
    ensures
        state.submit_result(from, authorized) == Err::<u32, MultisigError>(
            MultisigError::Unauthorized,
        ),
        state.after_submit(from, authorized, to, value) == state,
        state.after_submit(from, authorized, to, value).transaction_result(state.next_tx_id)
            == Err::<Transaction, MultisigError>(MultisigError::NotFound),
{
}

/// Submissions by owners move the allocator on by one each and leave the
/// owners and the threshold alone.
pub proof fn lemma_submissions_advance_ids(state: MultisigState, calls: Seq<Submission>)
    requires
        forall|k: int| 0 <= k < calls.len() ==> state.is_owner((#[trigger] calls[k]).from),
        state.next_tx_id + calls.len() <= u32::MAX,
    ensures
        state.after_submissions(calls).next_tx_id == state.next_tx_id + calls.len(),
        state.after_submissions(calls).owners == state.owners,
        state.after_submissions(calls).threshold == state.threshold,
        state.after_submissions(calls).approvals == state.approvals,
    decreases calls.len(),
{
    if calls.len() > 0 {
        let earlier = calls.drop_last();
        assert forall|k: int| 0 <= k < earlier.len() implies state.is_owner(
            (#[trigger] earlier[k]).from,
        ) by {
            assert(earlier[k] == calls[k]);
        }
        lemma_submissions_advance_ids(state, earlier);
        assert(state.is_owner(calls[calls.len() - 1].from));
    }
}

/// After a set-up, consecutive submissions by owners get the ids 0, 1, 2 and so
/// on: the submission at position `k` gets the id `k`.
pub proof fn lemma_submit_ids_count_up(
    state: MultisigState,
    owners: Seq<Address>,
    threshold: u32,
    calls: Seq<Submission>,
    k: int,
)
    requires
        forall|j: int| 0 <= j < calls.len() ==> owners.contains((#[trigger] calls[j]).from),
        calls.len() <= u32::MAX,
        0 <= k < calls.len(),
    ensures
        state.after_init(owners, threshold).after_submissions(calls.take(k)).submit_result(
            calls[k].from,
            true,
        ) == Ok::<u32, MultisigError>(k as u32),
{
    let start = state.after_init(owners, threshold);
    let earlier = calls.take(k);
    assert forall|j: int| 0 <= j < earlier.len() implies start.is_owner(
        (#[trigger] earlier[j]).from,
    ) by {
        assert(earlier[j] == calls[j]);
    }
    lemma_submissions_advance_ids(start, earlier);
    assert(start.after_submissions(earlier).is_owner(calls[k].from));
}

/// Approving a transaction a second time in the name of the same owner leaves
/// the approval markers, and so every tally, as the first approval left them.
pub proof fn lemma_approve_is_idempotent(
    state: MultisigState,
    owner: Address,
    authorized: bool,
    tx_id: u32,
    any_tx_id: u32,
)
    ensures
        state.after_approve(owner, authorized, tx_id).after_approve(
            owner,
            authorized,
            tx_id,
        ).approvals == state.after_approve(owner, authorized, tx_id).approvals,
        state.after_approve(owner, authorized, tx_id).after_approve(
            owner,
            authorized,
            tx_id,
        ).tally(any_tx_id) == state.after_approve(owner, authorized, tx_id).tally(any_tx_id),
        state.after_approve(owner, authorized, tx_id).after_approve(
            owner,
            authorized,
            tx_id,
        ).transactions == state.after_approve(owner, authorized, tx_id).transactions,
{
    let once = state.after_approve(owner, authorized, tx_id);
    let twice = once.after_approve(owner, authorized, tx_id);
    assert(twice.approvals =~= once.approvals);
}

/// Approvals leave the transactions, the owners, the threshold and the
/// allocator alone.
pub proof fn lemma_approvals_keep_transactions(state: MultisigState, calls: Seq<ApprovalCall>)
    ensures
        state.after_approvals(calls).transactions == state.transactions,
        state.after_approvals(calls).owners == state.owners,
        state.after_approvals(calls).threshold == state.threshold,
        state.after_approvals(calls).next_tx_id == state.next_tx_id,
    decreases calls.len(),
{
    if calls.len() > 0 {
        lemma_approvals_keep_transactions(state, calls.drop_last());
    }
}

/// Once a transaction has been executed, executing it again is rejected as
/// `AlreadyExecuted`, whatever approvals were made in between.
pub proof fn lemma_execute_only_once(state: MultisigState, tx_id: u32, calls: Seq<ApprovalCall>)
    requires
        state.execute_result(tx_id) is Ok,
    ensures
        state.after_execute(tx_id).transactions[tx_id].executed,
        state.after_execute(tx_id).after_approvals(calls).execute_result(tx_id) == Err::<
            (),
            MultisigError,
        >(MultisigError::AlreadyExecuted),
        state.after_execute(tx_id).after_approvals(calls).after_execute(tx_id)
            == state.after_execute(tx_id).after_approvals(calls),
{
    lemma_approvals_keep_transactions(state.after_execute(tx_id), calls);
}

/// The tally of a transaction never exceeds the number of owners.
pub proof fn lemma_tally_is_bounded(
    owners: Seq<Address>,
    approvals: Map<(u32, Address), bool>,
    tx_id: u32,
)
    ensures
        count_approvals(owners, approvals, tx_id) <= owners.len(),
    decreases owners.len(),
{
    if owners.len() > 0 {
        lemma_tally_is_bounded(owners.drop_last(), approvals, tx_id);
    }
}

/// A threshold above the number of owners cannot be met: no transaction
/// executes under it.
pub proof fn lemma_threshold_above_owners_blocks_execution(state: MultisigState, tx_id: u32)
    requires
        state.threshold > state.owners.len(),
    ensures
        !(state.execute_result(tx_id) is Ok),
        state.after_execute(tx_id) == state,
{
    lemma_tally_is_bounded(state.owners, state.approvals, tx_id);
}

/// That every stored transaction has an allocated id holds after a set-up of an
/// engine without transactions, and submitting, approving and executing keep it.
pub proof fn lemma_ids_stay_allocated(
    state: MultisigState,
    who: Address,
    authorized: bool,
    to: Address,
    value: i128,
    tx_id: u32,
    owners: Seq<Address>,
    threshold: u32,
)
    requires
        state.ids_are_allocated(),
        state.may_act(who, authorized) ==> state.next_tx_id < u32::MAX,
    ensures
        MultisigState::empty().after_init(owners, threshold).ids_are_allocated(),
        state.after_submit(who, authorized, to, value).ids_are_allocated(),
        state.after_approve(who, authorized, tx_id).ids_are_allocated(),
        state.after_execute(tx_id).ids_are_allocated(),
{
    let submitted = state.after_submit(who, authorized, to, value);
    assert forall|id: u32| #[trigger]
        submitted.transactions.contains_key(id) implies id < submitted.next_tx_id by {
        if state.may_act(who, authorized) && id != state.next_tx_id {
            assert(state.transactions.contains_key(id));
        }
    }
    let executed = state.after_execute(tx_id);
    assert forall|id: u32| #[trigger]
        executed.transactions.contains_key(id) implies id < executed.next_tx_id by {
        assert(state.transactions.contains_key(id));
    }
}

} // verus!
