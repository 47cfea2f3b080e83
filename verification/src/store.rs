//! The durable dedup store: lifecycle records keyed by message id, plus the
//! last-seen nonce per `(sender, source chain)`. Its atomic
//! reserve-if-absent-or-pending operation is the sole exactly-once guard of
//! the relay.

use vstd::prelude::*;

verus! {

use crate::types::{ExecutionStatus, ExecutionStatusV, CrossChainMessage, MessageStatus, MessageStatusV};
use crate::word::{be_nat, AccountId, Word256};

/// Last-seen nonce of one `(sender, source chain)` pair.
pub struct NonceRecord {
    pub sender: AccountId,
    pub source_chain_id: u64,
    pub nonce: Word256,
}

/// The in-memory form of the dedup store. The host persists it; the relay
/// never proceeds without a successful reservation in it.
pub struct DedupStore {
    records: Vec<MessageStatus>,
    nonces: Vec<NonceRecord>,
}

/// The map a sequence of lifecycle records denotes, keyed by message id.
pub open spec fn records_map(s: Seq<MessageStatus>) -> Map<Seq<u8>, MessageStatusV>
    decreases s.len(),
{
    if s.len() == 0 {
        Map::empty()
    } else {
        records_map(s.drop_last()).insert(s.last()@.message_id, s.last()@)
    }
}

/// The map a sequence of nonce records denotes, keyed by sender and chain.
pub open spec fn nonces_map(s: Seq<NonceRecord>) -> Map<(Seq<u8>, u64), nat>
    decreases s.len(),
{
    if s.len() == 0 {
        Map::empty()
    } else {
        nonces_map(s.drop_last()).insert(
            (s.last().sender@, s.last().source_chain_id),
            be_nat(s.last().nonce@),
        )
    }
}

/// No two records claim the same message id.
pub open spec fn record_ids_unique(s: Seq<MessageStatus>) -> bool {
    forall|i: int, j: int| 0 <= i < j < s.len() ==> s[i].message_id@ != s[j].message_id@
}

/// No two nonce records claim the same `(sender, source chain)` pair.
pub open spec fn nonce_keys_unique(s: Seq<NonceRecord>) -> bool {
    forall|i: int, j: int|
        0 <= i < j < s.len() ==> !(s[i].sender@ == s[j].sender@ && s[i].source_chain_id
            == s[j].source_chain_id)
}

proof fn lemma_records_map_props(s: Seq<MessageStatus>)
    requires
        record_ids_unique(s),
    ensures
        forall|k: Seq<u8>|
            #[trigger] records_map(s).contains_key(k) ==> exists|i: int|
                0 <= i < s.len() && s[i].message_id@ == k,
        forall|i: int|
            0 <= i < s.len() ==> records_map(s).contains_key(#[trigger] s[i].message_id@)
                && records_map(s)[s[i].message_id@] == s[i]@,
    decreases s.len(),
{
    if s.len() > 0 {
        assert(forall|i: int, j: int|
            0 <= i < j < s.drop_last().len() ==> s.drop_last()[i].message_id@
                != s.drop_last()[j].message_id@);
        lemma_records_map_props(s.drop_last());
        assert forall|k: Seq<u8>| #[trigger] records_map(s).contains_key(k) implies exists|i: int|
            0 <= i < s.len() && s[i].message_id@ == k by {
            if k == s.last().message_id@ {
                assert(s[s.len() - 1].message_id@ == k);
            } else {
                assert(records_map(s.drop_last()).contains_key(k));
                let j = choose|j: int|
                    0 <= j < s.drop_last().len() && s.drop_last()[j].message_id@ == k;
                assert(s[j].message_id@ == k);
            }
        }
        assert forall|i: int|
            0 <= i < s.len() implies records_map(s).contains_key(#[trigger] s[i].message_id@)
            && records_map(s)[s[i].message_id@] == s[i]@ by {
            if i < s.len() - 1 {
                assert(s.drop_last()[i] == s[i]);
                assert(s[i].message_id@ != s.last().message_id@);
            }
        }
    }
}

proof fn lemma_nonces_map_props(s: Seq<NonceRecord>)
    requires
        nonce_keys_unique(s),
    ensures
        forall|k: (Seq<u8>, u64)|
            #[trigger] nonces_map(s).contains_key(k) ==> exists|i: int|
                0 <= i < s.len() && s[i].sender@ == k.0 && s[i].source_chain_id == k.1,
        forall|i: int|
            0 <= i < s.len() ==> nonces_map(s).contains_key(
                ((#[trigger] s[i].sender@), s[i].source_chain_id),
            ) && nonces_map(s)[(s[i].sender@, s[i].source_chain_id)] == be_nat(s[i].nonce@),
    decreases s.len(),
{
    if s.len() > 0 {
        assert(forall|i: int, j: int|
            0 <= i < j < s.drop_last().len() ==> !(s.drop_last()[i].sender@
                == s.drop_last()[j].sender@ && s.drop_last()[i].source_chain_id
                == s.drop_last()[j].source_chain_id));
        lemma_nonces_map_props(s.drop_last());
        assert forall|k: (Seq<u8>, u64)| #[trigger] nonces_map(s).contains_key(
            k,
        ) implies exists|i: int|
            0 <= i < s.len() && s[i].sender@ == k.0 && s[i].source_chain_id == k.1 by {
            if k == (s.last().sender@, s.last().source_chain_id) {
                assert(s[s.len() - 1].sender@ == k.0 && s[s.len() - 1].source_chain_id == k.1);
            } else {
                assert(nonces_map(s.drop_last()).contains_key(k));
                let j = choose|j: int|
                    0 <= j < s.drop_last().len() && s.drop_last()[j].sender@ == k.0
                        && s.drop_last()[j].source_chain_id == k.1;
                assert(s[j].sender@ == k.0 && s[j].source_chain_id == k.1);
            }
        }
        assert forall|i: int|
            0 <= i < s.len() implies nonces_map(s).contains_key(
            ((#[trigger] s[i].sender@), s[i].source_chain_id),
        ) && nonces_map(s)[(s[i].sender@, s[i].source_chain_id)] == be_nat(s[i].nonce@) by {
            if i < s.len() - 1 {
                assert(s.drop_last()[i] == s[i]);
                assert(!(s[i].sender@ == s.last().sender@ && s[i].source_chain_id
                    == s.last().source_chain_id));
            }
        }
    }
}

proof fn lemma_records_map_update(s: Seq<MessageStatus>, i: int, r: MessageStatus)
    requires
        record_ids_unique(s),
        0 <= i < s.len(),
        r.message_id@ == s[i].message_id@,
    ensures
        records_map(s.update(i, r)) == records_map(s).insert(r.message_id@, r@),
        record_ids_unique(s.update(i, r)),
    decreases s.len(),
{
    let su = s.update(i, r);
    assert(record_ids_unique(su));
    if i == s.len() - 1 {
        assert(su.drop_last() =~= s.drop_last());
        assert(su.last() == r);
        assert(records_map(su) =~= records_map(s).insert(r.message_id@, r@));
    } else {
        assert(su.drop_last() =~= s.drop_last().update(i, r));
        assert(forall|a: int, b: int|
            0 <= a < b < s.drop_last().len() ==> s.drop_last()[a].message_id@
                != s.drop_last()[b].message_id@);
        lemma_records_map_update(s.drop_last(), i, r);
        assert(su.last() == s.last());
        assert(s.last().message_id@ != r.message_id@);
        assert(records_map(su) =~= records_map(s).insert(r.message_id@, r@));
    }
}

proof fn lemma_nonces_map_update(s: Seq<NonceRecord>, i: int, r: NonceRecord)
    requires
        nonce_keys_unique(s),
        0 <= i < s.len(),
        r.sender@ == s[i].sender@,
        r.source_chain_id == s[i].source_chain_id,
    ensures
        nonces_map(s.update(i, r)) == nonces_map(s).insert(
            (r.sender@, r.source_chain_id),
            be_nat(r.nonce@),
        ),
        nonce_keys_unique(s.update(i, r)),
    decreases s.len(),
{
    let su = s.update(i, r);
    assert(nonce_keys_unique(su));
    if i == s.len() - 1 {
        assert(su.drop_last() =~= s.drop_last());
        assert(su.last() == r);
        assert(nonces_map(su) =~= nonces_map(s).insert(
            (r.sender@, r.source_chain_id),
            be_nat(r.nonce@),
        ));
    } else {
        assert(su.drop_last() =~= s.drop_last().update(i, r));
        assert(forall|a: int, b: int|
            0 <= a < b < s.drop_last().len() ==> !(s.drop_last()[a].sender@
                == s.drop_last()[b].sender@ && s.drop_last()[a].source_chain_id
                == s.drop_last()[b].source_chain_id));
        lemma_nonces_map_update(s.drop_last(), i, r);
        assert(su.last() == s.last());
        assert(!(s.last().sender@ == r.sender@ && s.last().source_chain_id
            == r.source_chain_id));
        assert(nonces_map(su) =~= nonces_map(s).insert(
            (r.sender@, r.source_chain_id),
            be_nat(r.nonce@),
        ));
    }
}

/// The record a freshly decoded message starts as.
pub open spec fn pending_record(id: Seq<u8>) -> MessageStatusV {
    MessageStatusV {
        message_id: id,
        processed: false,
        confirmed_block: Option::None,
        execution_status: ExecutionStatusV::Pending,
    }
}

/// The record of a message reserved for submission at height `block`.
pub open spec fn confirmed_record(id: Seq<u8>, block: u64) -> MessageStatusV {
    MessageStatusV {
        message_id: id,
        processed: false,
        confirmed_block: Option::Some(block),
        execution_status: ExecutionStatusV::Confirmed,
    }
}

/// The record of a message accepted on the destination chain.
pub open spec fn executed_record(id: Seq<u8>, confirmed_block: Option<u64>) -> MessageStatusV {
    MessageStatusV {
        message_id: id,
        processed: true,
        confirmed_block,
        execution_status: ExecutionStatusV::Executed,
    }
}

/// The record of a terminally failed message.
pub open spec fn failed_record(
    id: Seq<u8>,
    confirmed_block: Option<u64>,
    reason: Seq<char>,
) -> MessageStatusV {
    MessageStatusV {
        message_id: id,
        processed: false,
        confirmed_block,
        execution_status: ExecutionStatusV::Failed(reason),
    }
}

/// A reservation succeeds exactly when the id is absent or still `Pending`.
pub open spec fn reserve_allowed(m: Map<Seq<u8>, MessageStatusV>, id: Seq<u8>) -> bool {
    !m.contains_key(id) || m[id].execution_status is Pending
}

/// The lifecycle transitions a single record may take: `Pending` on first
/// sight, `Confirmed` only by reservation, `Executed` only from `Confirmed`,
/// `Failed` only from a non-terminal state.
pub open spec fn step_allowed(before: Option<ExecutionStatusV>, after: ExecutionStatusV) -> bool {
    match after {
        ExecutionStatusV::Pending => before is None,
        ExecutionStatusV::Confirmed => before is None || before == Option::Some(
            ExecutionStatusV::Pending,
        ),
        ExecutionStatusV::Executed => before == Option::Some(ExecutionStatusV::Confirmed),
        ExecutionStatusV::Failed(_) => before matches Option::Some(b) && (b is Pending
            || b is Confirmed),
    }
}

/// Every difference between two store states is an allowed lifecycle step,
/// and no record is ever dropped.
pub open spec fn store_step(
    pre: Map<Seq<u8>, MessageStatusV>,
    post: Map<Seq<u8>, MessageStatusV>,
) -> bool {
    &&& forall|k: Seq<u8>| pre.contains_key(k) ==> #[trigger] post.contains_key(k)
    &&& forall|k: Seq<u8>|
        #[trigger] post.contains_key(k) && (!pre.contains_key(k) || pre[k] != post[k])
            ==> step_allowed(
            if pre.contains_key(k) {
                Option::Some(pre[k].execution_status)
            } else {
                Option::None
            },
            post[k].execution_status,
        )
}

/// Where one lifecycle stage can take a record over any number of allowed
/// steps: forward through `Pending → Confirmed → {Executed, Failed}`, and
/// nowhere at all out of a terminal stage.
pub open spec fn status_reachable(before: ExecutionStatusV, after: ExecutionStatusV) -> bool {
    match before {
        ExecutionStatusV::Pending => true,
        ExecutionStatusV::Confirmed => after is Confirmed || after is Executed || after is Failed,
        ExecutionStatusV::Executed => after == before,
        ExecutionStatusV::Failed(_) => after == before,
    }
}

/// How a store state may evolve over any number of operations: no record is
/// dropped, and each record moves only along allowed lifecycle steps.
pub open spec fn store_evolves(
    pre: Map<Seq<u8>, MessageStatusV>,
    post: Map<Seq<u8>, MessageStatusV>,
) -> bool {
    forall|k: Seq<u8>|
        pre.contains_key(k) ==> #[trigger] post.contains_key(k) && status_reachable(
            pre[k].execution_status,
            post[k].execution_status,
        )
}

/// A single allowed step is an allowed evolution.
pub proof fn lemma_step_implies_evolves(
    pre: Map<Seq<u8>, MessageStatusV>,
    post: Map<Seq<u8>, MessageStatusV>,
)
    requires
        store_step(pre, post),
    ensures
        store_evolves(pre, post),
{
    assert forall|k: Seq<u8>|
        pre.contains_key(k) implies #[trigger] post.contains_key(k) && status_reachable(
        pre[k].execution_status,
        post[k].execution_status,
    ) by {
        assert(post.contains_key(k));
    }
}

/// Allowed evolutions compose.
pub proof fn lemma_evolves_trans(
    a: Map<Seq<u8>, MessageStatusV>,
    b: Map<Seq<u8>, MessageStatusV>,
    c: Map<Seq<u8>, MessageStatusV>,
)
    requires
        store_evolves(a, b),
        store_evolves(b, c),
    ensures
        store_evolves(a, c),
{
    assert forall|k: Seq<u8>|
        a.contains_key(k) implies #[trigger] c.contains_key(k) && status_reachable(
        a[k].execution_status,
        c[k].execution_status,
    ) by {
        assert(b.contains_key(k));
        assert(c.contains_key(k));
    }
}

/// A message can only be reported `Executed` from `Confirmed`: the state
/// machine order `Pending → Confirmed → Executed` admits no shortcut.
pub proof fn lemma_executed_only_from_confirmed(
    before: Option<ExecutionStatusV>,
    after: ExecutionStatusV,
)
    requires
        step_allowed(before, after),
        after is Executed,
    ensures
        before == Option::Some(ExecutionStatusV::Confirmed),
{
}

/// Terminal states are stable: no lifecycle step leaves `Executed` or
/// `Failed`, so repeated attempts after a terminal state are no-ops.
pub proof fn lemma_terminal_is_stable(before: ExecutionStatusV, after: ExecutionStatusV)
    requires
        before.is_terminal(),
    ensures
        !step_allowed(Option::Some(before), after),
{
}

/// Reserving a message id is an exactly-once guard: once a reservation has
/// succeeded, a second reservation of the same id never succeeds, whatever
/// height it is attempted at.
pub proof fn lemma_reserve_exactly_once(
    m: Map<Seq<u8>, MessageStatusV>,
    id: Seq<u8>,
    block: u64,
)
    ensures
        !reserve_allowed(m.insert(id, confirmed_record(id, block)), id),
{
}

impl DedupStore {
    /// All message ids are 32 bytes and unique; all nonce keys are unique.
    pub closed spec fn wf(self) -> bool {
        &&& record_ids_unique(self.records@)
        &&& forall|i: int| 0 <= i < self.records@.len() ==> (#[trigger] self.records@[i]).wf()
        &&& nonce_keys_unique(self.nonces@)
        &&& forall|i: int|
            0 <= i < self.nonces@.len() ==> (#[trigger] self.nonces@[i]).sender@.len() == 20
                && self.nonces@[i].nonce@.len() == 32
    }

    /// The lifecycle record of each known message id.
    pub closed spec fn status_map(self) -> Map<Seq<u8>, MessageStatusV> {
        records_map(self.records@)
    }

    /// The last recorded nonce of each `(sender, source chain)` pair.
    pub closed spec fn nonce_map(self) -> Map<(Seq<u8>, u64), nat> {
        nonces_map(self.nonces@)
    }

    /// An empty store: nothing processed, no nonces seen.
    pub fn new() -> (r: DedupStore)
        ensures
            r.wf(),
            r.status_map() == Map::<Seq<u8>, MessageStatusV>::empty(),
            r.nonce_map() == Map::<(Seq<u8>, u64), nat>::empty(),
    {
        DedupStore { records: Vec::new(), nonces: Vec::new() }
    }

    fn find_record_index(&self, id: &Word256) -> (r: Option<usize>)
        requires
            self.wf(),
            id@.len() == 32,
        ensures
            match r {
                Option::Some(i) => i < self.records@.len() && self.records@[i as int].message_id@
                    == id@ && self.status_map().contains_key(id@) && self.status_map()[id@]
                    == self.records@[i as int]@,
                Option::None => !self.status_map().contains_key(id@),
            },
    {
        proof {
            lemma_records_map_props(self.records@);
        }
        let n = self.records.len();
        let mut i: usize = 0;
        while i < n
            invariant
                self.wf(),
                id@.len() == 32,
                n == self.records@.len(),
                0 <= i <= n,
                forall|j: int| 0 <= j < i ==> (#[trigger] self.records@[j]).message_id@ != id@,
            decreases n - i,
        {
            if self.records[i].message_id.eq_word(id) {
                proof {
                    lemma_records_map_props(self.records@);
                }
                return Option::Some(i);
            }
            i += 1;
        }
        proof {
            lemma_records_map_props(self.records@);
            if self.status_map().contains_key(id@) {
                let w = choose|j: int|
                    0 <= j < self.records@.len() && self.records@[j].message_id@ == id@;
                assert(self.records@[w].message_id@ != id@);
            }
        }
        Option::None
    }

    fn find_nonce_index(&self, sender: &AccountId, source_chain_id: u64) -> (r: Option<usize>)
        requires
            self.wf(),
        ensures
            match r {
                Option::Some(i) => i < self.nonces@.len() && self.nonces@[i as int].sender@
                    == sender@ && self.nonces@[i as int].source_chain_id == source_chain_id
                    && self.nonce_map().contains_key((sender@, source_chain_id))
                    && self.nonce_map()[(sender@, source_chain_id)] == be_nat(
                    self.nonces@[i as int].nonce@,
                ),
                Option::None => !self.nonce_map().contains_key((sender@, source_chain_id)),
            },
    {
        proof {
            lemma_nonces_map_props(self.nonces@);
        }
        let n = self.nonces.len();
        let mut i: usize = 0;
        while i < n
            invariant
                self.wf(),
                n == self.nonces@.len(),
                0 <= i <= n,
                forall|j: int|
                    0 <= j < i ==> !((#[trigger] self.nonces@[j]).sender@ == sender@
                        && self.nonces@[j].source_chain_id == source_chain_id),
            decreases n - i,
        {
            if self.nonces[i].sender.eq_account(sender) && self.nonces[i].source_chain_id
                == source_chain_id {
                proof {
                    lemma_nonces_map_props(self.nonces@);
                }
                return Option::Some(i);
            }
            i += 1;
        }
        proof {
            lemma_nonces_map_props(self.nonces@);
            if self.nonce_map().contains_key((sender@, source_chain_id)) {
                let w = choose|j: int|
                    0 <= j < self.nonces@.len() && self.nonces@[j].sender@ == sender@
                        && self.nonces@[j].source_chain_id == source_chain_id;
                assert(!(self.nonces@[w].sender@ == sender@ && self.nonces@[w].source_chain_id
                    == source_chain_id));
            }
        }
        Option::None
    }

    /// The lifecycle record of `id`, if any.
    pub fn status_of(&self, id: &Word256) -> (r: Option<&MessageStatus>)
        requires
            self.wf(),
            id@.len() == 32,
        ensures
            match r {
                Option::Some(st) => self.status_map().contains_key(id@) && st@
                    == self.status_map()[id@],
                Option::None => !self.status_map().contains_key(id@),
            },
    {
        match self.find_record_index(id) {
            Option::Some(i) => Option::Some(&self.records[i]),
            Option::None => Option::None,
        }
    }

    /// The last recorded nonce of `(sender, source_chain_id)`, if any.
    pub fn last_nonce(&self, sender: &AccountId, source_chain_id: u64) -> (r: Option<&Word256>)
        requires
            self.wf(),
        ensures
            match r {
                Option::Some(w) => self.nonce_map().contains_key((sender@, source_chain_id))
                    && w@.len() == 32 && be_nat(w@) == self.nonce_map()[(sender@, source_chain_id)],
                Option::None => !self.nonce_map().contains_key((sender@, source_chain_id)),
            },
    {
        match self.find_nonce_index(sender, source_chain_id) {
            Option::Some(i) => Option::Some(&self.nonces[i].nonce),
            Option::None => Option::None,
        }
    }

    /// Records a first sighting of `id` as `Pending`; a no-op if the id is
    /// already known. Returns whether a record was created.
    pub fn record_pending(&mut self, id: &Word256) -> (r: bool)
        requires
            old(self).wf(),
            id@.len() == 32,
        ensures
            final(self).wf(),
            r == !old(self).status_map().contains_key(id@),
            r ==> final(self).status_map() == old(self).status_map().insert(
                id@,
                pending_record(id@),
            ),
            !r ==> final(self).status_map() == old(self).status_map(),
            final(self).nonce_map() == old(self).nonce_map(),
            store_step(old(self).status_map(), final(self).status_map()),
    {
        match self.find_record_index(id) {
            Option::Some(_) => false,
            Option::None => {
                proof {
                    lemma_records_map_props(self.records@);
                }
                let rec = MessageStatus {
                    message_id: id.duplicate(),
                    processed: false,
                    confirmed_block: Option::None,
                    execution_status: ExecutionStatus::Pending,
                };
                self.records.push(rec);
                proof {
                    assert(self.records@.drop_last() =~= old(self).records@);
                    assert(final(self).status_map() =~= old(self).status_map().insert(
                        id@,
                        pending_record(id@),
                    ));
                }
                true
            },
        }
    }

    /// The atomic exactly-once primitive: reserves `id` for submission if it
    /// is absent or still `Pending`, marking it `Confirmed` at the given
    /// height. Returns whether the reservation was won; on `false` the store
    /// is unchanged and the caller must not submit.
    pub fn reserve(&mut self, id: &Word256, current_block: u64) -> (r: bool)
        requires
            old(self).wf(),
            id@.len() == 32,
        ensures
            final(self).wf(),
            r == reserve_allowed(old(self).status_map(), id@),
            r ==> final(self).status_map() == old(self).status_map().insert(
                id@,
                confirmed_record(id@, current_block),
            ),
            !r ==> final(self).status_map() == old(self).status_map(),
            final(self).nonce_map() == old(self).nonce_map(),
            store_step(old(self).status_map(), final(self).status_map()),
    {
        match self.find_record_index(id) {
            Option::Some(i) => {
                let still_pending = match &self.records[i].execution_status {
                    ExecutionStatus::Pending => true,
                    _ => false,
                };
                if still_pending {
                    let rec = MessageStatus {
                        message_id: id.duplicate(),
                        processed: false,
                        confirmed_block: Option::Some(current_block),
                        execution_status: ExecutionStatus::Confirmed,
                    };
                    proof {
                        lemma_records_map_update(self.records@, i as int, rec);
                    }
                    self.records[i] = rec;
                    true
                } else {
                    false
                }
            },
            Option::None => {
                proof {
                    lemma_records_map_props(self.records@);
                }
                let rec = MessageStatus {
                    message_id: id.duplicate(),
                    processed: false,
                    confirmed_block: Option::Some(current_block),
                    execution_status: ExecutionStatus::Confirmed,
                };
                self.records.push(rec);
                proof {
                    assert(self.records@.drop_last() =~= old(self).records@);
                    assert(final(self).status_map() =~= old(self).status_map().insert(
                        id@,
                        confirmed_record(id@, current_block),
                    ));
                }
                true
            },
        }
    }

    /// Records on-chain acceptance of a reserved message: `Confirmed`
    /// becomes `Executed`, and the sender's nonce index advances to the
    /// message's nonce. A no-op from any other state.
    pub fn record_executed(&mut self, msg: &CrossChainMessage) -> (r: bool)
        requires
            old(self).wf(),
            msg.wf(),
        ensures
            final(self).wf(),
            r == (old(self).status_map().contains_key(msg@.message_id) && old(
                self,
            ).status_map()[msg@.message_id].execution_status is Confirmed),
            r ==> final(self).status_map() == old(self).status_map().insert(
                msg@.message_id,
                executed_record(
                    msg@.message_id,
                    old(self).status_map()[msg@.message_id].confirmed_block,
                ),
            ),
            r ==> final(self).nonce_map() == old(self).nonce_map().insert(
                (msg@.sender, msg@.source_chain_id),
                msg@.nonce_nat(),
            ),
            !r ==> final(self).status_map() == old(self).status_map(),
            !r ==> final(self).nonce_map() == old(self).nonce_map(),
            store_step(old(self).status_map(), final(self).status_map()),
    {
        match self.find_record_index(&msg.message_id) {
            Option::Some(i) => {
                let was_confirmed = match &self.records[i].execution_status {
                    ExecutionStatus::Confirmed => true,
                    _ => false,
                };
                if was_confirmed {
                    let rec = MessageStatus {
                        message_id: msg.message_id.duplicate(),
                        processed: true,
                        confirmed_block: self.records[i].confirmed_block,
                        execution_status: ExecutionStatus::Executed,
                    };
                    proof {
                        lemma_records_map_update(self.records@, i as int, rec);
                    }
                    self.records[i] = rec;
                    self.advance_nonce(msg);
                    true
                } else {
                    false
                }
            },
            Option::None => false,
        }
    }

    /// Sets the nonce index of `(msg.sender, msg.source_chain_id)` to the
    /// message's nonce.
    fn advance_nonce(&mut self, msg: &CrossChainMessage)
        requires
            old(self).wf(),
            msg.wf(),
        ensures
            final(self).wf(),
            final(self).nonce_map() == old(self).nonce_map().insert(
                (msg@.sender, msg@.source_chain_id),
                msg@.nonce_nat(),
            ),
            final(self).status_map() == old(self).status_map(),
    {
        let rec = NonceRecord {
            sender: msg.sender.duplicate(),
            source_chain_id: msg.source_chain_id,
            nonce: msg.nonce.duplicate(),
        };
        match self.find_nonce_index(&msg.sender, msg.source_chain_id) {
            Option::Some(i) => {
                proof {
                    lemma_nonces_map_update(self.nonces@, i as int, rec);
                }
                self.nonces[i] = rec;
            },
            Option::None => {
                proof {
                    lemma_nonces_map_props(self.nonces@);
                }
                self.nonces.push(rec);
                proof {
                    assert(self.nonces@.drop_last() =~= old(self).nonces@);
                    assert(final(self).nonce_map() =~= old(self).nonce_map().insert(
                        (msg@.sender, msg@.source_chain_id),
                        msg@.nonce_nat(),
                    ));
                }
            },
        }
    }

    /// Terminally fails a known, non-terminal message, keeping the reason.
    /// A no-op on unknown ids and on terminal records, so terminal states
    /// are idempotent to re-enter.
    pub fn record_failed(&mut self, id: &Word256, reason: String) -> (r: bool)
        requires
            old(self).wf(),
            id@.len() == 32,
        ensures
            final(self).wf(),
            r == (old(self).status_map().contains_key(id@) && !old(
                self,
            ).status_map()[id@].execution_status.is_terminal()),
            r ==> final(self).status_map() == old(self).status_map().insert(
                id@,
                failed_record(id@, old(self).status_map()[id@].confirmed_block, reason@),
            ),
            !r ==> final(self).status_map() == old(self).status_map(),
            final(self).nonce_map() == old(self).nonce_map(),
            store_step(old(self).status_map(), final(self).status_map()),
    {
        match self.find_record_index(id) {
            Option::Some(i) => {
                let non_terminal = match &self.records[i].execution_status {
                    ExecutionStatus::Pending => true,
                    ExecutionStatus::Confirmed => true,
                    _ => false,
                };
                if non_terminal {
                    let rec = MessageStatus {
                        message_id: id.duplicate(),
                        processed: false,
                        confirmed_block: self.records[i].confirmed_block,
                        execution_status: ExecutionStatus::Failed(reason),
                    };
                    proof {
                        lemma_records_map_update(self.records@, i as int, rec);
                    }
                    self.records[i] = rec;
                    true
                } else {
                    false
                }
            },
            Option::None => false,
        }
    }
}

} // verus!
