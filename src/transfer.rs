//! Detection of use after transfer: a value has one owner at a time, and once
//! ownership has been handed away no later access to it is allowed.
use vstd::prelude::*;
use crate::record::TransactionRecord;

verus! {

/// One access to a value, at one point of a routing.
#[derive(Clone, Copy, Debug, PartialEq, Eq, Structural)]
pub enum Access {
    /// A read through a non-owning reference; the owner keeps the value.
    Read,
    /// A read that makes an independent copy; the owner keeps the value.
    Duplicate,
    /// A handoff of ownership; the owner gives the value up for good.
    Transfer,
}

/// The rejection of a routing: where ownership was first given up, and
/// every later point that still refers to the value, in order.
pub struct UseAfterTransfer {
    pub moved_at: usize,
    pub reused_at: Vec<usize>,
}

/// The index of the first transfer in `s`, or `s.len()` where there is none.
pub open spec fn first_transfer(s: Seq<Access>) -> nat
    decreases s.len(),
{
    if s.len() == 0 {
        0
    } else if s[0] == Access::Transfer {
        0
    } else {
        1 + first_transfer(s.drop_first())
    }
}

/// A routing is sound when nothing follows its first transfer.
pub open spec fn routing_sound(s: Seq<Access>) -> bool {
    first_transfer(s) + 1 >= s.len()
}

/// The indices that follow `m` in a routing of `n` accesses.
pub open spec fn later_indices(m: nat, n: nat) -> Seq<int> {
    Seq::new((n - m - 1) as nat, |k: int| m + 1 + k)
}

/// The first transfer is the first access that is a transfer.
pub proof fn lemma_first_transfer_at(s: Seq<Access>, i: nat)
    requires
        i <= s.len(),
        forall|j: int| 0 <= j < i ==> s[j] != Access::Transfer,
        i == s.len() || s[i as int] == Access::Transfer,
    ensures
        first_transfer(s) == i,
    decreases s.len(),
{
    if s.len() > 0 && i > 0 {
        let t = s.drop_first();
        assert forall|j: int| 0 <= j < i - 1 implies t[j] != Access::Transfer by {
            assert(t[j] == s[j + 1]);
        }
        if i < s.len() {
            assert(t[i - 1] == s[i as int]);
        }
        lemma_first_transfer_at(t, (i - 1) as nat);
    }
}

/// No transfer comes before the first one, and a transfer stands where it
/// points inside the routing.
pub proof fn lemma_first_transfer_is_transfer(s: Seq<Access>)
    ensures
        first_transfer(s) <= s.len(),
        forall|j: int| 0 <= j < first_transfer(s) ==> s[j] != Access::Transfer,
        first_transfer(s) < s.len() ==> s[first_transfer(s) as int] == Access::Transfer,
    decreases s.len(),
{
    if s.len() > 0 && s[0] != Access::Transfer {
        let t = s.drop_first();
        lemma_first_transfer_is_transfer(t);
        assert forall|j: int| 0 <= j < first_transfer(s) implies s[j] != Access::Transfer by {
            if j > 0 {
                assert(s[j] == t[j - 1]);
            }
        }
    }
}

/// Checks a routing of accesses to one owned value. It is accepted when no
/// access follows the first transfer; otherwise it is rejected with the
/// index of that transfer and the indices of all accesses after it.
pub fn check_routing(plan: &Vec<Access>) -> (r: Result<(), UseAfterTransfer>)
    ensures
        r is Ok <==> routing_sound(plan@),
        r matches Err(e) ==> {
            &&& e.moved_at == first_transfer(plan@)
            &&& e.reused_at@.map_values(|x: usize| x as int)
                == later_indices(first_transfer(plan@), plan@.len())
        },
{
    let n = plan.len();
    let mut i: usize = 0;
    while i < n && plan[i] != Access::Transfer
        invariant
            n == plan@.len(),
            i <= n,
            forall|j: int| 0 <= j < i ==> plan@[j] != Access::Transfer,
        decreases n - i,
    {
        i = i + 1;
    }
    proof {
        lemma_first_transfer_at(plan@, i as nat);
    }
    if n - i <= 1 {
        return Ok(());
    }
    let mut reused_at: Vec<usize> = Vec::new();
    let mut k: usize = i + 1;
    while k < n
        invariant
            i + 1 <= k <= n,
            reused_at@.len() == k - i - 1,
            forall|q: int| 0 <= q < reused_at@.len() ==> reused_at@[q] == i + 1 + q,
        decreases n - k,
    {
        reused_at.push(k);
        k = k + 1;
    }
    assert(reused_at@.map_values(|x: usize| x as int) =~= later_indices(i as nat, n as nat));
    Err(UseAfterTransfer { moved_at: i, reused_at })
}

/// Once a value has been transferred at some point, every access after that
/// point is refused, and the refusal cites it: it names a transfer at or
/// before that point, and lists the later access among the reuses.
pub proof fn lemma_reuse_after_transfer_refused(s: Seq<Access>, m: int, k: int)
    requires
        0 <= m < k < s.len(),
        s[m] == Access::Transfer,
    ensures
        !routing_sound(s),
        first_transfer(s) <= m,
        s[first_transfer(s) as int] == Access::Transfer,
        later_indices(first_transfer(s), s.len()).contains(k),
{
    lemma_first_transfer_is_transfer(s);
    let f = first_transfer(s);
    let l = later_indices(f, s.len());
    assert(l[k - f - 1] == k);
}

/// A routing with no transfer in it is always accepted.
pub proof fn lemma_no_transfer_sound(s: Seq<Access>)
    requires
        forall|j: int| 0 <= j < s.len() ==> s[j] != Access::Transfer,
    ensures
        routing_sound(s),
{
    lemma_first_transfer_at(s, s.len());
}

/// Three ways of routing one record through the three consumers.
#[derive(Clone, Copy, Debug, PartialEq, Eq, Structural)]
pub enum Routing {
    /// Each consumer takes the record itself.
    Consuming,
    /// Each consumer reads the record through a non-owning reference.
    Shared,
    /// The first two consumers take a copy; the last takes the record.
    Duplicating,
}

/// The accesses a routing makes to the record, one per consumer.
pub open spec fn routing_accesses(r: Routing) -> Seq<Access> {
    match r {
        Routing::Consuming => seq![Access::Transfer, Access::Transfer, Access::Transfer],
        Routing::Shared => seq![Access::Read, Access::Read, Access::Read],
        Routing::Duplicating => seq![Access::Duplicate, Access::Duplicate, Access::Transfer],
    }
}

/// The accesses a routing makes to the record, one per consumer.
pub fn routing_plan(r: Routing) -> (v: Vec<Access>)
    ensures
        v@ == routing_accesses(r),
{
    let v = match r {
        Routing::Consuming => vec![Access::Transfer, Access::Transfer, Access::Transfer],
        Routing::Shared => vec![Access::Read, Access::Read, Access::Read],
        Routing::Duplicating => vec![Access::Duplicate, Access::Duplicate, Access::Transfer],
    };
    assert(v@ =~= routing_accesses(r));
    v
}

/// Handing the record itself to each consumer in turn is refused at the
/// second consumer, citing the first as the transfer; reading through
/// references, or copying before all but the last handoff, is accepted.
pub proof fn lemma_routings_checked()
    ensures
        !routing_sound(routing_accesses(Routing::Consuming)),
        first_transfer(routing_accesses(Routing::Consuming)) == 0,
        later_indices(0, 3) == seq![1int, 2int],
        routing_sound(routing_accesses(Routing::Shared)),
        routing_sound(routing_accesses(Routing::Duplicating)),
{
    lemma_first_transfer_at(routing_accesses(Routing::Consuming), 0);
    lemma_first_transfer_at(routing_accesses(Routing::Shared), 3);
    lemma_first_transfer_at(routing_accesses(Routing::Duplicating), 2);
    assert(later_indices(0, 3) =~= seq![1int, 2int]);
}

/// A record slot that checks ownership as the program runs: it is live
/// until the record is taken out, and consumed from then on.
pub struct Handoff {
    record: Option<TransactionRecord>,
    moved_at: usize,
}

impl Handoff {
    /// Whether the record is still held.
    pub closed spec fn is_live(&self) -> bool {
        self.record is Some
    }

    /// The fields of the record held, while live.
    pub closed spec fn held(&self) -> crate::record::RecordView {
        self.record->Some_0@
    }

    /// The point at which the record was taken out, once consumed.
    pub closed spec fn transferred_at(&self) -> usize {
        self.moved_at
    }

    /// A live slot holding `record`.
    pub fn new(record: TransactionRecord) -> (h: Handoff)
        ensures
            h.is_live(),
            h.held() == record@,
    {
        Handoff { record: Some(record), moved_at: 0 }
    }

    /// Whether the record is still held.
    pub fn live(&self) -> (r: bool)
        ensures
            r == self.is_live(),
    {
        self.record.is_some()
    }

    /// Reads the record at point `at` without taking it. Refused once the
    /// record has been taken out.
    pub fn read(&self, at: usize) -> (r: Result<&TransactionRecord, UseAfterTransfer>)
        ensures
            self.is_live() ==> (r matches Ok(t) && t@ == self.held()),
            !self.is_live() ==> (r matches Err(e) && e.moved_at == self.transferred_at()
                && e.reused_at@ == seq![at]),
    {
        match &self.record {
            Some(t) => Ok(t),
            None => Err(UseAfterTransfer { moved_at: self.moved_at, reused_at: vec![at] }),
        }
    }

    /// Takes the record out at point `at`, leaving the slot consumed. Refused,
    /// with the slot unchanged, once the record has been taken out.
    pub fn take(&mut self, at: usize) -> (r: Result<TransactionRecord, UseAfterTransfer>)
        ensures
            old(self).is_live() ==> {
                &&& r matches Ok(t) && t@ == old(self).held()
                &&& !final(self).is_live()
                &&& final(self).transferred_at() == at
            },
            !old(self).is_live() ==> {
                &&& r matches Err(e) && e.moved_at == old(self).transferred_at()
                    && e.reused_at@ == seq![at]
                &&& *final(self) == *old(self)
            },
    {
        match self.record.take() {
            Some(t) => {
                self.moved_at = at;
                Ok(t)
            },
            None => Err(UseAfterTransfer { moved_at: self.moved_at, reused_at: vec![at] }),
        }
    }
}

} // verus!
