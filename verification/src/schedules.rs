//! The vesting schedules of one account: at most
//! [`MAX_VESTING_SCHEDULES`](crate::vesting::MAX_VESTING_SCHEDULES) of
//! them, one per source, kept in the order of their sources.
use crate::arith::{min_balance, sat_add, sat_sub, saturating_add, saturating_sub, spec_min};
use crate::vesting::{
    Balance, BlockNumber, VestingSchedule, VestingSource, MAX_VESTING_SCHEDULES,
};
use vstd::prelude::*;

verus! {

/// One schedule with the source that it is kept under.
#[derive(Clone, Copy, Debug, PartialEq, Eq, Structural)]
pub struct VestingEntry {
    pub source: VestingSource,
    pub schedule: VestingSchedule,
}

/// A bounded map from vesting source to schedule, ordered by source.
#[derive(Clone, Copy, Debug, PartialEq, Eq)]
pub struct VestingSchedules {
    len: usize,
    slots: [VestingEntry; 5],
}

impl VestingSource {
    /// The position of a source in the order of sources: initial issuance
    /// first, then sales by id, then issuer transfers by id.
    pub open spec fn rank(self) -> (int, int) {
        match self {
            VestingSource::InitialIssuance => (0, 0),
            VestingSource::Sale(id) => (1, id as int),
            VestingSource::IssuerTransfer(id) => (2, id as int),
        }
    }

    /// Whether this source comes strictly before `other`.
    pub open spec fn spec_lt(self, other: VestingSource) -> bool {
        self.rank().0 < other.rank().0 || (self.rank().0 == other.rank().0 && self.rank().1
            < other.rank().1)
    }

    /// Whether this source comes strictly before `other`.
    pub fn lt(&self, other: &VestingSource) -> (r: bool)
        ensures
            r == self.spec_lt(*other),
    {
        match (self, other) {
            (VestingSource::InitialIssuance, VestingSource::InitialIssuance) => false,
            (VestingSource::InitialIssuance, _) => true,
            (VestingSource::Sale(_), VestingSource::InitialIssuance) => false,
            (VestingSource::Sale(a), VestingSource::Sale(b)) => *a < *b,
            (VestingSource::Sale(_), VestingSource::IssuerTransfer(_)) => true,
            (VestingSource::IssuerTransfer(a), VestingSource::IssuerTransfer(b)) => *a < *b,
            (VestingSource::IssuerTransfer(_), _) => false,
        }
    }

    /// Whether the two sources are the same.
    pub fn same(&self, other: &VestingSource) -> (r: bool)
        ensures
            r == (*self == *other),
    {
        match (self, other) {
            (VestingSource::InitialIssuance, VestingSource::InitialIssuance) => true,
            (VestingSource::Sale(a), VestingSource::Sale(b)) => *a == *b,
            (VestingSource::IssuerTransfer(a), VestingSource::IssuerTransfer(b)) => *a == *b,
            _ => false,
        }
    }
}

/// The entry that fills an unused slot.
pub open spec fn spec_vacant() -> VestingEntry {
    VestingEntry {
        source: VestingSource::InitialIssuance,
        schedule: VestingSchedule {
            linear_vesting_start_block: 0,
            linear_vesting_duration: 0,
            cliff_amount: 0,
            post_cliff_total_amount: 0,
            burned_amount: 0,
        },
    }
}

fn vacant() -> (r: VestingEntry)
    ensures
        r == spec_vacant(),
{
    VestingEntry {
        source: VestingSource::InitialIssuance,
        schedule: VestingSchedule {
            linear_vesting_start_block: 0,
            linear_vesting_duration: 0,
            cliff_amount: 0,
            post_cliff_total_amount: 0,
            burned_amount: 0,
        },
    }
}

/// Whether the sources of `es` strictly increase.
pub open spec fn sorted(es: Seq<VestingEntry>) -> bool {
    forall|i: int, j: int| 0 <= i < j < es.len() ==> (#[trigger] es[i]).source.spec_lt((#[trigger] es[j]).source)
}

/// Whether every schedule of `es` is well formed.
pub open spec fn all_wf(es: Seq<VestingEntry>) -> bool {
    forall|i: int| 0 <= i < es.len() ==> (#[trigger] es[i]).schedule.wf()
}

/// Whether some entry of `es` has the source `source`.
pub open spec fn has_source(es: Seq<VestingEntry>, source: VestingSource) -> bool {
    exists|i: int| 0 <= i < es.len() && (#[trigger] es[i]).source == source
}

/// The index of the entry of `es` with the source `source`.
pub open spec fn index_of(es: Seq<VestingEntry>, source: VestingSource) -> int {
    choose|i: int| 0 <= i < es.len() && (#[trigger] es[i]).source == source
}

/// How many leading entries of `es` come before `source`.
pub open spec fn rank_in(es: Seq<VestingEntry>, source: VestingSource, n: nat) -> nat
    recommends
        n <= es.len(),
    decreases n,
{
    if n == 0 {
        0
    } else if es[n - 1].source.spec_lt(source) {
        rank_in(es, source, (n - 1) as nat) + 1
    } else {
        rank_in(es, source, (n - 1) as nat)
    }
}

/// The sum, saturating, of what the first `n` schedules of `es` lock at `b`.
pub open spec fn locked_upto(es: Seq<VestingEntry>, b: BlockNumber, n: nat) -> Balance
    recommends
        n <= es.len(),
    decreases n,
{
    if n == 0 {
        0
    } else {
        sat_add(locked_upto(es, b, (n - 1) as nat), es[n - 1].schedule.spec_locks(b))
    }
}

/// The sum, saturating, of what the schedules of `es` lock at `b`.
pub open spec fn total_locked_of(es: Seq<VestingEntry>, b: BlockNumber) -> Balance {
    locked_upto(es, b, es.len())
}

/// The index of the first of the first `n` schedules of `es` that is
/// finished at `b`, or `n` if none is.
pub open spec fn first_finished_upto(es: Seq<VestingEntry>, b: BlockNumber, n: nat) -> nat
    recommends
        n <= es.len(),
    decreases n,
{
    if n == 0 {
        0
    } else {
        let before = first_finished_upto(es, b, (n - 1) as nat);
        if before < n - 1 {
            before
        } else if es[n - 1].schedule.spec_is_finished(b) {
            (n - 1) as nat
        } else {
            n
        }
    }
}

/// The source of the first schedule of `es` that is finished at `b`.
pub open spec fn first_finished(es: Seq<VestingEntry>, b: BlockNumber) -> Option<VestingSource> {
    let i = first_finished_upto(es, b, es.len());
    if i < es.len() {
        Some(es[i as int].source)
    } else {
        None
    }
}

/// What of a burn of `amount` is left to take after the first `n`
/// schedules of `es` gave what they lock at `b`.
pub open spec fn burn_carry(es: Seq<VestingEntry>, amount: Balance, b: BlockNumber, n: nat) -> Balance
    recommends
        n <= es.len(),
    decreases n,
{
    if n == 0 {
        amount
    } else {
        let carry = burn_carry(es, amount, b, (n - 1) as nat);
        sat_sub(carry, spec_min(carry, es[n - 1].schedule.spec_locks(b)))
    }
}

/// What one schedule becomes when a burn reaches it with `carry` left to
/// take: untouched if nothing is left, dropped if the burn leaves it
/// nothing locked, else kept with the burned amount added.
pub open spec fn burn_entry(e: VestingEntry, carry: Balance, b: BlockNumber) -> Option<VestingEntry> {
    if carry == 0 {
        Some(e)
    } else {
        let taken = spec_min(carry, e.schedule.spec_locks(b));
        if sat_sub(e.schedule.spec_locks(b), taken) == 0 {
            None
        } else {
            Some(VestingEntry { source: e.source, schedule: e.schedule.with_burned(taken) })
        }
    }
}

/// The schedules that the first `n` of `es` leave behind after a burn of
/// `amount` at `b`, which takes from each in turn what it still locks.
pub open spec fn burn_kept(es: Seq<VestingEntry>, amount: Balance, b: BlockNumber, n: nat) -> Seq<
    VestingEntry,
>
    recommends
        n <= es.len(),
    decreases n,
{
    if n == 0 {
        Seq::empty()
    } else {
        let before = burn_kept(es, amount, b, (n - 1) as nat);
        match burn_entry(es[n - 1], burn_carry(es, amount, b, (n - 1) as nat), b) {
            Some(e) => before.push(e),
            None => before,
        }
    }
}

/// The schedules left after a burn of `amount` at block `b`.
pub open spec fn burned_entries(es: Seq<VestingEntry>, amount: Balance, b: BlockNumber) -> Seq<
    VestingEntry,
> {
    burn_kept(es, amount, b, es.len())
}

/// `es` with `e` put in at the place of its source.
pub open spec fn inserted(es: Seq<VestingEntry>, e: VestingEntry) -> Seq<VestingEntry> {
    es.insert(rank_in(es, e.source, es.len()) as int, e)
}

/// `es` with the schedule at `i` replaced.
pub open spec fn replaced(es: Seq<VestingEntry>, i: int, schedule: VestingSchedule) -> Seq<VestingEntry> {
    es.update(i, VestingEntry { source: es[i].source, schedule })
}

/// `es` padded with vacant entries to the full number of slots.
pub open spec fn padded(es: Seq<VestingEntry>) -> Seq<VestingEntry> {
    Seq::new(5, |i: int| if i < es.len() { es[i] } else { spec_vacant() })
}

proof fn lemma_rank_in_bounds(es: Seq<VestingEntry>, source: VestingSource, n: nat)
    requires
        n <= es.len(),
        sorted(es),
    ensures
        rank_in(es, source, n) <= n,
        forall|i: int| 0 <= i < rank_in(es, source, n) ==> (#[trigger] es[i]).source.spec_lt(source),
        forall|i: int| rank_in(es, source, n) <= i < n ==> !(#[trigger] es[i]).source.spec_lt(source),
    decreases n,
{
    if n > 0 {
        lemma_rank_in_bounds(es, source, (n - 1) as nat);
        let r = rank_in(es, source, (n - 1) as nat);
        if es[n - 1].source.spec_lt(source) {
            // every earlier entry is before the last one, hence before the source
            assert forall|i: int| 0 <= i < n - 1 implies (#[trigger] es[i]).source.spec_lt(source) by {
                assert(es[i].source.spec_lt(es[n - 1].source));
            }
            if r < n - 1 {
                assert(!es[r as int].source.spec_lt(source));
                assert(false);
            }
        }
    }
}

/// Putting an entry with a new source in at its place keeps the order.
pub proof fn lemma_inserted_sorted(es: Seq<VestingEntry>, e: VestingEntry)
    requires
        sorted(es),
        !has_source(es, e.source),
    ensures
        sorted(inserted(es, e)),
        inserted(es, e).len() == es.len() + 1,
        has_source(inserted(es, e), e.source),
        forall|s: VestingSource| s != e.source ==> (has_source(inserted(es, e), s) <==> has_source(es, s)),
{
    let p = rank_in(es, e.source, es.len()) as int;
    lemma_rank_in_bounds(es, e.source, es.len());
    let out = inserted(es, e);
    assert forall|i: int, j: int| 0 <= i < j < out.len() implies (#[trigger] out[i]).source.spec_lt(
        (#[trigger] out[j]).source,
    ) by {
        if j == p {
            assert(out[i] == es[i]);
        } else if i == p {
            assert(out[j] == es[j - 1]);
            assert(!es[j - 1].source.spec_lt(e.source));
            assert(es[j - 1].source != e.source);
        } else {
            let i0 = if i < p { i } else { i - 1 };
            let j0 = if j < p { j } else { j - 1 };
            assert(out[i] == es[i0]);
            assert(out[j] == es[j0]);
        }
    }
    assert(out[p] == e);
    assert forall|s: VestingSource| s != e.source implies (has_source(out, s) <==> has_source(es, s)) by {
        if has_source(out, s) {
            let k = index_of(out, s);
            let k0 = if k < p { k } else { k - 1 };
            assert(out[k] == es[k0]);
        }
        if has_source(es, s) {
            let k = index_of(es, s);
            let k1 = if k < p { k } else { k + 1 };
            assert(out[k1] == es[k]);
        }
    }
}

/// In an ordered sequence a source names at most one entry.
pub proof fn lemma_index_unique(es: Seq<VestingEntry>, i: int, j: int)
    requires
        sorted(es),
        0 <= i < es.len(),
        0 <= j < es.len(),
        es[i].source == es[j].source,
    ensures
        i == j,
{
    if i < j {
        assert(es[i].source.spec_lt(es[j].source));
    } else if j < i {
        assert(es[j].source.spec_lt(es[i].source));
    }
}

/// Taking an entry out keeps the order.
pub proof fn lemma_removed_sorted(es: Seq<VestingEntry>, i: int)
    requires
        sorted(es),
        0 <= i < es.len(),
    ensures
        sorted(es.remove(i)),
        !has_source(es.remove(i), es[i].source),
        forall|s: VestingSource| s != es[i].source ==> (has_source(es.remove(i), s) <==> has_source(es, s)),
{
    let out = es.remove(i);
    assert forall|a: int, b: int| 0 <= a < b < out.len() implies (#[trigger] out[a]).source.spec_lt(
        (#[trigger] out[b]).source,
    ) by {
        let a0 = if a < i { a } else { a + 1 };
        let b0 = if b < i { b } else { b + 1 };
        assert(out[a] == es[a0]);
        assert(out[b] == es[b0]);
    }
    if has_source(out, es[i].source) {
        let k = index_of(out, es[i].source);
        let k0 = if k < i { k } else { k + 1 };
        assert(out[k] == es[k0]);
        lemma_index_unique(es, k0, i);
    }
    assert forall|s: VestingSource| s != es[i].source implies (has_source(out, s) <==> has_source(es, s)) by {
        if has_source(out, s) {
            let k = index_of(out, s);
            let k0 = if k < i { k } else { k + 1 };
            assert(out[k] == es[k0]);
        }
        if has_source(es, s) {
            let k = index_of(es, s);
            let k1 = if k < i { k } else { k - 1 };
            assert(out[k1] == es[k]);
        }
    }
}

/// What a burn leaves behind is in order, no longer than before, and
/// holds only sources that were there.
pub proof fn lemma_burn_kept(es: Seq<VestingEntry>, amount: Balance, b: BlockNumber, n: nat)
    requires
        sorted(es),
        all_wf(es),
        n <= es.len(),
    ensures
        sorted(burn_kept(es, amount, b, n)),
        all_wf(burn_kept(es, amount, b, n)),
        burn_kept(es, amount, b, n).len() <= n,
        forall|k: int|
            0 <= k < burn_kept(es, amount, b, n).len() ==> exists|j: int|
                0 <= j < n && es[j].source == (#[trigger] burn_kept(es, amount, b, n)[k]).source,
        burn_carry(es, amount, b, n) <= amount,
    decreases n,
{
    if n > 0 {
        lemma_burn_kept(es, amount, b, (n - 1) as nat);
        let before = burn_kept(es, amount, b, (n - 1) as nat);
        let out = burn_kept(es, amount, b, n);
        match burn_entry(es[n - 1], burn_carry(es, amount, b, (n - 1) as nat), b) {
            Some(e) => {
                assert(e.source == es[n - 1].source);
                assert(e.schedule.wf()) by {
                    assert(es[n - 1].schedule.wf());
                }
                assert forall|i: int, j: int| 0 <= i < j < out.len() implies (#[trigger] out[i]).source.spec_lt(
                    (#[trigger] out[j]).source,
                ) by {
                    if j == out.len() - 1 {
                        assert(out[i] == before[i]);
                        let w = choose|w: int| 0 <= w < n - 1 && es[w].source == before[i].source;
                        assert(es[w].source.spec_lt(es[n - 1].source));
                    } else {
                        assert(out[i] == before[i]);
                        assert(out[j] == before[j]);
                    }
                }
                assert forall|k: int| 0 <= k < out.len() implies exists|j: int|
                    0 <= j < n && es[j].source == (#[trigger] out[k]).source by {
                    if k == out.len() - 1 {
                        assert(es[n - 1].source == out[k].source);
                    } else {
                        assert(out[k] == before[k]);
                        let w = choose|w: int| 0 <= w < n - 1 && es[w].source == before[k].source;
                        assert(es[w].source == out[k].source);
                    }
                }
                assert forall|i: int| 0 <= i < out.len() implies (#[trigger] out[i]).schedule.wf() by {
                    if i < out.len() - 1 {
                        assert(out[i] == before[i]);
                    }
                }
            },
            None => {
                assert forall|k: int| 0 <= k < out.len() implies exists|j: int|
                    0 <= j < n && es[j].source == (#[trigger] out[k]).source by {
                    let w = choose|w: int| 0 <= w < n - 1 && es[w].source == before[k].source;
                    assert(es[w].source == out[k].source);
                }
            },
        }
    }
}

impl VestingSchedules {
    /// The schedules held, in the order of their sources.
    pub closed spec fn entries(&self) -> Seq<VestingEntry> {
        self.slots@.subrange(0, self.len as int)
    }

    /// At most the maximum number of schedules, in strict order of their
    /// sources, each well formed, and every unused slot vacant.
    pub closed spec fn wf(&self) -> bool {
        &&& self.len <= MAX_VESTING_SCHEDULES
        &&& sorted(self.entries())
        &&& all_wf(self.entries())
        &&& self.slots@ == padded(self.entries())
    }

    /// The sum of what the schedules lock at block `b`.
    pub open spec fn spec_total_locked(&self, b: BlockNumber) -> Balance {
        total_locked_of(self.entries(), b)
    }

    /// Two well-formed sets with the same schedules are the same value.
    pub proof fn lemma_ext_equal(a: VestingSchedules, b: VestingSchedules)
        requires
            a.wf(),
            b.wf(),
            a.entries() == b.entries(),
        ensures
            a == b,
    {
        broadcast use vstd::array::group_array_axioms;

        assert(a.len == a.entries().len());
        assert(b.len == b.entries().len());
        assert(a.slots =~= b.slots);
    }

    /// What being well formed means for the schedules held.
    pub proof fn lemma_wf(self)
        requires
            self.wf(),
        ensures
            self.entries().len() <= MAX_VESTING_SCHEDULES,
            sorted(self.entries()),
            all_wf(self.entries()),
    {
    }

    /// No schedule at all.
    pub fn new() -> (r: Self)
        ensures
            r.wf(),
            r.entries() == Seq::<VestingEntry>::empty(),
    {
        let r = VestingSchedules { len: 0, slots: [vacant(); 5] };
        proof {
            broadcast use vstd::array::group_array_axioms;

            assert(r.entries() =~= Seq::<VestingEntry>::empty());
            assert(r.slots@ =~= padded(r.entries()));
        }
        r
    }

    /// The number of schedules held.
    pub fn len(&self) -> (r: usize)
        requires
            self.wf(),
        ensures
            r == self.entries().len(),
            r <= MAX_VESTING_SCHEDULES,
    {
        self.len
    }

    /// Whether no further schedule can be held.
    pub fn is_full(&self) -> (r: bool)
        requires
            self.wf(),
        ensures
            r == (self.entries().len() == MAX_VESTING_SCHEDULES),
    {
        self.len == MAX_VESTING_SCHEDULES
    }

    /// The schedule at position `i` with its source.
    pub fn get(&self, i: usize) -> (r: VestingEntry)
        requires
            self.wf(),
            i < self.entries().len(),
        ensures
            r == self.entries()[i as int],
    {
        self.slots[i]
    }

    /// The position of the schedule kept under `source`.
    pub fn find(&self, source: &VestingSource) -> (r: Option<usize>)
        requires
            self.wf(),
        ensures
            r.is_some() == has_source(self.entries(), *source),
            r.is_some() ==> r.unwrap() == index_of(self.entries(), *source) && r.unwrap()
                < self.entries().len() && self.entries()[r.unwrap() as int].source == *source,
    {
        let mut i: usize = 0;
        while i < self.len
            invariant
                self.wf(),
                i <= self.len,
                forall|j: int| 0 <= j < i ==> (#[trigger] self.entries()[j]).source != *source,
            decreases self.len - i,
        {
            if self.slots[i].source.same(source) {
                proof {
                    assert(self.entries()[i as int].source == *source);
                    lemma_index_unique(self.entries(), i as int, index_of(self.entries(), *source));
                }
                return Some(i);
            }
            i += 1;
        }
        None
    }

    /// The schedule kept under `source`, if any.
    pub fn schedule_of(&self, source: &VestingSource) -> (r: Option<VestingSchedule>)
        requires
            self.wf(),
        ensures
            r == (if has_source(self.entries(), *source) {
                Some(self.entries()[index_of(self.entries(), *source)].schedule)
            } else {
                None
            }),
    {
        match self.find(source) {
            Some(i) => Some(self.slots[i].schedule),
            None => None,
        }
    }

    /// The sum of what the schedules lock at block `b`.
    pub fn total_locked(&self, b: BlockNumber) -> (r: Balance)
        requires
            self.wf(),
        ensures
            r == self.spec_total_locked(b),
    {
        let mut sum: Balance = 0;
        let mut i: usize = 0;
        while i < self.len
            invariant
                self.wf(),
                i <= self.len,
                sum == locked_upto(self.entries(), b, i as nat),
            decreases self.len - i,
        {
            sum = saturating_add(sum, self.slots[i].schedule.locks(b));
            i += 1;
        }
        sum
    }

    /// The source of the first schedule that is finished at block `b`.
    pub fn cleanup_candidate(&self, b: BlockNumber) -> (r: Option<VestingSource>)
        requires
            self.wf(),
        ensures
            r == first_finished(self.entries(), b),
    {
        let mut i: usize = 0;
        while i < self.len
            invariant
                self.wf(),
                i <= self.len,
                first_finished_upto(self.entries(), b, i as nat) == i,
            decreases self.len - i,
        {
            if self.slots[i].schedule.is_finished(b) {
                proof {
                    lemma_first_finished_stable(self.entries(), b, i as nat, self.len as nat);
                }
                return Some(self.slots[i].source);
            }
            i += 1;
        }
        None
    }

    /// Puts `schedule` in under `source`, which is not yet there.
    pub fn insert(&mut self, source: VestingSource, schedule: VestingSchedule)
        requires
            old(self).wf(),
            !has_source(old(self).entries(), source),
            old(self).entries().len() < MAX_VESTING_SCHEDULES,
            schedule.wf(),
        ensures
            final(self).wf(),
            final(self).entries() == inserted(old(self).entries(), VestingEntry { source, schedule }),
    {
        let e = VestingEntry { source, schedule };
        let ghost es = self.entries();
        let mut p: usize = 0;
        while p < self.len && self.slots[p].source.lt(&source)
            invariant
                self.wf(),
                *self == *old(self),
                p <= self.len,
                p == rank_in(es, source, p as nat),
                es == self.entries(),
            decreases self.len - p,
        {
            p += 1;
        }
        proof {
            lemma_rank_in_bounds(es, source, p as nat);
            lemma_rank_in_bounds(es, source, es.len());
            if p < self.len {
                assert(!es[p as int].source.spec_lt(source));
                let r = rank_in(es, source, es.len());
                if r > p {
                    assert(es[p as int].source.spec_lt(source));
                }
                if r < p {
                    assert(es[r as int].source.spec_lt(source));
                }
            }
            assert(p == rank_in(es, source, es.len()));
        }
        let mut i: usize = self.len;
        let old_len = self.len;
        while i > p
            invariant
                p <= i <= old_len,
                old_len < MAX_VESTING_SCHEDULES,
                self.len == old_len,
                es.len() == old_len,
                forall|k: int| 0 <= k <= i ==> k < old_len ==> self.slots@[k] == es[k],
                forall|k: int| i < k <= old_len ==> self.slots@[k] == es[k - 1],
                forall|k: int| old_len < k < 5 ==> self.slots@[k] == spec_vacant(),
                self.slots@.len() == 5,
            decreases i,
        {
            self.slots[i] = self.slots[i - 1];
            i -= 1;
        }
        self.slots[p] = e;
        self.len = old_len + 1;
        proof {
            let out = inserted(es, e);
            assert(self.entries() =~= out);
            lemma_inserted_sorted(es, e);
            assert forall|k: int| 0 <= k < out.len() implies (#[trigger] out[k]).schedule.wf() by {
                if k < p {
                    assert(out[k] == es[k]);
                } else if k > p {
                    assert(out[k] == es[k - 1]);
                }
            }
            assert(self.slots@ =~= padded(self.entries()));
        }
    }

    /// Replaces the schedule at position `i`.
    pub fn set(&mut self, i: usize, schedule: VestingSchedule)
        requires
            old(self).wf(),
            i < old(self).entries().len(),
            schedule.wf(),
        ensures
            final(self).wf(),
            final(self).entries() == replaced(old(self).entries(), i as int, schedule),
    {
        let ghost es = self.entries();
        let source = self.slots[i].source;
        self.slots[i] = VestingEntry { source, schedule };
        proof {
            let out = replaced(es, i as int, schedule);
            assert(self.entries() =~= out);
            assert forall|a: int, b: int| 0 <= a < b < out.len() implies (#[trigger] out[a]).source.spec_lt(
                (#[trigger] out[b]).source,
            ) by {
                assert(out[a].source == es[a].source);
                assert(out[b].source == es[b].source);
            }
            assert forall|k: int| 0 <= k < out.len() implies (#[trigger] out[k]).schedule.wf() by {
                if k != i {
                    assert(out[k] == es[k]);
                }
            }
            assert(self.slots@ =~= padded(self.entries()));
        }
    }

    /// Takes the schedule at position `i` out.
    pub fn remove_at(&mut self, i: usize)
        requires
            old(self).wf(),
            i < old(self).entries().len(),
        ensures
            final(self).wf(),
            final(self).entries() == old(self).entries().remove(i as int),
    {
        let ghost es = self.entries();
        let old_len = self.len;
        let mut k: usize = i;
        while k + 1 < old_len
            invariant
                i <= k < old_len,
                old_len <= MAX_VESTING_SCHEDULES,
                self.len == old_len,
                es.len() == old_len,
                forall|j: int| 0 <= j < i ==> self.slots@[j] == es[j],
                forall|j: int| i <= j < k ==> self.slots@[j] == es[j + 1],
                forall|j: int| k <= j < old_len ==> self.slots@[j] == es[j],
                forall|j: int| old_len <= j < 5 ==> self.slots@[j] == spec_vacant(),
                self.slots@.len() == 5,
            decreases old_len - k,
        {
            self.slots[k] = self.slots[k + 1];
            k += 1;
        }
        self.slots[old_len - 1] = vacant();
        self.len = old_len - 1;
        proof {
            let out = es.remove(i as int);
            assert(self.entries() =~= out);
            lemma_removed_sorted(es, i as int);
            assert forall|j: int| 0 <= j < out.len() implies (#[trigger] out[j]).schedule.wf() by {
                let j0 = if j < i { j } else { j + 1 };
                assert(out[j] == es[j0]);
            }
            assert(self.slots@ =~= padded(self.entries()));
        }
    }

    /// Burns `amount` tokens against the schedules at block `b`: each
    /// schedule in turn gives up what it still locks, and one that is left
    /// with nothing locked is dropped. Returns what no schedule covered.
    pub fn burn(&mut self, amount: Balance, b: BlockNumber) -> (rest: Balance)
        requires
            old(self).wf(),
        ensures
            final(self).wf(),
            final(self).entries() == burned_entries(old(self).entries(), amount, b),
            rest == burn_carry(old(self).entries(), amount, b, old(self).entries().len()),
            rest <= amount,
    {
        let ghost es = self.entries();
        let mut out = VestingSchedules::new();
        let mut carry = amount;
        let mut i: usize = 0;
        while i < self.len
            invariant
                self.wf(),
                *self == *old(self),
                es == self.entries(),
                out.wf(),
                i <= self.len,
                out.entries() == burn_kept(es, amount, b, i as nat),
                out.len <= i,
                carry == burn_carry(es, amount, b, i as nat),
                out.slots@.len() == 5,
            decreases self.len - i,
        {
            let e = self.slots[i];
            let ghost before = out.entries();
            proof {
                lemma_burn_kept(es, amount, b, (i + 1) as nat);
                assert(e == es[i as int]);
            }
            if carry == 0 {
                out.slots[out.len] = e;
                out.len = out.len + 1;
                proof {
                    assert(out.entries() =~= before.push(e));
                }
            } else {
                let locked = e.schedule.locks(b);
                let taken = min_balance(carry, locked);
                carry = saturating_sub(carry, taken);
                if saturating_sub(locked, taken) != 0 {
                    let kept = VestingEntry {
                        source: e.source,
                        schedule: VestingSchedule {
                            linear_vesting_start_block: e.schedule.linear_vesting_start_block,
                            linear_vesting_duration: e.schedule.linear_vesting_duration,
                            cliff_amount: e.schedule.cliff_amount,
                            post_cliff_total_amount: e.schedule.post_cliff_total_amount,
                            burned_amount: saturating_add(e.schedule.burned_amount, taken),
                        },
                    };
                    out.slots[out.len] = kept;
                    out.len = out.len + 1;
                    proof {
                        assert(out.entries() =~= before.push(kept));
                    }
                } else {
                    proof {
                        assert(out.entries() =~= before);
                    }
                }
            }
            proof {
                assert(out.entries() == burn_kept(es, amount, b, (i + 1) as nat));
                assert(out.slots@ =~= padded(out.entries()));
            }
            i += 1;
        }
        proof {
            lemma_burn_kept(es, amount, b, es.len());
        }
        *self = out;
        carry
    }
}

/// Once a finished schedule is found among the first `i + 1`, it stays the
/// first finished one however many more are looked at.
proof fn lemma_first_finished_stable(es: Seq<VestingEntry>, b: BlockNumber, i: nat, n: nat)
    requires
        i < n <= es.len(),
        first_finished_upto(es, b, i) == i,
        es[i as int].schedule.spec_is_finished(b),
    ensures
        first_finished_upto(es, b, n) == i,
    decreases n,
{
    if n > i + 1 {
        lemma_first_finished_stable(es, b, i, (n - 1) as nat);
    }
}

} // verus!
