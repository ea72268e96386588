//! Per-task syscall-invocation counting: a fixed-size table mapping each
//! syscall id in `0..512` to the number of times the owning task has
//! entered the kernel with that id.

use vstd::prelude::*;
use vstd::pervasive::VecAdditionalExecFns;

verus! {

/// Number of distinct syscall ids the table counts; ids at or above this
/// bound are never counted and a query for one answers `-1`.
pub const SYSCALL_ID_LIMIT: usize = 512;

/// Counts stop rising here instead of wrapping. The bound is the largest
/// count that a signed 32-bit result word can carry, so a query can always
/// hand the exact count back through the signed return channel.
pub const COUNT_CAP: u64 = 0x7fff_ffff;

/// One more invocation: the count rises by one until it reaches
/// [`COUNT_CAP`], where it stays (never a silent wraparound).
pub open spec fn spec_bump(n: u64) -> u64 {
    if n < COUNT_CAP {
        (n + 1) as u64
    } else {
        n
    }
}

/// The table after one syscall entry bearing `id`: that entry is bumped,
/// every other entry keeps its count.
pub open spec fn spec_bumped(c: Seq<u64>, id: int) -> Seq<u64> {
    c.update(id, spec_bump(c[id]))
}

/// The table after `n` consecutive syscall entries bearing `id`.
pub open spec fn spec_bumped_n(c: Seq<u64>, id: int, n: nat) -> Seq<u64>
    decreases n,
{
    if n == 0 {
        c
    } else {
        spec_bumped(spec_bumped_n(c, id, (n - 1) as nat), id)
    }
}

/// The table of a freshly created task: every count is zero.
pub open spec fn spec_zero_counts() -> Seq<u64> {
    Seq::new(SYSCALL_ID_LIMIT as nat, |i: int| 0u64)
}

/// What a count query answers on a table: the exact count for an id in
/// range, the `-1` sentinel otherwise.
pub open spec fn spec_query(c: Seq<u64>, id: int) -> int {
    if 0 <= id < SYSCALL_ID_LIMIT {
        c[id] as int
    } else {
        -1
    }
}

/// Invocation counts for one task, owned by that task alone. Created
/// zero-initialized with the task, bumped by the dispatcher on every
/// syscall entry, destroyed with the task.
pub struct SyscallCountTable {
    counts: Vec<u64>,
}

impl SyscallCountTable {
    /// The table as a sequence of counts, indexed by syscall id.
    pub closed spec fn view(&self) -> Seq<u64> {
        self.counts@
    }

    /// Well-formed: one count per valid syscall id, and no count past the
    /// saturation bound.
    pub open spec fn wf(&self) -> bool {
        self@.len() == SYSCALL_ID_LIMIT && forall|j: int|
            0 <= j < self@.len() ==> self@[j] <= COUNT_CAP
    }

    /// A zero-initialized table for a freshly created task.
    pub fn new() -> (t: Self)
        ensures
            t.wf(),
            t@ == spec_zero_counts(),
    {
        let mut counts: Vec<u64> = Vec::new();
        let mut i: usize = 0;
        while i < SYSCALL_ID_LIMIT
            invariant
                i <= SYSCALL_ID_LIMIT,
                counts@.len() == i,
                forall|j: int| 0 <= j < i ==> counts@[j] == 0u64,
            decreases SYSCALL_ID_LIMIT - i,
        {
            counts.push(0);
            i = i + 1;
        }
        proof {
            assert(counts@ =~= spec_zero_counts());
        }
        SyscallCountTable { counts }
    }

    /// Record one syscall entry bearing `id`: bump that id's count,
    /// saturating at [`COUNT_CAP`], and leave every other count alone.
    pub fn increment(&mut self, id: usize)
        requires
            old(self).wf(),
            id < SYSCALL_ID_LIMIT,
        ensures
            final(self).wf(),
            final(self)@ == spec_bumped(old(self)@, id as int),
    {
        let n = self.counts[id];
        if n < COUNT_CAP {
            self.counts.set(id, n + 1);
        } else {
            proof {
                assert(self.counts@ =~= spec_bumped(self.counts@, id as int));
            }
        }
    }

    /// Look a count up: the exact count for an id in range, nothing for
    /// an id the table does not cover. The caller at the syscall-return
    /// boundary turns the missing case into the `-1` sentinel; here it
    /// stays a typed absence. The count never rises past [`COUNT_CAP`],
    /// so it always fits the signed result word it is bound for.
    pub fn count_for(&self, id: usize) -> (r: Option<u64>)
        requires
            self.wf(),
        ensures
            match r {
                Some(n) => id < SYSCALL_ID_LIMIT && n == self@[id as int] && n <= COUNT_CAP,
                None => id >= SYSCALL_ID_LIMIT,
            },
            spec_query(self@, id as int) == (match r {
                Some(n) => n as int,
                None => -1,
            }),
    {
        if id < SYSCALL_ID_LIMIT {
            Some(self.counts[id])
        } else {
            None
        }
    }
}

/// A fresh task has made no syscalls yet: a query for any id in range
/// answers zero on the zero-initialized table.
pub proof fn lemma_fresh_table_query_is_zero(id: int)
    requires
        0 <= id < SYSCALL_ID_LIMIT,
    ensures
        spec_query(spec_zero_counts(), id) == 0,
{
}

/// A query for any id out of the counted range answers the `-1` sentinel,
/// whatever the table holds.
pub proof fn lemma_out_of_range_query(c: Seq<u64>, id: int)
    requires
        id >= SYSCALL_ID_LIMIT,
    ensures
        spec_query(c, id) == -1,
{
}

/// Bumping one id touches no other entry and keeps the table's length.
pub proof fn lemma_bumped_n_frame(c: Seq<u64>, id: int, n: nat)
    requires
        0 <= id < c.len(),
    ensures
        spec_bumped_n(c, id, n).len() == c.len(),
        forall|j: int| 0 <= j < c.len() && j != id ==> spec_bumped_n(c, id, n)[j] == c[j],
    decreases n,
{
    if n > 0 {
        lemma_bumped_n_frame(c, id, (n - 1) as nat);
    }
}

/// Counting is exact below the saturation bound: `n` consecutive syscall
/// entries bearing id `id` raise that id's count by exactly `n`.
pub proof fn lemma_bumped_n_exact(c: Seq<u64>, id: int, n: nat)
    requires
        0 <= id < c.len(),
        c[id] + n <= COUNT_CAP,
    ensures
        spec_bumped_n(c, id, n).len() == c.len(),
        spec_bumped_n(c, id, n)[id] == c[id] + n,
    decreases n,
{
    if n > 0 {
        lemma_bumped_n_exact(c, id, (n - 1) as nat);
    }
}

/// After `n` consecutive syscalls bearing a valid id `id` from a task
/// whose table started zero-initialized, a count query for `id` answers
/// exactly `n`; before any, it answers `0`.
pub proof fn lemma_query_counts_syscalls(id: int, n: nat)
    requires
        0 <= id < SYSCALL_ID_LIMIT,
        n <= COUNT_CAP,
    ensures
        spec_query(spec_bumped_n(spec_zero_counts(), id, n), id) == n,
        spec_query(spec_zero_counts(), id) == 0,
{
    lemma_bumped_n_exact(spec_zero_counts(), id, n);
}

} // verus!
