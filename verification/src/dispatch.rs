//! The dispatcher: routes a trapped syscall number to its handler and
//! hands the handler's answer back toward the caller's register state.
//!
//! On every syscall entry the dispatcher first bumps the current task's
//! count for the trapped id (ids outside `0..512` are not counted — not
//! an error), and only then dispatches. The order matters and is pinned
//! by the contract: a `trace` call querying the count of `trace` itself
//! sees its own in-flight entry already counted.

use vstd::prelude::*;
use crate::counts::{
    spec_bumped, spec_bumped_n, spec_query, spec_zero_counts, COUNT_CAP, SYSCALL_ID_LIMIT,
};
use crate::kernel::{task_mut, Kernel};
use crate::memory::{spec_byte_at, spec_in_run, spec_wrap_add};
use crate::process::{
    spec_mem_run, spec_timeval_bytes, sys_exit, sys_get_time, sys_trace, sys_write, sys_yield,
    FD_STDOUT, TRACE_COUNT, TRACE_PEEK, TRACE_POKE,
};
use crate::time::spec_timeval_of;

verus! {

/// Syscall id of `write`.
pub const SYSCALL_WRITE: usize = 64;

/// Syscall id of `exit`.
pub const SYSCALL_EXIT: usize = 93;

/// Syscall id of `yield`.
pub const SYSCALL_YIELD: usize = 124;

/// Syscall id of `get_time`.
pub const SYSCALL_GET_TIME: usize = 169;

/// Syscall id of `trace`.
pub const SYSCALL_TRACE: usize = 410;

/// No task's counter table changed.
pub open spec fn spec_counts_unchanged(pre: Kernel, post: Kernel) -> bool {
    forall|t: int|
        0 <= t < pre.tasks@.len() ==> #[trigger] post.spec_counts_of(t) == pre.spec_counts_of(t)
}

/// What one syscall entry bearing `id` does to the counter tables: the
/// current task's entry for a countable `id` is bumped, everything else
/// stays; with no current task, or an id past the counted range, no table
/// changes at all.
pub open spec fn spec_counts_step(pre: Kernel, post: Kernel, id: usize) -> bool {
    match pre.current {
        Some(c) => if id < SYSCALL_ID_LIMIT {
            &&& post.spec_counts_of(c as int) == spec_bumped(pre.spec_counts_of(c as int), id as int)
            &&& forall|t: int|
                0 <= t < pre.tasks@.len() && t != c ==> #[trigger] post.spec_counts_of(t)
                    == pre.spec_counts_of(t)
        } else {
            spec_counts_unchanged(pre, post)
        },
        None => spec_counts_unchanged(pre, post),
    }
}

/// No task changed its scheduling status.
pub open spec fn spec_statuses_unchanged(pre: Kernel, post: Kernel) -> bool {
    forall|t: int|
        0 <= t < pre.tasks@.len() ==> (#[trigger] post.tasks@[t]).status == pre.tasks@[t].status
}

/// What a `trace` syscall answers, given the counter table the current
/// task holds at the moment the answer is computed (its own entry for
/// `trace` already bumped).
pub open spec fn spec_trace_result(
    mem: Map<usize, u8>,
    counts: Option<Seq<u64>>,
    request: usize,
    addr_or_id: usize,
) -> int {
    if request == TRACE_PEEK {
        spec_byte_at(mem, addr_or_id) as int
    } else if request == TRACE_POKE {
        0
    } else if request == TRACE_COUNT {
        match counts {
            Some(c) => spec_query(c, addr_or_id as int),
            None => -1,
        }
    } else {
        -1
    }
}

/// Counting accumulates: along a run of machine states linked by syscall
/// entries all bearing the same countable id and all made by the same
/// fixed current task, the task's count for that id rises once per entry.
pub proof fn lemma_counts_after_consecutive_entries(ks: Seq<Kernel>, c: usize, id: usize)
    requires
        ks.len() >= 1,
        id < SYSCALL_ID_LIMIT,
        forall|i: int|
            0 <= i < ks.len() - 1 ==> (#[trigger] ks[i]).current == Some(c)
                && spec_counts_step(ks[i], ks[i + 1], id),
    ensures
        ks.last().spec_counts_of(c as int) == spec_bumped_n(
            ks[0].spec_counts_of(c as int),
            id as int,
            (ks.len() - 1) as nat,
        ),
    decreases ks.len(),
{
    if ks.len() > 1 {
        let prefix = ks.subrange(0, ks.len() - 1);
        lemma_counts_after_consecutive_entries(prefix, c, id);
        assert(prefix.last() == ks[ks.len() - 2]);
        assert(spec_counts_step(ks[ks.len() - 2], ks[ks.len() - 1], id));
    }
}

/// After `n` consecutive syscalls bearing a valid id `id`, all made by
/// one fixed task whose table started zero-initialized, a counter query
/// for `id` on that task answers exactly `n` — and answered `0` before
/// any of them — as long as `n` stays below the saturation bound.
pub proof fn lemma_query_after_consecutive_entries(ks: Seq<Kernel>, c: usize, id: usize)
    requires
        ks.len() >= 1,
        ks.len() - 1 <= COUNT_CAP,
        id < SYSCALL_ID_LIMIT,
        ks[0].spec_counts_of(c as int) == spec_zero_counts(),
        forall|i: int|
            0 <= i < ks.len() - 1 ==> (#[trigger] ks[i]).current == Some(c)
                && spec_counts_step(ks[i], ks[i + 1], id),
    ensures
        spec_query(ks.last().spec_counts_of(c as int), id as int) == ks.len() - 1,
        spec_query(ks[0].spec_counts_of(c as int), id as int) == 0,
{
    lemma_counts_after_consecutive_entries(ks, c, id);
    crate::counts::lemma_bumped_n_exact(spec_zero_counts(), id as int, (ks.len() - 1) as nat);
}

/// Poking a byte and peeking the same address through `trace` round-trips:
/// after a poke of `data` to `addr_or_id`, a peek of `addr_or_id` answers
/// the low eight bits of `data` — the byte value itself whenever `data`
/// is one.
pub proof fn lemma_trace_poke_then_peek(
    m: Map<usize, u8>,
    counts: Option<Seq<u64>>,
    addr_or_id: usize,
    data: usize,
)
    ensures
        spec_trace_result(m.insert(addr_or_id, data as u8), counts, TRACE_PEEK, addr_or_id)
            == data as u8,
        data < 256 ==> spec_trace_result(
            m.insert(addr_or_id, data as u8),
            counts,
            TRACE_PEEK,
            addr_or_id,
        ) == data,
{
    crate::memory::lemma_poke_peek_roundtrip(m, addr_or_id, data as u8);
}

/// Route one trapped syscall: count the entry against the current task,
/// then dispatch `id` to its handler with the three argument words, and
/// answer what the handler answered — or `-1` for a number no handler
/// owns. The clock never moves during a syscall.
pub fn syscall(k: &mut Kernel, id: usize, args: [usize; 3]) -> (r: isize)
    requires
        old(k).wf(),
    ensures
        final(k).wf(),
        final(k).tasks@.len() == old(k).tasks@.len(),
        final(k).clock_us == old(k).clock_us,
        spec_counts_step(*old(k), *final(k), id),
        id == SYSCALL_EXIT ==> {
            &&& final(k).mem@ == old(k).mem@
            &&& final(k).console@ == old(k).console@
            &&& r == 0
            &&& match old(k).current {
                Some(c) => {
                    &&& final(k).tasks@[c as int].status is Exited
                    &&& forall|t: int|
                        0 <= t < old(k).tasks@.len() && t != c
                            ==> (#[trigger] final(k).tasks@[t]).status == old(k).tasks@[t].status
                    &&& match final(k).current {
                        Some(d) => d < final(k).tasks@.len()
                            && final(k).tasks@[d as int].status is Ready,
                        None => forall|t: int|
                            0 <= t < final(k).tasks@.len()
                                ==> !((#[trigger] final(k).tasks@[t]).status is Ready),
                    }
                },
                None => spec_statuses_unchanged(*old(k), *final(k)) && final(k).current
                    == old(k).current,
            }
        },
        id == SYSCALL_WRITE ==> {
            &&& spec_statuses_unchanged(*old(k), *final(k))
            &&& final(k).current == old(k).current
            &&& final(k).mem@ == old(k).mem@
            &&& (args[0] == FD_STDOUT && args[2] <= isize::MAX ==> final(k).console@
                == old(k).console@ + spec_mem_run(old(k).mem@, args[1], args[2]) && r == args[2])
            &&& (!(args[0] == FD_STDOUT && args[2] <= isize::MAX) ==> final(k).console@
                == old(k).console@ && r == -1)
        },
        id == SYSCALL_YIELD ==> {
            &&& spec_statuses_unchanged(*old(k), *final(k))
            &&& final(k).mem@ == old(k).mem@
            &&& final(k).console@ == old(k).console@
            &&& r == 0
            &&& match old(k).current {
                Some(c) => final(k).current is Some,
                None => final(k).current == old(k).current,
            }
            &&& match final(k).current {
                Some(d) => d < final(k).tasks@.len() && final(k).tasks@[d as int].status is Ready,
                None => true,
            }
        },
        id == SYSCALL_GET_TIME ==> {
            &&& spec_statuses_unchanged(*old(k), *final(k))
            &&& final(k).current == old(k).current
            &&& final(k).console@ == old(k).console@
            &&& r == 0
            &&& forall|j: usize|
                j < 16 ==> spec_byte_at(final(k).mem@, #[trigger] spec_wrap_add(args[0], j))
                    == spec_timeval_bytes(spec_timeval_of(old(k).clock_us))[j as int]
            &&& forall|a: usize|
                !spec_in_run(args[0], 16, a) ==> spec_byte_at(final(k).mem@, a)
                    == spec_byte_at(old(k).mem@, a)
        },
        id == SYSCALL_TRACE ==> {
            &&& spec_statuses_unchanged(*old(k), *final(k))
            &&& final(k).current == old(k).current
            &&& final(k).console@ == old(k).console@
            &&& (args[0] == TRACE_POKE ==> final(k).mem@ == old(k).mem@.insert(
                args[1],
                args[2] as u8,
            ))
            &&& (args[0] != TRACE_POKE ==> final(k).mem@ == old(k).mem@)
            &&& r == spec_trace_result(
                old(k).mem@,
                match old(k).current {
                    Some(c) => Some(
                        spec_bumped(old(k).spec_counts_of(c as int), SYSCALL_TRACE as int),
                    ),
                    None => None,
                },
                args[0],
                args[1],
            )
        },
        !(id == SYSCALL_EXIT || id == SYSCALL_WRITE || id == SYSCALL_YIELD || id
            == SYSCALL_GET_TIME || id == SYSCALL_TRACE) ==> {
            &&& spec_statuses_unchanged(*old(k), *final(k))
            &&& final(k).current == old(k).current
            &&& final(k).mem@ == old(k).mem@
            &&& final(k).console@ == old(k).console@
            &&& r == -1
        },
{
    // Count the entry first, dispatch second: the order is part of the
    // observable behaviour of a `trace` count query.
    if id < SYSCALL_ID_LIMIT {
        match k.current_task() {
            Some(c) => {
                let task = task_mut(&mut k.tasks, c);
                task.syscall_counts.increment(id);
            },
            None => {},
        }
    }
    match id {
        SYSCALL_WRITE => sys_write(k, args[0], args[1], args[2]),
        SYSCALL_EXIT => {
            sys_exit(k, #[verifier::truncate] (args[0] as i32));
            0
        },
        SYSCALL_YIELD => sys_yield(k),
        SYSCALL_GET_TIME => sys_get_time(k, args[0], args[1]),
        SYSCALL_TRACE => sys_trace(k, args[0], args[1], args[2]),
        _ => -1,
    }
}

} // verus!
