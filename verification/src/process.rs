//! Process-control syscall handlers: `exit`, `yield`, `get_time`,
//! `trace`, and the console `write` dispatch target.
//!
//! Each handler runs atomically with respect to other tasks: single hart,
//! no preemption inside a handler. Recoverable errors come back as the
//! `-1` sentinel, never as a panic.

use vstd::prelude::*;
use vstd::bytes::{spec_u64_to_le_bytes, u64_to_le_bytes};
use crate::counts::spec_query;
use crate::kernel::Kernel;
use crate::memory::{spec_byte_at, spec_in_run, spec_wrap_add};
use crate::time::{spec_timeval_of, timeval_of_us, TimeVal};

verus! {

/// The console file descriptor: the only one `write` passes bytes to.
pub const FD_STDOUT: usize = 1;

/// Trace request selector: read one byte of memory.
pub const TRACE_PEEK: usize = 0;

/// Trace request selector: write one byte of memory.
pub const TRACE_POKE: usize = 1;

/// Trace request selector: query the current task's syscall count.
pub const TRACE_COUNT: usize = 2;

/// The byte image a `get_time` result leaves in the caller's memory: the
/// seconds word, then the microseconds word, each as eight little-endian
/// bytes.
pub open spec fn spec_timeval_bytes(tv: TimeVal) -> Seq<u8> {
    spec_u64_to_le_bytes(tv.sec as u64) + spec_u64_to_le_bytes(tv.usec as u64)
}

/// The run of `n` bytes a memory image yields from `addr` on.
pub open spec fn spec_mem_run(m: Map<usize, u8>, addr: usize, n: usize) -> Seq<u8> {
    Seq::new(n as nat, |j: int| spec_byte_at(m, spec_wrap_add(addr, j as usize)))
}

/// Retire the calling task with the given exit code and hand the hart to
/// the next runnable task. The code is a diagnostic only; it decides no
/// state. In the running kernel control never comes back to the retired
/// task; in this model the hand-off is total — the contract of the
/// scheduling step leaves no failing case to halt on — and the call
/// returns the post-hand-off state to the harness driving the machine.
pub fn sys_exit(k: &mut Kernel, exit_code: i32)
    requires
        old(k).wf(),
    ensures
        final(k).wf(),
        Kernel::sched_frame(old(k), final(k)),
        match old(k).current {
            Some(c) => {
                &&& final(k).tasks@[c as int].status is Exited
                &&& forall|t: int|
                    0 <= t < old(k).tasks@.len() && t != c
                        ==> (#[trigger] final(k).tasks@[t]).status == old(k).tasks@[t].status
                &&& match final(k).current {
                    Some(d) => d < final(k).tasks@.len()
                        && final(k).tasks@[d as int].status is Ready,
                    None => forall|t: int|
                        0 <= t < final(k).tasks@.len()
                            ==> !((#[trigger] final(k).tasks@[t]).status is Ready),
                }
            },
            None => *final(k) == *old(k),
        },
{
    let _ = exit_code;  // diagnostic only; printing it belongs to the console subsystem
    k.exit_current_and_run_next();
}

/// Give up the rest of the execution slot: the calling task stays
/// runnable, the hart goes to a runnable task, and the call answers `0`
/// once the task is rescheduled. No effect beyond the scheduling step.
pub fn sys_yield(k: &mut Kernel) -> (r: isize)
    requires
        old(k).wf(),
    ensures
        final(k).wf(),
        Kernel::sched_frame(old(k), final(k)),
        final(k).tasks@ == old(k).tasks@,
        match old(k).current {
            Some(c) => final(k).current is Some,
            None => final(k).current == old(k).current,
        },
        r == 0,
{
    k.suspend_current_and_run_next();
    0
}

/// Read the time source and write the decomposed `{sec, usec}` pair to
/// the caller-supplied location `ts`: sixteen bytes, the seconds word
/// then the microseconds word. The time-zone argument is accepted for
/// interface compatibility and has no effect. Always answers `0`.
pub fn sys_get_time(k: &mut Kernel, ts: usize, _tz: usize) -> (r: isize)
    requires
        old(k).wf(),
    ensures
        final(k).wf(),
        r == 0,
        final(k).tasks@ == old(k).tasks@,
        final(k).current == old(k).current,
        final(k).clock_us == old(k).clock_us,
        final(k).console@ == old(k).console@,
        forall|j: usize|
            j < 16 ==> spec_byte_at(final(k).mem@, #[trigger] spec_wrap_add(ts, j))
                == spec_timeval_bytes(spec_timeval_of(old(k).clock_us))[j as int],
        forall|a: usize|
            !spec_in_run(ts, 16, a) ==> spec_byte_at(final(k).mem@, a)
                == spec_byte_at(old(k).mem@, a),
{
    let us = k.get_time_us();
    let tv = timeval_of_us(us);
    let mut image = u64_to_le_bytes(tv.sec as u64);
    let mut rest = u64_to_le_bytes(tv.usec as u64);
    image.append(&mut rest);
    proof {
        assert(image@ =~= spec_timeval_bytes(spec_timeval_of(us)));
    }
    k.mem.store_bytes(ts, &image);
    0
}

/// Decode the sixteen-byte image a `get_time` call left at `ts`: the
/// seconds word and the microseconds word, each read as eight
/// little-endian bytes.
pub fn read_time_image(k: &Kernel, ts: usize) -> (words: (u64, u64))
    ensures
        words.0 == vstd::bytes::spec_u64_from_le_bytes(
            spec_mem_run(k.mem@, ts, 16).subrange(0, 8),
        ),
        words.1 == vstd::bytes::spec_u64_from_le_bytes(
            spec_mem_run(k.mem@, ts, 16).subrange(8, 16),
        ),
{
    let image = k.mem.read_bytes(ts, 16);
    proof {
        assert(image@ =~= spec_mem_run(k.mem@, ts, 16));
    }
    let sec = vstd::bytes::u64_from_le_bytes(vstd::slice::slice_subrange(image.as_slice(), 0, 8));
    let usec = vstd::bytes::u64_from_le_bytes(vstd::slice::slice_subrange(image.as_slice(), 8, 16));
    (sec, usec)
}

/// The byte image a `get_time` call leaves decodes back to exactly the
/// pair it was made from: reading the two words of [`spec_timeval_bytes`]
/// undoes the encoding.
pub proof fn lemma_time_image_roundtrip(tv: TimeVal)
    ensures
        vstd::bytes::spec_u64_from_le_bytes(spec_timeval_bytes(tv).subrange(0, 8)) == tv.sec
            as u64,
        vstd::bytes::spec_u64_from_le_bytes(spec_timeval_bytes(tv).subrange(8, 16)) == tv.usec
            as u64,
{
    vstd::bytes::lemma_auto_spec_u64_to_from_le_bytes();
    assert(spec_timeval_bytes(tv).subrange(0, 8) =~= spec_u64_to_le_bytes(tv.sec as u64));
    assert(spec_timeval_bytes(tv).subrange(8, 16) =~= spec_u64_to_le_bytes(tv.usec as u64));
}

/// The three-way debug multiplexer. `request` selects: `0` peeks the byte
/// at address `addr_or_id` and answers it widened; `1` pokes the low
/// eight bits of `data` to that address and answers `0`; `2` reads
/// `addr_or_id` as a syscall id and answers the current task's count for
/// it, or `-1` when the id is out of range or no task is current; any
/// other request answers `-1` and changes nothing.
pub fn sys_trace(k: &mut Kernel, trace_request: usize, addr_or_id: usize, data: usize) -> (r: isize)
    requires
        old(k).wf(),
    ensures
        final(k).wf(),
        final(k).tasks@ == old(k).tasks@,
        final(k).current == old(k).current,
        final(k).clock_us == old(k).clock_us,
        final(k).console@ == old(k).console@,
        trace_request == TRACE_PEEK ==> final(k).mem@ == old(k).mem@ && r == spec_byte_at(
            old(k).mem@,
            addr_or_id,
        ),
        trace_request == TRACE_POKE ==> final(k).mem@ == old(k).mem@.insert(
            addr_or_id,
            data as u8,
        ) && r == 0,
        trace_request == TRACE_COUNT ==> final(k).mem@ == old(k).mem@ && r == (
        match old(k).current {
            Some(c) => spec_query(old(k).spec_counts_of(c as int), addr_or_id as int),
            None => -1,
        }),
        !(trace_request == TRACE_PEEK || trace_request == TRACE_POKE || trace_request
            == TRACE_COUNT) ==> final(k).mem@ == old(k).mem@ && r == -1,
{
    if trace_request == TRACE_PEEK {
        let b = k.mem.peek(addr_or_id);
        b as isize
    } else if trace_request == TRACE_POKE {
        k.mem.poke(addr_or_id, #[verifier::truncate] (data as u8));
        0
    } else if trace_request == TRACE_COUNT {
        // The typed lookup becomes the -1 sentinel only here, at the
        // syscall-return boundary.
        match k.current_task() {
            Some(c) => match k.tasks[c].syscall_counts.count_for(addr_or_id) {
                Some(n) => n as isize,
                None => -1,
            },
            None => -1,
        }
    } else {
        -1
    }
}

/// The `write` dispatch target: pass the `len` bytes at `buf` in the
/// current address space through to the console file descriptor, and
/// answer how many bytes went out. Any other descriptor, or a length too
/// large for the signed result word, answers `-1` and writes nothing.
/// What the console does with the bytes is outside this core.
pub fn sys_write(k: &mut Kernel, fd: usize, buf: usize, len: usize) -> (r: isize)
    requires
        old(k).wf(),
    ensures
        final(k).wf(),
        final(k).tasks@ == old(k).tasks@,
        final(k).current == old(k).current,
        final(k).clock_us == old(k).clock_us,
        final(k).mem@ == old(k).mem@,
        fd == FD_STDOUT && len <= isize::MAX ==> final(k).console@ == old(k).console@
            + spec_mem_run(old(k).mem@, buf, len) && r == len,
        !(fd == FD_STDOUT && len <= isize::MAX) ==> final(k).console@ == old(k).console@ && r
            == -1,
{
    if fd == FD_STDOUT && len <= (isize::MAX as usize) {
        let mut bytes = k.mem.read_bytes(buf, len);
        proof {
            assert(bytes@ =~= spec_mem_run(k.mem@, buf, len));
        }
        k.console.append(&mut bytes);
        len as isize
    } else {
        -1
    }
}

} // verus!
