//! User-side syscall stubs: what a task executes to enter the kernel.
//!
//! On hardware each stub marshals its arguments into three register words
//! and issues the trap instruction; the model performs the same
//! marshalling and enters the dispatcher directly, which is where the
//! trap lands.

use vstd::prelude::*;
use crate::dispatch::{
    spec_counts_step, spec_statuses_unchanged, syscall, SYSCALL_EXIT, SYSCALL_WRITE,
};
use crate::kernel::Kernel;
use crate::process::{spec_mem_run, FD_STDOUT};

verus! {

/// Exit the calling task with the given code. The trap retires the task;
/// the call's result word never reaches it.
pub fn sys_exit(k: &mut Kernel, xstate: i32) -> (r: isize)
    requires
        old(k).wf(),
    ensures
        final(k).wf(),
        final(k).tasks@.len() == old(k).tasks@.len(),
        spec_counts_step(*old(k), *final(k), SYSCALL_EXIT),
        final(k).mem@ == old(k).mem@,
        final(k).console@ == old(k).console@,
        final(k).clock_us == old(k).clock_us,
        r == 0,
        match old(k).current {
            Some(c) => {
                &&& final(k).tasks@[c as int].status is Exited
                &&& forall|t: int|
                    0 <= t < old(k).tasks@.len() && t != c
                        ==> (#[trigger] final(k).tasks@[t]).status == old(k).tasks@[t].status
                &&& match final(k).current {
                    Some(d) => d < final(k).tasks@.len()
                        && final(k).tasks@[d as int].status is Ready,
                    None => forall|t: int|
                        0 <= t < final(k).tasks@.len()
                            ==> !((#[trigger] final(k).tasks@[t]).status is Ready),
                }
            },
            None => spec_statuses_unchanged(*old(k), *final(k)) && final(k).current
                == old(k).current,
        },
{
    syscall(k, SYSCALL_EXIT, [#[verifier::truncate] (xstate as usize), 0, 0])
}

/// Write `len` bytes at address `buffer` in the current address space to
/// file descriptor `fd`. Answers the number of bytes written, `-1` when
/// the descriptor is not the console or the length does not fit the
/// signed result word.
pub fn sys_write(k: &mut Kernel, fd: usize, buffer: usize, len: usize) -> (r: isize)
    requires
        old(k).wf(),
    ensures
        final(k).wf(),
        final(k).tasks@.len() == old(k).tasks@.len(),
        spec_counts_step(*old(k), *final(k), SYSCALL_WRITE),
        spec_statuses_unchanged(*old(k), *final(k)),
        final(k).current == old(k).current,
        final(k).mem@ == old(k).mem@,
        final(k).clock_us == old(k).clock_us,
        fd == FD_STDOUT && len <= isize::MAX ==> final(k).console@ == old(k).console@
            + spec_mem_run(old(k).mem@, buffer, len) && r == len,
        !(fd == FD_STDOUT && len <= isize::MAX) ==> final(k).console@ == old(k).console@ && r
            == -1,
{
    syscall(k, SYSCALL_WRITE, [fd, buffer, len])
}

} // verus!
