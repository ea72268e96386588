use syscall_core::dispatch::{
    syscall, SYSCALL_EXIT, SYSCALL_GET_TIME, SYSCALL_TRACE, SYSCALL_YIELD,
};
use syscall_core::kernel::Kernel;
use syscall_core::process::{read_time_image, sys_trace, sys_yield};
use syscall_core::time::timeval_of_us;
use syscall_core::user;

const PEEK: usize = 0;
const POKE: usize = 1;
const COUNT: usize = 2;

#[test]
fn fresh_task_counts_are_zero() {
    let mut k = Kernel::new(1);
    // A query through the raw handler bumps nothing: every in-range id is 0.
    assert_eq!(sys_trace(&mut k, COUNT, 0, 0), 0);
    assert_eq!(sys_trace(&mut k, COUNT, 93, 0), 0);
    assert_eq!(sys_trace(&mut k, COUNT, 511, 0), 0);
}

#[test]
fn out_of_range_count_query_is_minus_one() {
    let mut k = Kernel::new(1);
    assert_eq!(syscall(&mut k, SYSCALL_TRACE, [COUNT, 512, 0]), -1);
    assert_eq!(syscall(&mut k, SYSCALL_TRACE, [COUNT, 600, 0]), -1);
    assert_eq!(syscall(&mut k, SYSCALL_TRACE, [COUNT, usize::MAX, 0]), -1);
}

#[test]
fn three_yields_count_three() {
    let mut k = Kernel::new(1);
    assert_eq!(syscall(&mut k, SYSCALL_YIELD, [0, 0, 0]), 0);
    assert_eq!(syscall(&mut k, SYSCALL_YIELD, [0, 0, 0]), 0);
    assert_eq!(syscall(&mut k, SYSCALL_YIELD, [0, 0, 0]), 0);
    assert_eq!(syscall(&mut k, SYSCALL_TRACE, [COUNT, SYSCALL_YIELD, 0]), 3);
}

#[test]
fn n_syscalls_count_n() {
    let mut k = Kernel::new(1);
    for _ in 0..5 {
        assert_eq!(syscall(&mut k, SYSCALL_GET_TIME, [4096, 0, 0]), 0);
    }
    assert_eq!(syscall(&mut k, SYSCALL_TRACE, [COUNT, SYSCALL_GET_TIME, 0]), 5);
}

#[test]
fn trace_query_counts_its_own_entry() {
    // The dispatcher increments before it dispatches, so the first trace
    // call asking for the trace count already sees itself.
    let mut k = Kernel::new(1);
    assert_eq!(syscall(&mut k, SYSCALL_TRACE, [COUNT, SYSCALL_TRACE, 0]), 1);
    assert_eq!(syscall(&mut k, SYSCALL_TRACE, [COUNT, SYSCALL_TRACE, 0]), 2);
}

#[test]
fn poke_then_peek_round_trips() {
    let mut k = Kernel::new(1);
    for v in [0usize, 1, 42, 127, 255] {
        assert_eq!(syscall(&mut k, SYSCALL_TRACE, [POKE, 0x8000, v]), 0);
        assert_eq!(syscall(&mut k, SYSCALL_TRACE, [PEEK, 0x8000, 0]), v as isize);
    }
    // Only the low eight bits of the data word are stored.
    assert_eq!(syscall(&mut k, SYSCALL_TRACE, [POKE, 0x8000, 300]), 0);
    assert_eq!(syscall(&mut k, SYSCALL_TRACE, [PEEK, 0x8000, 0]), 44);
}

#[test]
fn unwritten_memory_reads_zero() {
    let mut k = Kernel::new(1);
    assert_eq!(syscall(&mut k, SYSCALL_TRACE, [PEEK, 0xdead_beef, 0]), 0);
}

#[test]
fn poke_leaves_neighbours_alone() {
    let mut k = Kernel::new(1);
    assert_eq!(syscall(&mut k, SYSCALL_TRACE, [POKE, 100, 7]), 0);
    assert_eq!(syscall(&mut k, SYSCALL_TRACE, [POKE, 101, 9]), 0);
    assert_eq!(syscall(&mut k, SYSCALL_TRACE, [PEEK, 100, 0]), 7);
    assert_eq!(syscall(&mut k, SYSCALL_TRACE, [PEEK, 101, 0]), 9);
    assert_eq!(syscall(&mut k, SYSCALL_TRACE, [PEEK, 99, 0]), 0);
}

#[test]
fn unknown_trace_request_is_minus_one() {
    let mut k = Kernel::new(1);
    assert_eq!(syscall(&mut k, SYSCALL_TRACE, [3, 0, 0]), -1);
    assert_eq!(syscall(&mut k, SYSCALL_TRACE, [99, 0x8000, 77]), -1);
    assert_eq!(syscall(&mut k, SYSCALL_TRACE, [usize::MAX, usize::MAX, usize::MAX]), -1);
    // A rejected request wrote nothing.
    assert_eq!(syscall(&mut k, SYSCALL_TRACE, [PEEK, 0x8000, 0]), 0);
}

#[test]
fn get_time_decomposes_microseconds() {
    let mut k = Kernel::new(1);
    k.advance_clock(1_500_000);
    assert_eq!(syscall(&mut k, SYSCALL_GET_TIME, [0x1000, 0, 0]), 0);
    let (sec, usec) = read_time_image(&k, 0x1000);
    assert_eq!(sec, 1);
    assert_eq!(usec, 500_000);
}

#[test]
fn get_time_advances_by_exactly_the_clock_delta() {
    let mut k = Kernel::new(1);
    k.advance_clock(999_800);
    assert_eq!(syscall(&mut k, SYSCALL_GET_TIME, [0x1000, 0, 0]), 0);
    let (sec1, usec1) = read_time_image(&k, 0x1000);
    k.advance_clock(500);
    assert_eq!(syscall(&mut k, SYSCALL_GET_TIME, [0x2000, 0, 0]), 0);
    let (sec2, usec2) = read_time_image(&k, 0x2000);
    let t1 = sec1 * 1_000_000 + usec1;
    let t2 = sec2 * 1_000_000 + usec2;
    assert_eq!(t2 - t1, 500);
    // The later reading rolled over into the next second.
    assert_eq!((sec1, usec1), (0, 999_800));
    assert_eq!((sec2, usec2), (1, 300));
}

#[test]
fn get_time_is_monotone() {
    let mut k = Kernel::new(1);
    let mut last: u64 = 0;
    for delta in [0usize, 1, 999_999, 1_000_000, 123_456_789] {
        k.advance_clock(delta);
        assert_eq!(syscall(&mut k, SYSCALL_GET_TIME, [0x3000, 0, 0]), 0);
        let (sec, usec) = read_time_image(&k, 0x3000);
        assert!(usec < 1_000_000);
        let t = sec * 1_000_000 + usec;
        assert!(t >= last);
        last = t;
    }
}

#[test]
fn timeval_fields_are_quotient_and_remainder() {
    let tv = timeval_of_us(1_234_567);
    assert_eq!(tv.sec, 1);
    assert_eq!(tv.usec, 234_567);
    let tv = timeval_of_us(0);
    assert_eq!(tv.sec, 0);
    assert_eq!(tv.usec, 0);
    let tv = timeval_of_us(999_999);
    assert_eq!(tv.sec, 0);
    assert_eq!(tv.usec, 999_999);
}

#[test]
fn exit_retires_the_current_task() {
    let mut k = Kernel::new(2);
    assert_eq!(k.current_task(), Some(0));
    assert_eq!(user::sys_exit(&mut k, 0), 0);
    assert_eq!(k.current_task(), Some(1));
    assert_eq!(user::sys_exit(&mut k, 3), 0);
    assert_eq!(k.current_task(), None);
}

#[test]
fn exited_task_keeps_no_hart_and_counting_stops() {
    let mut k = Kernel::new(1);
    assert_eq!(syscall(&mut k, SYSCALL_EXIT, [0, 0, 0]), 0);
    assert_eq!(k.current_task(), None);
    // With no current task a count query answers the sentinel.
    assert_eq!(syscall(&mut k, SYSCALL_TRACE, [COUNT, SYSCALL_EXIT, 0]), -1);
}

#[test]
fn yield_keeps_the_task_runnable() {
    let mut k = Kernel::new(1);
    assert_eq!(sys_yield(&mut k), 0);
    assert_eq!(k.current_task(), Some(0));
}

#[test]
fn write_passes_bytes_to_the_console() {
    let mut k = Kernel::new(1);
    assert_eq!(syscall(&mut k, SYSCALL_TRACE, [POKE, 0x100, b'h' as usize]), 0);
    assert_eq!(syscall(&mut k, SYSCALL_TRACE, [POKE, 0x101, b'i' as usize]), 0);
    assert_eq!(user::sys_write(&mut k, 1, 0x100, 2), 2);
    assert_eq!(k.console, b"hi".to_vec());
}

#[test]
fn write_rejects_other_descriptors() {
    let mut k = Kernel::new(1);
    assert_eq!(user::sys_write(&mut k, 0, 0x100, 2), -1);
    assert_eq!(user::sys_write(&mut k, 2, 0x100, 2), -1);
    assert!(k.console.is_empty());
}

#[test]
fn write_rejects_oversized_length() {
    let mut k = Kernel::new(1);
    assert_eq!(user::sys_write(&mut k, 1, 0x100, usize::MAX), -1);
    assert!(k.console.is_empty());
}

#[test]
fn unknown_syscall_id_is_minus_one_but_counted() {
    let mut k = Kernel::new(1);
    assert_eq!(syscall(&mut k, 7, [0, 0, 0]), -1);
    assert_eq!(syscall(&mut k, SYSCALL_TRACE, [COUNT, 7, 0]), 1);
    // An id past the counted range is not counted, and not an error either.
    assert_eq!(syscall(&mut k, 5000, [0, 0, 0]), -1);
}

#[test]
fn machine_without_tasks_answers_sentinels() {
    let mut k = Kernel::new(0);
    assert_eq!(k.current_task(), None);
    assert_eq!(syscall(&mut k, SYSCALL_TRACE, [COUNT, 93, 0]), -1);
    assert_eq!(syscall(&mut k, SYSCALL_YIELD, [0, 0, 0]), 0);
    // Peek and poke need no task at all.
    assert_eq!(syscall(&mut k, SYSCALL_TRACE, [POKE, 0x10, 5]), 0);
    assert_eq!(syscall(&mut k, SYSCALL_TRACE, [PEEK, 0x10, 0]), 5);
}

#[test]
fn each_task_owns_its_own_counts() {
    let mut k = Kernel::new(2);
    assert_eq!(syscall(&mut k, SYSCALL_YIELD, [0, 0, 0]), 0);
    assert_eq!(syscall(&mut k, SYSCALL_YIELD, [0, 0, 0]), 0);
    // Retire task 0; the hart moves to task 1, whose table is untouched.
    assert_eq!(syscall(&mut k, SYSCALL_EXIT, [0, 0, 0]), 0);
    assert_eq!(k.current_task(), Some(1));
    assert_eq!(syscall(&mut k, SYSCALL_TRACE, [COUNT, SYSCALL_YIELD, 0]), 0);
}

#[test]
fn get_time_touches_only_its_sixteen_bytes() {
    let mut k = Kernel::new(1);
    assert_eq!(syscall(&mut k, SYSCALL_TRACE, [POKE, 0x4fff, 8]), 0);
    assert_eq!(syscall(&mut k, SYSCALL_TRACE, [POKE, 0x5010, 9]), 0);
    assert_eq!(syscall(&mut k, SYSCALL_GET_TIME, [0x5000, 0, 0]), 0);
    assert_eq!(syscall(&mut k, SYSCALL_TRACE, [PEEK, 0x4fff, 0]), 8);
    assert_eq!(syscall(&mut k, SYSCALL_TRACE, [PEEK, 0x5010, 0]), 9);
}

#[test]
fn time_write_lands_at_the_given_address() {
    let mut k = Kernel::new(1);
    k.advance_clock(77);
    assert_eq!(syscall(&mut k, SYSCALL_GET_TIME, [0x4000, 0, 0]), 0);
    // First byte of the microseconds word, eight bytes after the seconds.
    assert_eq!(syscall(&mut k, SYSCALL_TRACE, [PEEK, 0x4008, 0]), 77);
    // The seconds word is zero.
    assert_eq!(syscall(&mut k, SYSCALL_TRACE, [PEEK, 0x4000, 0]), 0);
}
