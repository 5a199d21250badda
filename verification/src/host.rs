//! Decisions of the host process: the parent process id taken from the command
//! line, the single-instance check, the watch on the parent, and the client
//! thread's wait loop.

use vstd::prelude::*;
use crate::encoding::{decimal, decimal_value, lemma_decimal_roundtrip};

verus! {

/// System error: the named object already existed.
pub const ERROR_ALREADY_EXISTS: u32 = 183;

/// Wait status: the wait was interrupted to run a completed I/O routine.
pub const WAIT_IO_COMPLETION: u32 = 0xC0;

/// Wait status: the wait itself failed.
pub const WAIT_FAILED: u32 = 0xFFFF_FFFF;

/// Milliseconds between two checks on the parent process.
pub const PARENT_POLL_MS: u64 = 5000;

pub open spec fn is_ascii_digit(b: u8) -> bool {
    48 <= b <= 57
}

/// The ASCII digits of `s`, in order.
pub open spec fn ascii_digits(s: Seq<u8>) -> Seq<u8>
    decreases s.len(),
{
    if s.len() == 0 {
        Seq::empty()
    } else if is_ascii_digit(s.last()) {
        ascii_digits(s.drop_last()).push(s.last())
    } else {
        ascii_digits(s.drop_last())
    }
}

/// The parent id named by a command line: the number that its digits spell, when
/// there is at least one digit and the number fits in 32 bits.
pub open spec fn spec_parse_parent_pid(cmd_line: Seq<u8>) -> Option<u32> {
    let d = ascii_digits(cmd_line);
    if d.len() == 0 || decimal_value(d) > u32::MAX {
        None
    } else {
        Some(decimal_value(d) as u32)
    }
}

/// Keeps only the ASCII digits of the command line and reads them as a 32-bit
/// decimal number; `None` when there is no digit or the number is too large.
pub fn parse_parent_pid(cmd_line: &[u8]) -> (r: Option<u32>)
    ensures
        r == spec_parse_parent_pid(cmd_line@),
{
    let n = cmd_line.len();
    let mut i: usize = 0;
    let mut seen = false;
    let mut overflow = false;
    let mut acc: u64 = 0;
    while i < n
        invariant
            i <= n,
            n == cmd_line@.len(),
            seen == (ascii_digits(cmd_line@.take(i as int)).len() > 0),
            overflow ==> decimal_value(ascii_digits(cmd_line@.take(i as int))) > u32::MAX,
            !overflow ==> acc == decimal_value(ascii_digits(cmd_line@.take(i as int))),
            !overflow ==> acc <= u32::MAX,
            decimal_value(ascii_digits(cmd_line@.take(i as int))) >= 0,
        decreases n - i,
    {
        let b = cmd_line[i];
        let ghost before = ascii_digits(cmd_line@.take(i as int));
        assert(cmd_line@.take(i + 1).drop_last() == cmd_line@.take(i as int));
        assert(cmd_line@.take(i + 1).last() == b);
        if 48 <= b && b <= 57 {
            let ghost after = before.push(b);
            assert(after.drop_last() == before);
            assert(decimal_value(after) == 10 * decimal_value(before) + (b - 48));
            seen = true;
            if !overflow {
                acc = acc * 10 + ((b - 48) as u64);
                if acc > 0xFFFF_FFFFu64 {
                    overflow = true;
                }
            }
        }
        i = i + 1;
    }
    assert(cmd_line@.take(n as int) == cmd_line@);
    if !seen || overflow {
        None
    } else {
        Some(acc as u32)
    }
}

/// What the client thread does after its wait returned `wait`, given whether the
/// client is still connected.
#[derive(Debug, Copy, Clone, PartialEq, Eq, Structural)]
pub enum LoopStep {
    /// Leave the loop and release the pipe.
    Exit,
    /// Wait again.
    Continue,
    /// Process the pending window messages, then leave if the client is gone.
    PumpMessages,
}

/// The client thread's decision after a wait: a failed wait ends the loop; a wait
/// interrupted by a completed read continues while the client is connected;
/// anything else means window messages are pending.
pub fn after_wait(wait: u32, alive: bool) -> (r: LoopStep)
    ensures
        wait == WAIT_FAILED ==> r == LoopStep::Exit,
        wait == WAIT_IO_COMPLETION ==> r == (if alive { LoopStep::Continue } else { LoopStep::Exit }),
        wait != WAIT_FAILED && wait != WAIT_IO_COMPLETION ==> r == LoopStep::PumpMessages,
{
    if wait == WAIT_FAILED {
        LoopStep::Exit
    } else if wait == WAIT_IO_COMPLETION {
        if alive {
            LoopStep::Continue
        } else {
            LoopStep::Exit
        }
    } else {
        LoopStep::PumpMessages
    }
}

/// Whether another host already owns the single-instance mutex, judged by the
/// system error code read right after creating it.
pub fn already_running(last_error: u32) -> (r: bool)
    ensures
        r == (last_error == ERROR_ALREADY_EXISTS),
{
    last_error == ERROR_ALREADY_EXISTS
}

/// Whether the parent process is gone: the system reports version 0 for a
/// process id that is not running.
pub fn parent_exited(version: u32) -> (r: bool)
    ensures
        r == (version == 0),
{
    version == 0
}

/// Every byte of a decimal text is an ASCII digit.
proof fn lemma_decimal_digits(v: nat)
    ensures
        ascii_digits(decimal(v)) == decimal(v),
    decreases v,
{
    if v >= 10 {
        lemma_decimal_digits(v / 10);
        let d = decimal(v);
        assert(d.drop_last() == decimal(v / 10));
        assert(d.last() == (48 + v % 10) as u8);
        assert(is_ascii_digit(d.last()));
        assert(d.drop_last().push(d.last()) == d);
    } else {
        let d = decimal(v);
        assert(d.drop_last() =~= Seq::<u8>::empty());
        assert(ascii_digits(d.drop_last()) =~= Seq::<u8>::empty());
        assert(d.last() == (48 + v) as u8);
        assert(is_ascii_digit(d.last()));
        assert(Seq::<u8>::empty().push(d.last()) == d);
    }
}

/// A parent id written in decimal on the command line is read back as that id,
/// whatever non-digit bytes surround it.
pub proof fn lemma_parent_pid_roundtrip(pid: u32, before: Seq<u8>, after: Seq<u8>)
    requires
        forall|k: int| 0 <= k < before.len() ==> !is_ascii_digit(#[trigger] before[k]),
        forall|k: int| 0 <= k < after.len() ==> !is_ascii_digit(#[trigger] after[k]),
    ensures
        spec_parse_parent_pid(before + decimal(pid as nat) + after) == Some(pid),
{
    lemma_decimal_digits(pid as nat);
    lemma_decimal_roundtrip(pid as nat);
    lemma_ascii_digits_concat(before, decimal(pid as nat));
    lemma_ascii_digits_concat(before + decimal(pid as nat), after);
    lemma_no_digits(before);
    lemma_no_digits(after);
    assert(Seq::<u8>::empty() + decimal(pid as nat) == decimal(pid as nat));
    assert(decimal(pid as nat) + Seq::<u8>::empty() == decimal(pid as nat));
}

/// A text without digits has no digits to keep.
proof fn lemma_no_digits(s: Seq<u8>)
    requires
        forall|k: int| 0 <= k < s.len() ==> !is_ascii_digit(#[trigger] s[k]),
    ensures
        ascii_digits(s) == Seq::<u8>::empty(),
    decreases s.len(),
{
    if s.len() > 0 {
        assert forall|k: int| 0 <= k < s.drop_last().len() implies !is_ascii_digit(#[trigger] s.drop_last()[k]) by {
            assert(s.drop_last()[k] == s[k]);
        }
        lemma_no_digits(s.drop_last());
        assert(!is_ascii_digit(s[s.len() - 1]));
    }
}

/// The digits of two joined texts are the digits of each, joined.
proof fn lemma_ascii_digits_concat(a: Seq<u8>, b: Seq<u8>)
    ensures
        ascii_digits(a + b) == ascii_digits(a) + ascii_digits(b),
    decreases b.len(),
{
    if b.len() == 0 {
        assert(a + b == a);
        assert(ascii_digits(a) + ascii_digits(b) == ascii_digits(a));
    } else {
        lemma_ascii_digits_concat(a, b.drop_last());
        assert((a + b).drop_last() == a + b.drop_last());
        assert((a + b).last() == b.last());
    }
}

} // verus!
