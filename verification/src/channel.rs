//! The prompt-synchronized channel: a line-oriented handshake over a VM
//! console stream.
//!
//! A VM exposes no structured interface; the only synchronization
//! signal is the shell prompt marker reappearing in the character
//! stream. Each protocol phase races a deadline timer against a
//! line-by-line scan for the marker (readiness additionally keeps a
//! newline writer alive, which never settles successfully). The phase
//! is modeled over the observed stream: the lines in arrival order,
//! each with the seconds elapsed since the phase began, and whether the
//! stream closes after the last line.

use vstd::prelude::*;

verus! {

use vstd::string::StringExecFns;

use crate::text::str_contains;
use crate::text::text_contains;

/// Failures of a VM session.
#[derive(Clone, Copy, PartialEq, Eq, Structural, Debug)]
pub enum VmError {
    /// The emulator process could not be spawned.
    ProcessSpawn,
    /// The child's input or output stream could not be acquired.
    StreamAcquisition,
    /// The prompt marker never appeared within the boot timeout.
    BootTimeout,
    /// The prompt marker never reappeared within the command timeout.
    CommandTimeout,
    /// The output stream closed before the marker was observed.
    StreamExhausted,
}

/// One console line, with the seconds elapsed since the start of the
/// phase when it was read.
pub struct TimedLine {
    pub at: u64,
    pub text: String,
}

/// A console output stream as one protocol phase observes it: the lines
/// in arrival order, and whether the stream closes after the last line
/// or stays open.
pub struct OutputScript {
    pub lines: Vec<TimedLine>,
    pub closes: bool,
}

/// How the race between the deadline timer and the marker scan settles:
/// the index of the line that carried the marker, or the failure. A
/// line arriving at or past the deadline means the timer fired first;
/// running out of lines means either end of stream (when the stream
/// closes) or, on a stream that stays open, the timer firing with no
/// further input.
pub open spec fn scan_outcome(
    lines: Seq<TimedLine>,
    marker: Seq<char>,
    timeout: u64,
    closes: bool,
    timeout_err: VmError,
) -> Result<int, VmError>
    decreases lines.len(),
{
    if lines.len() == 0 {
        if closes {
            Err(VmError::StreamExhausted)
        } else {
            Err(timeout_err)
        }
    } else if lines[0].at >= timeout {
        Err(timeout_err)
    } else if text_contains(lines[0].text@, marker) {
        Ok(0)
    } else {
        match scan_outcome(lines.drop_first(), marker, timeout, closes, timeout_err) {
            Ok(k) => Ok(1 + k),
            Err(e) => Err(e),
        }
    }
}

/// The transcript of the first `upto` lines, each newline-terminated,
/// in arrival order.
pub open spec fn transcript(lines: Seq<TimedLine>, upto: int) -> Seq<char>
    decreases upto,
{
    if upto <= 0 {
        Seq::empty()
    } else {
        transcript(lines, upto - 1) + lines[upto - 1].text@ + "\n"@
    }
}

/// Scanning from position `i` onwards decides the whole scan, as long
/// as every earlier line was timely and free of the marker.
proof fn lemma_scan_skip(
    lines: Seq<TimedLine>,
    marker: Seq<char>,
    timeout: u64,
    closes: bool,
    timeout_err: VmError,
    i: int,
)
    requires
        0 <= i <= lines.len(),
        forall|j: int|
            0 <= j < i ==> lines[j].at < timeout && !text_contains(lines[j].text@, marker),
    ensures
        match scan_outcome(lines.subrange(i, lines.len() as int), marker, timeout, closes, timeout_err) {
            Ok(k) => scan_outcome(lines, marker, timeout, closes, timeout_err) == Ok::<int, VmError>(
                i + k,
            ),
            Err(e) => scan_outcome(lines, marker, timeout, closes, timeout_err) == Err::<
                int,
                VmError,
            >(e),
        },
    decreases i,
{
    if i == 0 {
        assert(lines.subrange(0, lines.len() as int) =~= lines);
    } else {
        let rest = lines.drop_first();
        assert(forall|j: int| 0 <= j < rest.len() ==> rest[j] == lines[j + 1]);
        lemma_scan_skip(rest, marker, timeout, closes, timeout_err, i - 1);
        assert(rest.subrange(i - 1, rest.len() as int) =~= lines.subrange(i, lines.len() as int));
    }
}

/// Readiness wait: race the boot timer against a scan of the console
/// for the prompt marker (the keepalive newline writer, which never
/// settles successfully, is the caller's side of the protocol).
/// Succeeds exactly when a line carrying the marker, and every line
/// before it, arrives strictly within the boot timeout; the boot
/// handshake lines themselves are discarded.
pub fn wait_ready(script: &OutputScript, marker: &str, boot_timeout: u64) -> (r: Result<
    (),
    VmError,
>)
    ensures
        match scan_outcome(script.lines@, marker@, boot_timeout, script.closes, VmError::BootTimeout) {
            Ok(_) => r is Ok,
            Err(e) => r == Err::<(), VmError>(e),
        },
{
    let ghost lines = script.lines@;
    let n = script.lines.len();
    let mut i: usize = 0;
    while i < n
        invariant
            lines == script.lines@,
            n == lines.len(),
            i <= n,
            forall|j: int|
                0 <= j < i ==> lines[j].at < boot_timeout && !text_contains(
                    lines[j].text@,
                    marker@,
                ),
        decreases n - i,
    {
        let line = &script.lines[i];
        proof {
            lemma_scan_skip(lines, marker@, boot_timeout, script.closes, VmError::BootTimeout, i as int);
            assert(lines.subrange(i as int, n as int)[0] == lines[i as int]);
            assert(lines.subrange(i as int, n as int).drop_first() =~= lines.subrange(
                i + 1 as int,
                n as int,
            ));
        }
        if line.at >= boot_timeout {
            return Err(VmError::BootTimeout);
        }
        if str_contains(line.text.as_str(), marker) {
            return Ok(());
        }
        i = i + 1;
    }
    proof {
        lemma_scan_skip(lines, marker@, boot_timeout, script.closes, VmError::BootTimeout, n as int);
        assert(lines.subrange(n as int, n as int) =~= Seq::<TimedLine>::empty());
    }
    if script.closes {
        Err(VmError::StreamExhausted)
    } else {
        Err(VmError::BootTimeout)
    }
}

/// Command execution: after the command has been written to the VM's
/// input, race the command timer against the prompt scan, accumulating
/// every line read. On success the result is the full transcript — the
/// echoed command line, the command's output and the terminating prompt
/// line, each newline-terminated, in arrival order.
pub fn collect_command_output(script: &OutputScript, marker: &str, command_timeout: u64) -> (r:
    Result<String, VmError>)
    ensures
        match scan_outcome(
            script.lines@,
            marker@,
            command_timeout,
            script.closes,
            VmError::CommandTimeout,
        ) {
            Ok(k) => r matches Ok(out) && out@ == transcript(script.lines@, k + 1),
            Err(e) => r == Err::<String, VmError>(e),
        },
{
    let ghost lines = script.lines@;
    let n = script.lines.len();
    let mut output = String::new();
    let mut i: usize = 0;
    while i < n
        invariant
            lines == script.lines@,
            n == lines.len(),
            i <= n,
            output@ == transcript(lines, i as int),
            forall|j: int|
                0 <= j < i ==> lines[j].at < command_timeout && !text_contains(
                    lines[j].text@,
                    marker@,
                ),
        decreases n - i,
    {
        let line = &script.lines[i];
        proof {
            lemma_scan_skip(
                lines,
                marker@,
                command_timeout,
                script.closes,
                VmError::CommandTimeout,
                i as int,
            );
            assert(lines.subrange(i as int, n as int)[0] == lines[i as int]);
            assert(lines.subrange(i as int, n as int).drop_first() =~= lines.subrange(
                i + 1 as int,
                n as int,
            ));
        }
        if line.at >= command_timeout {
            return Err(VmError::CommandTimeout);
        }
        output.append(line.text.as_str());
        output.append("\n");
        if str_contains(line.text.as_str(), marker) {
            return Ok(output);
        }
        i = i + 1;
    }
    proof {
        lemma_scan_skip(lines, marker@, command_timeout, script.closes, VmError::CommandTimeout, n as int);
        assert(lines.subrange(n as int, n as int) =~= Seq::<TimedLine>::empty());
    }
    if script.closes {
        Err(VmError::StreamExhausted)
    } else {
        Err(VmError::CommandTimeout)
    }
}

/// The marker is observed in time: some line carries it, and it and
/// every line before it arrive strictly within the deadline.
pub open spec fn marker_seen(lines: Seq<TimedLine>, marker: Seq<char>, timeout: u64) -> bool {
    exists|k: int|
        0 <= k < lines.len() && #[trigger] text_contains(lines[k].text@, marker) && (forall|j: int|
            0 <= j <= k ==> lines[j].at < timeout)
}

/// Every line arrives within the deadline and none carries the marker.
pub open spec fn timely_and_markerless(lines: Seq<TimedLine>, marker: Seq<char>, timeout: u64) -> bool {
    forall|j: int|
        0 <= j < lines.len() ==> (#[trigger] lines[j].at) < timeout && !text_contains(
            lines[j].text@,
            marker,
        )
}

/// Law: each phase of the protocol settles exactly one way.
/// The scan succeeds precisely when the marker is observed in time; it
/// ends in stream exhaustion precisely when the stream closes after
/// timely, markerless lines — distinguishable from a timeout — and in
/// the phase's timeout failure in every remaining case.
pub proof fn lemma_scan_cases(
    lines: Seq<TimedLine>,
    marker: Seq<char>,
    timeout: u64,
    closes: bool,
    timeout_err: VmError,
)
    requires
        timeout_err != VmError::StreamExhausted,
    ensures
        ({
            let r = scan_outcome(lines, marker, timeout, closes, timeout_err);
            &&& (r is Ok <==> marker_seen(lines, marker, timeout))
            &&& (r == Err::<int, VmError>(VmError::StreamExhausted) <==> (closes
                && timely_and_markerless(lines, marker, timeout)))
            &&& (r == Err::<int, VmError>(timeout_err) <==> (!marker_seen(lines, marker, timeout)
                && !(closes && timely_and_markerless(lines, marker, timeout))))
        }),
    decreases lines.len(),
{
    let r = scan_outcome(lines, marker, timeout, closes, timeout_err);
    if lines.len() == 0 {
        assert(!marker_seen(lines, marker, timeout));
    } else if lines[0].at >= timeout {
        assert(!marker_seen(lines, marker, timeout)) by {
            assert forall|k: int|
                0 <= k < lines.len() && #[trigger] text_contains(lines[k].text@, marker) implies !(
            forall|j: int| 0 <= j <= k ==> lines[j].at < timeout) by {
                assert(!(lines[0].at < timeout));
            }
        }
    } else {
        let rest = lines.drop_first();
        assert(forall|j: int| 0 <= j < rest.len() ==> rest[j] == lines[j + 1]);
        lemma_scan_cases(rest, marker, timeout, closes, timeout_err);
        if text_contains(lines[0].text@, marker) {
            assert(marker_seen(lines, marker, timeout)) by {
                assert(0 <= 0 < lines.len() && text_contains(lines[0].text@, marker) && (forall|
                    j: int,
                |
                    0 <= j <= 0 ==> lines[j].at < timeout));
            }
        } else {
            assert(marker_seen(lines, marker, timeout) <==> marker_seen(rest, marker, timeout)) by {
                if marker_seen(rest, marker, timeout) {
                    let k = choose|k: int|
                        0 <= k < rest.len() && #[trigger] text_contains(rest[k].text@, marker) && (
                        forall|j: int| 0 <= j <= k ==> rest[j].at < timeout);
                    assert(text_contains(lines[k + 1].text@, marker));
                    assert(forall|j: int| 0 <= j <= k + 1 ==> lines[j].at < timeout) by {
                        assert(forall|j: int| 1 <= j <= k + 1 ==> lines[j] == rest[j - 1]);
                    }
                    assert(marker_seen(lines, marker, timeout));
                }
                if marker_seen(lines, marker, timeout) {
                    let k = choose|k: int|
                        0 <= k < lines.len() && #[trigger] text_contains(lines[k].text@, marker) && (
                        forall|j: int| 0 <= j <= k ==> lines[j].at < timeout);
                    assert(k != 0);
                    assert(text_contains(rest[k - 1].text@, marker));
                    assert(forall|j: int| 0 <= j <= k - 1 ==> rest[j].at < timeout);
                    assert(marker_seen(rest, marker, timeout));
                }
            }
            assert(timely_and_markerless(lines, marker, timeout) <==> timely_and_markerless(
                rest,
                marker,
                timeout,
            )) by {
                if timely_and_markerless(rest, marker, timeout) {
                    assert forall|j: int| 0 <= j < lines.len() implies (#[trigger] lines[j].at)
                        < timeout && !text_contains(lines[j].text@, marker) by {
                        if j > 0 {
                            assert(lines[j] == rest[j - 1]);
                            assert(rest[j - 1].at < timeout && !text_contains(
                                rest[j - 1].text@,
                                marker,
                            ));
                        }
                    }
                }
            }
        }
    }
}

} // verus!
