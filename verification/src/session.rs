//! The VM session: launch-argument assembly and the one-command
//! prompt-synchronized exchange.
//!
//! A session owns one ephemeral emulator process: boot (or resume from
//! a compressed memory snapshot) a copy-on-write view of the base
//! image, wait for the prompt marker, run exactly one command, and
//! return its transcript. Spawning, stream acquisition and the
//! guaranteed teardown of the process are the caller's side; the
//! decisions — which arguments launch the VM and how each phase of the
//! console exchange settles — are verified here.

use vstd::prelude::*;

verus! {

use vstd::string::StringExecFns;

use crate::channel::collect_command_output;
use crate::channel::scan_outcome;
use crate::channel::transcript;
use crate::channel::wait_ready;
use crate::channel::OutputScript;
use crate::channel::VmError;

/// Seconds a VM gets to reach its first prompt; a cold boot can be
/// slow, so this errs on the high side.
pub const BOOT_TIMEOUT: u64 = 120;

/// Seconds to linger after the boot prompt before one best-effort drain
/// of residual echo bytes (a fixed heuristic, not a correctness
/// guarantee).
pub const START_WAIT: u64 = 2;

/// The emulator launch arguments: the base disk image with
/// copy-on-write (non-persistent) semantics, the given memory size, a
/// user-mode network device, headless console; resuming from a
/// compressed memory snapshot when one is given, and attaching the
/// secondary image as a read-only medium when one is given.
pub open spec fn vm_args(
    image: Seq<char>,
    memory: Seq<char>,
    snapshot: Option<Seq<char>>,
    tests_image: Option<Seq<char>>,
) -> Seq<Seq<char>> {
    let base = seq![
        "-hda"@,
        image,
        "-m"@,
        memory,
        "-netdev"@,
        "user,id=n1"@,
        "-device"@,
        "virtio-net-pci,netdev=n1"@,
        "-nographic"@,
        "-snapshot"@,
    ];
    let with_snapshot = match snapshot {
        Some(s) => base + seq!["-incoming"@, "exec: gzip -c -d "@ + s],
        None => base,
    };
    match tests_image {
        Some(t) => with_snapshot + seq!["-cdrom"@, t],
        None => with_snapshot,
    }
}

/// Assemble the emulator's launch arguments for one session.
pub fn build_vm_args(
    image: &str,
    memory: &str,
    snapshot: &Option<String>,
    tests_image: &Option<String>,
) -> (args: Vec<String>)
    ensures
        args.deep_view() == vm_args(image@, memory@, snapshot.deep_view(), tests_image.deep_view()),
{
    let mut args: Vec<String> = Vec::new();
    args.push(String::from_str("-hda"));
    args.push(String::from_str(image));
    args.push(String::from_str("-m"));
    args.push(String::from_str(memory));
    args.push(String::from_str("-netdev"));
    args.push(String::from_str("user,id=n1"));
    args.push(String::from_str("-device"));
    args.push(String::from_str("virtio-net-pci,netdev=n1"));
    args.push(String::from_str("-nographic"));
    args.push(String::from_str("-snapshot"));
    match snapshot {
        Some(s) => {
            args.push(String::from_str("-incoming"));
            args.push(String::from_str("exec: gzip -c -d ").concat(s.as_str()));
        },
        None => {},
    }
    match tests_image {
        Some(t) => {
            args.push(String::from_str("-cdrom"));
            args.push(t.clone());
        },
        None => {},
    }
    proof {
        assert(args.deep_view() =~= vm_args(
            image@,
            memory@,
            snapshot.deep_view(),
            tests_image.deep_view(),
        ));
    }
    args
}

/// One full prompt-synchronized exchange over a VM console, as decided
/// by the observed output of its two phases: wait for boot readiness,
/// then collect the output of the one command until the marker
/// reappears. The result is the command transcript, or the first
/// phase's failure; the boot handshake lines are not part of the
/// transcript.
pub fn run_exchange(boot: &OutputScript, cmd: &OutputScript, marker: &str, command_timeout: u64) -> (r:
    Result<String, VmError>)
    ensures
        match scan_outcome(boot.lines@, marker@, BOOT_TIMEOUT, boot.closes, VmError::BootTimeout) {
            Err(e) => r == Err::<String, VmError>(e),
            Ok(_) => match scan_outcome(
                cmd.lines@,
                marker@,
                command_timeout,
                cmd.closes,
                VmError::CommandTimeout,
            ) {
                Ok(k) => r matches Ok(out) && out@ == transcript(cmd.lines@, k + 1),
                Err(e) => r == Err::<String, VmError>(e),
            },
        },
{
    match wait_ready(boot, marker, BOOT_TIMEOUT) {
        Ok(()) => collect_command_output(cmd, marker, command_timeout),
        Err(e) => Err(e),
    }
}

} // verus!
