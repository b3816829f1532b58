use vstd::prelude::*;
use crate::blockdev::{EOK, ENOTSUP};

verus! {

/// Where a device stands in its mount lifecycle.
#[derive(PartialEq, Eq, Structural, Clone, Copy, Debug)]
pub enum MountState {
    /// Not known to the engine.
    Unregistered,
    /// In the engine's device registry.
    Registered,
    /// Mounted read-write; the journal not yet replayed.
    Mounted,
    /// Mounted, and the journal replayed (or there is none).
    Recovered,
    /// Mounted with journaling active: files and directories may be opened.
    JournalActive,
}

/// One engine call of the lifecycle.
#[derive(PartialEq, Eq, Structural, Clone, Copy, Debug)]
pub enum MountOp {
    /// Register the device under its name.
    Register,
    /// Mount it read-write at its mount path.
    Mount,
    /// Replay the journal.
    Recover,
    /// Start journaling.
    JournalStart,
    /// Turn write-back caching on or off; this call cannot fail.
    CacheWriteBack(bool),
    /// Stop journaling.
    JournalStop,
    /// Unmount.
    Umount,
    /// Remove the device from the registry.
    Unregister,
}

/// The state that the next forward step leads to.
pub open spec fn mount_advance(s: MountState) -> MountState {
    match s {
        MountState::Unregistered => MountState::Registered,
        MountState::Registered => MountState::Mounted,
        MountState::Mounted => MountState::Recovered,
        MountState::Recovered => MountState::JournalActive,
        MountState::JournalActive => MountState::JournalActive,
    }
}

/// The state that the next teardown step leads to.
pub open spec fn umount_retreat(s: MountState) -> MountState {
    match s {
        MountState::JournalActive => MountState::Mounted,
        MountState::Recovered => MountState::Registered,
        MountState::Mounted => MountState::Registered,
        MountState::Registered => MountState::Unregistered,
        MountState::Unregistered => MountState::Unregistered,
    }
}

/// Whether the engine's status `rc` for the forward step out of `s` lets the
/// lifecycle go on: success, or "not supported" from a journal-less
/// filesystem's recovery.
pub open spec fn step_accepts(s: MountState, rc: i32) -> bool {
    rc == EOK || (s == MountState::Mounted && rc == ENOTSUP)
}

/// The engine call that mounting makes next, from state `s` with write-back
/// caching `write_back`; `None` once the mount is complete.
pub open spec fn mount_op(s: MountState, write_back: bool) -> Option<MountOp> {
    match s {
        MountState::Unregistered => Some(MountOp::Register),
        MountState::Registered => Some(MountOp::Mount),
        MountState::Mounted => Some(MountOp::Recover),
        MountState::Recovered => Some(MountOp::JournalStart),
        MountState::JournalActive => if write_back {
            None
        } else {
            Some(MountOp::CacheWriteBack(true))
        },
    }
}

/// The engine call that teardown makes next, in reverse order of mounting;
/// `None` once the device is unregistered.
pub open spec fn umount_op(s: MountState, write_back: bool) -> Option<MountOp> {
    if write_back {
        Some(MountOp::CacheWriteBack(false))
    } else {
        match s {
            MountState::JournalActive => Some(MountOp::JournalStop),
            MountState::Recovered => Some(MountOp::Umount),
            MountState::Mounted => Some(MountOp::Umount),
            MountState::Registered => Some(MountOp::Unregister),
            MountState::Unregistered => None,
        }
    }
}

/// The state that the forward steps reach from `s` when the engine answers
/// them with `codes` in turn, stopping at the first refused step.
pub open spec fn run_mount_from(s: MountState, codes: Seq<i32>) -> MountState
    decreases codes.len(),
{
    if codes.len() == 0 || s == MountState::JournalActive {
        s
    } else if step_accepts(s, codes[0]) {
        run_mount_from(mount_advance(s), codes.drop_first())
    } else {
        s
    }
}

/// The state after the first `k` forward steps.
pub open spec fn mount_stage(k: int) -> MountState {
    if k <= 0 {
        MountState::Unregistered
    } else if k == 1 {
        MountState::Registered
    } else if k == 2 {
        MountState::Mounted
    } else if k == 3 {
        MountState::Recovered
    } else {
        MountState::JournalActive
    }
}

/// Mounting reaches active journaling exactly when registration, mount,
/// recovery and journal start each succeed in that order; and when the
/// step numbered `k` is the first to fail, the lifecycle stays where the
/// `k` steps before it left it.
pub proof fn lemma_mount_sequence(codes: Seq<i32>)
    ensures
        run_mount_from(MountState::Unregistered, codes) == MountState::JournalActive <==> (
        codes.len() >= 4 && codes[0] == EOK && codes[1] == EOK && (codes[2] == EOK || codes[2]
            == ENOTSUP) && codes[3] == EOK),
        forall|k: int|
            0 <= k < 4 && k < codes.len() && (forall|j: int|
                0 <= j < k ==> step_accepts(mount_stage(j), codes[j])) && !step_accepts(
                mount_stage(k),
                codes[k],
            ) ==> run_mount_from(MountState::Unregistered, codes) == mount_stage(k),
{
    reveal_with_fuel(run_mount_from, 5);
    let c1 = codes.drop_first();
    let c2 = c1.drop_first();
    let c3 = c2.drop_first();
    if codes.len() >= 2 {
        assert(c1[0] == codes[1]);
    }
    if codes.len() >= 3 {
        assert(c2[0] == codes[2]);
    }
    if codes.len() >= 4 {
        assert(c3[0] == codes[3]);
    }
    assert forall|k: int|
        0 <= k < 4 && k < codes.len() && (forall|j: int|
            0 <= j < k ==> step_accepts(mount_stage(j), codes[j])) && !step_accepts(
            mount_stage(k),
            codes[k],
        ) implies run_mount_from(MountState::Unregistered, codes) == mount_stage(k) by {
        if k >= 1 {
            assert(step_accepts(mount_stage(0), codes[0]));
        }
        if k >= 2 {
            assert(step_accepts(mount_stage(1), codes[1]));
        }
        if k >= 3 {
            assert(step_accepts(mount_stage(2), codes[2]));
        }
    }
}

} // verus!
