//! The pairing engine: a binary file and its metadata sibling become one
//! unit of work only when both are present on disk.
//!
//! Whichever side's event arrives first, the engine probes for the other
//! side, waiting a bounded window (a fixed delay between probes, a fixed
//! number of probes). The probes themselves are filesystem checks made by
//! the driver; the engine only decides, so pairing is symmetric in the
//! two sides: the same machine runs whether the binary or the metadata
//! event started it.

use vstd::prelude::*;

verus! {

/// How many times the engine re-probes for the missing sibling before it
/// declares the unit orphaned.
pub const PAIRING_MAX_POLLS: u32 = 10;

/// The delay between two probes for the missing sibling.
pub const PAIRING_POLL_MS: u64 = 500;

/// The engine's state while one side waits for its sibling: how many
/// re-probes were already spent.
#[derive(Debug, Clone, Copy, PartialEq, Eq, Structural)]
pub struct PairingWait {
    pub polls_done: u32,
}

/// The engine's decision after one probe.
#[derive(Debug, Clone, Copy, PartialEq, Eq, Structural)]
pub enum PairingStep {
    /// Both files are present: the pair is complete and ingestion may
    /// begin.
    Paired,
    /// The sibling is still missing and the window is not exhausted:
    /// sleep, then probe again.
    Wait { wait: PairingWait, delay_ms: u64 },
    /// The window is exhausted: the unit is orphaned. The file that did
    /// arrive stays on disk untouched, for the sibling's later arrival
    /// or manual handling; nothing is deleted and nothing is cataloged.
    Orphaned,
}

/// What one probe decides, given how many re-probes were already spent.
pub open spec fn pairing_step_spec(w: PairingWait, sibling_present: bool) -> PairingStep {
    if sibling_present {
        PairingStep::Paired
    } else if w.polls_done < PAIRING_MAX_POLLS {
        PairingStep::Wait {
            wait: PairingWait { polls_done: (w.polls_done + 1) as u32 },
            delay_ms: PAIRING_POLL_MS,
        }
    } else {
        PairingStep::Orphaned
    }
}

/// A fresh wait: no re-probes spent yet.
pub fn pairing_begin() -> (r: PairingWait)
    ensures
        r.polls_done == 0,
{
    PairingWait { polls_done: 0 }
}

/// Decide after one probe whether the pair is complete, the wait goes
/// on, or the window is exhausted.
pub fn pairing_poll(w: &PairingWait, sibling_present: bool) -> (r: PairingStep)
    ensures
        r == pairing_step_spec(*w, sibling_present),
{
    if sibling_present {
        PairingStep::Paired
    } else if w.polls_done < PAIRING_MAX_POLLS {
        PairingStep::Wait {
            wait: PairingWait { polls_done: w.polls_done + 1 },
            delay_ms: PAIRING_POLL_MS,
        }
    } else {
        PairingStep::Orphaned
    }
}

/// The terminal result of a whole pairing wait, driven by a sequence of
/// probe results; `StillWaiting` when the probes stop early.
#[derive(Debug, Clone, Copy, PartialEq, Eq, Structural)]
pub enum PairOutcome {
    Paired,
    Orphaned,
    StillWaiting,
}

/// Run the engine from state `w` over a sequence of probe results, to
/// its terminal outcome.
pub open spec fn pairing_run(w: PairingWait, probes: Seq<bool>) -> PairOutcome
    decreases probes.len(),
{
    if probes.len() == 0 {
        PairOutcome::StillWaiting
    } else {
        match pairing_step_spec(w, probes[0]) {
            PairingStep::Paired => PairOutcome::Paired,
            PairingStep::Orphaned => PairOutcome::Orphaned,
            PairingStep::Wait { wait, .. } => pairing_run(wait, probes.drop_first()),
        }
    }
}

/// If the sibling is present at some probe within the remaining window,
/// the run pairs: in particular, when the metadata file arrived before
/// the binary, the binary's event finds it at its first probe and the
/// pair is complete at once. The run ends at the first successful probe,
/// so one wait emits `Paired` at most once.
pub proof fn lemma_pairing_pairs_within_window(w: PairingWait, probes: Seq<bool>, i: int)
    requires
        0 <= i < probes.len(),
        probes[i],
        i + w.polls_done <= PAIRING_MAX_POLLS,
    ensures
        pairing_run(w, probes) == PairOutcome::Paired,
    decreases i,
{
    if !probes[0] {
        let w1 = PairingWait { polls_done: (w.polls_done + 1) as u32 };
        lemma_pairing_pairs_within_window(w1, probes.drop_first(), i - 1);
    }
}

/// Without the sibling ever present, no probe sequence of any length
/// makes the engine pair: ingestion never starts for a lone file, so no
/// catalog entry can come of it and the file is left untouched.
pub proof fn lemma_no_pairing_without_sibling(w: PairingWait, probes: Seq<bool>)
    requires
        forall|i: int| 0 <= i < probes.len() ==> !probes[i],
    ensures
        pairing_run(w, probes) != PairOutcome::Paired,
    decreases probes.len(),
{
    if probes.len() > 0 && w.polls_done < PAIRING_MAX_POLLS {
        let w1 = PairingWait { polls_done: (w.polls_done + 1) as u32 };
        assert(forall|i: int|
            0 <= i < probes.drop_first().len() ==> !(#[trigger] probes.drop_first()[i]));
        lemma_no_pairing_without_sibling(w1, probes.drop_first());
    }
}

/// If the sibling never appears, a run long enough to exhaust the window
/// ends `Orphaned`: no pair is emitted, so no ingestion starts, no
/// catalog entry is created, and the file that arrived stays on disk.
pub proof fn lemma_pairing_orphans_without_sibling(w: PairingWait, probes: Seq<bool>)
    requires
        forall|i: int| 0 <= i < probes.len() ==> !probes[i],
        w.polls_done <= PAIRING_MAX_POLLS,
        probes.len() > PAIRING_MAX_POLLS - w.polls_done,
    ensures
        pairing_run(w, probes) == PairOutcome::Orphaned,
    decreases probes.len(),
{
    if w.polls_done < PAIRING_MAX_POLLS {
        let w1 = PairingWait { polls_done: (w.polls_done + 1) as u32 };
        assert(forall|i: int|
            0 <= i < probes.drop_first().len() ==> !(#[trigger] probes.drop_first()[i]));
        lemma_pairing_orphans_without_sibling(w1, probes.drop_first());
    }
}

} // verus!
