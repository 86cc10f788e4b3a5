//! The pipeline phase of one in-flight track. Exactly one phase value
//! exists per track, owned by its pipeline and read by the publishing
//! poller; it advances strictly forward through the four-state chain and
//! is never reused.
use vstd::prelude::*;

verus! {

/// The stage a track's pipeline is in. A phase is created as
/// `Downloading` with zero progress and ends, terminally, at `Downloaded`.
#[derive(Debug, Clone)]
pub enum Phase {
    /// Consuming decode-engine output; carries the live byte counts.
    Downloading { file_name: String, downloaded_bytes: usize, total_bytes: usize },
    /// Converting the accumulated samples into the container format.
    Encoding { file_name: String },
    /// Writing the encoded bytes to the output path.
    Writing { file_name: String },
    /// Finished; the terminal stage.
    Downloaded { file_name: String },
}

/// The position of a phase in the four-state chain.
pub open spec fn phase_rank(p: Phase) -> int {
    match p {
        Phase::Downloading { .. } => 0,
        Phase::Encoding { .. } => 1,
        Phase::Writing { .. } => 2,
        Phase::Downloaded { .. } => 3,
    }
}

/// The file name a phase reports.
pub open spec fn phase_name(p: Phase) -> Seq<char> {
    match p {
        Phase::Downloading { file_name, .. } => file_name@,
        Phase::Encoding { file_name } => file_name@,
        Phase::Writing { file_name } => file_name@,
        Phase::Downloaded { file_name } => file_name@,
    }
}

/// A freshly created phase: `Downloading` with zero progress.
pub open spec fn phase_initial(p: Phase) -> bool {
    p matches Phase::Downloading { downloaded_bytes, total_bytes, .. } && downloaded_bytes == 0
        && total_bytes == 0
}

/// The transitions a pipeline makes on its phase: progress updates stay in
/// `Downloading`, and each later stage follows its predecessor directly.
/// The reported file name never changes.
pub open spec fn phase_can_step(p: Phase, q: Phase) -> bool {
    phase_name(q) == phase_name(p) && (match (p, q) {
        (Phase::Downloading { .. }, Phase::Downloading { .. }) => true,
        (Phase::Downloading { .. }, Phase::Encoding { .. }) => true,
        (Phase::Encoding { .. }, Phase::Writing { .. }) => true,
        (Phase::Writing { .. }, Phase::Downloaded { .. }) => true,
        _ => false,
    })
}

/// One transition either stays at `Downloading` or moves exactly one rank
/// forward: no stage is ever skipped, repeated or revisited.
pub proof fn lemma_phase_step_rank(p: Phase, q: Phase)
    requires
        phase_can_step(p, q),
    ensures
        phase_rank(q) == phase_rank(p) + 1 || (p is Downloading && q is Downloading),
{
}

/// Ranks never decrease along a chain of transitions.
proof fn lemma_phase_ranks_monotone(observed: Seq<Phase>, i: int, j: int)
    requires
        0 <= i <= j < observed.len(),
        forall|k: int| 0 <= k < observed.len() - 1 ==> phase_can_step(
            #[trigger] observed[k],
            observed[k + 1],
        ),
    ensures
        phase_rank(observed[i]) <= phase_rank(observed[j]),
    decreases j - i,
{
    if i < j {
        lemma_phase_ranks_monotone(observed, i + 1, j);
        assert(phase_can_step(observed[i], observed[i + 1]));
    }
}

/// The name never changes along a chain of transitions.
proof fn lemma_phase_names_equal(observed: Seq<Phase>, j: int)
    requires
        0 <= j < observed.len(),
        forall|k: int| 0 <= k < observed.len() - 1 ==> phase_can_step(
            #[trigger] observed[k],
            observed[k + 1],
        ),
    ensures
        phase_name(observed[j]) == phase_name(observed[0]),
    decreases j,
{
    if j > 0 {
        lemma_phase_names_equal(observed, j - 1);
        assert(phase_can_step(observed[j - 1], observed[j]));
    }
}

/// Any sequence of phases a pipeline can walk through is exactly
/// `Downloading* → Encoding → Writing → Downloaded`, truncated wherever it
/// stops: ranks never decrease, every move out of a stage goes one rank
/// forward, a stage past `Downloading` is never held for two observations,
/// and the reported file name never changes.
pub proof fn lemma_phase_walk(observed: Seq<Phase>)
    requires
        observed.len() > 0,
        phase_initial(observed[0]),
        forall|k: int| 0 <= k < observed.len() - 1 ==> phase_can_step(
            #[trigger] observed[k],
            observed[k + 1],
        ),
    ensures
        forall|i: int, j: int|
            0 <= i <= j < observed.len() ==> phase_rank(#[trigger] observed[i]) <= phase_rank(
                #[trigger] observed[j],
            ),
        forall|k: int|
            0 <= k < observed.len() - 1 ==> phase_rank(#[trigger] observed[k + 1]) == phase_rank(
                observed[k],
            ) + 1 || (observed[k] is Downloading && observed[k + 1] is Downloading),
        forall|i: int, j: int|
            0 <= i < j < observed.len() && phase_rank(#[trigger] observed[i]) == phase_rank(
                #[trigger] observed[j],
            ) ==> observed[i] is Downloading,
        forall|k: int| 0 <= k < observed.len() ==> phase_name(#[trigger] observed[k]) == phase_name(
            observed[0],
        ),
{
    assert forall|i: int, j: int| 0 <= i <= j < observed.len() implies phase_rank(
        #[trigger] observed[i],
    ) <= phase_rank(#[trigger] observed[j]) by {
        lemma_phase_ranks_monotone(observed, i, j);
    }
    assert forall|k: int| 0 <= k < observed.len() - 1 implies phase_rank(
        #[trigger] observed[k + 1],
    ) == phase_rank(observed[k]) + 1 || (observed[k] is Downloading
        && observed[k + 1] is Downloading) by {
        assert(phase_can_step(observed[k], observed[k + 1]));
    }
    assert forall|i: int, j: int|
        0 <= i < j < observed.len() && phase_rank(#[trigger] observed[i]) == phase_rank(
            #[trigger] observed[j],
        ) implies observed[i] is Downloading by {
        if !(observed[i] is Downloading) {
            assert(phase_can_step(observed[i], observed[i + 1]));
            lemma_phase_ranks_monotone(observed, i + 1, j);
        }
    }
    assert forall|k: int| 0 <= k < observed.len() implies phase_name(#[trigger] observed[k])
        == phase_name(observed[0]) by {
        lemma_phase_names_equal(observed, k);
    }
}

} // verus!
