//! The client start orchestration, as a verified state machine.
//!
//! `start_client` runs through a fixed sequence of phases: decode the two
//! caller-supplied directory paths, obtain the process-wide scheduler, raise
//! the open-file limit (best effort), build the client configuration,
//! bootstrap the client, and spawn the background proxy task. The outside
//! work of each phase is performed by the unverified shell; this module owns
//! every decision: which phase comes next, which failures are fatal, what
//! the error channel records, and when a handle may be issued.

use vstd::prelude::*;

use crate::channel::ErrorSlot;
use crate::errors::{labelled_message, ErrorKind, ErrorRecord, RecordView};

verus! {

/// The phases of the start sequence, in the order they run, plus the two
/// terminal phases. A start begins at `DecodeStateDir`.
#[derive(Clone, Copy, PartialEq, Eq, Structural, Debug)]
pub enum StartPhase {
    DecodeStateDir,
    DecodeCacheDir,
    CreateRuntime,
    RaiseFileLimit,
    BuildConfig,
    BootstrapClient,
    SpawnProxy,
    Succeeded,
    Failed,
}

/// What the work of one phase reported back: success, or failure with the
/// underlying detail text.
pub enum StepOutcome {
    Success,
    Failure(String),
}

/// The phase that follows `phase` when its work succeeds. The two terminal
/// phases follow themselves.
pub open spec fn next_phase(phase: StartPhase) -> StartPhase {
    match phase {
        StartPhase::DecodeStateDir => StartPhase::DecodeCacheDir,
        StartPhase::DecodeCacheDir => StartPhase::CreateRuntime,
        StartPhase::CreateRuntime => StartPhase::RaiseFileLimit,
        StartPhase::RaiseFileLimit => StartPhase::BuildConfig,
        StartPhase::BuildConfig => StartPhase::BootstrapClient,
        StartPhase::BootstrapClient => StartPhase::SpawnProxy,
        StartPhase::SpawnProxy => StartPhase::Succeeded,
        StartPhase::Succeeded => StartPhase::Succeeded,
        StartPhase::Failed => StartPhase::Failed,
    }
}

/// Whether `phase` is terminal: the sequence has already succeeded or
/// failed, and no further outcome changes anything.
pub open spec fn is_terminal(phase: StartPhase) -> bool {
    phase is Succeeded || phase is Failed
}

/// Whether the work of `phase` is advisory, so that its outcome never
/// decides the start. Raising the open-file limit is an optimization, and
/// spawning the proxy task is treated as non-fallible at this layer: the
/// scheduler accepts the task immediately, and any failure surfaces later,
/// asynchronously, if at all.
pub open spec fn is_best_effort(phase: StartPhase) -> bool {
    phase is RaiseFileLimit || phase is SpawnProxy
}

/// The error kind under which a failure of `phase` is reported; `None` for
/// phases whose failure is never recorded.
pub open spec fn failure_kind(phase: StartPhase) -> Option<ErrorKind> {
    match phase {
        StartPhase::DecodeStateDir => Some(ErrorKind::PathEncoding),
        StartPhase::DecodeCacheDir => Some(ErrorKind::PathEncoding),
        StartPhase::CreateRuntime => Some(ErrorKind::RuntimeInit),
        StartPhase::RaiseFileLimit => None,
        StartPhase::BuildConfig => Some(ErrorKind::ConfigBuild),
        StartPhase::BootstrapClient => Some(ErrorKind::Bootstrap),
        StartPhase::SpawnProxy => None,
        StartPhase::Succeeded => None,
        StartPhase::Failed => None,
    }
}

/// The detail text an outcome carries: empty on success.
pub open spec fn detail_of(outcome: StepOutcome) -> Seq<char> {
    match outcome {
        StepOutcome::Success => Seq::<char>::empty(),
        StepOutcome::Failure(detail) => detail@,
    }
}

/// The phase after one step: terminal phases absorb every outcome, success
/// and best-effort failures move to the next phase, and any other failure
/// is fatal.
pub open spec fn step_phase(phase: StartPhase, outcome: StepOutcome) -> StartPhase {
    if is_terminal(phase) {
        phase
    } else if outcome is Success || is_best_effort(phase) {
        next_phase(phase)
    } else {
        StartPhase::Failed
    }
}

/// The record the fatal failure of `phase` stores: the phase's error kind,
/// with the kind's label prefixed to the outcome's detail text.
pub open spec fn failure_record(phase: StartPhase, outcome: StepOutcome) -> RecordView {
    RecordView {
        kind: failure_kind(phase)->Some_0,
        message: labelled_message(failure_kind(phase)->Some_0, detail_of(outcome)),
    }
}

/// The error channel after one step: a fatal failure overwrites it with the
/// phase's record; every other step leaves it untouched.
pub open spec fn step_slot(
    phase: StartPhase,
    outcome: StepOutcome,
    slot: Option<RecordView>,
) -> Option<RecordView> {
    if !is_terminal(phase) && !is_best_effort(phase) && outcome is Failure {
        Some(failure_record(phase, outcome))
    } else {
        slot
    }
}

/// Advances the start sequence by one step, given the outcome the shell
/// reports for the work of `phase`, recording a fatal failure in `slot`.
pub fn advance(phase: StartPhase, outcome: StepOutcome, slot: &mut ErrorSlot) -> (next: StartPhase)
    ensures
        next == step_phase(phase, outcome),
        final(slot).stored() == step_slot(phase, outcome, old(slot).stored()),
{
    match phase {
        StartPhase::Succeeded => StartPhase::Succeeded,
        StartPhase::Failed => StartPhase::Failed,
        StartPhase::RaiseFileLimit => StartPhase::BuildConfig,
        StartPhase::SpawnProxy => StartPhase::Succeeded,
        _ => {
            match outcome {
                StepOutcome::Success => {
                    match phase {
                        StartPhase::DecodeStateDir => StartPhase::DecodeCacheDir,
                        StartPhase::DecodeCacheDir => StartPhase::CreateRuntime,
                        StartPhase::CreateRuntime => StartPhase::RaiseFileLimit,
                        StartPhase::BuildConfig => StartPhase::BootstrapClient,
                        _ => StartPhase::SpawnProxy,
                    }
                },
                StepOutcome::Failure(detail) => {
                    let kind = match phase {
                        StartPhase::DecodeStateDir => ErrorKind::PathEncoding,
                        StartPhase::DecodeCacheDir => ErrorKind::PathEncoding,
                        StartPhase::CreateRuntime => ErrorKind::RuntimeInit,
                        StartPhase::BuildConfig => ErrorKind::ConfigBuild,
                        _ => ErrorKind::Bootstrap,
                    };
                    slot.record(ErrorRecord::new(kind, detail.as_str()));
                    StartPhase::Failed
                },
            }
        },
    }
}

/// The phase reached after feeding the outcomes in `outcomes`, in order,
/// to a sequence standing at `phase`.
pub open spec fn run_phase(phase: StartPhase, outcomes: Seq<StepOutcome>) -> StartPhase
    decreases outcomes.len(),
{
    if outcomes.len() == 0 {
        phase
    } else {
        run_phase(step_phase(phase, outcomes[0]), outcomes.drop_first())
    }
}

/// The error channel reached after feeding the outcomes in `outcomes`, in
/// order, to a sequence standing at `phase` with the channel holding `slot`.
pub open spec fn run_slot(
    phase: StartPhase,
    outcomes: Seq<StepOutcome>,
    slot: Option<RecordView>,
) -> Option<RecordView>
    decreases outcomes.len(),
{
    if outcomes.len() == 0 {
        slot
    } else {
        run_slot(
            step_phase(phase, outcomes[0]),
            outcomes.drop_first(),
            step_slot(phase, outcomes[0], slot),
        )
    }
}

/// Law: the terminal phases absorb every further outcome; neither the phase
/// nor the error channel changes once the sequence has succeeded or failed.
pub proof fn lemma_terminal_absorbs(
    phase: StartPhase,
    outcomes: Seq<StepOutcome>,
    slot: Option<RecordView>,
)
    requires
        is_terminal(phase),
    ensures
        run_phase(phase, outcomes) == phase,
        run_slot(phase, outcomes, slot) == slot,
    decreases outcomes.len(),
{
    if outcomes.len() > 0 {
        lemma_terminal_absorbs(phase, outcomes.drop_first(), slot);
    }
}

/// Law: a start sequence that ends in success never touches the error
/// channel, so a caller who reads the message right after a successful
/// start sees whatever was there before — empty text, if nothing was.
pub proof fn lemma_success_leaves_slot_untouched(
    phase: StartPhase,
    outcomes: Seq<StepOutcome>,
    slot: Option<RecordView>,
)
    requires
        run_phase(phase, outcomes) is Succeeded,
        !(phase is Failed),
    ensures
        run_slot(phase, outcomes, slot) == slot,
    decreases outcomes.len(),
{
    if outcomes.len() > 0 {
        let next = step_phase(phase, outcomes[0]);
        if next is Failed {
            lemma_terminal_absorbs(next, outcomes.drop_first(), step_slot(phase, outcomes[0], slot));
        } else {
            lemma_success_leaves_slot_untouched(next, outcomes.drop_first(), slot);
        }
    }
}

/// Law: a start sequence that ends in failure leaves a record in the error
/// channel: its message is non-empty and begins with the label of the
/// recorded kind, and it is exactly the record of the step at which some
/// phase's work failed fatally.
pub proof fn lemma_failure_records_error(
    phase: StartPhase,
    outcomes: Seq<StepOutcome>,
    slot: Option<RecordView>,
)
    requires
        run_phase(phase, outcomes) is Failed,
        !(phase is Failed),
    ensures
        run_slot(phase, outcomes, slot) matches Some(record) && record.message.len() > 0
            && crate::errors::kind_label(record.kind).is_prefix_of(record.message),
        exists|i: int|
            0 <= i < outcomes.len() && run_slot(phase, outcomes, slot) == Some(
                failure_record(run_phase(phase, outcomes.take(i)), outcomes[i]),
            ),
    decreases outcomes.len(),
{
    let next = step_phase(phase, outcomes[0]);
    let slot1 = step_slot(phase, outcomes[0], slot);
    if next is Failed {
        let record = failure_record(phase, outcomes[0]);
        crate::errors::lemma_kind_label_nonempty(record.kind);
        assert(record.message.subrange(
            0,
            crate::errors::kind_label(record.kind).len() as int,
        ) =~= crate::errors::kind_label(record.kind));
        lemma_terminal_absorbs(next, outcomes.drop_first(), slot1);
        assert(outcomes.take(0) =~= Seq::<StepOutcome>::empty());
        assert(run_slot(phase, outcomes, slot) == Some(
            failure_record(run_phase(phase, outcomes.take(0)), outcomes[0]),
        ));
    } else {
        lemma_failure_records_error(next, outcomes.drop_first(), slot1);
        let j = choose|j: int|
            0 <= j < outcomes.drop_first().len() && run_slot(
                next,
                outcomes.drop_first(),
                slot1,
            ) == Some(
                failure_record(
                    run_phase(next, outcomes.drop_first().take(j)),
                    outcomes.drop_first()[j],
                ),
            );
        assert(outcomes.take(j + 1).drop_first() =~= outcomes.drop_first().take(j));
        assert(outcomes.take(j + 1)[0] == outcomes[0]);
        assert(run_phase(phase, outcomes.take(j + 1)) == run_phase(
            next,
            outcomes.drop_first().take(j),
        ));
        assert(run_slot(phase, outcomes, slot) == Some(
            failure_record(run_phase(phase, outcomes.take(j + 1)), outcomes[j + 1]),
        ));
    }
}

/// How many outcomes a sequence standing at `phase` still consumes before
/// it succeeds, when every remaining outcome is a success.
pub open spec fn steps_left(phase: StartPhase) -> nat {
    match phase {
        StartPhase::DecodeStateDir => 7,
        StartPhase::DecodeCacheDir => 6,
        StartPhase::CreateRuntime => 5,
        StartPhase::RaiseFileLimit => 4,
        StartPhase::BuildConfig => 3,
        StartPhase::BootstrapClient => 2,
        StartPhase::SpawnProxy => 1,
        StartPhase::Succeeded => 0,
        StartPhase::Failed => 0,
    }
}

/// Law: when every phase's work succeeds, the start sequence succeeds and
/// the error channel is untouched.
pub proof fn lemma_all_success_succeeds(
    phase: StartPhase,
    outcomes: Seq<StepOutcome>,
    slot: Option<RecordView>,
)
    requires
        !(phase is Failed),
        outcomes.len() == steps_left(phase),
        forall|i: int| 0 <= i < outcomes.len() ==> outcomes[i] is Success,
    ensures
        run_phase(phase, outcomes) is Succeeded,
        run_slot(phase, outcomes, slot) == slot,
    decreases outcomes.len(),
{
    if outcomes.len() > 0 {
        lemma_all_success_succeeds(step_phase(phase, outcomes[0]), outcomes.drop_first(), slot);
    }
}

/// Law: once past the bootstrap, nothing fails any more; from the
/// proxy-spawning phase the sequence can only stand there or succeed.
pub proof fn lemma_proxy_phase_never_fails(outcomes: Seq<StepOutcome>)
    ensures
        run_phase(StartPhase::SpawnProxy, outcomes) is SpawnProxy || run_phase(
            StartPhase::SpawnProxy,
            outcomes,
        ) is Succeeded,
    decreases outcomes.len(),
{
    if outcomes.len() > 0 {
        lemma_terminal_absorbs(
            StartPhase::Succeeded,
            outcomes.drop_first(),
            None::<RecordView>,
        );
    }
}

/// Law: a start sequence that fails never reaches the proxy-spawning phase
/// and never succeeds partway — a failure partway spawns no proxy task.
pub proof fn lemma_failure_never_reaches_proxy(
    phase: StartPhase,
    outcomes: Seq<StepOutcome>,
    k: int,
)
    requires
        run_phase(phase, outcomes) is Failed,
        !(phase is SpawnProxy),
        !(phase is Succeeded),
        0 <= k <= outcomes.len(),
    ensures
        !(run_phase(phase, outcomes.take(k)) is SpawnProxy),
        !(run_phase(phase, outcomes.take(k)) is Succeeded),
    decreases k,
{
    if k == 0 {
        assert(outcomes.take(0) =~= Seq::<StepOutcome>::empty());
    } else {
        let next = step_phase(phase, outcomes[0]);
        if next is Succeeded {
            lemma_terminal_absorbs(next, outcomes.drop_first(), None::<RecordView>);
            assert(false);
        }
        if next is SpawnProxy {
            lemma_proxy_phase_never_fails(outcomes.drop_first());
            assert(false);
        }
        assert(outcomes.take(k).drop_first() =~= outcomes.drop_first().take(k - 1));
        assert(outcomes.take(k)[0] == outcomes[0]);
        lemma_failure_never_reaches_proxy(next, outcomes.drop_first(), k - 1);
    }
}

/// An opaque token standing for a successfully bootstrapped client. The
/// shell pairs it with the client object it hands across the boundary; a
/// null handle is the boundary's sentinel for "no such token".
pub struct ClientHandle {
    pub proxy_port: u16,
}

/// Issues the handle for a finished start sequence: a handle exists exactly
/// when the sequence succeeded, and it carries the proxy port the caller
/// chose.
pub fn issue_handle(phase: StartPhase, proxy_port: u16) -> (handle: Option<ClientHandle>)
    ensures
        handle is Some <==> phase is Succeeded,
        handle matches Some(h) ==> h.proxy_port == proxy_port,
{
    match phase {
        StartPhase::Succeeded => Some(ClientHandle { proxy_port }),
        _ => None,
    }
}

/// Concludes a re-bootstrap of an existing client: true exactly when the
/// underlying bootstrap succeeded; a failure is recorded in the error
/// channel, a success leaves the channel untouched.
pub fn conclude_bootstrap(outcome: StepOutcome, slot: &mut ErrorSlot) -> (ok: bool)
    ensures
        ok == (outcome is Success),
        outcome is Success ==> final(slot).stored() == old(slot).stored(),
        outcome matches StepOutcome::Failure(detail) ==> final(slot).stored() == Some(
            RecordView {
                kind: ErrorKind::Bootstrap,
                message: labelled_message(ErrorKind::Bootstrap, detail@),
            },
        ),
{
    match outcome {
        StepOutcome::Success => true,
        StepOutcome::Failure(detail) => {
            slot.record(ErrorRecord::new(ErrorKind::Bootstrap, detail.as_str()));
            false
        },
    }
}

} // verus!
