//! Batches of raw open-signals: normalizing them, and showing what is left of them.

use crate::normalizer::{is_normalization, normalize};
use crate::pending::PendingFiles;
use vstd::prelude::*;

verus! {

/// The name of the event that tells the content surface which file to show.
pub const FILE_OPENED_EVENT: &'static str = "file-opened";

/// The identities among `outcomes`, in their order, the empty outcomes left out.
pub open spec fn survivors(outcomes: Seq<Option<Seq<char>>>) -> Seq<Seq<char>>
    decreases outcomes.len(),
{
    if outcomes.len() == 0 {
        Seq::empty()
    } else {
        match outcomes.last() {
            Some(identity) => survivors(outcomes.drop_last()).push(identity),
            None => survivors(outcomes.drop_last()),
        }
    }
}

/// Whether `outcomes` holds, signal by signal, an admissible identity for each of the
/// raw open-signals `raws`.
pub open spec fn is_batch_normalization(
    raws: Seq<Seq<char>>,
    outcomes: Seq<Option<Seq<char>>>,
) -> bool {
    &&& outcomes.len() == raws.len()
    &&& forall|i: int| 0 <= i < raws.len() ==> is_normalization(raws[i], #[trigger] outcomes[i])
}

/// Whether `identities` is what is left of the batch `raws` once each signal has been
/// normalized and those without an identity dropped.
pub open spec fn is_batch_result(raws: Seq<Seq<char>>, identities: Seq<Seq<char>>) -> bool {
    exists|outcomes: Seq<Option<Seq<char>>>| #[trigger]
        is_batch_normalization(raws, outcomes) && identities == survivors(outcomes)
}

/// Normalizes each raw open-signal of a batch.
pub fn normalize_all(urls: &Vec<String>) -> (r: Vec<Option<String>>)
    ensures
        is_batch_normalization(urls.deep_view(), r.deep_view()),
{
    let mut out: Vec<Option<String>> = Vec::new();
    let mut i: usize = 0;
    while i < urls.len()
        invariant
            i <= urls.len(),
            out.len() == i,
            forall|j: int| 0 <= j < i ==> is_normalization(urls[j]@, #[trigger] out[j].deep_view()),
        decreases urls.len() - i,
    {
        out.push(normalize(urls[i].as_str()));
        i += 1;
    }
    out
}

/// Keeps the identities of `outcomes`, in their order.
pub fn keep_identities(outcomes: Vec<Option<String>>) -> (r: Vec<String>)
    ensures
        r.deep_view() == survivors(outcomes.deep_view()),
{
    let mut out: Vec<String> = Vec::new();
    let mut i: usize = 0;
    while i < outcomes.len()
        invariant
            i <= outcomes.len(),
            out.deep_view() == survivors(outcomes.deep_view().take(i as int)),
        decreases outcomes.len() - i,
    {
        assert(outcomes.deep_view().take(i + 1).drop_last() =~= outcomes.deep_view().take(
            i as int,
        ));
        match &outcomes[i] {
            Some(identity) => {
                out.push(identity.clone());
            },
            None => {},
        }
        i += 1;
    }
    assert(outcomes.deep_view().take(i as int) =~= outcomes.deep_view());
    out
}

/// Turns a batch of raw open-signals into the identities of the files to open, in the
/// order in which the signals came; signals that ask for no file are dropped.
pub fn process_urls(urls: &Vec<String>) -> (r: Vec<String>)
    ensures
        is_batch_result(urls.deep_view(), r.deep_view()),
{
    keep_identities(normalize_all(urls))
}

/// One step in showing a batch of files in the one main window.
#[derive(Clone, Debug, PartialEq, Eq)]
pub enum SurfaceStep {
    /// Wait until the event loop reports that the process is ready.
    AwaitReady,
    /// Show the main window, building it if it does not exist yet.
    ShowMainWindow,
    /// Give the window's content surface the fixed time it needs to start listening.
    AwaitSurface,
    /// Tell the content surface to show the file `identity`.
    EmitFileOpened { identity: String },
}

/// A `SurfaceStep` with its text as a sequence of characters.
pub enum SurfaceStepView {
    AwaitReady,
    ShowMainWindow,
    AwaitSurface,
    EmitFileOpened { identity: Seq<char> },
}

impl DeepView for SurfaceStep {
    type V = SurfaceStepView;

    open spec fn deep_view(&self) -> SurfaceStepView {
        match self {
            SurfaceStep::AwaitReady => SurfaceStepView::AwaitReady,
            SurfaceStep::ShowMainWindow => SurfaceStepView::ShowMainWindow,
            SurfaceStep::AwaitSurface => SurfaceStepView::AwaitSurface,
            SurfaceStep::EmitFileOpened { identity } => SurfaceStepView::EmitFileOpened {
                identity: identity@,
            },
        }
    }
}

/// What leads up to the notifications of a batch: at a cold start the wait for the
/// event loop, then in any case the main window shown once and the wait for its
/// content surface.
pub open spec fn batch_prelude(cold: bool) -> Seq<SurfaceStepView> {
    if cold {
        seq![
            SurfaceStepView::AwaitReady,
            SurfaceStepView::ShowMainWindow,
            SurfaceStepView::AwaitSurface,
        ]
    } else {
        seq![SurfaceStepView::ShowMainWindow, SurfaceStepView::AwaitSurface]
    }
}

/// The steps that show the batch `identities` in the main window: the prelude, then
/// one notification for each identity, in the batch's order.
pub open spec fn batch_steps(identities: Seq<Seq<char>>, cold: bool) -> Seq<SurfaceStepView> {
    batch_prelude(cold) + identities.map_values(
        |identity: Seq<char>| SurfaceStepView::EmitFileOpened { identity },
    )
}

/// The identities that `steps` notifies the content surface of, in order.
pub open spec fn notified(steps: Seq<SurfaceStepView>) -> Seq<Seq<char>>
    decreases steps.len(),
{
    if steps.len() == 0 {
        Seq::empty()
    } else {
        match steps.last() {
            SurfaceStepView::EmitFileOpened { identity } => notified(steps.drop_last()).push(
                identity,
            ),
            _ => notified(steps.drop_last()),
        }
    }
}

/// How often `steps` shows the main window.
pub open spec fn shows(steps: Seq<SurfaceStepView>) -> nat
    decreases steps.len(),
{
    if steps.len() == 0 {
        0
    } else if steps.last() == SurfaceStepView::ShowMainWindow {
        shows(steps.drop_last()) + 1
    } else {
        shows(steps.drop_last())
    }
}

/// **One show, then each file once, in order.** Whatever the batch, its steps show the
/// main window exactly once, notify of exactly the batch's identities in the batch's
/// order, and show the window before the first notification.
pub proof fn lemma_batch_shape(identities: Seq<Seq<char>>, cold: bool)
    ensures
        shows(batch_steps(identities, cold)) == 1,
        notified(batch_steps(identities, cold)) == identities,
        forall|i: int|
            0 <= i < batch_steps(identities, cold).len() && #[trigger] batch_steps(
                identities,
                cold,
            )[i] is EmitFileOpened ==> i >= batch_prelude(cold).len(),
    decreases identities.len(),
{
    let steps = batch_steps(identities, cold);
    if identities.len() == 0 {
        reveal_with_fuel(shows, 4);
        reveal_with_fuel(notified, 4);
    } else {
        lemma_batch_shape(identities.drop_last(), cold);
        assert(steps.drop_last() =~= batch_steps(identities.drop_last(), cold));
    }
}

/// Queues the batch `identities` for the main window and lists the steps that show it;
/// `cold` tells whether the process is still starting up.
pub fn deliver_batch(pending: &mut PendingFiles, identities: &Vec<String>, cold: bool) -> (r: Vec<
    SurfaceStep,
>)
    ensures
        final(pending)@ == old(pending)@ + identities.deep_view(),
        r.deep_view() == batch_steps(identities.deep_view(), cold),
{
    pending.enqueue_all(identities);
    let mut steps: Vec<SurfaceStep> = Vec::new();
    if cold {
        steps.push(SurfaceStep::AwaitReady);
    }
    steps.push(SurfaceStep::ShowMainWindow);
    steps.push(SurfaceStep::AwaitSurface);
    let mut i: usize = 0;
    while i < identities.len()
        invariant
            i <= identities.len(),
            steps.deep_view() == batch_steps(identities.deep_view().take(i as int), cold),
        decreases identities.len() - i,
    {
        let ghost before = steps.deep_view();
        steps.push(SurfaceStep::EmitFileOpened { identity: identities[i].clone() });
        assert(steps.deep_view() =~= before.push(
            SurfaceStepView::EmitFileOpened { identity: identities[i as int]@ },
        ));
        i += 1;
    }
    steps
}

/// Takes a batch of raw open-signals for the main window: normalizes it, queues the
/// identities that are left and lists the steps that show them.
pub fn ingest_batch(pending: &mut PendingFiles, urls: &Vec<String>, cold: bool) -> (r: Vec<
    SurfaceStep,
>)
    ensures
        exists|identities: Seq<Seq<char>>|
            #![trigger batch_steps(identities, cold)]
            is_batch_result(urls.deep_view(), identities) && final(pending)@ == old(pending)@
                + identities && r.deep_view() == batch_steps(identities, cold),
{
    let identities = process_urls(urls);
    deliver_batch(pending, &identities, cold)
}

/// What the event loop reports.
#[derive(Clone, Debug, PartialEq, Eq)]
pub enum RunEvent {
    /// The platform asks to open these URLs.
    Opened { urls: Vec<String> },
    /// The process is ready.
    Ready,
    /// The platform asks the process to exit.
    ExitRequested,
    /// Anything else.
    Other,
}

/// What to do about a report of the event loop.
#[derive(Clone, Debug, PartialEq, Eq)]
pub enum RunReaction {
    /// Open these files, in this order.
    OpenFiles { identities: Vec<String> },
    /// Keep the process running.
    PreventExit,
    Nothing,
}

/// Whether `reaction` answers `event`: URLs are normalized into the files to open, a
/// request to exit is refused, and nothing else calls for anything; in particular no
/// window is made merely because the process is ready.
pub open spec fn answers(event: RunEvent, reaction: RunReaction) -> bool {
    match event {
        RunEvent::Opened { urls } => reaction matches RunReaction::OpenFiles { identities }
            && is_batch_result(urls.deep_view(), identities.deep_view()),
        RunEvent::ExitRequested => reaction == RunReaction::PreventExit,
        _ => reaction == RunReaction::Nothing,
    }
}

/// Decides what to do about a report of the event loop.
pub fn on_run_event(event: &RunEvent) -> (r: RunReaction)
    ensures
        answers(*event, r),
{
    match event {
        RunEvent::Opened { urls } => RunReaction::OpenFiles { identities: process_urls(urls) },
        RunEvent::ExitRequested => RunReaction::PreventExit,
        _ => RunReaction::Nothing,
    }
}

} // verus!
