//! Records and windows taken together, and what holds of them over any run of events.

use crate::lifecycle::{
    after_window_event, open_plan_of, window_label_of, OpenPlanView, WindowEvent,
};
use crate::registry::{after_lookup, lookup_answer};
use vstd::prelude::*;

verus! {

/// The records together with the windows that the platform holds at one moment.
pub struct World {
    /// For each recorded file identity, the label of its window.
    pub records: Map<Seq<char>, Seq<char>>,
    /// For the label of each live window, the identity of the file it shows.
    pub windows: Map<Seq<char>, Seq<char>>,
}

/// What moves a world on.
pub enum WorldEvent {
    /// An open-request for `identity` arrives at `now_millis`; `built` tells whether the
    /// platform builds the window, should a new one be needed.
    Open { identity: Seq<char>, now_millis: nat, built: bool },
    /// The user asks to close the window `label`.
    Close { label: Seq<char> },
    /// The platform destroys the window `label`, and tells the handlers or does not.
    Destroy { label: Seq<char>, notified: bool },
}

/// The world after an open-request has been planned and its outcome recorded.
pub open spec fn open_step(w: World, identity: Seq<char>, now_millis: nat, built: bool) -> World {
    let live = w.windows.dom();
    let records = after_lookup(w.records, identity, live);
    match open_plan_of(w.records, identity, live, now_millis) {
        OpenPlanView::Reuse { label } => World { records, windows: w.windows },
        OpenPlanView::Create { window } => if built {
            World {
                records: records.insert(identity, window.label),
                windows: w.windows.insert(window.label, identity),
            }
        } else {
            World { records, windows: w.windows }
        },
    }
}

/// The world after one event.
pub open spec fn step(w: World, event: WorldEvent) -> World {
    match event {
        WorldEvent::Open { identity, now_millis, built } => open_step(
            w,
            identity,
            now_millis,
            built,
        ),
        WorldEvent::Close { label } => if w.windows.contains_key(label) {
            World {
                records: after_window_event(
                    w.records,
                    w.windows[label],
                    WindowEvent::CloseRequested,
                ),
                windows: w.windows,
            }
        } else {
            w
        },
        WorldEvent::Destroy { label, notified } => if w.windows.contains_key(label) {
            World {
                records: if notified {
                    after_window_event(w.records, w.windows[label], WindowEvent::Destroyed)
                } else {
                    w.records
                },
                windows: w.windows.remove(label),
            }
        } else {
            w
        },
    }
}

/// The world after a run of events, earliest first.
pub open spec fn run(w: World, events: Seq<WorldEvent>) -> World
    decreases events.len(),
{
    if events.len() == 0 {
        w
    } else {
        step(run(w, events.drop_last()), events.last())
    }
}

/// Whether `label` names no live window and stands in no record.
pub open spec fn unused_label(w: World, label: Seq<char>) -> bool {
    &&& !w.windows.contains_key(label)
    &&& forall|identity: Seq<char>| #[trigger]
        w.records.contains_key(identity) ==> w.records[identity] != label
}

/// Whether the platform may do in `w` what `event` says: it builds a window only under
/// a label that is not in use.
pub open spec fn admissible(w: World, event: WorldEvent) -> bool {
    match event {
        WorldEvent::Open { identity, now_millis, built } => built && lookup_answer(
            w.records,
            identity,
            w.windows.dom(),
        ) is None ==> unused_label(w, window_label_of(now_millis)),
        _ => true,
    }
}

/// Whether every event of the run is admissible in the world it meets.
pub open spec fn admissible_run(w: World, events: Seq<WorldEvent>) -> bool
    decreases events.len(),
{
    events.len() == 0 || (admissible_run(w, events.drop_last()) && admissible(
        run(w, events.drop_last()),
        events.last(),
    ))
}

/// Whether records and live windows agree: each live window is the one recorded for
/// the file it shows, and a record that names a live window names one that shows its
/// file.
pub open spec fn consistent(w: World) -> bool {
    &&& forall|label: Seq<char>| #[trigger]
        w.windows.contains_key(label) ==> w.records.contains_key(w.windows[label])
            && w.records[w.windows[label]] == label
    &&& forall|identity: Seq<char>| #[trigger]
        w.records.contains_key(identity) && w.windows.contains_key(w.records[identity])
            ==> w.windows[w.records[identity]] == identity
}

/// Whether, beyond agreeing, every record names a live window.
pub open spec fn tight(w: World) -> bool {
    &&& consistent(w)
    &&& forall|identity: Seq<char>| #[trigger]
        w.records.contains_key(identity) ==> w.windows.contains_key(w.records[identity])
}

/// Whether at most one live window shows `identity`.
pub open spec fn at_most_one_window(w: World, identity: Seq<char>) -> bool {
    forall|a: Seq<char>, b: Seq<char>|
        w.windows.contains_key(a) && w.windows.contains_key(b) && #[trigger] w.windows[a]
            == identity && #[trigger] w.windows[b] == identity ==> a == b
}

/// Whether every destruction in the run is told to the handlers.
pub open spec fn all_notified(events: Seq<WorldEvent>) -> bool {
    forall|i: int|
        0 <= i < events.len() ==> (#[trigger] events[i] matches WorldEvent::Destroy {
            notified,
            ..
        } ==> notified)
}

/// A world without records and without windows is tight, and so agrees.
pub proof fn lemma_fresh_start_is_tight()
    ensures
        tight(World { records: Map::empty(), windows: Map::empty() }),
{
}

/// In a world whose records and windows agree, no file is shown by two live windows.
pub proof fn lemma_consistent_one_window(w: World, identity: Seq<char>)
    requires
        consistent(w),
    ensures
        at_most_one_window(w, identity),
{
}

/// One admissible event keeps records and windows in agreement.
pub proof fn lemma_step_consistent(w: World, event: WorldEvent)
    requires
        consistent(w),
        admissible(w, event),
    ensures
        consistent(step(w, event)),
{
}

/// **One window per file.** Take a world whose records and windows agree, and any run
/// of open-requests, close-requests and destructions, told or untold, handled one at a
/// time, in which the platform never builds two windows under one label. Then records
/// and windows still agree after the run.
pub proof fn lemma_run_consistent(w: World, events: Seq<WorldEvent>)
    requires
        consistent(w),
        admissible_run(w, events),
    ensures
        consistent(run(w, events)),
    decreases events.len(),
{
    if events.len() > 0 {
        lemma_run_consistent(w, events.drop_last());
        lemma_step_consistent(run(w, events.drop_last()), events.last());
    }
}

/// **One window per file, at every moment.** Under the conditions of
/// `lemma_run_consistent`, after each event of the run at most one live window shows
/// any given file.
pub proof fn lemma_one_window_per_file(
    w: World,
    events: Seq<WorldEvent>,
    moment: int,
    identity: Seq<char>,
)
    requires
        consistent(w),
        admissible_run(w, events),
        0 <= moment <= events.len(),
    ensures
        at_most_one_window(run(w, events.take(moment)), identity),
    decreases events.len(),
{
    if moment == events.len() {
        assert(events.take(moment) =~= events);
        lemma_run_consistent(w, events);
        lemma_consistent_one_window(run(w, events), identity);
    } else {
        assert(events.drop_last().take(moment) =~= events.take(moment));
        lemma_one_window_per_file(w, events.drop_last(), moment, identity);
    }
}

/// **A close-request costs no record.** Of all window events only the report of
/// destruction changes the records.
pub proof fn lemma_only_destruction_forgets(
    m: Map<Seq<char>, Seq<char>>,
    identity: Seq<char>,
    event: WindowEvent,
)
    requires
        event != WindowEvent::Destroyed,
    ensures
        after_window_event(m, identity, event) == m,
{
}

/// **Closing, then opening again, brings the same window back.** Where records and
/// windows agree and a live window is closed by the user, the records stay as they
/// were, the next open-request for the file it shows is served by reusing that very
/// window, and nothing in the world has changed by then.
pub proof fn lemma_close_then_reopen_reuses(
    w: World,
    label: Seq<char>,
    now_millis: nat,
    built: bool,
)
    requires
        consistent(w),
        w.windows.contains_key(label),
    ensures
        step(w, WorldEvent::Close { label }) == w,
        open_plan_of(w.records, w.windows[label], w.windows.dom(), now_millis)
            == (OpenPlanView::Reuse { label }),
        step(w, WorldEvent::Open { identity: w.windows[label], now_millis, built }) == w,
{
}

/// **A destruction removes one record.** The report that the window of `identity` was
/// destroyed removes the record for `identity` and leaves every other record as it is.
pub proof fn lemma_destruction_forgets_one(m: Map<Seq<char>, Seq<char>>, identity: Seq<char>)
    ensures
        !after_window_event(m, identity, WindowEvent::Destroyed).contains_key(identity),
        forall|other: Seq<char>|
            other != identity ==> (#[trigger] after_window_event(
                m,
                identity,
                WindowEvent::Destroyed,
            ).contains_key(other) <==> m.contains_key(other)),
        forall|other: Seq<char>|
            other != identity && m.contains_key(other) ==> #[trigger] after_window_event(
                m,
                identity,
                WindowEvent::Destroyed,
            )[other] == m[other],
{
}

/// **Forgetting is idempotent.** A second report of the same destruction changes
/// nothing, and neither does one for a file that has no record.
pub proof fn lemma_forgetting_twice(m: Map<Seq<char>, Seq<char>>, identity: Seq<char>)
    ensures
        after_window_event(
            after_window_event(m, identity, WindowEvent::Destroyed),
            identity,
            WindowEvent::Destroyed,
        ) == after_window_event(m, identity, WindowEvent::Destroyed),
        !m.contains_key(identity) ==> after_window_event(m, identity, WindowEvent::Destroyed)
            == m,
{
}

/// **Lookup heals.** Looking up a file whose recorded window is no longer live answers
/// `None`, leaves no record for that file, and leaves every other record as it is.
pub proof fn lemma_lookup_heals(
    m: Map<Seq<char>, Seq<char>>,
    identity: Seq<char>,
    live: Set<Seq<char>>,
)
    requires
        m.contains_key(identity),
        !live.contains(m[identity]),
    ensures
        lookup_answer(m, identity, live) is None,
        !after_lookup(m, identity, live).contains_key(identity),
        forall|other: Seq<char>|
            other != identity ==> (#[trigger] after_lookup(m, identity, live).contains_key(other)
                <==> m.contains_key(other)),
        forall|other: Seq<char>|
            other != identity && m.contains_key(other) ==> #[trigger] after_lookup(
                m,
                identity,
                live,
            )[other] == m[other],
{
}

/// A lookup that hits changes nothing.
pub proof fn lemma_lookup_hit_keeps(
    m: Map<Seq<char>, Seq<char>>,
    identity: Seq<char>,
    live: Set<Seq<char>>,
)
    requires
        m.contains_key(identity),
        live.contains(m[identity]),
    ensures
        lookup_answer(m, identity, live) == Some(m[identity]),
        after_lookup(m, identity, live) == m,
{
}

/// One admissible event, if it is no untold destruction, keeps a tight world tight.
pub proof fn lemma_step_tight(w: World, event: WorldEvent)
    requires
        tight(w),
        admissible(w, event),
        event matches WorldEvent::Destroy { notified, .. } ==> notified,
    ensures
        tight(step(w, event)),
{
}

/// Where every destruction is told, a run keeps a tight world tight.
pub proof fn lemma_run_tight(w: World, events: Seq<WorldEvent>)
    requires
        tight(w),
        admissible_run(w, events),
        all_notified(events),
    ensures
        tight(run(w, events)),
    decreases events.len(),
{
    if events.len() > 0 {
        lemma_run_tight(w, events.drop_last());
        lemma_step_tight(run(w, events.drop_last()), events.last());
    }
}

/// **Cycles of making and destroying leave nothing behind.** Start with no record and
/// no window, and let open-requests, close-requests and destructions for any files come
/// in any order, one at a time, each destruction told to the handlers. Then whenever no
/// window is left, no record is left: the registry is back at size 0.
pub proof fn lemma_cycles_return_to_empty(events: Seq<WorldEvent>)
    requires
        admissible_run(World { records: Map::empty(), windows: Map::empty() }, events),
        all_notified(events),
        run(World { records: Map::empty(), windows: Map::empty() }, events).windows
            == Map::<Seq<char>, Seq<char>>::empty(),
    ensures
        run(World { records: Map::empty(), windows: Map::empty() }, events).records
            == Map::<Seq<char>, Seq<char>>::empty(),
        run(World { records: Map::empty(), windows: Map::empty() }, events).records.len() == 0,
{
    let start = World { records: Map::empty(), windows: Map::empty() };
    lemma_run_tight(start, events);
}

} // verus!
