//! The life of a window: how an open-request is served, what a window is built with,
//! and what follows from the events that reach it.

use crate::normalizer::{content_url, content_url_of};
use crate::registry::{after_lookup, is_live, live_set, lookup_answer, SessionRegistry};
use crate::text::{decimal, decimal_text, lemma_decimal_value};
use vstd::prelude::*;
use vstd::string::*;

verus! {

/// The label of a window made at `now_millis` milliseconds after the epoch.
pub open spec fn window_label_of(now_millis: nat) -> Seq<char> {
    "window_"@ + decimal(now_millis)
}

/// What a window is built with.
#[derive(Clone, Debug, PartialEq, Eq)]
pub struct WindowConfig {
    pub label: String,
    pub url: String,
    pub title: String,
    pub width: u32,
    pub height: u32,
    pub resizable: bool,
    pub visible: bool,
}

/// A `WindowConfig` with its texts as sequences of characters.
pub struct WindowConfigView {
    pub label: Seq<char>,
    pub url: Seq<char>,
    pub title: Seq<char>,
    pub width: u32,
    pub height: u32,
    pub resizable: bool,
    pub visible: bool,
}

impl View for WindowConfig {
    type V = WindowConfigView;

    open spec fn view(&self) -> WindowConfigView {
        WindowConfigView {
            label: self.label@,
            url: self.url@,
            title: self.title@,
            width: self.width,
            height: self.height,
            resizable: self.resizable,
            visible: self.visible,
        }
    }
}

/// The window for `identity` when it is made at `now_millis`: labelled by the time,
/// told its file through its content address, 800 by 600, resizable, and not yet shown.
pub open spec fn new_window_of(identity: Seq<char>, now_millis: nat) -> WindowConfigView {
    WindowConfigView {
        label: window_label_of(now_millis),
        url: content_url_of(identity),
        title: "JustViewer"@,
        width: 800,
        height: 600,
        resizable: true,
        visible: false,
    }
}

/// The one window of the single-window policy: labelled `main`, showing the content
/// surface's entry page, and otherwise shaped like any other window.
pub open spec fn main_window_of() -> WindowConfigView {
    WindowConfigView {
        label: "main"@,
        url: "index.html"@,
        title: "JustViewer"@,
        width: 800,
        height: 600,
        resizable: true,
        visible: false,
    }
}

/// How an open-request is to be served.
#[derive(Clone, Debug, PartialEq, Eq)]
pub enum OpenPlan {
    /// The file already has a live window: bring that one back.
    Reuse { label: String },
    /// The file has no live window: build this one.
    Create { window: WindowConfig },
}

/// An `OpenPlan` with its texts as sequences of characters.
pub enum OpenPlanView {
    Reuse { label: Seq<char> },
    Create { window: WindowConfigView },
}

impl View for OpenPlan {
    type V = OpenPlanView;

    open spec fn view(&self) -> OpenPlanView {
        match self {
            OpenPlan::Reuse { label } => OpenPlanView::Reuse { label: label@ },
            OpenPlan::Create { window } => OpenPlanView::Create { window: window@ },
        }
    }
}

/// The plan for an open-request for `identity`, given the records `m`, the labels of
/// the live windows and the time.
pub open spec fn open_plan_of(
    m: Map<Seq<char>, Seq<char>>,
    identity: Seq<char>,
    live: Set<Seq<char>>,
    now_millis: nat,
) -> OpenPlanView {
    match lookup_answer(m, identity, live) {
        Some(label) => OpenPlanView::Reuse { label },
        None => OpenPlanView::Create { window: new_window_of(identity, now_millis) },
    }
}

/// The label for a window made at `now_millis`.
pub fn window_label(now_millis: u128) -> (r: String)
    ensures
        r@ == window_label_of(now_millis as nat),
{
    let digits = decimal_text(now_millis);
    "window_".to_owned().concat(digits.as_str())
}

/// Windows made at different times carry different labels.
pub proof fn lemma_labels_differ(a: nat, b: nat)
    requires
        a != b,
    ensures
        window_label_of(a) != window_label_of(b),
{
    let prefix = "window_"@;
    lemma_decimal_value(a);
    lemma_decimal_value(b);
    if window_label_of(a) == window_label_of(b) {
        let la = window_label_of(a);
        let lb = window_label_of(b);
        assert(la.subrange(prefix.len() as int, la.len() as int) =~= decimal(a));
        assert(lb.subrange(prefix.len() as int, lb.len() as int) =~= decimal(b));
    }
}

/// What is handed to the platform to build the window for `identity` at `now_millis`.
pub fn new_window(identity: &str, now_millis: u128) -> (r: WindowConfig)
    ensures
        r@ == new_window_of(identity@, now_millis as nat),
{
    WindowConfig {
        label: window_label(now_millis),
        url: content_url(identity),
        title: "JustViewer".to_owned(),
        width: 800,
        height: 600,
        resizable: true,
        visible: false,
    }
}

/// What is handed to the platform to build the main window of the single-window policy.
pub fn main_window() -> (r: WindowConfig)
    ensures
        r@ == main_window_of(),
{
    WindowConfig {
        label: "main".to_owned(),
        url: "index.html".to_owned(),
        title: "JustViewer".to_owned(),
        width: 800,
        height: 600,
        resizable: true,
        visible: false,
    }
}

/// Decides how to serve an open-request for `identity`: reuse the recorded window if it
/// is among the live ones, and build a new one otherwise. A record whose window is
/// gone is dropped; no record is made here for a window that is yet to be built.
pub fn open_window_for_file(
    registry: &mut SessionRegistry,
    identity: &str,
    live: &Vec<String>,
    now_millis: u128,
) -> (plan: OpenPlan)
    ensures
        plan@ == open_plan_of(
            old(registry)@,
            identity@,
            live_set(live.deep_view()),
            now_millis as nat,
        ),
        final(registry)@ == after_lookup(old(registry)@, identity@, live_set(live.deep_view())),
{
    match registry.lookup(identity, live) {
        Some(label) => OpenPlan::Reuse { label },
        None => OpenPlan::Create { window: new_window(identity, now_millis) },
    }
}

/// The plan for showing the main window of the single-window policy: reuse it where it
/// is live, build it where it is not.
pub open spec fn main_window_plan_of(live: Set<Seq<char>>) -> OpenPlanView {
    if live.contains("main"@) {
        OpenPlanView::Reuse { label: "main"@ }
    } else {
        OpenPlanView::Create { window: main_window_of() }
    }
}

/// Decides how to show the main window of the single-window policy.
pub fn open_main_window(live: &Vec<String>) -> (plan: OpenPlan)
    ensures
        plan@ == main_window_plan_of(live_set(live.deep_view())),
{
    let window = main_window();
    if is_live(live, &window.label) {
        OpenPlan::Reuse { label: window.label }
    } else {
        OpenPlan::Create { window }
    }
}

/// Records the outcome of building the window `label` for `identity`: a record is made
/// when the window was built, and none when building failed.
pub fn window_built(registry: &mut SessionRegistry, identity: &str, label: &str, built: bool)
    ensures
        final(registry)@ == if built {
            old(registry)@.insert(identity@, label@)
        } else {
            old(registry)@
        },
{
    if built {
        registry.insert(identity.to_owned(), label.to_owned());
    }
}

/// Where a window stands in its life.
#[derive(Clone, Copy, Debug, PartialEq, Eq, Structural)]
pub enum WindowState {
    /// No window has been built yet.
    Absent,
    /// The window is on screen.
    Visible,
    /// The window exists but was put out of sight on a close-request.
    Hidden,
    /// The platform has destroyed the window.
    Destroyed,
}

/// What can happen to a window.
#[derive(Clone, Copy, Debug, PartialEq, Eq, Structural)]
pub enum WindowEvent {
    /// An open-request was served with this window, found or newly built.
    Opened,
    /// An open-request needed a new window and the platform could not build it.
    BuildFailed,
    /// The user asked to close the window.
    CloseRequested,
    /// The platform reports that the window has been destroyed.
    Destroyed,
    /// Any other platform event.
    Other,
}

/// A request to the platform about one window.
#[derive(Clone, Copy, Debug, PartialEq, Eq, Structural)]
pub enum PlatformCall {
    /// Subscribe to the window's close-requests and its destruction.
    ListenForEvents,
    /// Bring the window to the front of the user's current workspace.
    Activate,
    Show,
    Focus,
    /// Suppress the default handling of a close-request.
    PreventClose,
    Hide,
}

/// The state that follows `state` on `event`. Only the platform's report of destruction
/// leads to `Destroyed`, and nothing leads out of it; a close-request hides.
pub open spec fn next_state(state: WindowState, event: WindowEvent) -> WindowState {
    match state {
        WindowState::Destroyed => WindowState::Destroyed,
        WindowState::Absent => match event {
            WindowEvent::Opened => WindowState::Visible,
            _ => WindowState::Absent,
        },
        _ => match event {
            WindowEvent::Opened => WindowState::Visible,
            WindowEvent::CloseRequested => WindowState::Hidden,
            WindowEvent::Destroyed => WindowState::Destroyed,
            _ => state,
        },
    }
}

/// The requests made to the platform when `event` meets a window in `state`, in order.
/// A newly built window is subscribed to, brought to the front, shown and focused; an
/// existing one is shown, brought to the front and focused; a close-request is
/// suppressed and the window hidden. Nothing else calls for anything.
pub open spec fn calls_on(state: WindowState, event: WindowEvent) -> Seq<PlatformCall> {
    match (state, event) {
        (WindowState::Absent, WindowEvent::Opened) => seq![
            PlatformCall::ListenForEvents,
            PlatformCall::Activate,
            PlatformCall::Show,
            PlatformCall::Focus,
        ],
        (WindowState::Visible, WindowEvent::Opened) | (WindowState::Hidden, WindowEvent::Opened) => seq![
            PlatformCall::Show,
            PlatformCall::Activate,
            PlatformCall::Focus,
        ],
        (WindowState::Visible, WindowEvent::CloseRequested)
        | (WindowState::Hidden, WindowEvent::CloseRequested) => seq![
            PlatformCall::PreventClose,
            PlatformCall::Hide,
        ],
        _ => Seq::empty(),
    }
}

/// The records after `event` has reached the window that shows `identity`: the record
/// goes when the window is reported destroyed, and stays on everything else.
pub open spec fn after_window_event(
    m: Map<Seq<char>, Seq<char>>,
    identity: Seq<char>,
    event: WindowEvent,
) -> Map<Seq<char>, Seq<char>> {
    if event == WindowEvent::Destroyed {
        m.remove(identity)
    } else {
        m
    }
}

/// Moves a window from `state` along `event`, and lists what to ask of the platform.
pub fn react(state: WindowState, event: WindowEvent) -> (r: (WindowState, Vec<PlatformCall>))
    ensures
        r.0 == next_state(state, event),
        r.1@ == calls_on(state, event),
{
    match state {
        WindowState::Destroyed => (WindowState::Destroyed, Vec::new()),
        WindowState::Absent => match event {
            WindowEvent::Opened => (
                WindowState::Visible,
                vec![
                    PlatformCall::ListenForEvents,
                    PlatformCall::Activate,
                    PlatformCall::Show,
                    PlatformCall::Focus,
                ],
            ),
            _ => (WindowState::Absent, Vec::new()),
        },
        _ => match event {
            WindowEvent::Opened => (
                WindowState::Visible,
                vec![PlatformCall::Show, PlatformCall::Activate, PlatformCall::Focus],
            ),
            WindowEvent::CloseRequested => (
                WindowState::Hidden,
                vec![PlatformCall::PreventClose, PlatformCall::Hide],
            ),
            WindowEvent::Destroyed => (WindowState::Destroyed, Vec::new()),
            _ => (state, Vec::new()),
        },
    }
}

/// The state in which an open-request finds the window that `plan` speaks of.
pub open spec fn state_met_by(plan: OpenPlanView) -> WindowState {
    match plan {
        OpenPlanView::Reuse { .. } => WindowState::Hidden,
        OpenPlanView::Create { .. } => WindowState::Absent,
    }
}

/// What to ask of the platform once the window of `plan` is at hand: found, or built
/// with success.
pub fn calls_for(plan: &OpenPlan) -> (r: Vec<PlatformCall>)
    ensures
        r@ == calls_on(state_met_by(plan@), WindowEvent::Opened),
{
    match plan {
        OpenPlan::Reuse { .. } => react(WindowState::Hidden, WindowEvent::Opened).1,
        OpenPlan::Create { .. } => react(WindowState::Absent, WindowEvent::Opened).1,
    }
}

/// Brings the records up to date with `event` on the window that shows `identity`.
pub fn note_window_event(registry: &mut SessionRegistry, identity: &str, event: WindowEvent)
    ensures
        final(registry)@ == after_window_event(old(registry)@, identity@, event),
{
    match event {
        WindowEvent::Destroyed => {
            registry.remove(identity);
        },
        _ => {},
    }
}

} // verus!
