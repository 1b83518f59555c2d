//! The navigation state machine.
//!
//! The machine owns the current screen — the Home list of namespaces or the
//! view of one namespace — and decides, for every screen and event, the next
//! screen. Store enumeration is asynchronous and lives with the driving
//! program, so a transition that needs store data is returned as an explicit
//! demand ([`Transition`]): the driver performs the fetch and hands the
//! result to the matching completion function (`load_home`,
//! `complete_enter`, `complete_move`), which installs it. Every screen the
//! machine hands back is well formed: its cursor is unset exactly when its
//! listing is empty, and otherwise a valid index.
//!
//! Listings are snapshots. They are drained fully by the driver before a
//! screen is built from them, they are never changed while the screen is
//! current, and a fresh snapshot is taken only on explicit (re)entry —
//! opening a namespace or backing out of one.

use crate::cursor::{
    cursor_wf, lemma_moves_preserve_wf, next_spec, prev_spec, Cursor,
};
use crate::data::{Key, NamespaceId, Value};
use crate::input::UiEvent;
use vstd::prelude::*;

verus! {

/// The Home screen: a snapshot of the store's namespace listing, the cursor
/// over it, and whether the help overlay is shown.
#[derive(Debug)]
pub struct HomeState {
    pub namespaces: Vec<NamespaceId>,
    pub cursor: Cursor,
    pub show_help: bool,
}

impl HomeState {
    /// The cursor is unset exactly when the namespace listing is empty,
    /// otherwise a valid index into it.
    pub open spec fn wf(self) -> bool {
        cursor_wf(self.cursor.selected, self.namespaces@.len())
    }
}

/// The view of one namespace: a snapshot of its recursively flattened key
/// listing, the cursor over it, and the value materialized for the current
/// selection.
#[derive(Debug)]
pub struct NamespaceViewState {
    pub ns: NamespaceId,
    pub entries: Vec<Key>,
    pub cursor: Cursor,
    pub current_value: Value,
}

impl NamespaceViewState {
    /// The cursor is unset exactly when the key listing is empty, otherwise
    /// a valid index into it.
    pub open spec fn wf(self) -> bool {
        cursor_wf(self.cursor.selected, self.entries@.len())
    }
}

/// The screens, one of which is current at every observable moment. The
/// `Uninitialized` tag exists only while a transition is in flight; the
/// machine never hands it back, and [`update`] refuses to start from it.
#[derive(Debug)]
pub enum AppState {
    Uninitialized,
    Home(HomeState),
    NamespaceView(NamespaceViewState),
}

impl AppState {
    /// A fully formed screen with a valid cursor. Never `Uninitialized`.
    pub open spec fn wf(self) -> bool {
        match self {
            AppState::Uninitialized => false,
            AppState::Home(h) => h.wf(),
            AppState::NamespaceView(v) => v.wf(),
        }
    }

    /// Whether this is a fully formed screen with a valid cursor. The
    /// driving program checks this before every update, and treats `false`
    /// as the unrecoverable defect it is.
    pub fn check_wf(&self) -> (r: bool)
        ensures
            r == self.wf(),
    {
        match self {
            AppState::Uninitialized => false,
            AppState::Home(h) => h.cursor.in_range(h.namespaces.len()),
            AppState::NamespaceView(v) => v.cursor.in_range(v.entries.len()),
        }
    }
}

impl Default for AppState {
    /// The transient tag a transition in flight leaves behind; it must be
    /// replaced by a fully formed screen before the next observation.
    fn default() -> (s: Self)
        ensures
            s is Uninitialized,
    {
        AppState::Uninitialized
    }
}

/// What one event demands of the driving program. `Stay` and `Exit` are
/// complete in themselves; the other three name the store fetch that must
/// finish — drained to a full snapshot where it is a listing — before the
/// next screen can be built by the matching completion function.
#[derive(Debug)]
pub enum Transition {
    /// The next screen is ready; no store call is needed.
    Stay(AppState),
    /// The user asked to quit: the driver shuts down without rendering again.
    Exit,
    /// Open this namespace: fetch its root value, drain its recursive key
    /// listing, materialize the value for the key `first_fetch_key` picks,
    /// then call [`complete_enter`].
    EnterNamespace(NamespaceId),
    /// Back out to Home: drain a fresh namespace listing, then call
    /// [`load_home`].
    ReloadHome,
    /// The cursor moved within a namespace view: fetch the value for the
    /// named key — the one now under the cursor — then call
    /// [`complete_move`].
    RefetchValue(NamespaceViewState, Key),
}

/// Stay on Home with the listing untouched, the cursor at `sel`, and the
/// help overlay set to `help`.
pub open spec fn home_stays(h: HomeState, t: Transition, sel: Option<usize>, help: bool) -> bool {
    &&& t matches Transition::Stay(AppState::Home(h2))
    &&& h2.namespaces.deep_view() == h.namespaces.deep_view()
    &&& h2.cursor.selected == sel
    &&& h2.show_help == help
}

/// Stay on the namespace view with everything untouched but the cursor,
/// which sits at `sel`.
pub open spec fn view_stays(v: NamespaceViewState, t: Transition, sel: Option<usize>) -> bool {
    &&& t matches Transition::Stay(AppState::NamespaceView(v2))
    &&& v2.ns@ == v.ns@
    &&& v2.entries.deep_view() == v.entries.deep_view()
    &&& v2.current_value@ == v.current_value@
    &&& v2.cursor.selected == sel
}

/// A cursor move on the namespace view. On an empty listing it is a no-op.
/// Otherwise the cursor lands on `sel` and the machine demands a refetch of
/// the value for exactly the key now under the cursor: the view is never
/// left showing the value of a key the cursor has moved away from.
pub open spec fn move_post(v: NamespaceViewState, t: Transition, sel: Option<usize>) -> bool {
    if v.entries@.len() == 0 {
        view_stays(v, t, v.cursor.selected)
    } else {
        &&& t matches Transition::RefetchValue(v2, k)
        &&& v2.ns@ == v.ns@
        &&& v2.entries.deep_view() == v.entries.deep_view()
        &&& v2.current_value@ == v.current_value@
        &&& v2.cursor.selected == sel
        &&& sel matches Some(j) && j < v.entries@.len() && k@ == v.entries@[j as int]@
    }
}

/// The transition table: what [`update`] returns for every screen and every
/// event.
pub open spec fn update_post(s: AppState, e: UiEvent, t: Transition) -> bool {
    match s {
        AppState::Uninitialized => true,
        AppState::Home(h) => {
            let len = h.namespaces@.len();
            match e {
                UiEvent::Quit => t is Exit,
                UiEvent::MoveUp => home_stays(h, t, prev_spec(h.cursor.selected, len), h.show_help),
                UiEvent::MoveDown => home_stays(h, t, next_spec(h.cursor.selected, len), h.show_help),
                UiEvent::ToggleHelp => home_stays(h, t, h.cursor.selected, !h.show_help),
                UiEvent::Activate => if len == 0 {
                    home_stays(h, t, h.cursor.selected, h.show_help)
                } else {
                    &&& t matches Transition::EnterNamespace(ns)
                    &&& h.cursor.selected matches Some(i) && ns@ == h.namespaces@[i as int]@
                },
                UiEvent::Escape | UiEvent::Other => home_stays(h, t, h.cursor.selected, h.show_help),
            }
        },
        AppState::NamespaceView(v) => {
            let len = v.entries@.len();
            match e {
                UiEvent::Quit => t is Exit,
                UiEvent::Escape => t is ReloadHome,
                UiEvent::MoveUp => move_post(v, t, prev_spec(v.cursor.selected, len)),
                UiEvent::MoveDown => move_post(v, t, next_spec(v.cursor.selected, len)),
                UiEvent::Activate | UiEvent::ToggleHelp | UiEvent::Other => view_stays(
                    v,
                    t,
                    v.cursor.selected,
                ),
            }
        },
    }
}

/// Every screen a transition leaves current is well formed.
pub open spec fn transition_wf(t: Transition) -> bool {
    match t {
        Transition::Stay(s) => s.wf(),
        Transition::RefetchValue(v, _) => v.wf(),
        _ => true,
    }
}

/// The single entry point of the machine: consumes the current screen and
/// one event, and returns the next screen or the store demand that must
/// complete first. Starting from the transient `Uninitialized` tag is an
/// internal-consistency violation and is ruled out up front.
pub fn update(s: AppState, e: UiEvent) -> (t: Transition)
    requires
        s.wf(),
    ensures
        update_post(s, e, t),
        transition_wf(t),
{
    match s {
        AppState::Uninitialized => vstd::pervasive::unreached(),
        AppState::Home(mut h) => {
            match e {
                UiEvent::Quit => Transition::Exit,
                UiEvent::MoveUp => {
                    let len = h.namespaces.len();
                    proof {
                        lemma_moves_preserve_wf(h.cursor.selected, len as nat);
                    }
                    h.cursor = h.cursor.prev(len);
                    Transition::Stay(AppState::Home(h))
                },
                UiEvent::MoveDown => {
                    let len = h.namespaces.len();
                    proof {
                        lemma_moves_preserve_wf(h.cursor.selected, len as nat);
                    }
                    h.cursor = h.cursor.next(len);
                    Transition::Stay(AppState::Home(h))
                },
                UiEvent::ToggleHelp => {
                    h.show_help = !h.show_help;
                    Transition::Stay(AppState::Home(h))
                },
                UiEvent::Activate => {
                    if h.namespaces.len() == 0 {
                        Transition::Stay(AppState::Home(h))
                    } else {
                        let i = match h.cursor.selected {
                            Some(i) => i,
                            None => 0,
                        };
                        let ns = h.namespaces[i].clone();
                        Transition::EnterNamespace(ns)
                    }
                },
                UiEvent::Escape | UiEvent::Other => Transition::Stay(AppState::Home(h)),
            }
        },
        AppState::NamespaceView(mut v) => {
            match e {
                UiEvent::Quit => Transition::Exit,
                UiEvent::Escape => Transition::ReloadHome,
                UiEvent::MoveUp => {
                    let len = v.entries.len();
                    if len == 0 {
                        Transition::Stay(AppState::NamespaceView(v))
                    } else {
                        proof {
                            lemma_moves_preserve_wf(v.cursor.selected, len as nat);
                        }
                        v.cursor = v.cursor.prev(len);
                        let j = match v.cursor.selected {
                            Some(j) => j,
                            None => 0,
                        };
                        let k = v.entries[j].clone();
                        Transition::RefetchValue(v, k)
                    }
                },
                UiEvent::MoveDown => {
                    let len = v.entries.len();
                    if len == 0 {
                        Transition::Stay(AppState::NamespaceView(v))
                    } else {
                        proof {
                            lemma_moves_preserve_wf(v.cursor.selected, len as nat);
                        }
                        v.cursor = v.cursor.next(len);
                        let j = match v.cursor.selected {
                            Some(j) => j,
                            None => 0,
                        };
                        let k = v.entries[j].clone();
                        Transition::RefetchValue(v, k)
                    }
                },
                UiEvent::Activate | UiEvent::ToggleHelp | UiEvent::Other => Transition::Stay(
                    AppState::NamespaceView(v),
                ),
            }
        },
    }
}

/// Builds the Home screen from a freshly drained namespace listing: cursor
/// on the first namespace when there is one, help overlay hidden. Used at
/// startup and every time the user backs out of a namespace view, so the
/// listing shown on Home is always the one just fetched.
pub fn load_home(namespaces: Vec<NamespaceId>) -> (s: AppState)
    ensures
        (s matches AppState::Home(h) && h.namespaces == namespaces && h.cursor.selected == (
        if namespaces@.len() == 0 {
            Option::<usize>::None
        } else {
            Some(0usize)
        }) && h.show_help == false),
        s.wf(),
{
    let cursor = Cursor::start_of(namespaces.len());
    AppState::Home(HomeState { namespaces, cursor, show_help: false })
}

/// The address whose value is shown on entry into a namespace: the first
/// key of the drained listing, or the namespace root when the listing is
/// empty.
pub fn first_fetch_key(entries: &Vec<Key>) -> (k: Option<Key>)
    ensures
        (match k {
            None => entries@.len() == 0,
            Some(key) => entries@.len() > 0 && key@ == entries@[0]@,
        }),
{
    if entries.len() == 0 {
        None
    } else {
        Some(entries[0].clone())
    }
}

/// Builds the view of namespace `ns` from its freshly drained key listing
/// and the value materialized for the address `first_fetch_key` picked:
/// cursor on the first key when there is one.
pub fn complete_enter(ns: NamespaceId, entries: Vec<Key>, value: Value) -> (s: AppState)
    ensures
        (s matches AppState::NamespaceView(v) && v.ns == ns && v.entries == entries
            && v.current_value == value && v.cursor.selected == (
        if entries@.len() == 0 {
            Option::<usize>::None
        } else {
            Some(0usize)
        })),
        s.wf(),
{
    let cursor = Cursor::start_of(entries.len());
    AppState::NamespaceView(NamespaceViewState { ns, entries, cursor, current_value: value })
}

/// The shape `complete_move` leaves the screen in: the given view with only
/// its value replaced by the one just fetched.
pub open spec fn move_completed(view: NamespaceViewState, value: Value, s: AppState) -> bool {
    &&& s matches AppState::NamespaceView(v2)
    &&& v2.ns == view.ns
    &&& v2.entries == view.entries
    &&& v2.cursor == view.cursor
    &&& v2.current_value == value
}

/// Installs the value fetched for the key under the moved cursor, making
/// the view consistent again: nothing but the shown value changes.
pub fn complete_move(view: NamespaceViewState, value: Value) -> (s: AppState)
    ensures
        move_completed(view, value, s),
        view.wf() ==> s.wf(),
{
    let mut v = view;
    v.current_value = value;
    AppState::NamespaceView(v)
}

/// Snapshot immutability on Home: moving the cursor changes neither the
/// content nor the order of the namespace listing — only the selected
/// index.
pub proof fn lemma_home_snapshot_stable(h: HomeState, e: UiEvent, t: Transition)
    requires
        e is MoveUp || e is MoveDown,
        update_post(AppState::Home(h), e, t),
    ensures
        (t matches Transition::Stay(AppState::Home(h2)) && h2.namespaces.deep_view()
            == h.namespaces.deep_view() && h2.show_help == h.show_help),
{
}

/// Value–cursor coherence: a cursor move on a non-empty namespace view
/// always demands a refetch, for exactly the key under the moved cursor;
/// and once the fetched value is installed, the settled screen shows that
/// value with the cursor still on that key. No transition settles on a
/// screen whose value belongs to a key the cursor has left.
pub proof fn lemma_value_cursor_coherence(
    v: NamespaceViewState,
    e: UiEvent,
    t: Transition,
    fetched: Value,
    s: AppState,
)
    requires
        v.wf(),
        v.entries@.len() > 0,
        e is MoveUp || e is MoveDown,
        update_post(AppState::NamespaceView(v), e, t),
        (t matches Transition::RefetchValue(v2, k) ==> move_completed(v2, fetched, s)),
    ensures
        t is RefetchValue,
        (t matches Transition::RefetchValue(v2, k) ==> {
            &&& s matches AppState::NamespaceView(w)
            &&& w.current_value == fetched
            &&& w.cursor.selected matches Some(j)
            &&& j < w.entries@.len()
            &&& k@ == w.entries@[j as int]@
        }),
{
    if let Transition::RefetchValue(v2, k) = t {
        if let AppState::NamespaceView(w) = s {
            if let Some(j) = v2.cursor.selected {
                assert(v2.entries.deep_view() == v.entries.deep_view());
                assert(j < v.entries@.len());
                assert(v2.entries.deep_view().len() == v2.entries@.len());
                assert(v2.entries@.len() == v.entries@.len());
                assert(v2.entries.deep_view()[j as int] == v2.entries@[j as int].deep_view());
                assert(v.entries.deep_view()[j as int] == v.entries@[j as int].deep_view());
                assert(k@ == w.entries@[j as int]@);
            }
        }
    }
}

/// Backing out of a namespace view always discards it and demands a fresh
/// namespace listing: the only continuation of an escape is `load_home` on
/// a listing drained after the escape, never the previously cached one.
pub proof fn lemma_escape_reloads_home(v: NamespaceViewState, t: Transition)
    requires
        update_post(AppState::NamespaceView(v), UiEvent::Escape, t),
    ensures
        t is ReloadHome,
{
}

/// Quit wins everywhere: from either screen, the quit event ends the run —
/// the machine demands no fetch and hands back no further screen.
pub proof fn lemma_quit_exits(s: AppState, t: Transition)
    requires
        s is Home || s is NamespaceView,
        update_post(s, UiEvent::Quit, t),
    ensures
        t is Exit,
{
}

} // verus!
