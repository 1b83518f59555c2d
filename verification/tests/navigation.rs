use gdata_explorer::data::{Key, NamespaceId, Value};
use gdata_explorer::input::{classify_key, KeyCode, KeyInput, UiEvent};
use gdata_explorer::state::{
    complete_enter, complete_move, first_fetch_key, load_home, update, AppState, Transition,
};

/// An in-memory store standing in for the asynchronous store engine: a list
/// of namespaces in enumeration order, each with its flattened key listing.
struct MockStore {
    namespaces: Vec<(Vec<u8>, Vec<Vec<u8>>)>,
}

impl MockStore {
    fn list_namespaces(&self) -> Vec<NamespaceId> {
        self.namespaces
            .iter()
            .map(|(ns, _)| NamespaceId::new(ns.clone()))
            .collect()
    }

    fn list_entries_recursive(&self, ns: &NamespaceId) -> Vec<Key> {
        self.namespaces
            .iter()
            .find(|(n, _)| *n == ns.bytes)
            .expect("unknown namespace")
            .1
            .iter()
            .map(|k| Key::new(k.clone()))
            .collect()
    }

    fn get_value(&self, ns: &NamespaceId, key: &Key) -> Value {
        let mut bytes = ns.bytes.clone();
        bytes.push(b'/');
        bytes.extend_from_slice(&key.bytes);
        Value::new(bytes)
    }

    fn root_value(&self, ns: &NamespaceId) -> Value {
        let mut bytes = ns.bytes.clone();
        bytes.push(b'/');
        Value::new(bytes)
    }
}

enum Outcome {
    Continue(AppState),
    Quit,
}

/// Drives one event to completion the way the event loop does: update, then
/// perform whatever store fetch the transition demands and install it.
fn drive(store: &MockStore, s: AppState, e: UiEvent) -> Outcome {
    assert!(s.check_wf(), "state must be a fully formed screen");
    match update(s, e) {
        Transition::Stay(s2) => Outcome::Continue(s2),
        Transition::Exit => Outcome::Quit,
        Transition::EnterNamespace(ns) => {
            let entries = store.list_entries_recursive(&ns);
            let value = match first_fetch_key(&entries) {
                Some(k) => store.get_value(&ns, &k),
                None => store.root_value(&ns),
            };
            Outcome::Continue(complete_enter(ns, entries, value))
        }
        Transition::ReloadHome => Outcome::Continue(load_home(store.list_namespaces())),
        Transition::RefetchValue(v, k) => {
            let value = store.get_value(&v.ns, &k);
            Outcome::Continue(complete_move(v, value))
        }
    }
}

fn drive_on(store: &MockStore, s: AppState, e: UiEvent) -> AppState {
    match drive(store, s, e) {
        Outcome::Continue(s2) => s2,
        Outcome::Quit => panic!("unexpected quit"),
    }
}

fn two_namespace_store() -> MockStore {
    MockStore {
        namespaces: vec![
            (b"N1".to_vec(), vec![b"a".to_vec(), b"b".to_vec(), b"c".to_vec()]),
            (b"N2".to_vec(), vec![b"x".to_vec()]),
        ],
    }
}

fn home_of(s: &AppState) -> &gdata_explorer::state::HomeState {
    match s {
        AppState::Home(h) => h,
        _ => panic!("expected the Home screen"),
    }
}

fn view_of(s: &AppState) -> &gdata_explorer::state::NamespaceViewState {
    match s {
        AppState::NamespaceView(v) => v,
        _ => panic!("expected a namespace view"),
    }
}

#[test]
fn classify_maps_every_recognized_key() {
    let plain = |code| KeyInput { code, ctrl: false };
    assert_eq!(classify_key(&plain(KeyCode::Char('q'))), UiEvent::Quit);
    assert_eq!(
        classify_key(&KeyInput { code: KeyCode::Char('c'), ctrl: true }),
        UiEvent::Quit
    );
    assert_eq!(classify_key(&plain(KeyCode::Char('c'))), UiEvent::Other);
    assert_eq!(classify_key(&plain(KeyCode::Up)), UiEvent::MoveUp);
    assert_eq!(classify_key(&plain(KeyCode::Char('k'))), UiEvent::MoveUp);
    assert_eq!(classify_key(&plain(KeyCode::Down)), UiEvent::MoveDown);
    assert_eq!(classify_key(&plain(KeyCode::Char('j'))), UiEvent::MoveDown);
    assert_eq!(classify_key(&plain(KeyCode::Enter)), UiEvent::Activate);
    assert_eq!(classify_key(&plain(KeyCode::Esc)), UiEvent::Escape);
    assert_eq!(classify_key(&plain(KeyCode::Char('?'))), UiEvent::ToggleHelp);
    assert_eq!(classify_key(&plain(KeyCode::Char('z'))), UiEvent::Other);
    assert_eq!(classify_key(&plain(KeyCode::Other)), UiEvent::Other);
    // The quit key wins over every other reading of the same key.
    assert_eq!(
        classify_key(&KeyInput { code: KeyCode::Char('q'), ctrl: true }),
        UiEvent::Quit
    );
}

#[test]
fn quit_exits_from_home() {
    let store = two_namespace_store();
    let s = load_home(store.list_namespaces());
    assert!(matches!(drive(&store, s, UiEvent::Quit), Outcome::Quit));
}

#[test]
fn quit_exits_from_namespace_view() {
    let store = two_namespace_store();
    let s = load_home(store.list_namespaces());
    let s = drive_on(&store, s, UiEvent::Activate);
    assert!(matches!(&s, AppState::NamespaceView(_)));
    assert!(matches!(drive(&store, s, UiEvent::Quit), Outcome::Quit));
}

#[test]
fn home_moves_never_change_the_snapshot() {
    let store = MockStore {
        namespaces: vec![
            (b"A".to_vec(), vec![]),
            (b"B".to_vec(), vec![]),
            (b"C".to_vec(), vec![]),
        ],
    };
    let mut s = load_home(store.list_namespaces());
    let moves = [
        UiEvent::MoveDown,
        UiEvent::MoveDown,
        UiEvent::MoveUp,
        UiEvent::MoveDown,
        UiEvent::MoveDown,
        UiEvent::MoveUp,
    ];
    let mut expected_sel = 0usize;
    for e in moves {
        expected_sel = match e {
            UiEvent::MoveDown => (expected_sel + 1) % 3,
            _ => if expected_sel == 0 { 2 } else { expected_sel - 1 },
        };
        s = drive_on(&store, s, e);
        let h = home_of(&s);
        let listed: Vec<&[u8]> = h.namespaces.iter().map(|n| n.bytes.as_slice()).collect();
        assert_eq!(listed, vec![b"A".as_slice(), b"B".as_slice(), b"C".as_slice()]);
        assert_eq!(h.cursor.selected, Some(expected_sel));
    }
}

#[test]
fn toggle_help_flips_only_the_overlay() {
    let store = two_namespace_store();
    let s = load_home(store.list_namespaces());
    assert!(!home_of(&s).show_help);
    let s = drive_on(&store, s, UiEvent::ToggleHelp);
    assert!(home_of(&s).show_help);
    assert_eq!(home_of(&s).cursor.selected, Some(0));
    let s = drive_on(&store, s, UiEvent::ToggleHelp);
    assert!(!home_of(&s).show_help);
}

#[test]
fn value_follows_cursor_on_every_move() {
    let store = two_namespace_store();
    let s = load_home(store.list_namespaces());
    let mut s = drive_on(&store, s, UiEvent::Activate);
    let moves = [
        UiEvent::MoveDown,
        UiEvent::MoveUp,
        UiEvent::MoveUp,
        UiEvent::MoveDown,
        UiEvent::MoveDown,
        UiEvent::MoveDown,
        UiEvent::MoveDown,
    ];
    for e in moves {
        s = drive_on(&store, s, e);
        let v = view_of(&s);
        let i = v.cursor.selected.expect("non-empty listing keeps a selection");
        assert_eq!(v.current_value, store.get_value(&v.ns, &v.entries[i]));
    }
}

#[test]
fn round_trip_home_enter_escape_refetches() {
    let mut store = two_namespace_store();
    let s = load_home(store.list_namespaces());
    let s = drive_on(&store, s, UiEvent::Activate);
    assert!(matches!(&s, AppState::NamespaceView(_)));
    // The store gains a namespace while the view is open; escaping must show
    // a freshly drained listing, not the one cached before entry.
    store.namespaces.push((b"N3".to_vec(), vec![]));
    let s = drive_on(&store, s, UiEvent::Escape);
    let h = home_of(&s);
    let listed: Vec<&[u8]> = h.namespaces.iter().map(|n| n.bytes.as_slice()).collect();
    assert_eq!(listed, vec![b"N1".as_slice(), b"N2".as_slice(), b"N3".as_slice()]);
    assert_eq!(h.cursor.selected, Some(0));
    assert!(!h.show_help);
}

#[test]
fn end_to_end_two_namespaces() {
    let store = two_namespace_store();
    // Load Home: the cursor selects index 0, namespace N1, by default.
    let s = load_home(store.list_namespaces());
    {
        let h = home_of(&s);
        assert_eq!(h.cursor.selected, Some(0));
        assert_eq!(h.namespaces[0].bytes, b"N1".to_vec());
    }
    // Enter: the view of N1 with entries [a, b, c], cursor on "a", and the
    // value fetched for (N1, "a") displayed.
    let s = drive_on(&store, s, UiEvent::Activate);
    {
        let v = view_of(&s);
        assert_eq!(v.ns.bytes, b"N1".to_vec());
        let keys: Vec<&[u8]> = v.entries.iter().map(|k| k.bytes.as_slice()).collect();
        assert_eq!(keys, vec![b"a".as_slice(), b"b".as_slice(), b"c".as_slice()]);
        assert_eq!(v.cursor.selected, Some(0));
        assert_eq!(v.current_value, store.get_value(&v.ns, &v.entries[0]));
    }
    // Two moves down: cursor on "c", value fetched for (N1, "c").
    let s = drive_on(&store, s, UiEvent::MoveDown);
    let s = drive_on(&store, s, UiEvent::MoveDown);
    {
        let v = view_of(&s);
        assert_eq!(v.cursor.selected, Some(2));
        assert_eq!(v.entries[2].bytes, b"c".to_vec());
        assert_eq!(v.current_value, store.get_value(&v.ns, &v.entries[2]));
    }
    // One more move down wraps back to "a".
    let s = drive_on(&store, s, UiEvent::MoveDown);
    {
        let v = view_of(&s);
        assert_eq!(v.cursor.selected, Some(0));
        assert_eq!(v.current_value, store.get_value(&v.ns, &v.entries[0]));
    }
    // Escape returns to Home with the cursor again at index 0.
    let s = drive_on(&store, s, UiEvent::Escape);
    assert_eq!(home_of(&s).cursor.selected, Some(0));
}

#[test]
fn empty_namespace_list_ignores_moves_and_activate() {
    let store = MockStore { namespaces: vec![] };
    let mut s = load_home(store.list_namespaces());
    assert_eq!(home_of(&s).cursor.selected, None);
    for e in [UiEvent::MoveUp, UiEvent::MoveDown, UiEvent::Activate] {
        s = drive_on(&store, s, e);
        let h = home_of(&s);
        assert_eq!(h.cursor.selected, None);
        assert!(h.namespaces.is_empty());
    }
}

#[test]
fn namespace_without_keys_shows_root_and_ignores_moves() {
    let store = MockStore {
        namespaces: vec![(b"N1".to_vec(), vec![])],
    };
    let s = load_home(store.list_namespaces());
    let mut s = drive_on(&store, s, UiEvent::Activate);
    {
        let v = view_of(&s);
        assert_eq!(v.cursor.selected, None);
        assert!(v.entries.is_empty());
        assert_eq!(v.current_value, store.root_value(&v.ns));
    }
    for e in [UiEvent::MoveUp, UiEvent::MoveDown] {
        s = drive_on(&store, s, e);
        let v = view_of(&s);
        assert_eq!(v.cursor.selected, None);
        assert_eq!(v.current_value, store.root_value(&v.ns));
    }
}

#[test]
fn activate_picks_the_selected_namespace() {
    let store = two_namespace_store();
    let s = load_home(store.list_namespaces());
    let s = drive_on(&store, s, UiEvent::MoveDown);
    let s = drive_on(&store, s, UiEvent::Activate);
    let v = view_of(&s);
    assert_eq!(v.ns.bytes, b"N2".to_vec());
    assert_eq!(v.entries.len(), 1);
    assert_eq!(v.current_value, store.get_value(&v.ns, &v.entries[0]));
}

#[test]
fn unrecognized_events_change_nothing() {
    let store = two_namespace_store();
    let s = load_home(store.list_namespaces());
    let s = drive_on(&store, s, UiEvent::Other);
    {
        let h = home_of(&s);
        assert_eq!(h.cursor.selected, Some(0));
        assert!(!h.show_help);
        assert_eq!(h.namespaces.len(), 2);
    }
    // Escape and help are not acted on from their opposite screens either.
    let s = drive_on(&store, s, UiEvent::Escape);
    assert!(matches!(&s, AppState::Home(_)));
    let s = drive_on(&store, s, UiEvent::Activate);
    let s = drive_on(&store, s, UiEvent::ToggleHelp);
    let s = drive_on(&store, s, UiEvent::Other);
    let v = view_of(&s);
    assert_eq!(v.cursor.selected, Some(0));
    assert_eq!(v.current_value, store.get_value(&v.ns, &v.entries[0]));
}

#[test]
fn default_state_is_transient_and_rejected() {
    let s = AppState::default();
    assert!(matches!(s, AppState::Uninitialized));
    assert!(!s.check_wf());
}
