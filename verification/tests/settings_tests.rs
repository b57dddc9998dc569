use asr_debugger::settings::SettingsMap;
use asr_debugger::settings::SettingsStore;
use asr_debugger::settings::SettingsValue;

fn key(s: &str) -> String {
    String::from(s)
}

#[test]
fn insert_and_get_roundtrip() {
    let mut m = SettingsMap::new();
    m.insert(key("speed"), SettingsValue::I64(42));
    m.insert(key("enabled"), SettingsValue::Bool(true));
    match m.get(&key("speed")) {
        Some(SettingsValue::I64(v)) => assert_eq!(*v, 42),
        _ => panic!("speed missing"),
    }
    match m.get(&key("enabled")) {
        Some(SettingsValue::Bool(v)) => assert!(*v),
        _ => panic!("enabled missing"),
    }
    assert!(m.get(&key("absent")).is_none());
}

#[test]
fn insert_overwrites_in_place_and_keeps_order() {
    let mut m = SettingsMap::new();
    m.insert(key("a"), SettingsValue::I64(1));
    m.insert(key("b"), SettingsValue::I64(2));
    m.insert(key("a"), SettingsValue::I64(3));
    assert_eq!(m.entries.len(), 2);
    assert_eq!(&*m.entries[0].0, "a");
    assert!(matches!(m.entries[0].1, SettingsValue::I64(3)));
    assert_eq!(&*m.entries[1].0, "b");
}

#[test]
fn duplicate_is_independent() {
    let mut m = SettingsMap::new();
    m.insert(key("x"), SettingsValue::Text(String::from("one")));
    let mut copy = m.duplicate();
    copy.insert(key("x"), SettingsValue::Text(String::from("two")));
    match m.get(&key("x")) {
        Some(SettingsValue::Text(s)) => assert_eq!(&**s, "one"),
        _ => panic!("x missing"),
    }
    match copy.get(&key("x")) {
        Some(SettingsValue::Text(s)) => assert_eq!(&**s, "two"),
        _ => panic!("x missing in copy"),
    }
}

#[test]
fn nested_maps_and_lists_survive_the_snapshot() {
    let mut inner = SettingsMap::new();
    inner.insert(key("depth"), SettingsValue::I64(7));
    let list = vec![SettingsValue::Bool(false), SettingsValue::F64Bits(0x3FF0000000000000)];
    let mut m = SettingsMap::new();
    m.insert(key("inner"), SettingsValue::Nested(inner));
    m.insert(key("list"), SettingsValue::List(list));
    let copy = m.duplicate();
    match copy.get(&key("inner")) {
        Some(SettingsValue::Nested(im)) => match im.get(&key("depth")) {
            Some(SettingsValue::I64(v)) => assert_eq!(*v, 7),
            _ => panic!("depth missing"),
        },
        _ => panic!("inner missing"),
    }
    match copy.get(&key("list")) {
        Some(SettingsValue::List(vs)) => {
            assert_eq!(vs.len(), 2);
            assert!(matches!(vs[0], SettingsValue::Bool(false)));
            assert!(matches!(vs[1], SettingsValue::F64Bits(0x3FF0000000000000)));
        },
        _ => panic!("list missing"),
    }
}

#[test]
fn compare_and_swap_rejects_a_stale_version() {
    let mut store = SettingsStore::new();
    let (v0, snap0) = store.read();
    assert_eq!(v0, 0);
    let mut edited = snap0;
    edited.insert(key("a"), SettingsValue::Bool(true));
    assert!(store.compare_and_swap(v0, edited));
    assert_eq!(store.version, 1);
    let mut stale = SettingsMap::new();
    stale.insert(key("b"), SettingsValue::Bool(false));
    assert!(!store.compare_and_swap(v0, stale));
    assert_eq!(store.version, 1);
    assert!(store.snapshot.get(&key("b")).is_none());
}

#[test]
fn commit_edit_applies_one_key() {
    let mut store = SettingsStore::new();
    store.commit_edit(&key("speed"), &SettingsValue::I64(9));
    assert_eq!(store.version, 1);
    match store.snapshot.get(&key("speed")) {
        Some(SettingsValue::I64(v)) => assert_eq!(*v, 9),
        _ => panic!("speed missing"),
    }
}

#[test]
fn racing_writers_on_disjoint_keys_both_land() {
    let mut store = SettingsStore::new();

    // Both writers read the same starting snapshot.
    let (base_a, snap_a) = store.read();
    let (base_b, snap_b) = store.read();

    // Writer A prepares and commits first.
    let mut edit_a = snap_a;
    edit_a.insert(key("a"), SettingsValue::I64(1));
    assert!(store.compare_and_swap(base_a, edit_a));

    // Writer B's first attempt loses the race and is rejected.
    let mut edit_b = snap_b;
    edit_b.insert(key("b"), SettingsValue::I64(2));
    assert!(!store.compare_and_swap(base_b, edit_b));

    // Writer B retries from the now-current snapshot and succeeds.
    let (base_b2, snap_b2) = store.read();
    let mut edit_b2 = snap_b2;
    edit_b2.insert(key("b"), SettingsValue::I64(2));
    assert!(store.compare_and_swap(base_b2, edit_b2));

    // Neither edit was lost.
    match store.snapshot.get(&key("a")) {
        Some(SettingsValue::I64(v)) => assert_eq!(*v, 1),
        _ => panic!("a lost"),
    }
    match store.snapshot.get(&key("b")) {
        Some(SettingsValue::I64(v)) => assert_eq!(*v, 2),
        _ => panic!("b lost"),
    }
}

#[test]
fn racing_writers_on_the_same_key_keep_the_last_commit() {
    let mut store = SettingsStore::new();
    store.commit_edit(&key("winner"), &SettingsValue::Text(String::from("first")));
    store.commit_edit(&key("winner"), &SettingsValue::Text(String::from("second")));
    match store.snapshot.get(&key("winner")) {
        Some(SettingsValue::Text(s)) => assert_eq!(&**s, "second"),
        _ => panic!("winner missing"),
    }
    assert_eq!(store.version, 2);
}
