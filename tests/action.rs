use squeekboard::{Action, KeySym, Modifier};

fn s(v: &str) -> String {
    v.to_string()
}

fn lock_xyz() -> Action {
    Action::LockView {
        lock: s("x"),
        unlock: s("y"),
        latches: true,
        looks_locked_from: vec![s("z")],
    }
}

fn other_variants() -> Vec<Action> {
    vec![
        Action::ApplyModifier(Modifier::Control),
        Action::ApplyModifier(Modifier::Alt),
        Action::ApplyModifier(Modifier::Mod4),
        Action::Submit { text: Some(b"a".to_vec()), keys: vec![KeySym(s("a"))] },
        Action::Submit { text: None, keys: vec![] },
        Action::Erase,
        Action::ShowPreferences,
    ]
}

#[test]
fn only_lock_view_is_locked() {
    let mut actions = other_variants();
    actions.push(Action::SetView(s("a")));
    for a in &actions {
        for v in ["", "a", "x", "z"] {
            assert!(!a.is_locked(v));
        }
    }
}

#[test]
fn only_lock_view_has_locked_appearance() {
    let mut actions = other_variants();
    actions.push(Action::SetView(s("z")));
    for a in &actions {
        for v in ["", "a", "z"] {
            assert!(!a.has_locked_appearance_from(v));
        }
    }
}

#[test]
fn other_variants_are_never_active() {
    for a in &other_variants() {
        for v in ["", "a", "x"] {
            assert!(!a.is_active(v));
        }
    }
}

#[test]
fn set_view_queries() {
    let a = Action::SetView(s("a"));
    assert!(a.is_active("a"));
    assert!(!a.is_active("b"));
    assert!(!a.is_locked("a"));
    assert!(!a.is_locked("b"));
    assert!(!a.has_locked_appearance_from("a"));
}

#[test]
fn lock_view_queries() {
    let a = lock_xyz();
    assert!(a.is_locked("x"));
    assert!(!a.is_locked("y"));
    assert!(a.is_active("x"));
    assert!(!a.is_active("y"));
    assert!(a.has_locked_appearance_from("z"));
    assert!(!a.has_locked_appearance_from("x"));
}

#[test]
fn lock_view_self_toggle() {
    let a = Action::LockView {
        lock: s("x"),
        unlock: s("x"),
        latches: false,
        looks_locked_from: vec![],
    };
    assert!(a.is_locked("x"));
    assert!(a.is_active("x"));
    assert!(!a.has_locked_appearance_from("x"));
}

#[test]
fn names_compare_by_every_character() {
    let a = Action::LockView {
        lock: s("symbols"),
        unlock: s("base"),
        latches: false,
        looks_locked_from: vec![s("numbers"), s("übersicht")],
    };
    assert!(a.is_locked("symbols"));
    assert!(!a.is_locked("symbol"));
    assert!(!a.is_locked("symbolz"));
    assert!(!a.is_locked(""));
    assert!(a.has_locked_appearance_from("übersicht"));
    assert!(a.has_locked_appearance_from("numbers"));
    assert!(!a.has_locked_appearance_from("uebersicht"));
    assert!(!a.has_locked_appearance_from("base"));
}

#[test]
fn equal_fields_compare_equal() {
    assert_eq!(lock_xyz(), lock_xyz());
    assert_eq!(Action::SetView(s("a")), Action::SetView(s("a")));
    assert_eq!(Action::Erase, Action::Erase);
    assert_eq!(Action::ShowPreferences, Action::ShowPreferences);
    assert_eq!(Action::ApplyModifier(Modifier::Alt), Action::ApplyModifier(Modifier::Alt));
    assert_eq!(
        Action::Submit { text: Some(b"hi".to_vec()), keys: vec![KeySym(s("h")), KeySym(s("i"))] },
        Action::Submit { text: Some(b"hi".to_vec()), keys: vec![KeySym(s("h")), KeySym(s("i"))] },
    );
    assert_eq!(lock_xyz().clone(), lock_xyz());
}

#[test]
fn one_differing_field_compares_unequal() {
    let base = lock_xyz();
    let changes = vec![
        Action::LockView { lock: s("w"), unlock: s("y"), latches: true, looks_locked_from: vec![s("z")] },
        Action::LockView { lock: s("x"), unlock: s("w"), latches: true, looks_locked_from: vec![s("z")] },
        Action::LockView { lock: s("x"), unlock: s("y"), latches: false, looks_locked_from: vec![s("z")] },
        Action::LockView { lock: s("x"), unlock: s("y"), latches: true, looks_locked_from: vec![] },
        Action::LockView { lock: s("x"), unlock: s("y"), latches: true, looks_locked_from: vec![s("w")] },
        Action::SetView(s("x")),
    ];
    for c in &changes {
        assert_ne!(&base, c);
    }
    assert_ne!(Action::SetView(s("a")), Action::SetView(s("b")));
    assert_ne!(Action::ApplyModifier(Modifier::Alt), Action::ApplyModifier(Modifier::Mod4));
    assert_ne!(Action::Erase, Action::ShowPreferences);
}

#[test]
fn looks_locked_from_order_counts_for_equality() {
    let a = Action::LockView {
        lock: s("x"),
        unlock: s("y"),
        latches: true,
        looks_locked_from: vec![s("p"), s("q")],
    };
    let b = Action::LockView {
        lock: s("x"),
        unlock: s("y"),
        latches: true,
        looks_locked_from: vec![s("q"), s("p")],
    };
    assert_ne!(a, b);
    assert!(a.has_locked_appearance_from("q"));
    assert!(b.has_locked_appearance_from("p"));
}

#[test]
fn absent_text_differs_from_empty_text() {
    let absent = Action::Submit { text: None, keys: vec![KeySym(s("a"))] };
    let empty = Action::Submit { text: Some(vec![]), keys: vec![KeySym(s("a"))] };
    assert_ne!(absent, empty);
    assert_ne!(
        Action::Submit { text: Some(b"ab".to_vec()), keys: vec![] },
        Action::Submit { text: Some(b"ac".to_vec()), keys: vec![] },
    );
    assert_ne!(
        Action::Submit { text: None, keys: vec![KeySym(s("a")), KeySym(s("b"))] },
        Action::Submit { text: None, keys: vec![KeySym(s("b")), KeySym(s("a"))] },
    );
}

#[test]
fn keysyms_compare_by_name() {
    assert_eq!(KeySym(s("Return")), KeySym(s("Return")));
    assert_ne!(KeySym(s("Return")), KeySym(s("BackSpace")));
}
