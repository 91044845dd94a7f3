//! The symbol object, defining actions that the key can do when activated.

use vstd::prelude::*;
use vstd::std_specs::cmp::PartialEqSpec;
use vstd::string::StrSliceExecFns;

verus! {

/// Whether two view names are the same sequence of characters.
fn same_name(a: &str, b: &str) -> (r: bool)
    ensures
        r == (a@ == b@),
{
    let n: usize = a.unicode_len();
    if n != b.unicode_len() {
        return false;
    }
    let mut i: usize = 0;
    while i < n
        invariant
            n == a@.len(),
            n == b@.len(),
            i <= n,
            forall|k: int| 0 <= k < i ==> a@[k] == b@[k],
        decreases n - i,
    {
        if a.get_char(i) != b.get_char(i) {
            return false;
        }
        i = i + 1;
    }
    assert(a@ =~= b@);
    true
}

/// Name of the keysym.
#[derive(Debug, Clone)]
pub struct KeySym(pub String);

impl View for KeySym {
    type V = Seq<char>;

    open spec fn view(&self) -> Seq<char> {
        self.0@
    }
}

/// Use to switch views.
type ViewName = String;

/// Use to send modified keypresses.
#[derive(Debug, Clone, Copy, PartialEq, Eq, Structural, Hash)]
pub enum Modifier {
    /// Control and Alt are the only modifiers
    /// which don't interfere with levels,
    /// so they are simple to implement, as levels are deprecated.
    Control,
    Alt,
    Mod4,
}

/// Action to perform on the keypress and, in reverse, on keyrelease.
#[derive(Debug, Clone)]
pub enum Action {
    /// Switch to this view
    SetView(ViewName),
    /// Switch to a view and latch
    LockView {
        lock: ViewName,
        /// When unlocked by pressing it or emitting a key
        unlock: ViewName,
        /// Whether key has a latched state
        /// that pops when another key is pressed.
        latches: bool,
        /// Should take on *locked* appearance whenever latch comes back to those views.
        looks_locked_from: Vec<ViewName>,
    },
    /// Hold this modifier for as long as the button is pressed
    ApplyModifier(Modifier),
    /// Submit some text
    Submit {
        /// Text to submit with input-method.
        /// If None, then keys are to be submitted instead.
        text: Option<Vec<u8>>,
        /// The key events this symbol submits when submitting text is not possible
        keys: Vec<KeySym>,
    },
    /// Erase a position behind the cursor
    Erase,
    ShowPreferences,
}

/// The mathematical value of an [`Action`]: view names as character
/// sequences, the text as a byte sequence, keysyms by their names.
pub enum ActionModel {
    SetView(Seq<char>),
    LockView {
        lock: Seq<char>,
        unlock: Seq<char>,
        latches: bool,
        looks_locked_from: Seq<Seq<char>>,
    },
    ApplyModifier(Modifier),
    Submit { text: Option<Seq<u8>>, keys: Seq<Seq<char>> },
    Erase,
    ShowPreferences,
}

/// The names of a list of views, in order.
pub open spec fn names_of(v: Seq<ViewName>) -> Seq<Seq<char>> {
    v.map_values(|s: ViewName| s@)
}

/// The names of a list of keysyms, in order.
pub open spec fn keysym_names_of(v: Seq<KeySym>) -> Seq<Seq<char>> {
    v.map_values(|k: KeySym| k@)
}

impl View for Action {
    type V = ActionModel;

    open spec fn view(&self) -> ActionModel {
        match self {
            Action::SetView(view) => ActionModel::SetView(view@),
            Action::LockView { lock, unlock, latches, looks_locked_from } => ActionModel::LockView {
                lock: lock@,
                unlock: unlock@,
                latches: *latches,
                looks_locked_from: names_of(looks_locked_from@),
            },
            Action::ApplyModifier(m) => ActionModel::ApplyModifier(*m),
            Action::Submit { text, keys } => ActionModel::Submit {
                text: match text {
                    Some(t) => Some(t@),
                    None => None,
                },
                keys: keysym_names_of(keys@),
            },
            Action::Erase => ActionModel::Erase,
            Action::ShowPreferences => ActionModel::ShowPreferences,
        }
    }
}

impl ActionModel {
    /// A lock whose target is `view`.
    pub open spec fn locks(self, view: Seq<char>) -> bool {
        self matches ActionModel::LockView { lock, .. } && lock == view
    }

    /// A lock that is drawn as locked while `view` is shown.
    pub open spec fn looks_locked_in(self, view: Seq<char>) -> bool {
        self matches ActionModel::LockView { looks_locked_from, .. }
            && looks_locked_from.contains(view)
    }

    /// A view switch or a lock whose target is `view`.
    pub open spec fn activates(self, view: Seq<char>) -> bool {
        ||| self matches ActionModel::SetView(v) && v == view
        ||| self.locks(view)
    }
}

/// Whether `name` is one of `views`.
fn contains_name(views: &Vec<ViewName>, name: &str) -> (r: bool)
    ensures
        r == names_of(views@).contains(name@),
{
    let mut i: usize = 0;
    while i < views.len()
        invariant
            i <= views@.len(),
            forall|k: int| 0 <= k < i ==> views@[k]@ != name@,
        decreases views@.len() - i,
    {
        if same_name(views[i].as_str(), name) {
            assert(names_of(views@)[i as int] == name@);
            return true;
        }
        i = i + 1;
    }
    assert(!names_of(views@).contains(name@)) by {
        if names_of(views@).contains(name@) {
            let k = choose|k: int| 0 <= k < names_of(views@).len() && names_of(views@)[k] == name@;
            assert(views@[k]@ == name@);
        }
    }
    false
}

impl Action {
    /// Whether this key locks `view_name`.
    pub fn is_locked(&self, view_name: &str) -> (r: bool)
        ensures
            r == self@.locks(view_name@),
            !(self is LockView) ==> !r,
    {
        match self {
            Action::LockView { lock, .. } => same_name(lock.as_str(), view_name),
            _ => false,
        }
    }

    /// Whether this key is drawn as locked while `locked_view_name` is shown.
    pub fn has_locked_appearance_from(&self, locked_view_name: &str) -> (r: bool)
        ensures
            r == self@.looks_locked_in(locked_view_name@),
            !(self is LockView) ==> !r,
    {
        match self {
            Action::LockView { looks_locked_from, .. } => contains_name(looks_locked_from, locked_view_name),
            _ => false,
        }
    }

    /// Whether this key is engaged while `view_name` is shown.
    pub fn is_active(&self, view_name: &str) -> (r: bool)
        ensures
            r == self@.activates(view_name@),
            !(self is SetView || self is LockView) ==> !r,
            self is LockView ==> r == self@.locks(view_name@),
    {
        match self {
            Action::SetView(view) => same_name(view.as_str(), view_name),
            Action::LockView { lock, .. } => same_name(lock.as_str(), view_name),
            _ => false,
        }
    }
}

impl PartialEq for KeySym {
    fn eq(&self, other: &KeySym) -> (r: bool) {
        self.0 == other.0
    }
}

impl vstd::std_specs::cmp::PartialEqSpecImpl for KeySym {
    open spec fn obeys_eq_spec() -> bool {
        true
    }

    open spec fn eq_spec(&self, other: &KeySym) -> bool {
        self@ == other@
    }
}

/// Whether two byte strings hold the same bytes in the same order.
fn same_bytes(a: &Vec<u8>, b: &Vec<u8>) -> (r: bool)
    ensures
        r == (a@ == b@),
{
    if a.len() != b.len() {
        return false;
    }
    let mut i: usize = 0;
    while i < a.len()
        invariant
            a@.len() == b@.len(),
            i <= a@.len(),
            forall|k: int| 0 <= k < i ==> a@[k] == b@[k],
        decreases a@.len() - i,
    {
        if a[i] != b[i] {
            return false;
        }
        i = i + 1;
    }
    assert(a@ =~= b@);
    true
}

/// Whether two optional texts are both absent, or both present and equal.
fn same_text(a: &Option<Vec<u8>>, b: &Option<Vec<u8>>) -> (r: bool)
    ensures
        r == (match (a, b) {
            (Some(x), Some(y)) => x@ == y@,
            (None, None) => true,
            _ => false,
        }),
{
    match (a, b) {
        (Some(x), Some(y)) => same_bytes(x, y),
        (None, None) => true,
        _ => false,
    }
}

/// Whether two lists of views name the same views in the same order.
fn same_names(a: &Vec<ViewName>, b: &Vec<ViewName>) -> (r: bool)
    ensures
        r == (names_of(a@) == names_of(b@)),
{
    if a.len() != b.len() {
        return false;
    }
    let mut i: usize = 0;
    while i < a.len()
        invariant
            a@.len() == b@.len(),
            i <= a@.len(),
            forall|k: int| 0 <= k < i ==> a@[k]@ == b@[k]@,
        decreases a@.len() - i,
    {
        if a[i] != b[i] {
            assert(names_of(a@)[i as int] != names_of(b@)[i as int]);
            return false;
        }
        i = i + 1;
    }
    assert(names_of(a@) =~= names_of(b@));
    true
}

/// Whether two lists of keysyms name the same keysyms in the same order.
fn same_keysyms(a: &Vec<KeySym>, b: &Vec<KeySym>) -> (r: bool)
    ensures
        r == (keysym_names_of(a@) == keysym_names_of(b@)),
{
    if a.len() != b.len() {
        return false;
    }
    let mut i: usize = 0;
    while i < a.len()
        invariant
            a@.len() == b@.len(),
            i <= a@.len(),
            forall|k: int| 0 <= k < i ==> a@[k]@ == b@[k]@,
        decreases a@.len() - i,
    {
        if a[i].0 != b[i].0 {
            assert(keysym_names_of(a@)[i as int] != keysym_names_of(b@)[i as int]);
            return false;
        }
        i = i + 1;
    }
    assert(keysym_names_of(a@) =~= keysym_names_of(b@));
    true
}

impl PartialEq for Action {
    fn eq(&self, other: &Action) -> (r: bool) {
        match (self, other) {
            (Action::SetView(a), Action::SetView(b)) => *a == *b,
            (
                Action::LockView { lock: l1, unlock: u1, latches: t1, looks_locked_from: f1 },
                Action::LockView { lock: l2, unlock: u2, latches: t2, looks_locked_from: f2 },
            ) => *l1 == *l2 && *u1 == *u2 && *t1 == *t2 && same_names(f1, f2),
            (Action::ApplyModifier(a), Action::ApplyModifier(b)) => *a == *b,
            (Action::Submit { text: x1, keys: k1 }, Action::Submit { text: x2, keys: k2 }) => same_text(x1, x2)
                && same_keysyms(k1, k2),
            (Action::Erase, Action::Erase) => true,
            (Action::ShowPreferences, Action::ShowPreferences) => true,
            _ => false,
        }
    }
}

impl vstd::std_specs::cmp::PartialEqSpecImpl for Action {
    open spec fn obeys_eq_spec() -> bool {
        true
    }

    open spec fn eq_spec(&self, other: &Action) -> bool {
        self@ == other@
    }
}

/// Whether two actions are the same variant with the same value in every
/// field; lists are compared element by element, so their order counts.
pub open spec fn same_fields(a: &Action, b: &Action) -> bool {
    match (a, b) {
        (Action::SetView(x), Action::SetView(y)) => x@ == y@,
        (
            Action::LockView { lock: l1, unlock: u1, latches: t1, looks_locked_from: f1 },
            Action::LockView { lock: l2, unlock: u2, latches: t2, looks_locked_from: f2 },
        ) => {
            &&& l1@ == l2@
            &&& u1@ == u2@
            &&& t1 == t2
            &&& f1@.len() == f2@.len()
            &&& forall|i: int| 0 <= i < f1@.len() ==> f1@[i]@ == f2@[i]@
        },
        (Action::ApplyModifier(x), Action::ApplyModifier(y)) => x == y,
        (Action::Submit { text: x1, keys: k1 }, Action::Submit { text: x2, keys: k2 }) => {
            &&& match (x1, x2) {
                (Some(p), Some(q)) => p@ == q@,
                (None, None) => true,
                _ => false,
            }
            &&& k1@.len() == k2@.len()
            &&& forall|i: int| 0 <= i < k1@.len() ==> k1@[i]@ == k2@[i]@
        },
        (Action::Erase, Action::Erase) => true,
        (Action::ShowPreferences, Action::ShowPreferences) => true,
        _ => false,
    }
}

/// Two actions compare equal exactly when they are the same variant and
/// agree on every field, the order of the listed views and keysyms included.
pub proof fn lemma_eq_is_field_wise(a: &Action, b: &Action)
    ensures
        a.eq_spec(b) == same_fields(a, b),
{
    match (a, b) {
        (
            Action::LockView { looks_locked_from: f1, .. },
            Action::LockView { looks_locked_from: f2, .. },
        ) => {
            if same_fields(a, b) {
                assert(names_of(f1@) =~= names_of(f2@));
            }
            if names_of(f1@) == names_of(f2@) {
                assert forall|i: int| 0 <= i < f1@.len() implies f1@[i]@ == f2@[i]@ by {
                    assert(names_of(f1@)[i] == names_of(f2@)[i]);
                }
            }
        },
        (Action::Submit { keys: k1, .. }, Action::Submit { keys: k2, .. }) => {
            if same_fields(a, b) {
                assert(keysym_names_of(k1@) =~= keysym_names_of(k2@));
            }
            if keysym_names_of(k1@) == keysym_names_of(k2@) {
                assert forall|i: int| 0 <= i < k1@.len() implies k1@[i]@ == k2@[i]@ by {
                    assert(keysym_names_of(k1@)[i] == keysym_names_of(k2@)[i]);
                }
            }
        },
        _ => {},
    }
}

/// A key that locks a view is also active in that view.
pub proof fn lemma_locked_is_active(a: &Action, view: Seq<char>)
    ensures
        a@.locks(view) ==> a@.activates(view),
{
}

} // verus!
