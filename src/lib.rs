//! The action model of an on-screen keyboard: what a key does when it is
//! pressed, and the queries that decide how a key is drawn for a given view.

mod action;

pub use action::{
    Action, ActionModel, KeySym, Modifier, keysym_names_of, lemma_eq_is_field_wise,
    lemma_locked_is_active, names_of, same_fields,
};
