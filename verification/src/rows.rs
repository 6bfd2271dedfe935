//! Row types materialised from the six tables of the policy database.

use vstd::prelude::*;

verus! {

/// One hooked symbol: which library it lives in and its identity.
#[derive(Clone)]
pub struct HookRow {
    pub language: String,
    pub library: String,
    pub symbol: String,
    pub id: i64,
}

/// One formal argument of a hook, together with the register-sized
/// value (`real`) captured when the hooked call entered.
#[derive(Clone)]
pub struct ArgumentRow {
    pub hook: i64,
    pub parent: Option<i64>,
    pub id: i64,
    pub position: i64,
    pub real: usize,
    pub datatype: String,
    pub pointer: bool,
    pub signed: bool,
    pub variadic: bool,
    pub array: bool,
}

impl HookRow {
    /// A field-for-field copy.
    pub fn duplicate(&self) -> (r: HookRow)
        ensures
            r == *self,
    {
        HookRow {
            language: self.language.clone(),
            library: self.library.clone(),
            symbol: self.symbol.clone(),
            id: self.id,
        }
    }
}

/// One whitelist entry authorising a class of operation.
#[derive(Clone)]
pub struct WhitelistRow {
    pub class: String,
    pub parent: String,
    pub path: String,
    pub value: String,
}

/// One node of a singly-linked list of action parameters; the list is
/// threaded by `next` ids.
#[derive(Clone)]
pub struct ActionArgumentRow {
    pub id: i64,
    pub value: String,
    pub next: Option<i64>,
}

/// Binds an action, by name, to the argument it inspects.
#[derive(Clone)]
pub struct RuleRow {
    pub arg: i64,
    pub action: String,
    pub actionarg: Option<i64>,
}

/// One key/value configuration row.
#[derive(Clone)]
pub struct SettingRow {
    pub param: String,
    pub value: String,
}

} // verus!
