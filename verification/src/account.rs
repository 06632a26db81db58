use vstd::prelude::*;

verus! {

/// The account remembered between sessions, with its login token if one
/// was kept.
#[derive(Debug, Clone, PartialEq, Eq)]
pub struct SavedAccount {
    pub profile: String,
    pub name: String,
    pub email: String,
    pub token: Option<[u8; 64]>,
}

} // verus!
