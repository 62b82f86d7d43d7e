//! The persisted state: one owner record under one fixed logical slot,
//! supplied to every call as an explicit handle.

use vstd::prelude::*;
use crate::errors::StdError;
use crate::querier::clone_bytes;
use crate::types::CanonicalAddr;

verus! {

/// The single persisted record: the current owner's canonical identity.
#[derive(Clone, Debug, PartialEq, Eq)]
pub struct State {
    pub owner: CanonicalAddr,
}

/// The store collaborator: holds the owner record once initialization
/// has written it.
#[derive(Clone, Debug, PartialEq, Eq)]
pub struct Storage {
    pub config: Option<State>,
}

impl Storage {
    /// An empty store, as a fresh unit sees it before initialization.
    pub fn new() -> (s: Storage)
        ensures
            s.config is None,
    {
        Storage { config: None }
    }

    /// Writes the owner record, replacing any earlier one.
    pub fn save_config(&mut self, state: State)
        ensures
            final(self).config == Some(state),
    {
        self.config = Some(state);
    }

    /// Reads the owner record; an uninitialized store is reported as
    /// a not-found error.
    pub fn load_config(&self) -> (r: Result<State, StdError>)
        ensures
            match self.config {
                Some(st) => r matches Ok(s) && s.owner@ == st.owner@,
                None => r matches Err(e) && e matches StdError::NotFound { kind } && kind@
                    == "State"@,
            },
    {
        match &self.config {
            Some(st) => Ok(State { owner: CanonicalAddr(clone_bytes(&st.owner.0)) }),
            None => Err(StdError::not_found("State")),
        }
    }
}

} // verus!
