//! The single-slot callback store.
//!
//! An out-of-band authorization redirect lands once; its code/state pair is
//! cached in a one-value slot for the frontend to poll and then clear.

use vstd::prelude::*;

use crate::types::OAuthCallbackData;

verus! {

/// At most one captured callback, the most recent one.
pub struct CallbackStore {
    pub slot: Option<OAuthCallbackData>,
}

impl CallbackStore {
    /// A fresh store holds nothing.
    pub fn new() -> (s: Self)
        ensures
            s.slot is None,
    {
        CallbackStore { slot: None }
    }

    /// Handles one authorization redirect: a redirect that reports an error
    /// stores nothing; otherwise the code/state pair is stored with its
    /// stamp, replacing whatever was in the slot. Returns whether the
    /// redirect was accepted.
    pub fn handle_callback(
        &mut self,
        code: String,
        state: String,
        error: Option<String>,
        now_ms: u64,
    ) -> (accepted: bool)
        ensures
            accepted == (error is None),
            error is Some ==> *final(self) == *old(self),
            error is None ==> final(self).slot == Some(
                OAuthCallbackData { code, state, timestamp: now_ms },
            ),
    {
        match error {
            Some(_) => false,
            None => {
                self.slot = Some(OAuthCallbackData { code, state, timestamp: now_ms });
                true
            },
        }
    }

    /// A poll peeks without consuming: the slot keeps its value.
    pub fn peek(&self) -> (r: Option<OAuthCallbackData>)
        ensures
            r == self.slot,
    {
        match &self.slot {
            Some(d) => Some(d.clone()),
            None => None,
        }
    }

    /// Empties the slot, called once the frontend has taken the callback.
    pub fn clear(&mut self)
        ensures
            final(self).slot is None,
    {
        self.slot = None;
    }
}

} // verus!
