//! Users' opt-in to experiments.

use vstd::prelude::*;

verus! {

/// A change of a user's experiments: whether they are on, and their
/// settings as JSON text.
#[derive(Debug, Clone)]
pub struct ExperimentsUpdate {
    pub active: Option<bool>,
    pub config: Option<String>,
}

} // verus!
