//! The settings that the provisioning core reads.

use crate::registry::NameSet;
use vstd::prelude::*;

verus! {

/// The switches of one run.
#[derive(Debug, Clone)]
pub struct Settings {
    /// Confirm every question without asking.
    pub yes: bool,
    /// Refuse what the trust rule does not trust, without asking.
    pub paranoid: bool,
    /// Whether experimental features are open.
    pub experimental: bool,
    /// The tools whose plugins are not listed.
    pub disable_tools: NameSet,
}

} // verus!
