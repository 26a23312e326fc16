//! `GetGoodPhrases` message.

use vstd::prelude::*;

verus! {

/// A message type to get good_phrases.
///
/// This may have query parameters to limit or filter results (while it does not
/// for now).
#[derive(Debug, Clone, Copy, PartialEq, Eq, Hash, Structural)]
pub struct GetGoodPhrases;

} // verus!
