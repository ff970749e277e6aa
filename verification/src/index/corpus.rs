//! Names of the corpora that share the index.

use vstd::prelude::*;

verus! {

/// The corpus of source-code chunks.
pub const CODE: &'static str = "code";

/// The corpus of web documents.
pub const WEB: &'static str = "web";

} // verus!
