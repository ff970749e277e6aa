//! Attribute names of code chunks, inside the `chunk_attributes` JSON field.

use vstd::prelude::*;

verus! {

pub const CHUNK_GIT_URL: &'static str = "chunk_git_url";

pub const CHUNK_FILEPATH: &'static str = "chunk_filepath";

pub const CHUNK_LANGUAGE: &'static str = "chunk_language";

pub const CHUNK_BODY: &'static str = "chunk_body";

pub const CHUNK_START_LINE: &'static str = "chunk_start_line";

} // verus!
