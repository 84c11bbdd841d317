//! Text compaction for the seven-character scribble-strip lines of the V1-M.
use vstd::prelude::*;

use vstd::string::StringSliceAdditionalSpecFns;

use crate::midi::compact::{ascii, compact_bytes, compact_spec, lemma_compaction_ascii, lemma_compaction_len};

verus! {

/// The compaction used for the V1-M: `<` and `>` are kept, the result is padded with
/// spaces, and text made only of separators is shown as it stands, less its non-ASCII
/// bytes.
pub open spec fn text_compaction(bytes: Seq<u8>) -> Seq<u8> {
    compact_spec(bytes, true, 32, true)
}

/// Compacts a `&str` into exactly 7 ASCII bytes using camelCase conventions,
/// vowel stripping, double-consonant compression, and space-padding.
pub fn compact_to_7_bytes(input: &str) -> (r: Vec<u8>)
    ensures
        r@ == text_compaction(input.spec_bytes()),
        r.len() == 7,
{
    compact_bytes(input.as_bytes(), true, 32, true)
}

/// Every compaction is seven ASCII bytes, whatever the input.
pub proof fn law_text_compaction_is_ascii(bytes: Seq<u8>)
    ensures
        text_compaction(bytes).len() == 7,
        ascii(text_compaction(bytes)),
{
    lemma_compaction_ascii(bytes, true, 32, true);
    lemma_compaction_len(bytes, true, 32, true);
}

} // verus!
