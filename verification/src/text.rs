//! Comparing texts.

use vstd::prelude::*;
use vstd::string::StringSliceAdditionalSpecFns;

verus! {

/// Whether `text` reads exactly as `word` does.
pub(crate) fn reads(text: &str, word: &str) -> (same: bool)
    requires
        word.is_ascii(),
    ensures
        same == (text@ == word@),
{
    broadcast use vstd::string::is_ascii_spec_bytes;

    if !text.is_ascii() {
        return false;
    }
    let given = text.as_bytes();
    let wanted = word.as_bytes();
    if given.len() != wanted.len() {
        return false;
    }
    let mut i: usize = 0;
    while i < given.len()
        invariant
            i <= given@.len(),
            given@.len() == wanted@.len(),
            given@.len() == text@.len(),
            wanted@.len() == word@.len(),
            text.is_ascii(),
            word.is_ascii(),
            given@ == text.spec_bytes(),
            wanted@ == word.spec_bytes(),
            forall|k: int| 0 <= k < i ==> text@[k] == word@[k],
        decreases given@.len() - i,
    {
        if given[i] != wanted[i] {
            assert(text@[i as int] != word@[i as int]);
            return false;
        }
        assert(text@[i as int] as u8 == word@[i as int] as u8);
        assert(text@[i as int] == word@[i as int]);
        i = i + 1;
    }
    assert(text@ =~= word@);
    true
}

} // verus!
