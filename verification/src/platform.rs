//! The platform gate: whether a CPU brand text names an Apple M processor.

use vstd::prelude::*;

verus! {

/// The bytes of `"Apple M"`, the mark of a supported processor.
pub open spec fn apple_mark() -> Seq<u8> {
    seq![65u8, 112u8, 112u8, 108u8, 101u8, 32u8, 77u8]
}

/// `pattern` stands in `text` at position `at`.
pub open spec fn occurs_at(text: Seq<u8>, pattern: Seq<u8>, at: int) -> bool {
    &&& 0 <= at
    &&& at + pattern.len() <= text.len()
    &&& forall|k: int| 0 <= k < pattern.len() ==> text[at + k] == pattern[k]
}

/// `pattern` stands somewhere in `text`.
pub open spec fn contains(text: Seq<u8>, pattern: Seq<u8>) -> bool {
    exists|at: int| occurs_at(text, pattern, at)
}

/// Whether `pattern` stands in `text` at position `at`.
fn matches_at(text: &[u8], pattern: &[u8], at: usize) -> (found: bool)
    requires
        at + pattern@.len() <= text@.len(),
    ensures
        found == occurs_at(text@, pattern@, at as int),
{
    let width: usize = pattern.len();
    let length: usize = text.len();
    let mut k: usize = 0;
    while k < width
        invariant
            width == pattern@.len(),
            length == text@.len(),
            k <= width,
            at + width <= length,
            forall|j: int| 0 <= j < k ==> text@[at + j] == pattern@[j],
        decreases width - k,
    {
        if text[at + k] != pattern[k] {
            return false;
        }
        k = k + 1;
    }
    true
}

/// Whether `pattern` stands somewhere in `text`.
pub fn contains_bytes(text: &[u8], pattern: &[u8]) -> (found: bool)
    ensures
        found == contains(text@, pattern@),
{
    if pattern.len() > text.len() {
        return false;
    }
    let last: usize = text.len() - pattern.len();
    let mut at: usize = 0;
    loop
        invariant
            last == text@.len() - pattern@.len(),
            at <= last,
            forall|j: int| 0 <= j < at ==> !occurs_at(text@, pattern@, j),
        decreases last - at,
    {
        if matches_at(text, pattern, at) {
            return true;
        }
        if at == last {
            return false;
        }
        at = at + 1;
    }
}

/// Whether the CPU brand text that the system reports names an Apple M
/// processor: whether `"Apple M"` stands in it.
pub fn is_apple_silicon(brand: &[u8]) -> (supported: bool)
    ensures
        supported == contains(brand@, apple_mark()),
{
    let mark: [u8; 7] = [65, 112, 112, 108, 101, 32, 77];
    assert(mark@ =~= apple_mark());
    contains_bytes(brand, mark.as_slice())
}

} // verus!
