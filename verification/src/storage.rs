//! The names under which blocks are stored, one file per block. The index is
//! written with leading zeros to a fixed width, so that the names sort as the
//! indices do.

use crate::text::{digit_char, digit_str};
use vstd::prelude::*;
use vstd::string::StringExecFns;

verus! {

/// The number of digits to which an index is written: enough for 64 bits.
pub const INDEX_WIDTH: usize = 20;

/// The decimal numeral of `n` in exactly `width` digits, with leading zeros;
/// the digits of `n` beyond `width` are left out.
pub open spec fn padded(n: nat, width: nat) -> Seq<char>
    decreases width,
{
    if width == 0 {
        Seq::empty()
    } else {
        padded(n / 10, (width - 1) as nat).push(digit_char((n % 10) as int))
    }
}

/// Ten to the power `width`.
pub open spec fn pow10(width: nat) -> nat
    decreases width,
{
    if width == 0 {
        1
    } else {
        10 * pow10((width - 1) as nat)
    }
}

/// The name of the file that holds the block at `index`.
pub open spec fn file_name(index: u64) -> Seq<char> {
    "block_"@ + padded(index as nat, INDEX_WIDTH as nat) + ".json"@
}

/// `s` and `t` agree before position `k`, where `s` has the lesser character.
pub open spec fn differs_first_at(s: Seq<char>, t: Seq<char>, k: int) -> bool {
    &&& 0 <= k < s.len()
    &&& k < t.len()
    &&& s.take(k) == t.take(k)
    &&& (s[k] as u32) < (t[k] as u32)
}

/// `s` comes before `t` in the order of a dictionary, character by character.
pub open spec fn precedes(s: Seq<char>, t: Seq<char>) -> bool {
    ||| exists|k: int| differs_first_at(s, t, k)
    ||| (s.len() < t.len() && t.take(s.len() as int) == s)
}

/// Appends `n` in `width` digits to `out`.
fn push_padded(out: &mut String, n: u64, width: usize)
    ensures
        final(out)@ == old(out)@ + padded(n as nat, width as nat),
    decreases width,
{
    if width > 0 {
        push_padded(out, n / 10, width - 1);
        out.append(digit_str((n % 10) as u8));
    }
    assert(final(out)@ =~= old(out)@ + padded(n as nat, width as nat));
}

/// The name of the file that holds the block at `index`: `block_`, the index
/// in twenty digits, `.json`.
pub fn block_file_name(index: u64) -> (name: String)
    ensures
        name@ == file_name(index),
{
    let mut name: String = String::new();
    name.append("block_");
    push_padded(&mut name, index, INDEX_WIDTH);
    name.append(".json");
    assert(name@ =~= file_name(index));
    name
}

/// A padded numeral has as many characters as its width.
pub proof fn padded_has_width(n: nat, width: nat)
    ensures
        padded(n, width).len() == width,
    decreases width,
{
    if width > 0 {
        padded_has_width(n / 10, (width - 1) as nat);
    }
}

/// Of two numbers that fit the width, the lesser has the padded numeral that
/// comes first. Returns the position at which the numerals first differ.
pub proof fn padded_keeps_order(a: nat, b: nat, width: nat) -> (k: int)
    requires
        a < b < pow10(width),
    ensures
        differs_first_at(padded(a, width), padded(b, width), k),
        k < width,
    decreases width,
{
    let shorter: nat = (width - 1) as nat;
    let head_a = padded(a / 10, shorter);
    let head_b = padded(b / 10, shorter);
    padded_has_width(a / 10, shorter);
    padded_has_width(b / 10, shorter);
    padded_has_width(a, width);
    padded_has_width(b, width);
    if a / 10 < b / 10 {
        let k = padded_keeps_order(a / 10, b / 10, shorter);
        assert(padded(a, width).take(k) =~= head_a.take(k));
        assert(padded(b, width).take(k) =~= head_b.take(k));
        k
    } else {
        assert(a / 10 == b / 10);
        assert(a % 10 < b % 10);
        assert(padded(a, width).take(shorter as int) =~= head_a);
        assert(padded(b, width).take(shorter as int) =~= head_b);
        shorter as int
    }
}

/// The names of the block files sort as the indices do.
pub proof fn file_names_sort_by_index(index: u64, later: u64)
    requires
        index < later,
    ensures
        precedes(file_name(index), file_name(later)),
{
    reveal_strlit("block_");
    reveal_with_fuel(pow10, 21);
    assert(later < pow10(20));
    let a = padded(index as nat, 20);
    let b = padded(later as nat, 20);
    let k = padded_keeps_order(index as nat, later as nat, 20);
    padded_has_width(index as nat, 20);
    padded_has_width(later as nat, 20);
    let s = file_name(index);
    let t = file_name(later);
    assert(s.take(6 + k) =~= "block_"@ + a.take(k));
    assert(t.take(6 + k) =~= "block_"@ + b.take(k));
    assert(s[6 + k] == a[k]);
    assert(t[6 + k] == b[k]);
    assert(differs_first_at(s, t, 6 + k));
}

} // verus!
