//! Fixed-width UTF-16 text fields, as the shell's notification-area records
//! hold them: a tooltip, a balloon title and a balloon body.
use vstd::prelude::*;

verus! {

/// Width of the tooltip field, in UTF-16 code units.
pub const TOOLTIP_WIDTH: usize = 128;

/// Most code units a tooltip may occupy, terminator included.
pub const TOOLTIP_LIMIT: usize = 127;

/// Width of the balloon title field, in UTF-16 code units.
pub const TITLE_WIDTH: usize = 64;

/// Most code units a balloon title may occupy, terminator included.
pub const TITLE_LIMIT: usize = 63;

/// Width of the balloon body field, in UTF-16 code units.
pub const BODY_WIDTH: usize = 256;

/// Most code units a balloon body may occupy, terminator included.
pub const BODY_LIMIT: usize = 255;

/// The UTF-16 encoding of one Unicode scalar value: one unit below U+10000,
/// a surrogate pair above.
pub open spec fn utf16_char(c: char) -> Seq<u16> {
    let v = c as u32 as int;
    if v < 0x10000 {
        seq![v as u16]
    } else {
        seq![(0xD800 + (v - 0x10000) / 0x400) as u16, (0xDC00 + (v - 0x10000) % 0x400) as u16]
    }
}

/// The UTF-16 encoding of a string, character by character.
pub open spec fn utf16_of(s: Seq<char>) -> Seq<u16>
    decreases s.len(),
{
    if s.len() == 0 {
        Seq::empty()
    } else {
        utf16_of(s.drop_last()) + utf16_char(s.last())
    }
}

/// How many units of a text of `n` units a field that takes `limit` units,
/// terminator included, keeps.
pub open spec fn kept_len(n: nat, limit: nat) -> nat {
    if n < limit - 1 {
        n
    } else {
        (limit - 1) as nat
    }
}

/// A field of `width` units holding `units`, clipped so that at most `limit`
/// units are used, terminator included: the kept units first, zeros after.
pub open spec fn field_of(units: Seq<u16>, limit: nat, width: nat) -> Seq<u16> {
    Seq::new(width, |i: int| if i < kept_len(units.len(), limit) { units[i] } else { 0u16 })
}

/// Relies on `str::encode_utf16`: the string's characters encoded as UTF-16,
/// in order.
#[verifier::external_body]
pub(crate) fn encode_utf16(s: &str) -> (r: Vec<u16>)
    ensures
        r@ == utf16_of(s@),
{
    s.encode_utf16().collect()
}

/// Copies `units` into a zero-filled field of `width` units, keeping at most
/// `limit - 1` of them so that a terminator always fits. Over-long text is cut,
/// never refused.
pub fn fixed_field(units: &Vec<u16>, limit: usize, width: usize) -> (r: Vec<u16>)
    requires
        1 <= limit <= width,
    ensures
        r@ == field_of(units@, limit as nat, width as nat),
{
    let mut r: Vec<u16> = Vec::with_capacity(width);
    let mut i: usize = 0;
    while i < width
        invariant
            i <= width,
            1 <= limit <= width,
            r@.len() == i,
            forall|j: int|
                0 <= j < i ==> r@[j] == field_of(units@, limit as nat, width as nat)[j],
        decreases width - i,
    {
        if i < units.len() && i < limit - 1 {
            r.push(units[i]);
        } else {
            r.push(0);
        }
        i = i + 1;
    }
    assert(r@ =~= field_of(units@, limit as nat, width as nat));
    r
}

/// The tooltip field for `text`.
pub fn tooltip_field(text: &str) -> (r: Vec<u16>)
    ensures
        r@ == field_of(utf16_of(text@), TOOLTIP_LIMIT as nat, TOOLTIP_WIDTH as nat),
{
    fixed_field(&encode_utf16(text), TOOLTIP_LIMIT, TOOLTIP_WIDTH)
}

/// The balloon title field for `text`.
pub fn title_field(text: &str) -> (r: Vec<u16>)
    ensures
        r@ == field_of(utf16_of(text@), TITLE_LIMIT as nat, TITLE_WIDTH as nat),
{
    fixed_field(&encode_utf16(text), TITLE_LIMIT, TITLE_WIDTH)
}

/// The balloon body field for `text`.
pub fn body_field(text: &str) -> (r: Vec<u16>)
    ensures
        r@ == field_of(utf16_of(text@), BODY_LIMIT as nat, BODY_WIDTH as nat),
{
    fixed_field(&encode_utf16(text), BODY_LIMIT, BODY_WIDTH)
}

} // verus!
