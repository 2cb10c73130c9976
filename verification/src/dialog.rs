//! The wide (UTF-16) texts that the native file dialog takes and returns.

use vstd::prelude::*;

use crate::text::{
    chars_of, copy_str, push_str, strings_view, trim, trim_start_char, trim_start_char_str, trim_str,
};

verus! {

/// The UTF-16 code units of one character: the scalar value itself below
/// U+10000, else a high and a low surrogate.
pub open spec fn utf16_of(c: char) -> Seq<u16> {
    let v = c as int;
    if v < 0x10000 {
        seq![v as u16]
    } else {
        let w = v - 0x10000;
        seq![(0xD800 + w / 0x400) as u16, (0xDC00 + w % 0x400) as u16]
    }
}

/// The UTF-16 code units of a text, character by character.
pub open spec fn utf16_units(s: Seq<char>) -> Seq<u16>
    decreases s.len(),
{
    if s.len() == 0 {
        Seq::empty()
    } else {
        utf16_units(s.drop_last()) + utf16_of(s.last())
    }
}

/// Decoding from index `i` on: a unit outside the surrogate range is a
/// character; a high surrogate followed by a low one is the character they
/// encode; any other surrogate becomes U+FFFD and decoding goes on with the
/// next unit.
pub open spec fn utf16_lossy_from(units: Seq<u16>, i: int) -> Seq<char>
    decreases units.len() - i,
{
    if i < 0 || i >= units.len() {
        Seq::empty()
    } else {
        let u = units[i] as int;
        if u < 0xD800 || u > 0xDFFF {
            seq![u as char] + utf16_lossy_from(units, i + 1)
        } else if u <= 0xDBFF && i + 1 < units.len() && 0xDC00 <= units[i + 1] <= 0xDFFF {
            let c = 0x10000 + (u - 0xD800) * 0x400 + (units[i + 1] - 0xDC00);
            seq![c as char] + utf16_lossy_from(units, i + 2)
        } else {
            seq!['\u{FFFD}'] + utf16_lossy_from(units, i + 1)
        }
    }
}

/// The text decoded from code units, with each unpaired surrogate replaced
/// by U+FFFD.
pub open spec fn utf16_lossy(units: Seq<u16>) -> Seq<char> {
    utf16_lossy_from(units, 0)
}

/// The text in UTF-16, character by character, as `str::encode_utf16`
/// gives it.
fn encode_utf16(s: &str) -> (out: Vec<u16>)
    ensures
        out@ == utf16_units(s@),
{
    let chars = chars_of(s);
    let mut out: Vec<u16> = Vec::new();
    let mut i: usize = 0;
    while i < chars.len()
        invariant
            i <= chars.len(),
            chars@ == s@,
            out@ == utf16_units(s@.take(i as int)),
        decreases chars.len() - i,
    {
        let c = chars[i];
        let v = c as u32;
        proof {
            vstd::utf8::char_is_scalar(c);
            vstd::utf8::char_u32_cast(c, v);
        }
        assert(v <= 0x10FFFF);
        assert((v as char) == c);
        assert(((v as int) as char) == c);
        assert(v as int == c as int);
        let ghost before = out@;
        if v < 0x10000 {
            out.push(v as u16);
            assert(utf16_of(c) == seq![v as u16]);
            assert(out@ =~= before + utf16_of(c));
        } else {
            let w: u32 = v - 0x10000;
            out.push((0xD800 + w / 0x400) as u16);
            out.push((0xDC00 + w % 0x400) as u16);
            assert(out@ =~= before + utf16_of(c));
        }
        assert(s@.take(i + 1).drop_last() =~= s@.take(i as int));
        assert(s@.take(i + 1).last() == c);
        assert(out@ =~= utf16_units(s@.take(i + 1)));
        i = i + 1;
    }
    assert(s@.take(chars.len() as int) =~= s@);
    out
}

/// `char::from_u32(v)`: the standard library documents `None` exactly for a
/// value that is no Unicode scalar (a surrogate, or above U+10FFFF), and
/// otherwise the character with that value.
#[verifier::external_body]
fn char_from_u32(v: u32) -> (out: Option<char>)
    ensures
        out is Some <==> vstd::utf8::is_scalar(v),
        out matches Some(c) ==> c as u32 == v,
{
    char::from_u32(v)
}

/// The character of a scalar value, as the decoding spec names it.
proof fn lemma_char_of_value(c: char, v: u32)
    requires
        c as u32 == v,
    ensures
        (v as int) as char == c,
{
    vstd::utf8::char_u32_cast(c, v);
    assert((v as char) == c);
}

/// The text decoded from UTF-16 code units, each unpaired surrogate
/// replaced by U+FFFD, as `String::from_utf16_lossy` gives it.
fn decode_utf16_lossy(units: &[u16]) -> (out: String)
    ensures
        out@ == utf16_lossy(units@),
{
    let mut out = String::new();
    let mut i: usize = 0;
    while i < units.len()
        invariant
            i <= units.len(),
            out@ + utf16_lossy_from(units@, i as int) == utf16_lossy(units@),
        decreases units.len() - i,
    {
        let u = units[i];
        let ghost before = out@;
        let ghost at = i as int;
        if u < 0xD800 || u > 0xDFFF {
            let v = u as u32;
            match char_from_u32(v) {
                Some(c) => {
                    proof {
                        lemma_char_of_value(c, v);
                    }
                    out.push(c);
                },
                None => {
                    assert(false);
                },
            }
            i = i + 1;
        } else if u <= 0xDBFF && i + 1 < units.len() && 0xDC00 <= units[i + 1] && units[i + 1]
            <= 0xDFFF {
            let low = units[i + 1];
            let v: u32 = 0x10000 + (u as u32 - 0xD800) * 0x400 + (low as u32 - 0xDC00);
            match char_from_u32(v) {
                Some(c) => {
                    proof {
                        lemma_char_of_value(c, v);
                    }
                    out.push(c);
                },
                None => {
                    assert(false);
                },
            }
            i = i + 2;
        } else {
            out.push('\u{FFFD}');
            i = i + 1;
        }
        assert(utf16_lossy_from(units@, at) == seq![out@.last()] + utf16_lossy_from(
            units@,
            i as int,
        ));
        assert(out@ =~= before + seq![out@.last()]);
        assert(before + utf16_lossy_from(units@, at) =~= out@ + utf16_lossy_from(
            units@,
            i as int,
        ));
    }
    out
}

/// An extension as the filter lists it: trimmed, without leading dots.
pub open spec fn extension_spec(e: Seq<char>) -> Seq<char> {
    trim_start_char(trim(e), '.')
}

/// The non-empty extensions, in order.
pub open spec fn extensions_spec(es: Seq<Seq<char>>) -> Seq<Seq<char>>
    decreases es.len(),
{
    if es.len() == 0 {
        Seq::empty()
    } else {
        let rest = extensions_spec(es.drop_last());
        if extension_spec(es.last()).len() == 0 {
            rest
        } else {
            rest.push(extension_spec(es.last()))
        }
    }
}

/// `*.a;*.b;...` for the extensions.
pub open spec fn pattern_spec(es: Seq<Seq<char>>) -> Seq<char>
    decreases es.len(),
{
    if es.len() == 0 {
        Seq::empty()
    } else if es.len() == 1 {
        "*."@ + es[0]
    } else {
        pattern_spec(es.drop_last()) + ";"@ + "*."@ + es.last()
    }
}

/// The filter of the dialog: `<name> 文件 (<pattern>)`, a NUL, the pattern
/// and two NULs.
pub open spec fn filter_text_spec(filter_name: Seq<char>, extensions: Seq<Seq<char>>) -> Seq<char> {
    let pattern = pattern_spec(extensions_spec(extensions));
    filter_name + " 文件 ("@ + pattern + ")"@ + seq!['\0'] + pattern + seq!['\0', '\0']
}

pub fn build_filter_text(filter_name: &str, extensions: &Vec<String>) -> (out: Vec<u16>)
    ensures
        out@ == utf16_units(filter_text_spec(filter_name@, strings_view(extensions@))),
{
    let ghost es = strings_view(extensions@);
    let mut pattern = String::new();
    let mut first = true;
    let mut i: usize = 0;
    while i < extensions.len()
        invariant
            i <= extensions.len(),
            es == strings_view(extensions@),
            first == (extensions_spec(es.take(i as int)).len() == 0),
            pattern@ == pattern_spec(extensions_spec(es.take(i as int))),
        decreases extensions.len() - i,
    {
        proof {
            assert(es.take(i as int + 1).drop_last() =~= es.take(i as int));
            assert(es.take(i as int + 1).last() == extensions@[i as int]@);
        }
        let trimmed = trim_str(extensions[i].as_str());
        let e = trim_start_char_str(trimmed.as_str(), '.');
        if !e.as_str().is_empty() {
            let ghost before = extensions_spec(es.take(i as int));
            if !first {
                push_str(&mut pattern, ";");
            }
            push_str(&mut pattern, "*.");
            push_str(&mut pattern, e.as_str());
            proof {
                let after = before.push(e@);
                assert(after.drop_last() =~= before);
                if first {
                    assert(pattern@ =~= pattern_spec(after));
                }
            }
            first = false;
        }
        i = i + 1;
    }
    proof {
        assert(es.take(extensions.len() as int) =~= es);
    }
    let mut raw = copy_str(filter_name);
    push_str(&mut raw, " 文件 (");
    push_str(&mut raw, pattern.as_str());
    push_str(&mut raw, ")");
    raw.push('\0');
    push_str(&mut raw, pattern.as_str());
    raw.push('\0');
    raw.push('\0');
    proof {
        assert(raw@ =~= filter_text_spec(filter_name@, strings_view(extensions@)));
    }
    encode_utf16(raw.as_str())
}

/// A text as a NUL-terminated wide string.
pub fn to_wide_text(value: &str) -> (out: Vec<u16>)
    ensures
        out@ == utf16_units(value@).push(0u16),
{
    let mut out = encode_utf16(value);
    out.push(0);
    out
}

/// Index of the first NUL at or after `i`, or the length.
pub open spec fn first_nul(units: Seq<u16>, i: int) -> int
    decreases units.len() - i,
{
    if i < 0 || i >= units.len() {
        units.len() as int
    } else if units[i] == 0 {
        i
    } else {
        first_nul(units, i + 1)
    }
}

proof fn lemma_first_nul(units: Seq<u16>, i: int)
    requires
        0 <= i <= units.len(),
    ensures
        i <= first_nul(units, i) <= units.len(),
    decreases units.len() - i,
{
    if i < units.len() && units[i] != 0 {
        lemma_first_nul(units, i + 1);
    }
}

/// The text of a wide buffer up to its first NUL.
pub fn from_wide_text(value: &[u16]) -> (out: String)
    ensures
        out@ == utf16_lossy(value@.take(first_nul(value@, 0))),
{
    let mut end: usize = 0;
    while end < value.len() && value[end] != 0
        invariant
            end <= value@.len(),
            first_nul(value@, 0) == first_nul(value@, end as int),
        decreases value.len() - end,
    {
        end = end + 1;
    }
    let mut prefix: Vec<u16> = Vec::new();
    let mut i: usize = 0;
    while i < end
        invariant
            i <= end <= value@.len(),
            prefix@ == value@.take(i as int),
        decreases end - i,
    {
        prefix.push(value[i]);
        i = i + 1;
        assert(prefix@ =~= value@.take(i as int));
    }
    decode_utf16_lossy(prefix.as_slice())
}


proof fn lemma_units_prepend(c: char, t: Seq<char>)
    ensures
        utf16_units(seq![c] + t) == utf16_of(c) + utf16_units(t),
    decreases t.len(),
{
    if t.len() == 0 {
        assert(seq![c] + t =~= seq![c]);
        assert(seq![c].drop_last() =~= Seq::<char>::empty());
        assert(utf16_units(Seq::<char>::empty()) =~= Seq::<u16>::empty());
        assert(utf16_of(c) + utf16_units(t) =~= utf16_of(c));
        assert(utf16_units(seq![c]) =~= Seq::<u16>::empty() + utf16_of(c));
    } else {
        lemma_units_prepend(c, t.drop_last());
        assert((seq![c] + t).drop_last() =~= seq![c] + t.drop_last());
        assert((seq![c] + t).last() == t.last());
        assert(utf16_of(c) + utf16_units(t.drop_last()) + utf16_of(t.last()) =~= utf16_of(c) + (
        utf16_units(t.drop_last()) + utf16_of(t.last())));
    }
}

/// Decoding past a prefix only reads what follows it.
proof fn lemma_lossy_shift(p: Seq<u16>, x: Seq<u16>, i: int)
    requires
        0 <= i,
    ensures
        utf16_lossy_from(p + x, p.len() + i) == utf16_lossy_from(x, i),
    decreases x.len() - i,
{
    let whole = p + x;
    let j = p.len() + i;
    if i < x.len() {
        assert(whole[j] == x[i]);
        if i + 1 < x.len() {
            assert(whole[j + 1] == x[i + 1]);
        }
        lemma_lossy_shift(p, x, i + 1);
        if i + 2 <= x.len() {
            lemma_lossy_shift(p, x, i + 2);
        }
    }
}

/// The units of one character decode back to it, and decoding then goes on
/// with what follows.
proof fn lemma_decode_char(c: char, x: Seq<u16>)
    ensures
        utf16_lossy_from(utf16_of(c) + x, 0) == seq![c] + utf16_lossy(x),
{
    let u = utf16_of(c);
    let whole = u + x;
    let v = c as int;
    lemma_lossy_shift(u, x, 0);
    if v < 0x10000 {
        assert(v < 0xD800 || v > 0xDFFF);
        assert(whole[0] as int == v);
        assert((v as char) == c);
    } else {
        let w = v - 0x10000;
        assert(w < 0x100000);
        assert(w / 0x400 < 0x400);
        assert(w % 0x400 < 0x400);
        assert(whole[0] as int == 0xD800 + w / 0x400);
        assert(whole[1] as int == 0xDC00 + w % 0x400);
        assert(0x10000 + (w / 0x400) * 0x400 + w % 0x400 == v);
        assert((v as char) == c);
    }
}

/// A text survives the round trip through UTF-16.
pub proof fn lemma_utf16_round_trip(s: Seq<char>)
    ensures
        utf16_lossy(utf16_units(s)) == s,
    decreases s.len(),
{
    if s.len() == 0 {
        assert(utf16_units(s) =~= Seq::<u16>::empty());
    } else {
        let t = s.drop_first();
        assert(s =~= seq![s[0]] + t);
        lemma_units_prepend(s[0], t);
        lemma_decode_char(s[0], utf16_units(t));
        lemma_utf16_round_trip(t);
    }
}


proof fn lemma_char_units_nonzero(c: char)
    requires
        c != '\0',
    ensures
        forall|k: int| 0 <= k < utf16_of(c).len() ==> utf16_of(c)[k] != 0,
{
    let v = c as int;
    let b = utf16_of(c);
    assert(v < 0xD800 || v > 0xDFFF);
    if v < 0x10000 {
        assert(b[0] as int == v);
    } else {
        let w = v - 0x10000;
        assert(w < 0x100000);
        assert(b[0] as int >= 0xD800);
        assert(b[1] as int >= 0xDC00);
    }
}

proof fn lemma_units_nonzero(s: Seq<char>)
    requires
        !s.contains('\0'),
    ensures
        forall|k: int| 0 <= k < utf16_units(s).len() ==> utf16_units(s)[k] != 0,
    decreases s.len(),
{
    if s.len() > 0 {
        let init = s.drop_last();
        assert forall|k: int| 0 <= k < init.len() implies init[k] != '\0' by {
            assert(init[k] == s[k]);
        }
        lemma_units_nonzero(init);
        assert(s.last() == s[s.len() - 1]);
        let c = s.last();
        lemma_char_units_nonzero(c);
        let a = utf16_units(init);
        let b = utf16_of(c);
        assert(utf16_units(s) == a + b);
        assert forall|k: int| 0 <= k < utf16_units(s).len() implies utf16_units(s)[k] != 0 by {
            if k < a.len() {
                assert(utf16_units(s)[k] == a[k]);
            } else {
                assert(utf16_units(s)[k] == b[k - a.len()]);
            }
        }
    }
}

proof fn lemma_first_nul_at(units: Seq<u16>, i: int)
    requires
        0 <= i <= units.len(),
        forall|k: int| 0 <= k < units.len() ==> units[k] != 0,
    ensures
        first_nul(units.push(0u16), i) == units.len(),
    decreases units.len() - i,
{
    if i < units.len() {
        assert(units.push(0u16)[i] == units[i]);
        lemma_first_nul_at(units, i + 1);
    }
}

/// A text without NUL reads back unchanged from the wide string that
/// `to_wide_text` makes of it.
pub proof fn lemma_wide_text_round_trip(s: Seq<char>)
    requires
        !s.contains('\0'),
    ensures
        ({
            let wide = utf16_units(s).push(0u16);
            utf16_lossy(wide.take(first_nul(wide, 0))) == s
        }),
{
    let units = utf16_units(s);
    lemma_units_nonzero(s);
    lemma_first_nul_at(units, 0);
    assert(units.push(0u16).take(units.len() as int) =~= units);
    lemma_utf16_round_trip(s);
}

} // verus!
