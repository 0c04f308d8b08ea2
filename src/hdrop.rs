//! The Windows "dropped files" clipboard block: a fixed header followed by
//! each path in UTF-16, null-terminated, and one more null unit.
use vstd::prelude::*;
use vstd::string::*;
use vstd::utf8::{char_is_scalar, char_u32_cast};
use crate::selection::string_views;

verus! {

/// Size in bytes of the block's header structure.
pub const DROPFILES_SIZE: usize = 20;

/// The header: offset of the path list, a zero drop point, the
/// non-client-area flag off and the wide-character flag on, each field
/// little-endian.
pub open spec fn dropfiles_header() -> Seq<u8> {
    seq![20u8, 0u8, 0u8, 0u8, 0u8, 0u8, 0u8, 0u8, 0u8, 0u8, 0u8, 0u8, 0u8, 0u8, 0u8, 0u8, 1u8, 0u8, 0u8, 0u8]
}

/// UTF-16 code units of one character.
pub open spec fn utf16_units(c: char) -> Seq<u16> {
    let v = c as u32;
    if v < 0x10000 {
        seq![v as u16]
    } else {
        let w = (v - 0x10000) as int;
        seq![(0xD800 + w / 1024) as u16, (0xDC00 + w % 1024) as u16]
    }
}

/// UTF-16 encoding of a character sequence.
pub open spec fn utf16_of(s: Seq<char>) -> Seq<u16>
    decreases s.len(),
{
    if s.len() == 0 {
        seq![]
    } else {
        utf16_of(s.drop_last()) + utf16_units(s.last())
    }
}

/// One code unit, little-endian.
pub open spec fn unit_bytes(u: u16) -> Seq<u8> {
    seq![(u % 256) as u8, (u / 256) as u8]
}

pub open spec fn le_bytes(units: Seq<u16>) -> Seq<u8>
    decreases units.len(),
{
    if units.len() == 0 {
        seq![]
    } else {
        le_bytes(units.drop_last()) + unit_bytes(units.last())
    }
}

/// One path as it stands in the block: UTF-16 with a terminating null unit.
pub open spec fn wide_path_bytes(p: Seq<char>) -> Seq<u8> {
    le_bytes(utf16_of(p).push(0u16))
}

pub open spec fn path_list_bytes(paths: Seq<Seq<char>>) -> Seq<u8>
    decreases paths.len(),
{
    if paths.len() == 0 {
        seq![]
    } else {
        path_list_bytes(paths.drop_last()) + wide_path_bytes(paths.last())
    }
}

/// The whole block for `paths`, in order.
pub open spec fn hdrop_bytes(paths: Seq<Seq<char>>) -> Seq<u8> {
    dropfiles_header() + path_list_bytes(paths) + seq![0u8, 0u8]
}

/// Sum over the paths of two bytes per UTF-16 unit, terminator included.
pub open spec fn wide_total(paths: Seq<Seq<char>>) -> int
    decreases paths.len(),
{
    if paths.len() == 0 {
        0
    } else {
        wide_total(paths.drop_last()) + 2 * (utf16_of(paths.last()).len() + 1)
    }
}

proof fn lemma_le_bytes_push(u: Seq<u16>, x: u16)
    ensures
        le_bytes(u.push(x)) == le_bytes(u) + unit_bytes(x),
{
    assert(u.push(x).drop_last() =~= u);
}

proof fn lemma_le_bytes_append(a: Seq<u16>, b: Seq<u16>)
    ensures
        le_bytes(a + b) == le_bytes(a) + le_bytes(b),
    decreases b.len(),
{
    if b.len() == 0 {
        assert(a + b =~= a);
        assert(le_bytes(a) + le_bytes(b) =~= le_bytes(a));
    } else {
        let c = b.drop_last();
        lemma_le_bytes_append(a, c);
        assert(a + b =~= (a + c).push(b.last()));
        lemma_le_bytes_push(a + c, b.last());
        assert(le_bytes(a) + le_bytes(b) =~= le_bytes(a) + le_bytes(c) + unit_bytes(b.last()));
    }
}

proof fn lemma_le_bytes_len(u: Seq<u16>)
    ensures
        le_bytes(u).len() == 2 * u.len(),
    decreases u.len(),
{
    if u.len() > 0 {
        lemma_le_bytes_len(u.drop_last());
    }
}

proof fn lemma_path_list_len(paths: Seq<Seq<char>>)
    ensures
        path_list_bytes(paths).len() == wide_total(paths),
    decreases paths.len(),
{
    if paths.len() > 0 {
        lemma_path_list_len(paths.drop_last());
        lemma_le_bytes_len(utf16_of(paths.last()).push(0u16));
    }
}

/// The block's length is the header size, plus two bytes per UTF-16 unit of
/// each path and its terminator, plus the two bytes of the final null unit.
pub proof fn lemma_hdrop_length(paths: Seq<Seq<char>>)
    ensures
        hdrop_bytes(paths).len() == DROPFILES_SIZE + wide_total(paths) + 2,
{
    lemma_path_list_len(paths);
}

fn push_unit(data: &mut Vec<u8>, u: u16)
    ensures
        final(data)@ == old(data)@ + unit_bytes(u),
{
    data.push((u % 256) as u8);
    data.push((u / 256) as u8);
    assert(final(data)@ =~= old(data)@ + unit_bytes(u));
}

fn push_char_units(data: &mut Vec<u8>, c: char)
    ensures
        final(data)@ == old(data)@ + le_bytes(utf16_units(c)),
{
    let v = c as u32;
    proof {
        char_is_scalar(c);
    }
    if v < 0x10000 {
        push_unit(data, v as u16);
        proof {
            lemma_le_bytes_push(seq![], v as u16);
            assert(seq![v as u16] =~= Seq::<u16>::empty().push(v as u16));
            assert(le_bytes(Seq::<u16>::empty()) =~= Seq::<u8>::empty());
            assert(final(data)@ =~= old(data)@ + le_bytes(utf16_units(c)));
        }
    } else {
        let w: u32 = v - 0x10000;
        let hi: u16 = (0xD800 + w / 1024) as u16;
        let lo: u16 = (0xDC00 + w % 1024) as u16;
        push_unit(data, hi);
        push_unit(data, lo);
        proof {
            lemma_le_bytes_push(seq![], hi);
            lemma_le_bytes_push(seq![hi], lo);
            assert(seq![hi] =~= Seq::<u16>::empty().push(hi));
            assert(seq![hi, lo] =~= seq![hi].push(lo));
            assert(le_bytes(Seq::<u16>::empty()) =~= Seq::<u8>::empty());
            assert(utf16_units(c) == seq![hi, lo]);
            assert(final(data)@ =~= old(data)@ + le_bytes(utf16_units(c)));
        }
    }
}

fn push_wide_path(data: &mut Vec<u8>, p: &str)
    ensures
        final(data)@ == old(data)@ + wide_path_bytes(p@),
{
    let n = p.unicode_len();
    let mut i: usize = 0;
    while i < n
        invariant
            n == p@.len(),
            0 <= i <= n,
            data@ == old(data)@ + le_bytes(utf16_of(p@.subrange(0, i as int))),
        decreases n - i,
    {
        let c = p.get_char(i);
        let ghost before = data@;
        push_char_units(data, c);
        proof {
            let s0 = p@.subrange(0, i as int);
            let s1 = p@.subrange(0, i + 1);
            assert(s1.drop_last() =~= s0);
            assert(utf16_of(s1) == utf16_of(s0) + utf16_units(c));
            lemma_le_bytes_append(utf16_of(s0), utf16_units(c));
            assert(data@ =~= old(data)@ + le_bytes(utf16_of(s1)));
        }
        i = i + 1;
    }
    push_unit(data, 0);
    proof {
        assert(p@.subrange(0, n as int) =~= p@);
        lemma_le_bytes_push(utf16_of(p@), 0u16);
        assert(data@ =~= old(data)@ + wide_path_bytes(p@));
    }
}

/// Builds the dropped-files block for `paths`, in order.
pub fn build_hdrop_data(paths: &Vec<String>) -> (r: Vec<u8>)
    ensures
        r@ == hdrop_bytes(string_views(paths@)),
        r@.len() == DROPFILES_SIZE + wide_total(string_views(paths@)) + 2,
{
    let mut data: Vec<u8> = vec![20u8, 0u8, 0u8, 0u8, 0u8, 0u8, 0u8, 0u8, 0u8, 0u8, 0u8, 0u8, 0u8, 0u8, 0u8, 0u8, 1u8, 0u8, 0u8, 0u8];
    assert(data@ =~= dropfiles_header());
    let mut k: usize = 0;
    while k < paths.len()
        invariant
            0 <= k <= paths@.len(),
            data@ == dropfiles_header() + path_list_bytes(
                string_views(paths@).subrange(0, k as int),
            ),
        decreases paths@.len() - k,
    {
        push_wide_path(&mut data, paths[k].as_str());
        proof {
            let v = string_views(paths@);
            assert(v.subrange(0, k + 1).drop_last() =~= v.subrange(0, k as int));
            assert(v.subrange(0, k + 1).last() == paths@[k as int]@);
            assert(data@ =~= dropfiles_header() + path_list_bytes(v.subrange(0, k + 1)));
        }
        k = k + 1;
    }
    data.push(0);
    data.push(0);
    proof {
        let v = string_views(paths@);
        assert(v.subrange(0, paths@.len() as int) =~= v);
        assert(data@ =~= hdrop_bytes(v));
        lemma_hdrop_length(v);
    }
    data
}

/// The value of the "preferred drop effect" format: copy, as a
/// little-endian 32-bit integer.
pub fn preferred_drop_effect_bytes() -> (r: Vec<u8>)
    ensures
        r@ == seq![1u8, 0u8, 0u8, 0u8],
{
    let r = vec![1u8, 0u8, 0u8, 0u8];
    assert(r@ =~= seq![1u8, 0u8, 0u8, 0u8]);
    r
}

/// The UTF-16 units of the path list: each path followed by a null unit.
pub open spec fn path_list_units(paths: Seq<Seq<char>>) -> Seq<u16>
    decreases paths.len(),
{
    if paths.len() == 0 {
        seq![]
    } else {
        path_list_units(paths.drop_last()) + utf16_of(paths.last()).push(0u16)
    }
}

/// Decodes UTF-16 read from the end: a low surrogate joins the unit before
/// it into one character; any other unit is one character.
pub open spec fn utf16_decode(u: Seq<u16>) -> Seq<char>
    decreases u.len(),
{
    if u.len() == 0 {
        seq![]
    } else if u.len() >= 2 && 0xDC00 <= u.last() <= 0xDFFF {
        let hi = u[u.len() - 2] as int;
        let lo = u.last() as int;
        utf16_decode(u.subrange(0, u.len() - 2)).push(
            ((0x10000 + (hi - 0xD800) * 1024 + (lo - 0xDC00)) as u32) as char,
        )
    } else {
        utf16_decode(u.drop_last()).push((u.last() as u32) as char)
    }
}

proof fn lemma_utf16_round_trip(s: Seq<char>)
    ensures
        utf16_decode(utf16_of(s)) == s,
        (forall|j: int| 0 <= j < s.len() ==> s[j] != '\0') ==> !utf16_of(s).contains(0u16),
    decreases s.len(),
{
    if s.len() > 0 {
        let p = s.drop_last();
        let c = s.last();
        lemma_utf16_round_trip(p);
        let v = c as u32;
        char_is_scalar(c);
        char_u32_cast(c, v);
        let u = utf16_of(s);
        assert(u == utf16_of(p) + utf16_units(c));
        if v < 0x10000 {
            assert(u.drop_last() =~= utf16_of(p));
            assert(u.last() == v as u16);
            assert((v as u16) as u32 == v);
        } else {
            let w = (v - 0x10000) as int;
            assert(w == (w / 1024) * 1024 + w % 1024) by (nonlinear_arith);
            assert(u.subrange(0, u.len() - 2) =~= utf16_of(p));
            assert(u[u.len() - 2] == (0xD800 + w / 1024) as u16);
            assert(u.last() == (0xDC00 + w % 1024) as u16);
        }
        assert(utf16_decode(u) =~= s);
        if forall|j: int| 0 <= j < s.len() ==> s[j] != '\0' {
            assert forall|j: int| 0 <= j < p.len() implies p[j] != '\0' by {
                assert(p[j] == s[j]);
            }
            assert(c != '\0');
            assert(v != 0) by {
                assert(('\0' as u32) == 0u32);
                char_u32_cast('\0', 0u32);
            }
            if u.contains(0u16) {
                let k = choose|k: int| 0 <= k < u.len() && u[k] == 0u16;
                if k < utf16_of(p).len() {
                    assert(utf16_of(p)[k] == 0u16);
                    assert(utf16_of(p).contains(0u16));
                } else {
                    assert(utf16_units(c)[k - utf16_of(p).len()] == 0u16);
                }
            }
        }
    }
}

proof fn lemma_path_list_bytes(paths: Seq<Seq<char>>)
    ensures
        path_list_bytes(paths) == le_bytes(path_list_units(paths)),
    decreases paths.len(),
{
    if paths.len() > 0 {
        lemma_path_list_bytes(paths.drop_last());
        lemma_le_bytes_append(path_list_units(paths.drop_last()), utf16_of(paths.last()).push(0u16));
    }
}

/// The block decodes back to the paths: after the header comes, for each
/// path in order, its UTF-16 units and a null unit, then one more null
/// unit. Where no path holds a null character, no path's units hold a
/// null, so the nulls split the list into exactly the paths, and decoding
/// each part gives that path back.
pub proof fn lemma_hdrop_decodes(paths: Seq<Seq<char>>)
    ensures
        hdrop_bytes(paths) == dropfiles_header() + le_bytes(path_list_units(paths).push(0u16)),
        forall|i: int| 0 <= i < paths.len() ==> utf16_decode(utf16_of(#[trigger] paths[i])) == paths[i],
        forall|i: int|
            0 <= i < paths.len() && (forall|j: int| 0 <= j < paths[i].len() ==> paths[i][j] != '\0')
                ==> !utf16_of(#[trigger] paths[i]).contains(0u16),
{
    lemma_path_list_bytes(paths);
    lemma_le_bytes_push(path_list_units(paths), 0u16);
    assert(unit_bytes(0u16) =~= seq![0u8, 0u8]);
    assert(hdrop_bytes(paths) =~= dropfiles_header() + le_bytes(path_list_units(paths).push(0u16)));
    assert forall|i: int| 0 <= i < paths.len() implies utf16_decode(utf16_of(#[trigger] paths[i]))
        == paths[i] by {
        lemma_utf16_round_trip(paths[i]);
    }
    assert forall|i: int|
        0 <= i < paths.len() && (forall|j: int| 0 <= j < paths[i].len() ==> paths[i][j] != '\0')
            implies !utf16_of(#[trigger] paths[i]).contains(0u16) by {
        lemma_utf16_round_trip(paths[i]);
    }
}

} // verus!
