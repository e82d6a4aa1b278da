//! The inline format extractor: reads the font family and the style hints
//! from the first font block of a rich-text value.

use vstd::prelude::*;
use crate::number::{parse_i32, parsed_i32};
use crate::text::{chars_of, slice_of, string_of};

verus! {

/// The character has Unicode's property White_Space.
pub open spec fn is_whitespace_char(c: char) -> bool {
    ||| '\u{9}' <= c <= '\u{d}'
    ||| c == ' '
    ||| c == '\u{85}'
    ||| c == '\u{a0}'
    ||| c == '\u{1680}'
    ||| '\u{2000}' <= c <= '\u{200a}'
    ||| c == '\u{2028}'
    ||| c == '\u{2029}'
    ||| c == '\u{202f}'
    ||| c == '\u{205f}'
    ||| c == '\u{3000}'
}

/// Whether the character is white space.
pub fn char_is_whitespace(c: char) -> (r: bool)
    ensures
        r == is_whitespace_char(c),
{
    ('\u{9}' <= c && c <= '\u{d}') || c == ' ' || c == '\u{85}' || c == '\u{a0}' || c == '\u{1680}'
        || ('\u{2000}' <= c && c <= '\u{200a}') || c == '\u{2028}' || c == '\u{2029}' || c
        == '\u{202f}' || c == '\u{205f}' || c == '\u{3000}'
}

/// What is stripped from the ends of a field: braces, or white space.
pub open spec fn strippable(c: char, braces: bool) -> bool {
    if braces {
        c == '{' || c == '}'
    } else {
        is_whitespace_char(c)
    }
}

/// The number of strippable characters that stand in `s` from `i` on without
/// a break.
pub open spec fn lead_len(s: Seq<char>, i: int, braces: bool) -> nat
    decreases s.len() - i,
{
    if 0 <= i < s.len() && strippable(s[i], braces) {
        1 + lead_len(s, i + 1, braces)
    } else {
        0
    }
}

/// The end of what is kept of `s` between `lo` and `j`: the least end from
/// which only strippable characters follow up to `j`.
pub open spec fn keep_end(s: Seq<char>, lo: int, j: int, braces: bool) -> int
    decreases j - lo,
{
    if lo < j <= s.len() && 0 <= lo && strippable(s[j - 1], braces) {
        keep_end(s, lo, j - 1, braces)
    } else {
        j
    }
}

/// `s` without the strippable characters at its two ends.
pub open spec fn stripped(s: Seq<char>, braces: bool) -> Seq<char> {
    let lo = lead_len(s, 0, braces) as int;
    s.subrange(lo, keep_end(s, lo, s.len() as int, braces))
}

/// The number of characters that stand in `s` from `i` on before the next
/// `stop`, or before the end.
pub open spec fn run_len(s: Seq<char>, i: int, stop: char) -> nat
    decreases s.len() - i,
{
    if 0 <= i < s.len() && s[i] != stop {
        1 + run_len(s, i + 1, stop)
    } else {
        0
    }
}

/// The fields of `s` from `i` on, which `|` separates.
pub open spec fn split_from(s: Seq<char>, i: int) -> Seq<Seq<char>>
    decreases s.len() - i,
{
    let k = i + run_len(s, i, '|');
    if i < 0 || k >= s.len() {
        seq![s.subrange(i, s.len() as int)]
    } else {
        seq![s.subrange(i, k)] + split_from(s, k + 1)
    }
}

/// The place of the first font marker, a backslash and `f`, in `s` from `i`
/// on; the length of `s` where there is none.
pub open spec fn marker_pos(s: Seq<char>, i: int) -> int
    decreases s.len() - i,
{
    if i < 0 || i + 1 >= s.len() {
        s.len() as int
    } else if s[i] == '\\' && s[i + 1] == 'f' {
        i
    } else {
        marker_pos(s, i + 1)
    }
}

/// The font block of `s`: what stands between the first font marker and the
/// next semicolon, or the end. `None` where `s` holds no marker.
pub open spec fn font_block(s: Seq<char>) -> Option<Seq<char>> {
    let m = marker_pos(s, 0);
    if m >= s.len() {
        None
    } else {
        Some(s.subrange(m + 2, m + 2 + run_len(s, m + 2, ';')))
    }
}

/// The hints of a font block, as plain values.
pub struct FormatModel {
    pub family: Option<Seq<char>>,
    pub bold: bool,
    pub italic: bool,
    pub color_index: Option<i32>,
    pub point_sizes: Seq<Seq<char>>,
}

/// The hints where nothing is set.
pub open spec fn no_format() -> FormatModel {
    FormatModel {
        family: None,
        bold: false,
        italic: false,
        color_index: None,
        point_sizes: Seq::empty(),
    }
}

/// The family that the first field of a block names: the field without the
/// white space and then the braces at its ends, if anything is left.
pub open spec fn family_of(field: Seq<char>) -> Option<Seq<char>> {
    let name = stripped(stripped(field, false), true);
    if name.len() == 0 {
        None
    } else {
        Some(name)
    }
}

/// The hints `m` after one more field, already stripped of white space. The
/// first letter says what the field sets; a field of one character, or one
/// whose number does not read, changes nothing.
pub open spec fn with_field(m: FormatModel, f: Seq<char>) -> FormatModel {
    if f.len() < 2 {
        m
    } else {
        let rest = f.subrange(1, f.len() as int);
        if f[0] == 'b' {
            match parsed_i32(rest) {
                Some(v) => FormatModel { bold: v != 0, ..m },
                None => m,
            }
        } else if f[0] == 'i' {
            match parsed_i32(rest) {
                Some(v) => FormatModel { italic: v != 0, ..m },
                None => m,
            }
        } else if f[0] == 'c' {
            match parsed_i32(rest) {
                Some(v) => FormatModel { color_index: Some(v), ..m },
                None => m,
            }
        } else if f[0] == 'p' {
            FormatModel { point_sizes: m.point_sizes.push(rest), ..m }
        } else {
            m
        }
    }
}

/// The hints after the first `n` fields of a block.
pub open spec fn with_fields(fields: Seq<Seq<char>>, n: nat) -> FormatModel
    decreases n,
{
    if n == 0 || n > fields.len() {
        no_format()
    } else if n == 1 {
        FormatModel { family: family_of(fields[0]), ..no_format() }
    } else {
        with_field(with_fields(fields, (n - 1) as nat), stripped(fields[n - 1], false))
    }
}

/// The hints that the text `s` carries.
pub open spec fn extracted(s: Seq<char>) -> FormatModel {
    match font_block(s) {
        None => no_format(),
        Some(block) => {
            let fields = split_from(block, 0);
            with_fields(fields, fields.len())
        },
    }
}

/// The font and style hints of a rich-text value. `point_size_texts` holds,
/// in order, what stands behind the `p` of each point-size field: the last of
/// them that reads as a decimal number is the size.
pub struct MTextFormatInfo {
    pub family: Option<String>,
    pub bold: bool,
    pub italic: bool,
    pub color_index: Option<i32>,
    pub point_size_texts: Vec<String>,
}

impl MTextFormatInfo {
    pub open spec fn model(&self) -> FormatModel {
        FormatModel {
            family: match self.family {
                Some(name) => Some(name@),
                None => None,
            },
            bold: self.bold,
            italic: self.italic,
            color_index: self.color_index,
            point_sizes: Seq::new(
                self.point_size_texts@.len(),
                |k: int| self.point_size_texts@[k]@,
            ),
        }
    }

    /// The hints where nothing is set.
    pub fn empty() -> (info: Self)
        ensures
            info.model() == no_format(),
    {
        let info = MTextFormatInfo {
            family: None,
            bold: false,
            italic: false,
            color_index: None,
            point_size_texts: Vec::new(),
        };
        assert(info.model().point_sizes =~= Seq::empty());
        info
    }
}

/// Finds the next `stop` in `v` from `i` on, or the end.
pub fn find_stop(v: &Vec<char>, i: usize, stop: char) -> (j: usize)
    requires
        i <= v@.len(),
    ensures
        j == i + run_len(v@, i as int, stop),
        i <= j <= v@.len(),
        j < v@.len() ==> v@[j as int] == stop,
{
    let mut j: usize = i;
    while j < v.len() && v[j] != stop
        invariant
            i <= j <= v@.len(),
            run_len(v@, i as int, stop) == (j - i) + run_len(v@, j as int, stop),
        decreases v@.len() - j,
    {
        j += 1;
    }
    j
}

/// Strips the white space, or the braces, from the two ends of `v`.
pub fn strip(v: &Vec<char>, braces: bool) -> (r: Vec<char>)
    ensures
        r@ == stripped(v@, braces),
{
    let n: usize = v.len();
    let mut lo: usize = 0;
    while lo < n && can_strip(v[lo], braces)
        invariant
            lo <= n,
            n == v@.len(),
            lead_len(v@, 0, braces) == lo + lead_len(v@, lo as int, braces),
        decreases n - lo,
    {
        lo += 1;
    }
    let mut hi: usize = n;
    while lo < hi && can_strip(v[hi - 1], braces)
        invariant
            lo <= hi <= n,
            n == v@.len(),
            keep_end(v@, lo as int, n as int, braces) == keep_end(v@, lo as int, hi as int, braces),
        decreases hi - lo,
    {
        hi -= 1;
    }
    slice_of(v, lo, hi)
}

/// Whether the character is stripped from the ends of a field.
pub fn can_strip(c: char, braces: bool) -> (r: bool)
    ensures
        r == strippable(c, braces),
{
    if braces {
        c == '{' || c == '}'
    } else {
        char_is_whitespace(c)
    }
}

/// Splits `v` into the fields that `|` separates.
pub fn split_fields(v: &Vec<char>) -> (fields: Vec<Vec<char>>)
    ensures
        fields@.len() == split_from(v@, 0).len(),
        fields@.len() >= 1,
        forall|k: int| 0 <= k < fields@.len() ==> (#[trigger] fields@[k])@ == split_from(v@, 0)[k],
{
    let n: usize = v.len();
    let mut fields: Vec<Vec<char>> = Vec::new();
    let mut pos: usize = 0;
    let ghost done: Seq<Seq<char>> = Seq::empty();
    assert(done + split_from(v@, 0) =~= split_from(v@, 0));
    loop
        invariant_except_break
            done + split_from(v@, pos as int) == split_from(v@, 0),
        invariant
            pos <= n,
            n == v@.len(),
            done.len() == fields@.len(),
            forall|k: int| 0 <= k < fields@.len() ==> (#[trigger] fields@[k])@ == done[k],
        ensures
            fields@.len() == split_from(v@, 0).len(),
            fields@.len() >= 1,
            forall|k: int|
                0 <= k < fields@.len() ==> (#[trigger] fields@[k])@ == split_from(v@, 0)[k],
        decreases n - pos,
    {
        let k: usize = find_stop(v, pos, '|');
        let ghost before = done;
        if k >= n {
            fields.push(slice_of(v, pos, n));
            proof {
                done = before.push(v@.subrange(pos as int, n as int));
                assert(done =~= before + split_from(v@, pos as int));
            }
            break;
        }
        fields.push(slice_of(v, pos, k));
        proof {
            done = before.push(v@.subrange(pos as int, k as int));
            assert(done + split_from(v@, k + 1) =~= before + split_from(v@, pos as int));
        }
        pos = k + 1;
    }
    fields
}

/// Finds the first font marker in `v`.
pub fn find_marker(v: &Vec<char>) -> (m: usize)
    ensures
        m == marker_pos(v@, 0),
        m <= v@.len(),
        m < v@.len() ==> m + 2 <= v@.len(),
{
    let n: usize = v.len();
    let mut i: usize = 0;
    while i < n && i + 1 < n
        invariant
            i <= n,
            n == v@.len(),
            marker_pos(v@, i as int) == marker_pos(v@, 0),
        decreases n - i,
    {
        if v[i] == '\\' && v[i + 1] == 'f' {
            return i;
        }
        i += 1;
    }
    n
}

/// Takes one more field, already stripped of white space, into the hints.
pub fn apply_field(info: &mut MTextFormatInfo, field: &Vec<char>)
    ensures
        final(info).model() == with_field(old(info).model(), field@),
{
    let n: usize = field.len();
    if n < 2 {
        return ;
    }
    let rest = slice_of(field, 1, n);
    let tag: char = field[0];
    if tag == 'b' {
        if let Some(v) = parse_i32(&rest) {
            info.bold = v != 0;
        }
    } else if tag == 'i' {
        if let Some(v) = parse_i32(&rest) {
            info.italic = v != 0;
        }
    } else if tag == 'c' {
        if let Some(v) = parse_i32(&rest) {
            info.color_index = Some(v);
        }
    } else if tag == 'p' {
        let text = string_of(&rest);
        info.point_size_texts.push(text);
        assert(info.model().point_sizes =~= old(info).model().point_sizes.push(rest@));
    }
}

/// Reads the hints of the first font block of `input`: the family from its
/// first field, and from each later field what its first letter names.
pub fn extract_mtext_format(input: &str) -> (info: MTextFormatInfo)
    ensures
        info.model() == extracted(input@),
{
    let chars = chars_of(input);
    let mut info = MTextFormatInfo::empty();
    let m: usize = find_marker(&chars);
    if m >= chars.len() {
        return info;
    }
    let end: usize = find_stop(&chars, m + 2, ';');
    let block = slice_of(&chars, m + 2, end);
    let fields = split_fields(&block);
    let name = strip(&strip(&fields[0], false), true);
    if name.len() > 0 {
        info.family = Some(string_of(&name));
    }
    let ghost all = split_from(block@, 0);
    assert(info.model().point_sizes =~= Seq::empty());
    assert(info.model() == with_fields(all, 1));
    let mut k: usize = 1;
    while k < fields.len()
        invariant
            1 <= k <= fields@.len(),
            all == split_from(block@, 0),
            fields@.len() == all.len(),
            forall|j: int| 0 <= j < fields@.len() ==> (#[trigger] fields@[j])@ == all[j],
            info.model() == with_fields(all, k as nat),
        decreases fields@.len() - k,
    {
        let field = strip(&fields[k], false);
        apply_field(&mut info, &field);
        k += 1;
    }
    info
}

} // verus!
