//! The rich-text normalizer: strips inline formatting codes from a CAD text
//! value and turns the line-break and space escapes into plain characters.

use vstd::prelude::*;
use vstd::utf8::*;
use vstd::string::*;
use crate::text::push_char;

verus! {

pub const BACKSLASH: u8 = 0x5C;

pub const SEMICOLON: u8 = 0x3B;

pub const OPEN_BRACE: u8 = 0x7B;

pub const CLOSE_BRACE: u8 = 0x7D;

pub const NEWLINE: u8 = 0x0A;

pub const SPACE: u8 = 0x20;

/// The byte, read as a code point of its own, is a letter: the ASCII letters
/// and the letters of the range from 0x80 to 0xFF.
pub open spec fn is_alphabetic_byte(b: u8) -> bool {
    ||| 0x41 <= b <= 0x5A
    ||| 0x61 <= b <= 0x7A
    ||| b == 0xAA
    ||| b == 0xB5
    ||| b == 0xBA
    ||| 0xC0 <= b <= 0xD6
    ||| 0xD8 <= b <= 0xF6
    ||| 0xF8 <= b
}

/// The byte may stand inside a formatting code: an ASCII letter or digit,
/// `-`, `_`, `|`, a space or `.`.
pub open spec fn is_code_byte(b: u8) -> bool {
    ||| 0x30 <= b <= 0x39
    ||| 0x41 <= b <= 0x5A
    ||| 0x61 <= b <= 0x7A
    ||| b == 0x2D
    ||| b == 0x5F
    ||| b == 0x7C
    ||| b == 0x20
    ||| b == 0x2E
}

/// The byte is one of the four that the normalizer treats specially.
pub open spec fn is_marker_byte(b: u8) -> bool {
    b == BACKSLASH || b == SEMICOLON || b == OPEN_BRACE || b == CLOSE_BRACE
}

/// Whether the byte, read as a code point of its own, is a letter.
pub fn byte_is_alphabetic(b: u8) -> (r: bool)
    ensures
        r == is_alphabetic_byte(b),
{
    (0x41 <= b && b <= 0x5A) || (0x61 <= b && b <= 0x7A) || b == 0xAA || b == 0xB5 || b == 0xBA
        || (0xC0 <= b && b <= 0xD6) || (0xD8 <= b && b <= 0xF6) || 0xF8 <= b
}

/// Whether the byte may stand inside a formatting code.
pub fn byte_is_code(b: u8) -> (r: bool)
    ensures
        r == is_code_byte(b),
{
    (0x30 <= b && b <= 0x39) || (0x41 <= b && b <= 0x5A) || (0x61 <= b && b <= 0x7A) || b == 0x2D
        || b == 0x5F || b == 0x7C || b == 0x20 || b == 0x2E
}

/// Where processing starts, looking from `i` on: just behind the first
/// semicolon, or at 0 where there is none.
pub open spec fn text_start_from(s: Seq<u8>, i: int) -> int
    decreases s.len() - i,
{
    if i < 0 || i >= s.len() {
        0
    } else if s[i] == SEMICOLON {
        i + 1
    } else {
        text_start_from(s, i + 1)
    }
}

/// Where processing starts in `s`.
pub open spec fn text_start(s: Seq<u8>) -> int {
    text_start_from(s, 0)
}

/// The number of code bytes that stand in `s` from `i` on without a break.
pub open spec fn code_len(s: Seq<u8>, i: int) -> nat
    decreases s.len() - i,
{
    if 0 <= i < s.len() && is_code_byte(s[i]) {
        1 + code_len(s, i + 1)
    } else {
        0
    }
}

/// What the scan of `s` from `i` on puts out.
pub open spec fn scanned(s: Seq<u8>, i: int) -> Seq<u8>
    decreases s.len() - i,
{
    if i < 0 || i >= s.len() {
        Seq::empty()
    } else if s[i] == OPEN_BRACE || s[i] == CLOSE_BRACE {
        scanned(s, i + 1)
    } else if s[i] != BACKSLASH {
        seq![s[i]] + scanned(s, i + 1)
    } else if i + 1 >= s.len() {
        seq![BACKSLASH]
    } else if s[i + 1] == BACKSLASH {
        seq![BACKSLASH] + scanned(s, i + 2)
    } else if s[i + 1] == 0x50 {
        seq![NEWLINE] + scanned(s, i + 2)
    } else if s[i + 1] == 0x7E {
        seq![SPACE] + scanned(s, i + 2)
    } else if is_alphabetic_byte(s[i + 1]) {
        let j = i + 2 + code_len(s, i + 2);
        if j >= s.len() {
            s.subrange(i, s.len() as int)
        } else if s[j] == SEMICOLON {
            scanned(s, j + 1)
        } else {
            s.subrange(i, j) + scanned(s, j)
        }
    } else {
        seq![BACKSLASH] + scanned(s, i + 1)
    }
}

/// The normalized form of the bytes `s`.
pub open spec fn normalized(s: Seq<u8>) -> Seq<u8> {
    scanned(s, text_start(s))
}

/// Each byte as the character with that code point.
pub open spec fn widened(s: Seq<u8>) -> Seq<char> {
    Seq::new(s.len(), |i: int| s[i] as char)
}

/// The normalized form of a text: its UTF-8 bytes are normalized, and each
/// byte that is left becomes one character.
pub open spec fn normalized_text(t: Seq<char>) -> Seq<char> {
    widened(normalized(encode_utf8(t)))
}

/// The bytes hold no backslash, semicolon or brace.
pub open spec fn marker_free(s: Seq<u8>) -> bool {
    forall|k: int| 0 <= k < s.len() ==> !is_marker_byte(#[trigger] s[k])
}

/// The bytes hold no semicolon.
pub open spec fn semicolon_free(s: Seq<u8>) -> bool {
    forall|k: int| 0 <= k < s.len() ==> #[trigger] s[k] != SEMICOLON
}

/// Finds where processing starts: just behind the first semicolon, or at the
/// first byte where there is none.
pub fn find_text_start(bytes: &[u8]) -> (start: usize)
    ensures
        start == text_start(bytes@),
        start <= bytes@.len(),
{
    let n: usize = bytes.len();
    let mut k: usize = 0;
    while k < n
        invariant
            k <= n,
            n == bytes@.len(),
            text_start_from(bytes@, k as int) == text_start(bytes@),
        decreases n - k,
    {
        if bytes[k] == SEMICOLON {
            return k + 1;
        }
        k += 1;
    }
    0
}

/// Normalizes a rich-text value given as bytes: drops what stands before the
/// first semicolon, the braces and the terminated formatting codes, and
/// replaces the escapes for a backslash, a line break and a space.
pub fn normalize_bytes(bytes: &[u8]) -> (out: Vec<u8>)
    ensures
        out@ == normalized(bytes@),
{
    let ghost s = bytes@;
    let n: usize = bytes.len();
    let mut out: Vec<u8> = Vec::new();
    let mut i: usize = find_text_start(bytes);
    assert(out@ + scanned(s, i as int) =~= normalized(s));
    while i < n
        invariant
            i <= n,
            n == s.len(),
            s == bytes@,
            out@ + scanned(s, i as int) == normalized(s),
        decreases n - i,
    {
        let ghost prev = out@;
        let ghost at = i as int;
        let b: u8 = bytes[i];
        if b == OPEN_BRACE || b == CLOSE_BRACE {
            i += 1;
        } else if b != BACKSLASH {
            out.push(b);
            i += 1;
        } else if i + 1 < n {
            let next: u8 = bytes[i + 1];
            if next == BACKSLASH {
                out.push(BACKSLASH);
                i += 2;
            } else if next == 0x50 {
                out.push(NEWLINE);
                i += 2;
            } else if next == 0x7E {
                out.push(SPACE);
                i += 2;
            } else if byte_is_alphabetic(next) {
                let mut j: usize = i + 2;
                while j < n && byte_is_code(bytes[j])
                    invariant
                        i + 2 <= j <= n,
                        n == s.len(),
                        s == bytes@,
                        code_len(s, i + 2) == (j - (i + 2)) + code_len(s, j as int),
                    decreases n - j,
                {
                    j += 1;
                }
                assert(code_len(s, j as int) == 0);
                if j < n && bytes[j] == SEMICOLON {
                    i = j + 1;
                } else {
                    let mut k: usize = i;
                    while k < j
                        invariant
                            i <= k <= j <= n,
                            n == s.len(),
                            s == bytes@,
                            out@ == prev + s.subrange(i as int, k as int),
                        decreases j - k,
                    {
                        out.push(bytes[k]);
                        k += 1;
                        assert(out@ =~= prev + s.subrange(i as int, k as int));
                    }
                    i = j;
                }
            } else {
                out.push(BACKSLASH);
                i += 1;
            }
        } else {
            out.push(BACKSLASH);
            i += 1;
        }
        assert(out@ + scanned(s, i as int) =~= prev + scanned(s, at));
    }
    assert(out@ + scanned(s, i as int) =~= out@);
    out
}

/// Normalizes a rich-text value. The value is read as its UTF-8 bytes, and
/// each byte that is left becomes one character of the result.
pub fn normalize_mtext(input: &str) -> (out: String)
    ensures
        out@ == normalized_text(input@),
{
    let norm = normalize_bytes(input.as_bytes());
    let mut out = String::new();
    let mut k: usize = 0;
    while k < norm.len()
        invariant
            k <= norm.len(),
            out@ == widened(norm@.subrange(0, k as int)),
        decreases norm.len() - k,
    {
        push_char(&mut out, norm[k] as char);
        k += 1;
        assert(out@ =~= widened(norm@.subrange(0, k as int)));
    }
    assert(norm@.subrange(0, norm.len() as int) =~= norm@);
    out
}

proof fn lemma_no_semicolon_start(s: Seq<u8>, i: int)
    requires
        semicolon_free(s),
        0 <= i,
    ensures
        text_start_from(s, i) == 0,
    decreases s.len() - i,
{
    if i < s.len() {
        lemma_no_semicolon_start(s, i + 1);
    }
}

proof fn lemma_marker_free_scan(s: Seq<u8>, i: int)
    requires
        marker_free(s),
        0 <= i <= s.len(),
    ensures
        scanned(s, i) == s.subrange(i, s.len() as int),
    decreases s.len() - i,
{
    if i < s.len() {
        lemma_marker_free_scan(s, i + 1);
        assert(!is_marker_byte(s[i]));
        assert(seq![s[i]] + s.subrange(i + 1, s.len() as int) =~= s.subrange(i, s.len() as int));
    } else {
        assert(scanned(s, i) =~= s.subrange(i, s.len() as int));
    }
}

/// The bytes hold no brace.
pub open spec fn brace_free(s: Seq<u8>) -> bool {
    forall|k: int| 0 <= k < s.len() ==> #[trigger] s[k] != OPEN_BRACE && s[k] != CLOSE_BRACE
}

proof fn lemma_code_run_is_code(s: Seq<u8>, i: int, k: int)
    requires
        0 <= i <= k < i + code_len(s, i),
    ensures
        k < s.len(),
        is_code_byte(s[k]),
    decreases k - i,
{
    if k > i {
        lemma_code_run_is_code(s, i + 1, k);
    }
}

proof fn lemma_scan_drops_braces(s: Seq<u8>, i: int)
    requires
        0 <= i,
    ensures
        brace_free(scanned(s, i)),
    decreases s.len() - i,
{
    if i < s.len() {
        let out = scanned(s, i);
        if s[i] == BACKSLASH && i + 1 < s.len() && s[i + 1] != BACKSLASH && s[i + 1] != 0x50
            && s[i + 1] != 0x7E && is_alphabetic_byte(s[i + 1]) {
            let j = i + 2 + code_len(s, i + 2);
            let end = if j >= s.len() {
                s.len() as int
            } else {
                j
            };
            assert forall|k: int| i <= k < end implies s[k] != OPEN_BRACE && s[k]
                != CLOSE_BRACE by {
                if k >= i + 2 {
                    lemma_code_run_is_code(s, i + 2, k);
                }
            }
            if j < s.len() {
                lemma_scan_drops_braces(s, j);
                lemma_scan_drops_braces(s, j + 1);
            }
            assert forall|k: int| 0 <= k < out.len() implies #[trigger] out[k] != OPEN_BRACE
                && out[k] != CLOSE_BRACE by {
                if j < s.len() && s[j] != SEMICOLON && k < j - i {
                    assert(out[k] == s[i + k]);
                } else if j >= s.len() {
                    assert(out[k] == s[i + k]);
                }
            }
        } else {
            lemma_scan_drops_braces(s, i + 1);
            if i + 2 <= s.len() {
                lemma_scan_drops_braces(s, i + 2);
            }
        }
    }
}

/// No brace is left in a normalized text.
pub proof fn lemma_normalized_has_no_brace(s: Seq<u8>)
    ensures
        brace_free(normalized(s)),
{
    assert(text_start(s) >= 0) by {
        lemma_text_start_bounds(s, 0);
    }
    lemma_scan_drops_braces(s, text_start(s));
}

proof fn lemma_text_start_bounds(s: Seq<u8>, i: int)
    requires
        0 <= i,
    ensures
        0 <= text_start_from(s, i) <= s.len(),
    decreases s.len() - i,
{
    if i < s.len() && s[i] != SEMICOLON {
        lemma_text_start_bounds(s, i + 1);
    }
}

/// A text without a semicolon is processed whole, from its first byte.
pub proof fn lemma_no_semicolon_no_truncation(s: Seq<u8>)
    requires
        semicolon_free(s),
    ensures
        text_start(s) == 0,
        normalized(s) == scanned(s, 0),
{
    lemma_no_semicolon_start(s, 0);
}

/// Bytes that hold no backslash, semicolon or brace are their own normalized
/// form.
pub proof fn lemma_marker_free_fixed(s: Seq<u8>)
    requires
        marker_free(s),
    ensures
        normalized(s) == s,
{
    assert(semicolon_free(s)) by {
        assert forall|k: int| 0 <= k < s.len() implies #[trigger] s[k] != SEMICOLON by {
            assert(!is_marker_byte(s[k]));
        }
    }
    lemma_no_semicolon_start(s, 0);
    lemma_marker_free_scan(s, 0);
    assert(s.subrange(0, s.len() as int) =~= s);
}

/// Normalizing is idempotent on every input whose normalized form holds no
/// backslash, semicolon or brace.
pub proof fn lemma_normalize_idempotent(s: Seq<u8>)
    requires
        marker_free(normalized(s)),
    ensures
        normalized(normalized(s)) == normalized(s),
{
    lemma_marker_free_fixed(normalized(s));
}

/// The text holds no backslash, semicolon or brace.
pub open spec fn marker_free_text(t: Seq<char>) -> bool {
    forall|k: int|
        0 <= k < t.len() ==> #[trigger] t[k] != '\\' && t[k] != ';' && t[k] != '{' && t[k] != '}'
}

/// On texts, normalizing is idempotent wherever the normalized text is ASCII
/// and holds no backslash, semicolon or brace.
pub proof fn lemma_normalize_text_idempotent(t: Seq<char>)
    requires
        is_ascii_chars(normalized_text(t)),
        marker_free_text(normalized_text(t)),
    ensures
        normalized_text(normalized_text(t)) == normalized_text(t),
{
    let n = normalized(encode_utf8(t));
    let u = normalized_text(t);
    is_ascii_chars_encode_utf8(u);
    let e = encode_utf8(u);
    assert(e =~= n) by {
        assert forall|i: int| 0 <= i < n.len() implies e[i] == n[i] by {
            assert(u[i] == n[i] as char);
            assert('\0' <= u[i] <= '\u{7f}');
            assert(u[i] as u8 == e[i]);
        }
    }
    assert(marker_free(n)) by {
        assert forall|k: int| 0 <= k < n.len() implies !is_marker_byte(#[trigger] n[k]) by {
            assert(u[k] == n[k] as char);
            assert(u[k] != '\\' && u[k] != ';' && u[k] != '{' && u[k] != '}');
        }
    }
    lemma_marker_free_fixed(n);
}

} // verus!
