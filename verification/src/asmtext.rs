//! Text utilities for the assembler: line splitting, whitespace handling,
//! ASCII case folding, tokenising, digit values and hexadecimal formatting.
//!
//! Everything works over sequences of characters, with executable functions
//! proved against recursive specification functions.  Case folding and
//! whitespace recognition are deliberately ASCII-only: mnemonics, registers
//! and numbers are ASCII by their grammar, and label names compare equal
//! exactly when they agree under ASCII folding.  Text outside ASCII passes
//! through unchanged and never counts as whitespace.

use vstd::prelude::*;
use vstd::slice::{slice_subrange, slice_to_vec};

verus! {

/// The whitespace characters recognised by the assembler.
pub open spec fn spec_is_space(c: char) -> bool {
    c == ' ' || c == '\t' || c == '\n' || c == '\r' || c == '\u{b}' || c == '\u{c}'
}

/// Whether `c` is whitespace.
pub fn is_space(c: char) -> (r: bool)
    ensures
        r == spec_is_space(c),
{
    c == ' ' || c == '\t' || c == '\n' || c == '\r' || c == '\u{b}' || c == '\u{c}'
}

/// ASCII case folding of one character: lower-case letters map to their
/// upper-case forms, everything else is unchanged.
pub open spec fn spec_upper_char(c: char) -> char {
    if c == 'a' {
        'A'
    } else if c == 'b' {
        'B'
    } else if c == 'c' {
        'C'
    } else if c == 'd' {
        'D'
    } else if c == 'e' {
        'E'
    } else if c == 'f' {
        'F'
    } else if c == 'g' {
        'G'
    } else if c == 'h' {
        'H'
    } else if c == 'i' {
        'I'
    } else if c == 'j' {
        'J'
    } else if c == 'k' {
        'K'
    } else if c == 'l' {
        'L'
    } else if c == 'm' {
        'M'
    } else if c == 'n' {
        'N'
    } else if c == 'o' {
        'O'
    } else if c == 'p' {
        'P'
    } else if c == 'q' {
        'Q'
    } else if c == 'r' {
        'R'
    } else if c == 's' {
        'S'
    } else if c == 't' {
        'T'
    } else if c == 'u' {
        'U'
    } else if c == 'v' {
        'V'
    } else if c == 'w' {
        'W'
    } else if c == 'x' {
        'X'
    } else if c == 'y' {
        'Y'
    } else if c == 'z' {
        'Z'
    } else {
        c
    }
}

/// ASCII case folding of one character.
pub fn upper_char(c: char) -> (r: char)
    ensures
        r == spec_upper_char(c),
{
    match c {
        'a' => 'A',
        'b' => 'B',
        'c' => 'C',
        'd' => 'D',
        'e' => 'E',
        'f' => 'F',
        'g' => 'G',
        'h' => 'H',
        'i' => 'I',
        'j' => 'J',
        'k' => 'K',
        'l' => 'L',
        'm' => 'M',
        'n' => 'N',
        'o' => 'O',
        'p' => 'P',
        'q' => 'Q',
        'r' => 'R',
        's' => 'S',
        't' => 'T',
        'u' => 'U',
        'v' => 'V',
        'w' => 'W',
        'x' => 'X',
        'y' => 'Y',
        'z' => 'Z',
        _ => c,
    }
}

/// A sequence folded to upper case, character by character.
pub open spec fn spec_upper(s: Seq<char>) -> Seq<char> {
    s.map_values(|c: char| spec_upper_char(c))
}

/// Fold a character sequence to upper case.
pub fn to_upper(s: &[char]) -> (r: Vec<char>)
    ensures
        r@ == spec_upper(s@),
{
    let mut out: Vec<char> = Vec::new();
    let mut i: usize = 0;
    while i < s.len()
        invariant
            i <= s@.len(),
            out@ =~= spec_upper(s@).take(i as int),
        decreases s@.len() - i,
    {
        out.push(upper_char(s[i]));
        i = i + 1;
    }
    assert(out@ =~= spec_upper(s@));
    out
}

/// The value of a hexadecimal digit, upper or lower case; `None` for any
/// other character.
pub open spec fn spec_hex_val(c: char) -> Option<u8> {
    if c == '0' {
        Some(0u8)
    } else if c == '1' {
        Some(1u8)
    } else if c == '2' {
        Some(2u8)
    } else if c == '3' {
        Some(3u8)
    } else if c == '4' {
        Some(4u8)
    } else if c == '5' {
        Some(5u8)
    } else if c == '6' {
        Some(6u8)
    } else if c == '7' {
        Some(7u8)
    } else if c == '8' {
        Some(8u8)
    } else if c == '9' {
        Some(9u8)
    } else if c == 'A' || c == 'a' {
        Some(10u8)
    } else if c == 'B' || c == 'b' {
        Some(11u8)
    } else if c == 'C' || c == 'c' {
        Some(12u8)
    } else if c == 'D' || c == 'd' {
        Some(13u8)
    } else if c == 'E' || c == 'e' {
        Some(14u8)
    } else if c == 'F' || c == 'f' {
        Some(15u8)
    } else {
        None
    }
}

/// The value of a hexadecimal digit.
pub fn hex_val(c: char) -> (r: Option<u8>)
    ensures
        r == spec_hex_val(c),
        r matches Some(v) ==> v < 16,
{
    match c {
        '0' => Some(0),
        '1' => Some(1),
        '2' => Some(2),
        '3' => Some(3),
        '4' => Some(4),
        '5' => Some(5),
        '6' => Some(6),
        '7' => Some(7),
        '8' => Some(8),
        '9' => Some(9),
        'A' | 'a' => Some(10),
        'B' | 'b' => Some(11),
        'C' | 'c' => Some(12),
        'D' | 'd' => Some(13),
        'E' | 'e' => Some(14),
        'F' | 'f' => Some(15),
        _ => None,
    }
}

/// The value of a decimal digit; `None` for any other character.
pub open spec fn spec_dec_val(c: char) -> Option<u8> {
    match spec_hex_val(c) {
        Some(v) => if v < 10 {
            Some(v)
        } else {
            None
        },
        None => None,
    }
}

/// The value of a decimal digit.
pub fn dec_val(c: char) -> (r: Option<u8>)
    ensures
        r == spec_dec_val(c),
        r matches Some(v) ==> v < 10,
{
    match hex_val(c) {
        Some(v) => if v < 10 {
            Some(v)
        } else {
            None
        },
        None => None,
    }
}

/// The index of the first occurrence of `c`, or -1 when absent.
pub open spec fn spec_find_char(s: Seq<char>, c: char) -> int
    decreases s.len(),
{
    if s.len() == 0 {
        -1
    } else if s[0] == c {
        0
    } else {
        let r = spec_find_char(s.skip(1), c);
        if r < 0 {
            -1
        } else {
            r + 1
        }
    }
}

/// Find the first occurrence of `c`.
pub fn find_char(s: &[char], c: char) -> (r: Option<usize>)
    ensures
        r matches Some(k) ==> k < s@.len() && spec_find_char(s@, c) == k as int,
        r is None ==> spec_find_char(s@, c) == -1,
    decreases s@.len(),
{
    if s.len() == 0 {
        None
    } else if s[0] == c {
        Some(0)
    } else {
        match find_char(slice_subrange(s, 1, s.len()), c) {
            Some(k) => Some(k + 1),
            None => None,
        }
    }
}

/// The sequence without leading whitespace.
pub open spec fn spec_trim_start(s: Seq<char>) -> Seq<char>
    decreases s.len(),
{
    if s.len() > 0 && spec_is_space(s[0]) {
        spec_trim_start(s.skip(1))
    } else {
        s
    }
}

/// The sequence without trailing whitespace.
pub open spec fn spec_trim_end(s: Seq<char>) -> Seq<char>
    decreases s.len(),
{
    if s.len() > 0 && spec_is_space(s[s.len() - 1]) {
        spec_trim_end(s.drop_last())
    } else {
        s
    }
}

/// The sequence without leading or trailing whitespace.
pub open spec fn spec_trim(s: Seq<char>) -> Seq<char> {
    spec_trim_end(spec_trim_start(s))
}

fn trim_start<'a>(s: &'a [char]) -> (r: &'a [char])
    ensures
        r@ == spec_trim_start(s@),
    decreases s@.len(),
{
    if s.len() > 0 && is_space(s[0]) {
        trim_start(slice_subrange(s, 1, s.len()))
    } else {
        s
    }
}

fn trim_end<'a>(s: &'a [char]) -> (r: &'a [char])
    ensures
        r@ == spec_trim_end(s@),
    decreases s@.len(),
{
    if s.len() > 0 && is_space(s[s.len() - 1]) {
        trim_end(slice_subrange(s, 0, s.len() - 1))
    } else {
        s
    }
}

/// Strip leading and trailing whitespace.
pub fn trim<'a>(s: &'a [char]) -> (r: &'a [char])
    ensures
        r@ == spec_trim(s@),
{
    trim_end(trim_start(s))
}

/// A line without one trailing carriage return, as the line splitter below
/// produces it.
pub open spec fn spec_strip_cr(l: Seq<char>) -> Seq<char> {
    if l.len() > 0 && l[l.len() - 1] == '\r' {
        l.drop_last()
    } else {
        l
    }
}

proof fn lemma_find_char_bounds(s: Seq<char>, c: char)
    ensures
        spec_find_char(s, c) == -1 || (0 <= spec_find_char(s, c) < s.len()),
    decreases s.len(),
{
    if s.len() == 0 || s[0] == c {
    } else {
        lemma_find_char_bounds(s.skip(1), c);
    }
}

/// The lines of a text: split at each newline, one trailing carriage return
/// removed per line, and no final empty line after a trailing newline.
pub open spec fn spec_split_lines(s: Seq<char>) -> Seq<Seq<char>>
    decreases s.len(),
    via spec_split_lines_decreases
{
    if s.len() == 0 {
        seq![]
    } else {
        let k = spec_find_char(s, '\n');
        if k < 0 {
            seq![spec_strip_cr(s)]
        } else {
            seq![spec_strip_cr(s.take(k))] + spec_split_lines(s.skip(k + 1))
        }
    }
}

#[via_fn]
proof fn spec_split_lines_decreases(s: Seq<char>) {
    lemma_find_char_bounds(s, '\n');
}

fn strip_cr<'a>(s: &'a [char]) -> (r: &'a [char])
    ensures
        r@ == spec_strip_cr(s@),
{
    if s.len() > 0 && s[s.len() - 1] == '\r' {
        slice_subrange(s, 0, s.len() - 1)
    } else {
        s
    }
}

/// Split a text into lines.
pub fn split_lines(s: &[char]) -> (r: Vec<Vec<char>>)
    ensures
        r.deep_view() == spec_split_lines(s@),
    decreases s@.len(),
{
    if s.len() == 0 {
        let r: Vec<Vec<char>> = Vec::new();
        assert(r.deep_view() =~~= spec_split_lines(s@));
        r
    } else {
        match find_char(s, '\n') {
            None => {
                let first: Vec<char> = slice_to_vec(strip_cr(s));
                let mut r: Vec<Vec<char>> = Vec::new();
                r.push(first);
                assert(r.deep_view() =~~= spec_split_lines(s@));
                r
            },
            Some(k) => {
                let first: Vec<char> = slice_to_vec(strip_cr(slice_subrange(s, 0, k)));
                let mut r = split_lines(slice_subrange(s, k + 1, s.len()));
                r.insert(0, first);
                assert(r.deep_view() =~~= spec_split_lines(s@));
                r
            },
        }
    }
}

/// The length of the whitespace-free token at the head of the sequence.
pub open spec fn spec_token_len(s: Seq<char>) -> int
    decreases s.len(),
{
    if s.len() == 0 || spec_is_space(s[0]) {
        0int
    } else {
        1 + spec_token_len(s.skip(1))
    }
}

proof fn lemma_token_len_bounds(s: Seq<char>)
    ensures
        0 <= spec_token_len(s) <= s.len(),
    decreases s.len(),
{
    if s.len() == 0 || spec_is_space(s[0]) {
    } else {
        lemma_token_len_bounds(s.skip(1));
    }
}

/// The whitespace-separated tokens of a line, in order.
pub open spec fn spec_tokens(s: Seq<char>) -> Seq<Seq<char>>
    decreases s.len(),
    via spec_tokens_decreases
{
    if s.len() == 0 {
        seq![]
    } else if spec_is_space(s[0]) {
        spec_tokens(s.skip(1))
    } else {
        let k = spec_token_len(s);
        seq![s.take(k)] + spec_tokens(s.skip(k))
    }
}

#[via_fn]
proof fn spec_tokens_decreases(s: Seq<char>) {
    lemma_token_len_bounds(s);
    if s.len() > 0 {
        lemma_token_len_bounds(s.skip(1));
    }
}

fn token_len(s: &[char]) -> (r: usize)
    ensures
        r == spec_token_len(s@),
        r <= s@.len(),
    decreases s@.len(),
{
    if s.len() == 0 || is_space(s[0]) {
        0
    } else {
        1 + token_len(slice_subrange(s, 1, s.len()))
    }
}

/// Split a line into whitespace-separated tokens.
pub fn split_tokens(s: &[char]) -> (r: Vec<Vec<char>>)
    ensures
        r.deep_view() == spec_tokens(s@),
    decreases s@.len(),
{
    if s.len() == 0 {
        let r: Vec<Vec<char>> = Vec::new();
        assert(r.deep_view() =~~= spec_tokens(s@));
        r
    } else if is_space(s[0]) {
        let r = split_tokens(slice_subrange(s, 1, s.len()));
        assert(r.deep_view() =~~= spec_tokens(s@));
        r
    } else {
        let k = token_len(s);
        proof {
            lemma_token_len_bounds(s@);
            lemma_token_len_bounds(s@.skip(1));
        }
        let first: Vec<char> = slice_to_vec(slice_subrange(s, 0, k));
        let mut r = split_tokens(slice_subrange(s, k, s.len()));
        r.insert(0, first);
        assert(r.deep_view() =~~= spec_tokens(s@));
        r
    }
}

/// The sequence with every comma removed.
pub open spec fn spec_without_commas(s: Seq<char>) -> Seq<char>
    decreases s.len(),
{
    if s.len() == 0 {
        Seq::empty()
    } else {
        spec_without_commas(s.drop_last()) + (if s.last() == ',' {
            Seq::<char>::empty()
        } else {
            seq![s.last()]
        })
    }
}

/// Remove every comma.
pub fn without_commas(s: &[char]) -> (r: Vec<char>)
    ensures
        r@ == spec_without_commas(s@),
{
    let mut out: Vec<char> = Vec::new();
    let mut i: usize = 0;
    while i < s.len()
        invariant
            i <= s@.len(),
            out@ == spec_without_commas(s@.take(i as int)),
        decreases s@.len() - i,
    {
        proof {
            assert(s@.take(i + 1).drop_last() =~= s@.take(i as int));
            assert(s@.take(i + 1).last() == s@[i as int]);
        }
        if s[i] != ',' {
            out.push(s[i]);
        }
        assert(out@ =~= spec_without_commas(s@.take(i + 1)));
        i = i + 1;
    }
    assert(s@.take(s@.len() as int) =~= s@);
    out
}

/// The characters of a string, in order.
pub fn chars_of(s: &str) -> (r: Vec<char>)
    ensures
        r@ == s@,
{
    let n = s.unicode_len();
    let mut out: Vec<char> = Vec::new();
    let mut i: usize = 0;
    while i < n
        invariant
            i <= n,
            n == s@.len(),
            out@ =~= s@.take(i as int),
        decreases n - i,
    {
        out.push(s.get_char(i));
        i = i + 1;
    }
    assert(out@ =~= s@);
    out
}

/// Relies on `String::push`: appends exactly one character to the string.
#[verifier::external_body]
fn push_char(s: &mut String, c: char)
    ensures
        final(s)@ == old(s)@.push(c),
{
    s.push(c);
}

/// Build a string from a character sequence.
pub fn string_from_chars(v: &[char]) -> (r: String)
    ensures
        r@ == v@,
{
    let mut s = String::new();
    let mut i: usize = 0;
    while i < v.len()
        invariant
            i <= v@.len(),
            s@ =~= v@.take(i as int),
        decreases v@.len() - i,
    {
        push_char(&mut s, v[i]);
        i = i + 1;
    }
    assert(s@ =~= v@);
    s
}

/// Whether a character sequence equals a string, character for character.
pub fn chars_eq_str(v: &[char], s: &str) -> (r: bool)
    ensures
        r == (v@ == s@),
{
    let n = s.unicode_len();
    if v.len() != n {
        return false;
    }
    let mut i: usize = 0;
    while i < n
        invariant
            i <= n,
            n == s@.len(),
            v@.len() == n,
            forall|j: int| 0 <= j < i ==> v@[j] == s@[j],
        decreases n - i,
    {
        if v[i] != s.get_char(i) {
            return false;
        }
        i = i + 1;
    }
    proof {
        assert(v@ =~= s@);
    }
    true
}

/// Whether two character sequences are equal.
pub fn chars_eq(a: &[char], b: &[char]) -> (r: bool)
    ensures
        r == (a@ == b@),
{
    if a.len() != b.len() {
        return false;
    }
    let mut i: usize = 0;
    while i < a.len()
        invariant
            i <= a@.len(),
            a@.len() == b@.len(),
            forall|j: int| 0 <= j < i ==> a@[j] == b@[j],
        decreases a@.len() - i,
    {
        if a[i] != b[i] {
            return false;
        }
        i = i + 1;
    }
    proof {
        assert(a@ =~= b@);
    }
    true
}

/// The upper-case hexadecimal digits.
pub open spec fn spec_hex_digit(n: int) -> char {
    if n == 0 {
        '0'
    } else if n == 1 {
        '1'
    } else if n == 2 {
        '2'
    } else if n == 3 {
        '3'
    } else if n == 4 {
        '4'
    } else if n == 5 {
        '5'
    } else if n == 6 {
        '6'
    } else if n == 7 {
        '7'
    } else if n == 8 {
        '8'
    } else if n == 9 {
        '9'
    } else if n == 10 {
        'A'
    } else if n == 11 {
        'B'
    } else if n == 12 {
        'C'
    } else if n == 13 {
        'D'
    } else if n == 14 {
        'E'
    } else {
        'F'
    }
}

fn hex_digit(n: u8) -> (c: char)
    requires
        n < 16,
    ensures
        c == spec_hex_digit(n as int),
{
    match n {
        0 => '0',
        1 => '1',
        2 => '2',
        3 => '3',
        4 => '4',
        5 => '5',
        6 => '6',
        7 => '7',
        8 => '8',
        9 => '9',
        10 => 'A',
        11 => 'B',
        12 => 'C',
        13 => 'D',
        14 => 'E',
        _ => 'F',
    }
}

/// `n` in upper-case hexadecimal, zero-padded on the left to at least
/// `width` digits.
pub open spec fn spec_hex_upper(n: nat, width: nat) -> Seq<char>
    decreases n, width,
{
    if n < 16 && width <= 1 {
        seq![spec_hex_digit(n as int)]
    } else {
        spec_hex_upper(n / 16, (if width == 0 {
            0
        } else {
            (width - 1) as nat
        })) + seq![spec_hex_digit((n % 16) as int)]
    }
}

/// Format `n` in upper-case hexadecimal, zero-padded to at least `width`
/// digits.
pub fn hex_chars(n: usize, width: usize) -> (r: Vec<char>)
    ensures
        r@ == spec_hex_upper(n as nat, width as nat),
    decreases n, width,
{
    if n < 16 && width <= 1 {
        let mut v: Vec<char> = Vec::new();
        v.push(hex_digit(n as u8));
        assert(v@ =~= spec_hex_upper(n as nat, width as nat));
        v
    } else {
        let mut v = hex_chars(n / 16, if width == 0 {
            0
        } else {
            width - 1
        });
        v.push(hex_digit((n % 16) as u8));
        assert(v@ =~= spec_hex_upper(n as nat, width as nat));
        v
    }
}

/// `n` in decimal.
pub open spec fn spec_dec_chars(n: nat) -> Seq<char>
    decreases n,
{
    if n < 10 {
        seq![spec_hex_digit(n as int)]
    } else {
        spec_dec_chars(n / 10) + seq![spec_hex_digit((n % 10) as int)]
    }
}

/// Format `n` in decimal.
pub fn dec_chars(n: usize) -> (r: Vec<char>)
    ensures
        r@ == spec_dec_chars(n as nat),
    decreases n,
{
    if n < 10 {
        let mut v: Vec<char> = Vec::new();
        v.push(hex_digit(n as u8));
        assert(v@ =~= spec_dec_chars(n as nat));
        v
    } else {
        let mut v = dec_chars(n / 10);
        v.push(hex_digit((n % 10) as u8));
        assert(v@ =~= spec_dec_chars(n as nat));
        v
    }
}

/// The bytes in upper-case hexadecimal, two digits each, joined by single
/// spaces.
pub open spec fn spec_hex_bytes(bs: Seq<u8>) -> Seq<char>
    decreases bs.len(),
{
    if bs.len() == 0 {
        Seq::empty()
    } else if bs.len() == 1 {
        spec_hex_upper(bs[0] as nat, 2)
    } else {
        spec_hex_bytes(bs.drop_last()) + seq![' '] + spec_hex_upper(bs.last() as nat, 2)
    }
}

/// Format bytes as space-separated upper-case hexadecimal pairs.
pub fn hex_bytes(bs: &[u8]) -> (r: Vec<char>)
    ensures
        r@ == spec_hex_bytes(bs@),
{
    let mut out: Vec<char> = Vec::new();
    let mut i: usize = 0;
    while i < bs.len()
        invariant
            i <= bs@.len(),
            out@ == spec_hex_bytes(bs@.take(i as int)),
        decreases bs@.len() - i,
    {
        proof {
            assert(bs@.take(i + 1).drop_last() =~= bs@.take(i as int));
            assert(bs@.take(i + 1).last() == bs@[i as int]);
        }
        if i > 0 {
            out.push(' ');
        }
        let mut pair = hex_chars(bs[i] as usize, 2);
        out.append(&mut pair);
        assert(out@ =~= spec_hex_bytes(bs@.take(i + 1)));
        i = i + 1;
    }
    assert(bs@.take(bs@.len() as int) =~= bs@);
    out
}

/// The sequence padded on the right with spaces to at least `width`
/// characters.
pub open spec fn spec_pad_right(s: Seq<char>, width: int) -> Seq<char> {
    if s.len() >= width {
        s
    } else {
        s + Seq::new((width - s.len()) as nat, |i| ' ')
    }
}

/// Pad on the right with spaces to at least `width` characters.
pub fn pad_right(v: &mut Vec<char>, width: usize)
    ensures
        final(v)@ == spec_pad_right(old(v)@, width as int),
{
    let ghost target = spec_pad_right(old(v)@, width as int);
    while v.len() < width
        invariant
            old(v)@.len() <= v@.len() <= vstd::math::max(old(v)@.len() as int, width as int),
            v@ =~= old(v)@ + Seq::new((v@.len() - old(v)@.len()) as nat, |i| ' '),
        decreases width - v@.len(),
    {
        v.push(' ');
    }
    assert(final(v)@ =~= spec_pad_right(old(v)@, width as int));
}

} // verus!
