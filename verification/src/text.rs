//! Verified text utilities: the character-level operations that the
//! assembler's contracts are stated over.
//!
//! Everything here is specified against `Seq<char>`, the view of
//! `&str` and `String`: trimming, lower-casing, pattern removal, line
//! splitting, radix integer parsing and decimal / hexadecimal
//! rendering.

use vstd::prelude::*;
use vstd::string::*;

verus! {

/// The ASCII whitespace characters: space, tab, line feed, vertical
/// tab, form feed and carriage return.
pub open spec fn is_ws_char(c: char) -> bool {
    c == ' ' || c == '\t' || c == '\n' || c == '\u{b}' || c == '\u{c}' || c == '\r'
}

fn ws_char(c: char) -> (r: bool)
    ensures
        r == is_ws_char(c),
{
    c == ' ' || c == '\t' || c == '\n' || c == '\u{b}' || c == '\u{c}' || c == '\r'
}

/// The index of the first character at or after `i` that is not
/// whitespace; the length when all of the rest is whitespace.
pub open spec fn first_non_ws_from(s: Seq<char>, i: int) -> int
    decreases s.len() - i when 0 <= i <= s.len()
{
    if i >= s.len() {
        i
    } else if is_ws_char(s[i]) {
        first_non_ws_from(s, i + 1)
    } else {
        i
    }
}

/// One past the index of the last non-whitespace character strictly
/// before `i`; 0 when everything before `i` is whitespace.
pub open spec fn last_non_ws_before(s: Seq<char>, i: int) -> int
    decreases i when 0 <= i <= s.len()
{
    if i <= 0 {
        0
    } else if is_ws_char(s[i - 1]) {
        last_non_ws_before(s, i - 1)
    } else {
        i
    }
}

/// The string with leading and trailing whitespace removed.
pub open spec fn spec_trim(s: Seq<char>) -> Seq<char> {
    let a = first_non_ws_from(s, 0);
    if a == s.len() {
        Seq::empty()
    } else {
        s.subrange(a, last_non_ws_before(s, s.len() as int))
    }
}

proof fn lemma_first_non_ws_bounds(s: Seq<char>, i: int)
    requires
        0 <= i <= s.len(),
    ensures
        i <= first_non_ws_from(s, i) <= s.len(),
        first_non_ws_from(s, i) < s.len() ==> !is_ws_char(s[first_non_ws_from(s, i)]),
    decreases s.len() - i,
{
    if i < s.len() && is_ws_char(s[i]) {
        lemma_first_non_ws_bounds(s, i + 1);
    }
}

/// The string with leading and trailing whitespace removed.
pub fn trimmed(s: &str) -> (r: String)
    ensures
        r@ == spec_trim(s@),
{
    let ghost sv = s@;
    let len = s.unicode_len();
    let mut a: usize = 0;
    while a < len && ws_char(s.get_char(a))
        invariant
            0 <= a <= len,
            len == sv.len(),
            s@ == sv,
            first_non_ws_from(sv, 0) == first_non_ws_from(sv, a as int),
        decreases len - a,
    {
        a = a + 1;
    }
    proof {
        lemma_first_non_ws_bounds(sv, a as int);
    }
    if a == len {
        return String::new();
    }
    let mut b: usize = len;
    while b > a + 1 && ws_char(s.get_char(b - 1))
        invariant
            a + 1 <= b <= len,
            a < len,
            len == sv.len(),
            s@ == sv,
            !is_ws_char(sv[a as int]),
            last_non_ws_before(sv, len as int) == last_non_ws_before(sv, b as int),
        decreases b,
    {
        b = b - 1;
    }
    proof {
        // Either the loop stopped on a non-whitespace character, or it
        // ran down to the character at `a`, which is not whitespace.
        assert(!is_ws_char(sv[b - 1]));
    }
    let part = s.substring_char(a, b);
    part.to_owned()
}

/// Whether the string holds any whitespace character.
pub open spec fn spec_contains_ws(s: Seq<char>) -> bool {
    exists|j: int| 0 <= j < s.len() && is_ws_char(s[j])
}

/// Whether the string holds any whitespace character.
pub fn contains_ws(s: &str) -> (r: bool)
    ensures
        r == spec_contains_ws(s@),
{
    let len = s.unicode_len();
    let mut i: usize = 0;
    while i < len
        invariant
            0 <= i <= len,
            len == s@.len(),
            forall|j: int| 0 <= j < i ==> !is_ws_char(s@[j]),
        decreases len - i,
    {
        if ws_char(s.get_char(i)) {
            return true;
        }
        i = i + 1;
    }
    false
}

/// The lower-case form of one character: ASCII letters are folded,
/// everything else is unchanged.
pub open spec fn spec_lower_char(c: char) -> char {
    if 'A' as int <= c as int <= 'Z' as int {
        ((c as int) + 32) as char
    } else {
        c
    }
}

/// The string with every ASCII upper-case letter folded to lower case.
pub open spec fn spec_lower(s: Seq<char>) -> Seq<char> {
    s.map_values(|c: char| spec_lower_char(c))
}

fn lower_char(c: char) -> (r: char)
    ensures
        r == spec_lower_char(c),
{
    match c {
        'A' => 'a',
        'B' => 'b',
        'C' => 'c',
        'D' => 'd',
        'E' => 'e',
        'F' => 'f',
        'G' => 'g',
        'H' => 'h',
        'I' => 'i',
        'J' => 'j',
        'K' => 'k',
        'L' => 'l',
        'M' => 'm',
        'N' => 'n',
        'O' => 'o',
        'P' => 'p',
        'Q' => 'q',
        'R' => 'r',
        'S' => 's',
        'T' => 't',
        'U' => 'u',
        'V' => 'v',
        'W' => 'w',
        'X' => 'x',
        'Y' => 'y',
        'Z' => 'z',
        _ => c,
    }
}

/// Relies on `String::push`: it appends exactly the one character to
/// the end of the string.
#[verifier::external_body]
fn push_char(s: &mut String, c: char)
    ensures
        final(s)@ == old(s)@.push(c),
{
    s.push(c);
}

/// The string with every ASCII upper-case letter folded to lower case.
pub fn lowercased(s: &str) -> (r: String)
    ensures
        r@ == spec_lower(s@),
{
    let len = s.unicode_len();
    let mut out = String::new();
    let mut i: usize = 0;
    while i < len
        invariant
            0 <= i <= len,
            len == s@.len(),
            out@.len() == i,
            forall|j: int| 0 <= j < i ==> out@[j] == spec_lower_char(s@[j]),
        decreases len - i,
    {
        let c = lower_char(s.get_char(i));
        push_char(&mut out, c);
        i = i + 1;
    }
    proof {
        assert(out@ =~= spec_lower(s@));
    }
    out
}

/// Whether two strings read the same.
pub fn str_eq(a: &str, b: &str) -> (r: bool)
    ensures
        r == (a@ == b@),
{
    let alen = a.unicode_len();
    let blen = b.unicode_len();
    if alen != blen {
        return false;
    }
    let mut i: usize = 0;
    while i < alen
        invariant
            0 <= i <= alen,
            alen == a@.len(),
            alen == b@.len(),
            forall|j: int| 0 <= j < i ==> a@[j] == b@[j],
        decreases alen - i,
    {
        if a.get_char(i) != b.get_char(i) {
            return false;
        }
        i = i + 1;
    }
    proof {
        assert(a@ =~= b@);
    }
    true
}

/// Whether `p` occurs in `s` starting at position `i`.
pub open spec fn spec_has_prefix_at(s: Seq<char>, i: int, p: Seq<char>) -> bool {
    &&& 0 <= i
    &&& i + p.len() <= s.len()
    &&& forall|j: int| 0 <= j < p.len() ==> s[i + j] == p[j]
}

/// Whether the string starts with `p`.
pub open spec fn spec_starts_with(s: Seq<char>, p: Seq<char>) -> bool {
    spec_has_prefix_at(s, 0, p)
}

/// Whether the string ends with `p`.
pub open spec fn spec_ends_with(s: Seq<char>, p: Seq<char>) -> bool {
    spec_has_prefix_at(s, s.len() - p.len(), p)
}

fn has_prefix_at(s: &str, i: usize, p: &str) -> (r: bool)
    requires
        i <= s@.len(),
    ensures
        r == spec_has_prefix_at(s@, i as int, p@),
{
    let slen = s.unicode_len();
    let plen = p.unicode_len();
    if plen > slen - i {
        return false;
    }
    let mut j: usize = 0;
    while j < plen
        invariant
            0 <= j <= plen,
            plen == p@.len(),
            slen == s@.len(),
            i + plen <= slen,
            forall|k: int| 0 <= k < j ==> s@[i + k] == p@[k],
        decreases plen - j,
    {
        if s.get_char(i + j) != p.get_char(j) {
            return false;
        }
        j = j + 1;
    }
    true
}

/// Whether the string starts with `p`.
pub fn starts_with_str(s: &str, p: &str) -> (r: bool)
    ensures
        r == spec_starts_with(s@, p@),
{
    has_prefix_at(s, 0, p)
}

/// Whether the string ends with `p`.
pub fn ends_with_str(s: &str, p: &str) -> (r: bool)
    ensures
        r == spec_ends_with(s@, p@),
{
    let slen = s.unicode_len();
    let plen = p.unicode_len();
    if plen > slen {
        return false;
    }
    has_prefix_at(s, slen - plen, p)
}

/// The string with every occurrence of the pattern removed, scanning
/// left to right without overlap, starting at position `i`.
pub open spec fn spec_remove_all_from(s: Seq<char>, p: Seq<char>, i: int) -> Seq<char>
    decreases s.len() - i when 0 <= i && p.len() >= 1
{
    if i >= s.len() {
        Seq::empty()
    } else if spec_has_prefix_at(s, i, p) {
        spec_remove_all_from(s, p, i + p.len())
    } else {
        seq![s[i]] + spec_remove_all_from(s, p, i + 1)
    }
}

/// The string with every occurrence of the pattern removed.
pub open spec fn spec_remove_all(s: Seq<char>, p: Seq<char>) -> Seq<char> {
    spec_remove_all_from(s, p, 0)
}

/// The string with every occurrence of the pattern `p` removed.
pub fn with_removed(s: &str, p: &str) -> (r: String)
    requires
        p@.len() >= 1,
    ensures
        r@ == spec_remove_all(s@, p@),
{
    let slen = s.unicode_len();
    let plen = p.unicode_len();
    let mut out = String::new();
    let mut i: usize = 0;
    while i < slen
        invariant
            0 <= i <= slen,
            slen == s@.len(),
            plen == p@.len(),
            plen >= 1,
            out@ + spec_remove_all_from(s@, p@, i as int) == spec_remove_all(s@, p@),
        decreases slen - i,
    {
        if has_prefix_at(s, i, p) {
            i = i + plen;
        } else {
            let c = s.get_char(i);
            push_char(&mut out, c);
            proof {
                assert(out@ + spec_remove_all_from(s@, p@, i + 1) =~= spec_remove_all(s@, p@));
            }
            i = i + 1;
        }
    }
    proof {
        assert(out@ =~= spec_remove_all(s@, p@));
    }
    out
}

/// The index of the first occurrence of `c` at or after `i`; the
/// length when there is none.
pub open spec fn find_from(s: Seq<char>, c: char, i: int) -> int
    decreases s.len() - i when 0 <= i <= s.len()
{
    if i >= s.len() {
        i
    } else if s[i] == c {
        i
    } else {
        find_from(s, c, i + 1)
    }
}

proof fn lemma_find_from_bounds(s: Seq<char>, c: char, i: int)
    requires
        0 <= i <= s.len(),
    ensures
        i <= find_from(s, c, i) <= s.len(),
        find_from(s, c, i) < s.len() ==> s[find_from(s, c, i)] == c,
    decreases s.len() - i,
{
    if i < s.len() && s[i] != c {
        lemma_find_from_bounds(s, c, i + 1);
    }
}

/// The prefix of the string up to (not including) the first occurrence
/// of `c`; the whole string when `c` does not occur.
pub open spec fn spec_take_until(s: Seq<char>, c: char) -> Seq<char> {
    s.take(find_from(s, c, 0))
}

/// The prefix of the string up to the first occurrence of `c`.
pub fn take_until(s: &str, c: char) -> (r: String)
    ensures
        r@ == spec_take_until(s@, c),
{
    let len = s.unicode_len();
    let mut i: usize = 0;
    while i < len && s.get_char(i) != c
        invariant
            0 <= i <= len,
            len == s@.len(),
            find_from(s@, c, 0) == find_from(s@, c, i as int),
        decreases len - i,
    {
        i = i + 1;
    }
    proof {
        assert(s@.subrange(0, i as int) =~= spec_take_until(s@, c));
    }
    let part = s.substring_char(0, i);
    part.to_owned()
}

/// The line at position `i` of the string and those after it: lines
/// are separated by a line feed, and a carriage return directly before
/// a line feed is dropped; a final line feed ends the last line rather
/// than opening an empty one.
pub open spec fn spec_lines_from(s: Seq<char>, i: int) -> Seq<Seq<char>>
    decreases s.len() - i when 0 <= i <= s.len() via spec_lines_from_decreases
{
    if i >= s.len() {
        Seq::empty()
    } else {
        let j = find_from(s, '\n', i);
        if j >= s.len() {
            seq![strip_last_cr(s.subrange(i, j))]
        } else {
            seq![strip_last_cr(s.subrange(i, j))] + spec_lines_from(s, j + 1)
        }
    }
}

#[via_fn]
proof fn spec_lines_from_decreases(s: Seq<char>, i: int) {
    if 0 <= i < s.len() {
        lemma_find_from_bounds(s, '\n', i);
    }
}

/// The lines of the string.
pub open spec fn spec_lines(s: Seq<char>) -> Seq<Seq<char>> {
    spec_lines_from(s, 0)
}

/// The string without its final carriage return, if it has one.
pub open spec fn strip_last_cr(s: Seq<char>) -> Seq<char> {
    if s.len() > 0 && s[s.len() - 1] == '\r' {
        s.drop_last()
    } else {
        s
    }
}

/// The value a character stands for as a digit: `0`-`9`, then letters
/// from ten upward in either case; a sentinel above every radix when
/// the character is no digit at all.
pub open spec fn digit_val(c: char) -> int {
    if '0' as int <= c as int <= '9' as int {
        c as int - '0' as int
    } else if 'a' as int <= c as int <= 'z' as int {
        c as int - 'a' as int + 10
    } else if 'A' as int <= c as int <= 'Z' as int {
        c as int - 'A' as int + 10
    } else {
        99
    }
}

/// Whether the character is a digit of the given radix.
pub open spec fn is_digit(c: char, radix: int) -> bool {
    digit_val(c) < radix
}

/// Whether every character of the string is a digit of the radix.
pub open spec fn all_digits(s: Seq<char>, radix: int) -> bool {
    forall|i: int| 0 <= i < s.len() ==> is_digit(s[i], radix)
}

/// The magnitude a digit string denotes in the given radix.
pub open spec fn digits_mag(s: Seq<char>, radix: int) -> int
    decreases s.len(),
{
    if s.len() == 0 {
        0
    } else {
        digits_mag(s.drop_last(), radix) * radix + digit_val(s.last())
    }
}

/// What parsing a signed integer literal in the given radix returns:
/// an optional `+` or `-` sign followed by one or more digits of the
/// radix, with the resulting value inside the 32 bit two's complement
/// range; `None` for anything else.
pub open spec fn spec_parse_int_radix(s: Seq<char>, radix: int) -> Option<i32> {
    let negative = s.len() > 0 && s[0] == '-';
    let signed = s.len() > 0 && (s[0] == '-' || s[0] == '+');
    let ds = if signed {
        s.skip(1)
    } else {
        s
    };
    if ds.len() == 0 || !all_digits(ds, radix) {
        None
    } else {
        let m = digits_mag(ds, radix);
        if negative {
            if -m >= i32::MIN as int {
                Some((-m) as i32)
            } else {
                None
            }
        } else {
            if m <= i32::MAX as int {
                Some(m as i32)
            } else {
                None
            }
        }
    }
}

/// A digit string denotes a non-negative magnitude.
proof fn lemma_mag_nonneg(s: Seq<char>, radix: int)
    requires
        radix >= 2,
    ensures
        digits_mag(s, radix) >= 0,
    decreases s.len(),
{
    if s.len() > 0 {
        lemma_mag_nonneg(s.drop_last(), radix);
        let m = digits_mag(s.drop_last(), radix);
        assert(m * radix >= 0) by (nonlinear_arith)
            requires
                m >= 0 && radix >= 2,
        ;
    }
}

/// A digit string denotes at least what any of its prefixes denotes.
proof fn lemma_mag_monotone(s: Seq<char>, radix: int, i: int)
    requires
        radix >= 2,
        0 <= i <= s.len(),
    ensures
        digits_mag(s.take(i), radix) <= digits_mag(s, radix),
    decreases s.len() - i,
{
    if i >= s.len() {
        assert(s.take(i) =~= s);
    } else {
        lemma_mag_monotone(s, radix, i + 1);
        let m = digits_mag(s.take(i), radix);
        assert(s.take(i + 1).drop_last() =~= s.take(i));
        lemma_mag_nonneg(s.take(i), radix);
        assert(m * radix >= m) by (nonlinear_arith)
            requires
                m >= 0 && radix >= 2,
        ;
        assert(digit_val(s.take(i + 1).last()) >= 0);
    }
}

fn digit_of(c: char, radix: u32) -> (r: Option<u32>)
    requires
        2 <= radix <= 36,
    ensures
        match r {
            Some(d) => is_digit(c, radix as int) && d == digit_val(c),
            None => !is_digit(c, radix as int),
        },
{
    let x = c as u32;
    let v: u32 = if x >= 48 && x <= 57 {
        x - 48
    } else if x >= 97 && x <= 122 {
        x - 97 + 10
    } else if x >= 65 && x <= 90 {
        x - 65 + 10
    } else {
        99
    };
    if v < radix {
        Some(v)
    } else {
        None
    }
}

/// Parses a signed integer literal in the given radix: an optional
/// sign followed by one or more digits, rejecting anything else and
/// any value outside the 32 bit range.
pub fn parse_int_radix(s: &str, radix: u32) -> (r: Option<i32>)
    requires
        2 <= radix <= 36,
    ensures
        r == spec_parse_int_radix(s@, radix as int),
{
    let len = s.unicode_len();
    if len == 0 {
        return None;
    }
    let first = s.get_char(0);
    let negative = first == '-';
    let signed = negative || first == '+';
    let start: usize = if signed {
        1
    } else {
        0
    };
    let ghost ds = if signed {
        s@.skip(1)
    } else {
        s@
    };
    proof {
        assert(ds.len() == len - start);
        assert(forall|k: int| 0 <= k < ds.len() ==> ds[k] == s@[k + start]);
    }
    if start == len {
        return None;
    }
    let mut mag: u64 = 0;
    let mut i: usize = start;
    while i < len
        invariant
            2 <= radix <= 36,
            start <= i <= len,
            len == s@.len(),
            len > 0,
            negative == (s@[0] == '-'),
            signed == (negative || s@[0] == '+'),
            start == if signed { 1int } else { 0int },
            ds == if signed { s@.skip(1) } else { s@ },
            ds.len() == len - start,
            forall|k: int| 0 <= k < ds.len() ==> ds[k] == s@[k + start],
            all_digits(ds.take(i - start), radix as int),
            mag == digits_mag(ds.take(i - start), radix as int),
            mag <= 0x8000_0000,
        decreases len - i,
    {
        let c = s.get_char(i);
        match digit_of(c, radix) {
            None => {
                proof {
                    assert(ds[i - start] == c);
                    assert(!all_digits(ds, radix as int));
                }
                return None;
            },
            Some(d) => {
                proof {
                    assert((mag as int) * (radix as int) + (d as int) <= 0x8000_0000 * 36 + 36)
                        by (nonlinear_arith)
                        requires
                            0 <= mag as int <= 0x8000_0000 && 0 <= radix as int <= 36 && 0 <= d
                                as int <= 36,
                    ;
                }
                mag = mag * (radix as u64) + (d as u64);
                proof {
                    assert(ds.take(i + 1 - start).drop_last() =~= ds.take(i - start));
                    assert(ds.take(i + 1 - start).last() == c);
                }
                if mag > 0x8000_0000 {
                    proof {
                        if all_digits(ds, radix as int) {
                            lemma_mag_monotone(ds, radix as int, i + 1 - start);
                        }
                    }
                    return None;
                }
                i = i + 1;
            },
        }
    }
    proof {
        assert(ds.take(i - start) =~= ds);
    }
    if negative {
        Some((-(mag as i64)) as i32)
    } else {
        if mag > 0x7FFF_FFFF {
            None
        } else {
            Some(mag as i32)
        }
    }
}

/// The decimal digit character for a value below ten.
pub open spec fn dec_digit(d: int) -> char {
    (('0' as int) + d) as char
}

fn dec_digit_char(d: u64) -> (r: char)
    requires
        d < 10,
    ensures
        r == dec_digit(d as int),
{
    match d {
        0 => '0',
        1 => '1',
        2 => '2',
        3 => '3',
        4 => '4',
        5 => '5',
        6 => '6',
        7 => '7',
        8 => '8',
        _ => '9',
    }
}

/// The decimal rendering of a non-negative number, without leading
/// zeros.
pub open spec fn spec_dec_nat(n: nat) -> Seq<char>
    decreases n,
{
    if n < 10 {
        seq![dec_digit(n as int)]
    } else {
        spec_dec_nat(n / 10).push(dec_digit((n % 10) as int))
    }
}

/// The decimal rendering of a number, with a leading minus sign when
/// it is negative.
pub open spec fn spec_dec_i32(n: i32) -> Seq<char> {
    if n < 0 {
        seq!['-'] + spec_dec_nat((-(n as int)) as nat)
    } else {
        spec_dec_nat(n as nat)
    }
}

/// Renders a non-negative number in decimal.
pub fn dec_u64(n: u64) -> (r: String)
    ensures
        r@ == spec_dec_nat(n as nat),
    decreases n,
{
    if n < 10 {
        let mut s = String::new();
        push_char(&mut s, dec_digit_char(n));
        proof {
            assert(s@ =~= spec_dec_nat(n as nat));
        }
        s
    } else {
        let mut s = dec_u64(n / 10);
        push_char(&mut s, dec_digit_char(n % 10));
        s
    }
}

/// Renders a number in decimal, with a minus sign when negative.
pub fn dec_i32(n: i32) -> (r: String)
    ensures
        r@ == spec_dec_i32(n),
{
    if n < 0 {
        let magnitude = (-(n as i64)) as u64;
        let mut s = String::new();
        push_char(&mut s, '-');
        s.append(dec_u64(magnitude).as_str());
        proof {
            assert(s@ =~= spec_dec_i32(n));
        }
        s
    } else {
        dec_u64(n as u64)
    }
}

/// Renders a machine word count in decimal.
pub fn dec_usize(n: usize) -> (r: String)
    ensures
        r@ == spec_dec_nat(n as nat),
{
    dec_u64(n as u64)
}

/// The hexadecimal digit character for a value below sixteen.
pub open spec fn hex_digit(d: int) -> char {
    if d < 10 {
        (('0' as int) + d) as char
    } else {
        (('a' as int) + (d - 10)) as char
    }
}

fn hex_digit_char(d: u32) -> (r: char)
    requires
        d < 16,
    ensures
        r == hex_digit(d as int),
{
    match d {
        0 => '0',
        1 => '1',
        2 => '2',
        3 => '3',
        4 => '4',
        5 => '5',
        6 => '6',
        7 => '7',
        8 => '8',
        9 => '9',
        10 => 'a',
        11 => 'b',
        12 => 'c',
        13 => 'd',
        14 => 'e',
        _ => 'f',
    }
}

/// The hexadecimal rendering of the low `width` hex digits of a value,
/// zero padded to exactly `width` digits.
pub open spec fn spec_hex_fixed(x: u32, width: nat) -> Seq<char>
    decreases width,
{
    if width == 0 {
        Seq::empty()
    } else {
        spec_hex_fixed(x / 16, (width - 1) as nat).push(hex_digit((x % 16) as int))
    }
}

/// Renders a value as exactly `width` zero-padded hexadecimal digits.
pub fn hex_fixed(x: u32, width: usize) -> (r: String)
    ensures
        r@ == spec_hex_fixed(x, width as nat),
    decreases width,
{
    if width == 0 {
        let s = String::new();
        proof {
            assert(s@ =~= spec_hex_fixed(x, 0));
        }
        s
    } else {
        let mut s = hex_fixed(x / 16, width - 1);
        push_char(&mut s, hex_digit_char(x % 16));
        s
    }
}

/// The bit pattern of a word, as the unsigned value with the same two's
/// complement representation.
pub open spec fn spec_word_bits(w: i32) -> u32 {
    if w >= 0 {
        w as u32
    } else {
        (w + 0x1_0000_0000) as u32
    }
}

/// The unsigned value with the same bit pattern as the given word.
pub fn word_bits(w: i32) -> (r: u32)
    ensures
        r == spec_word_bits(w),
{
    if w >= 0 {
        w as u32
    } else {
        ((w as i64) + 0x1_0000_0000) as u32
    }
}

/// Splits the string into its lines.
pub fn split_lines(s: &str) -> (r: Vec<String>)
    ensures
        r@.map_values(|line: String| line@) == spec_lines(s@),
{
    let len = s.unicode_len();
    let mut out: Vec<String> = Vec::new();
    let mut i: usize = 0;
    while i < len
        invariant
            0 <= i <= len,
            len == s@.len(),
            out@.map_values(|line: String| line@) + spec_lines_from(s@, i as int) == spec_lines(
                s@,
            ),
        decreases len - i,
    {
        let ghost prev = i as int;
        let mut j: usize = i;
        while j < len && s.get_char(j) != '\n'
            invariant
                i <= j <= len,
                len == s@.len(),
                find_from(s@, '\n', i as int) == find_from(s@, '\n', j as int),
            decreases len - j,
        {
            j = j + 1;
        }
        proof {
            lemma_find_from_bounds(s@, '\n', i as int);
        }
        let end = if j > i && s.get_char(j - 1) == '\r' {
            j - 1
        } else {
            j
        };
        let part = s.substring_char(i, end);
        let line = part.to_owned();
        proof {
            assert(line@ =~= strip_last_cr(s@.subrange(prev, j as int)));
        }
        out.push(line);
        i = if j == len {
            len
        } else {
            j + 1
        };
        proof {
            assert(out@.map_values(|l: String| l@) =~= out@.drop_last().map_values(
                |l: String| l@,
            ).push(line@));
            assert(out@.map_values(|l: String| l@) + spec_lines_from(s@, i as int) =~= spec_lines(
                s@,
            ));
        }
    }
    proof {
        assert(out@.map_values(|line: String| line@) =~= spec_lines(s@));
    }
    out
}

} // verus!
