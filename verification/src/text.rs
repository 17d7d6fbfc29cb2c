//! Character-level helpers for reading settings: trimming Unicode white
//! space, ASCII lower-casing and comparison with a fixed word.

use vstd::prelude::*;
use vstd::string::*;

verus! {

/// Unicode `White_Space` characters, as `char::is_whitespace` classifies
/// them.
pub open spec fn is_space(c: char) -> bool {
    let u = c as u32;
    (0x09 <= u <= 0x0D) || u == 0x20 || u == 0x85 || u == 0xA0 || u == 0x1680 || (0x2000 <= u
        <= 0x200A) || u == 0x2028 || u == 0x2029 || u == 0x202F || u == 0x205F || u == 0x3000
}

/// `s` without its leading white space.
pub open spec fn trim_start_spec(s: Seq<char>) -> Seq<char>
    decreases s.len(),
{
    if s.len() > 0 && is_space(s[0]) {
        trim_start_spec(s.drop_first())
    } else {
        s
    }
}

/// `s` without its trailing white space.
pub open spec fn trim_end_spec(s: Seq<char>) -> Seq<char>
    decreases s.len(),
{
    if s.len() > 0 && is_space(s.last()) {
        trim_end_spec(s.drop_last())
    } else {
        s
    }
}

/// `s` without leading and trailing white space, as `str::trim` gives it.
pub open spec fn trim_spec(s: Seq<char>) -> Seq<char> {
    trim_end_spec(trim_start_spec(s))
}

pub open spec fn ascii_lower_char(c: char) -> char {
    if 'A' <= c <= 'Z' {
        ((c as u32) + 32) as char
    } else {
        c
    }
}

/// `s` with ASCII capitals made small, as `str::to_ascii_lowercase` gives it.
pub open spec fn ascii_lower_spec(s: Seq<char>) -> Seq<char> {
    s.map_values(|c: char| ascii_lower_char(c))
}

/// What a setting's value is compared by: trimmed, then lower-cased.
pub open spec fn normalized(s: Seq<char>) -> Seq<char> {
    ascii_lower_spec(trim_spec(s))
}

pub fn is_space_char(c: char) -> (b: bool)
    ensures
        b == is_space(c),
{
    let u = c as u32;
    (0x09 <= u && u <= 0x0D) || u == 0x20 || u == 0x85 || u == 0xA0 || u == 0x1680 || (0x2000
        <= u && u <= 0x200A) || u == 0x2028 || u == 0x2029 || u == 0x202F || u == 0x205F || u
        == 0x3000
}

/// The characters of `s`.
pub fn chars_of(s: &str) -> (v: Vec<char>)
    ensures
        v@ == s@,
{
    let n = s.unicode_len();
    let mut v: Vec<char> = Vec::new();
    let mut i: usize = 0;
    while i < n
        invariant
            n == s@.len(),
            i <= n,
            v@ == s@.subrange(0, i as int),
        decreases n - i,
    {
        let c = s.get_char(i);
        v.push(c);
        i = i + 1;
        assert(v@ =~= s@.subrange(0, i as int));
    }
    assert(v@ =~= s@);
    v
}

proof fn lemma_trim_start_suffix(s: Seq<char>)
    ensures
        exists|k: int|
            0 <= k <= s.len() && trim_start_spec(s) == s.subrange(k, s.len() as int) && (forall|
                i: int,
            | 0 <= i < k ==> is_space(#[trigger] s[i])) && (k < s.len() ==> !is_space(s[k])),
    decreases s.len(),
{
    if s.len() > 0 && is_space(s[0]) {
        lemma_trim_start_suffix(s.drop_first());
        let t = s.drop_first();
        let k = choose|k: int|
            0 <= k <= t.len() && trim_start_spec(t) == t.subrange(k, t.len() as int) && (forall|
                i: int,
            | 0 <= i < k ==> is_space(#[trigger] t[i])) && (k < t.len() ==> !is_space(t[k]));
        assert(t.subrange(k, t.len() as int) =~= s.subrange(k + 1, s.len() as int));
        assert forall|i: int| 0 <= i < k + 1 implies is_space(#[trigger] s[i]) by {
            if i > 0 {
                assert(s[i] == t[i - 1]);
            }
        }
    } else {
        assert(s.subrange(0, s.len() as int) =~= s);
    }
}

proof fn lemma_trim_end_prefix(s: Seq<char>)
    ensures
        exists|k: int|
            0 <= k <= s.len() && trim_end_spec(s) == s.subrange(0, k) && (forall|i: int|
                k <= i < s.len() ==> is_space(#[trigger] s[i])) && (k > 0 ==> !is_space(s[k - 1])),
    decreases s.len(),
{
    if s.len() > 0 && is_space(s.last()) {
        lemma_trim_end_prefix(s.drop_last());
        let t = s.drop_last();
        let k = choose|k: int|
            0 <= k <= t.len() && trim_end_spec(t) == t.subrange(0, k) && (forall|i: int|
                k <= i < t.len() ==> is_space(#[trigger] t[i])) && (k > 0 ==> !is_space(t[k - 1]));
        assert(t.subrange(0, k) =~= s.subrange(0, k));
        assert forall|i: int| k <= i < s.len() implies is_space(#[trigger] s[i]) by {
            if i < s.len() - 1 {
                assert(s[i] == t[i]);
            }
        }
    } else {
        assert(s.subrange(0, s.len() as int) =~= s);
    }
}

/// Character positions `(a, b)` such that `s[a..b]` is `s` trimmed.
pub fn trim_bounds(s: &str) -> (r: (usize, usize))
    ensures
        r.0 <= r.1 <= s@.len(),
        trim_spec(s@) == s@.subrange(r.0 as int, r.1 as int),
{
    let c = chars_of(s);
    let n = c.len();
    let mut start: usize = 0;
    while start < n && is_space_char(c[start])
        invariant
            c@ == s@,
            n == c@.len(),
            start <= n,
            forall|i: int| 0 <= i < start ==> is_space(#[trigger] c@[i]),
        decreases n - start,
    {
        start = start + 1;
    }
    let mut end: usize = n;
    while end > start && is_space_char(c[end - 1])
        invariant
            c@ == s@,
            n == c@.len(),
            start <= end <= n,
            forall|i: int| end <= i < n ==> is_space(#[trigger] c@[i]),
        decreases end - start,
    {
        end = end - 1;
    }
    proof {
        let sq = s@;
        lemma_trim_start_suffix(sq);
        let k1 = choose|k: int|
            0 <= k <= sq.len() && trim_start_spec(sq) == sq.subrange(k, sq.len() as int) && (forall|
                i: int,
            | 0 <= i < k ==> is_space(#[trigger] sq[i])) && (k < sq.len() ==> !is_space(sq[k]));
        assert(start == n || !is_space(sq[start as int]));
        assert(end == start || !is_space(sq[end - 1]));
        assert(k1 == start) by {
            if k1 < start {
                assert(is_space(sq[k1]));
            } else if k1 > start {
                assert(is_space(sq[start as int]));
            }
        }
        let t = trim_start_spec(sq);
        lemma_trim_end_prefix(t);
        let k2 = choose|k: int|
            0 <= k <= t.len() && trim_end_spec(t) == t.subrange(0, k) && (forall|i: int|
                k <= i < t.len() ==> is_space(#[trigger] t[i])) && (k > 0 ==> !is_space(t[k - 1]));
        assert(t =~= sq.subrange(start as int, n as int));
        assert(k2 + start == end) by {
            if k2 + start < end {
                assert(t[end - 1 - start] == sq[end - 1]);
                assert(!is_space(sq[end - 1]));
                assert(is_space(t[end - 1 - start]));
            } else if k2 + start > end {
                assert(t[k2 - 1] == sq[k2 - 1 + start]);
                assert(is_space(sq[k2 - 1 + start]));
            }
        }
        assert(trim_end_spec(t) =~= sq.subrange(start as int, end as int));
        assert(trim_spec(sq) =~= sq.subrange(start as int, end as int));
    }
    (start, end)
}

/// The characters of `s` with white space trimmed at both ends and ASCII
/// capitals lower-cased.
pub fn normalize(s: &str) -> (v: Vec<char>)
    ensures
        v@ == normalized(s@),
{
    let (start, end) = trim_bounds(s);
    let c = chars_of(s);
    let mut v: Vec<char> = Vec::new();
    let mut i: usize = start;
    while i < end
        invariant
            c@ == s@,
            start <= i <= end <= c@.len(),
            trim_spec(s@) == s@.subrange(start as int, end as int),
            v@ == ascii_lower_spec(c@.subrange(start as int, i as int)),
        decreases end - i,
    {
        let ch = c[i];
        let lower = if 'A' <= ch && ch <= 'Z' {
            char_from_ascii_code((ch as u32 + 32) as u8)
        } else {
            ch
        };
        v.push(lower);
        i = i + 1;
        assert(v@ =~= ascii_lower_spec(c@.subrange(start as int, i as int)));
    }
    v
}

/// `s` with white space trimmed at both ends.
pub fn trim_to_string(s: &str) -> (t: String)
    ensures
        t@ == trim_spec(s@),
{
    let (start, end) = trim_bounds(s);
    String::from_str(s.substring_char(start, end))
}

/// The character with ASCII code `b`.
fn char_from_ascii_code(b: u8) -> (c: char)
    requires
        b < 128,
    ensures
        c as u32 == b as u32,
{
    b as char
}

/// Whether the characters `v` spell `word`.
pub fn spells(v: &Vec<char>, word: &str) -> (b: bool)
    ensures
        b == (v@ == word@),
{
    let w = chars_of(word);
    if v.len() != w.len() {
        return false;
    }
    let mut i: usize = 0;
    while i < v.len()
        invariant
            w@ == word@,
            v@.len() == w@.len(),
            i <= v@.len(),
            forall|j: int| 0 <= j < i ==> v@[j] == w@[j],
        decreases v@.len() - i,
    {
        if v[i] != w[i] {
            return false;
        }
        i = i + 1;
    }
    assert(v@ =~= w@);
    true
}

/// Digit `d` (below 16) as a lower-case hexadecimal or decimal character.
pub open spec fn digit_char(d: nat) -> char {
    if d < 10 {
        (0x30 + d) as char
    } else {
        (0x61 + d - 10) as char
    }
}

/// Digits of `v` in base `radix`, most significant first, without leading
/// zeros (a single "0" for zero).
pub open spec fn radix_digits(v: nat, radix: nat) -> Seq<char>
    decreases v,
{
    if v < radix || radix < 2 {
        seq![digit_char(v)]
    } else {
        proof {
            assert(v / radix < v) by (nonlinear_arith)
                requires
                    radix >= 2,
                    v >= radix,
            ;
        }
        radix_digits(v / radix, radix).push(digit_char(v % radix))
    }
}

/// `s` with zeros put in front up to `width` characters.
pub open spec fn zero_pad(s: Seq<char>, width: nat) -> Seq<char> {
    if s.len() < width {
        Seq::new((width - s.len()) as nat, |i: int| '0') + s
    } else {
        s
    }
}

fn digit_text(d: u64) -> (t: &'static str)
    requires
        d < 16,
    ensures
        t@ == seq![digit_char(d as nat)],
{
    proof {
        reveal_strlit("0");
        reveal_strlit("1");
        reveal_strlit("2");
        reveal_strlit("3");
        reveal_strlit("4");
        reveal_strlit("5");
        reveal_strlit("6");
        reveal_strlit("7");
        reveal_strlit("8");
        reveal_strlit("9");
        reveal_strlit("a");
        reveal_strlit("b");
        reveal_strlit("c");
        reveal_strlit("d");
        reveal_strlit("e");
        reveal_strlit("f");
    }
    if d == 0 {
        "0"
    } else if d == 1 {
        "1"
    } else if d == 2 {
        "2"
    } else if d == 3 {
        "3"
    } else if d == 4 {
        "4"
    } else if d == 5 {
        "5"
    } else if d == 6 {
        "6"
    } else if d == 7 {
        "7"
    } else if d == 8 {
        "8"
    } else if d == 9 {
        "9"
    } else if d == 10 {
        "a"
    } else if d == 11 {
        "b"
    } else if d == 12 {
        "c"
    } else if d == 13 {
        "d"
    } else if d == 14 {
        "e"
    } else {
        "f"
    }
}

fn append_digits(s: &mut String, v: u64, radix: u64)
    requires
        radix == 10 || radix == 16,
    ensures
        final(s)@ == old(s)@ + radix_digits(v as nat, radix as nat),
    decreases v,
{
    let ghost s0 = s@;
    if v >= radix {
        append_digits(s, v / radix, radix);
    }
    s.append(digit_text(v % radix));
    assert(s@ =~= s0 + radix_digits(v as nat, radix as nat));
}

/// `v` written in base `radix` (10 or 16, lower-case digits), padded with
/// zeros to at least `width` characters.
pub fn format_radix(v: u64, radix: u64, width: usize) -> (t: String)
    requires
        radix == 10 || radix == 16,
    ensures
        t@ == zero_pad(radix_digits(v as nat, radix as nat), width as nat),
{
    let mut digits = String::new();
    append_digits(&mut digits, v, radix);
    assert(digits@ =~= radix_digits(v as nat, radix as nat));
    let n = digits.as_str().unicode_len();
    let mut t = String::new();
    let mut k: usize = n;
    proof {
        reveal_strlit("0");
    }
    while k < width
        invariant
            n <= k,
            k <= width || n == k,
            t@ == Seq::new((k - n) as nat, |i: int| '0'),
        decreases width - k,
    {
        proof {
            reveal_strlit("0");
        }
        t.append("0");
        k = k + 1;
        assert(t@ =~= Seq::new((k - n) as nat, |i: int| '0'));
    }
    t.append(digits.as_str());
    assert(t@ =~= zero_pad(radix_digits(v as nat, radix as nat), width as nat));
    t
}

/// `s` with every double quote removed.
pub open spec fn without_quotes(s: Seq<char>) -> Seq<char>
    decreases s.len(),
{
    if s.len() == 0 {
        s
    } else if s.last() == '"' {
        without_quotes(s.drop_last())
    } else {
        without_quotes(s.drop_last()).push(s.last())
    }
}

proof fn lemma_without_quotes_extend(s: Seq<char>, a: int, b: int)
    requires
        0 <= a <= b <= s.len(),
        forall|i: int| a <= i < b ==> s[i] != '"',
    ensures
        without_quotes(s.subrange(0, b)) == without_quotes(s.subrange(0, a)) + s.subrange(a, b),
    decreases b - a,
{
    if a < b {
        lemma_without_quotes_extend(s, a, b - 1);
        assert(s.subrange(0, b).drop_last() =~= s.subrange(0, b - 1));
        assert(s.subrange(a, b) =~= s.subrange(a, b - 1).push(s[b - 1]));
    } else {
        assert(s.subrange(a, b) =~= Seq::<char>::empty());
    }
}

/// `s` with every double quote removed, as `str::replace('"', "")` gives it.
pub fn strip_quotes(s: &str) -> (t: String)
    ensures
        t@ == without_quotes(s@),
{
    let c = chars_of(s);
    let n = c.len();
    let mut t = String::new();
    let mut seg: usize = 0;
    let mut i: usize = 0;
    assert(s@.subrange(0, 0) =~= Seq::<char>::empty());
    while i < n
        invariant
            c@ == s@,
            n == s@.len(),
            seg <= i <= n,
            t@ == without_quotes(s@.subrange(0, seg as int)),
            forall|j: int| seg <= j < i ==> s@[j] != '"',
        decreases n - i,
    {
        if c[i] == '"' {
            proof {
                lemma_without_quotes_extend(s@, seg as int, i as int);
                assert(s@.subrange(0, i + 1).drop_last() =~= s@.subrange(0, i as int));
            }
            t.append(s.substring_char(seg, i));
            seg = i + 1;
        }
        i = i + 1;
    }
    proof {
        lemma_without_quotes_extend(s@, seg as int, n as int);
        assert(s@.subrange(0, n as int) =~= s@);
    }
    t.append(s.substring_char(seg, n));
    t
}

/// Removing quotes leaves no quote behind and keeps every other character.
pub proof fn lemma_without_quotes_has_none(s: Seq<char>)
    ensures
        forall|i: int| 0 <= i < without_quotes(s).len() ==> without_quotes(s)[i] != '"',
        without_quotes(s).len() <= s.len(),
        (forall|i: int| 0 <= i < s.len() ==> s[i] != '"') ==> without_quotes(s) == s,
    decreases s.len(),
{
    if s.len() > 0 {
        lemma_without_quotes_has_none(s.drop_last());
        if forall|i: int| 0 <= i < s.len() ==> s[i] != '"' {
            assert forall|i: int| 0 <= i < s.drop_last().len() implies s.drop_last()[i] != '"' by {
                assert(s.drop_last()[i] == s[i]);
            }
            assert(s.drop_last().push(s.last()) =~= s);
        }
    }
}

} // verus!
