//! How the guest kernel command line is put together: which text it starts
//! from, how a configured console replaces the `console=` setting already in
//! it, and the order in which the other pieces are appended, each after a
//! space.

use vstd::prelude::*;
use vstd::string::*;
use crate::config::{concat_message, DEFAULT_KERNEL_CMDLINE};
use crate::text::chars_of;

verus! {

/// The command line starts from the payload's own command line, else the
/// configured prolog, else the default command line.
pub fn kernel_cmdline_base(payload_cmdline: Option<&str>, prolog: Option<&str>) -> (s: String)
    ensures
        s@ == (match payload_cmdline {
            Some(p) => p@,
            None => match prolog {
                Some(p) => p@,
                None => DEFAULT_KERNEL_CMDLINE@,
            },
        }),
{
    match payload_cmdline {
        Some(p) => String::from_str(p),
        None => match prolog {
            Some(p) => String::from_str(p),
            None => String::from_str(DEFAULT_KERNEL_CMDLINE),
        },
    }
}

/// `pat` occurs in `s` at position `i`.
pub open spec fn occurs_at(s: Seq<char>, pat: Seq<char>, i: int) -> bool {
    0 <= i && i + pat.len() <= s.len() && s.subrange(i, i + pat.len()) == pat
}

/// The first position at or after `i` where `pat` occurs in `s`, as
/// `str::find` reports it.
pub open spec fn find_from(s: Seq<char>, pat: Seq<char>, i: int) -> Option<int>
    decreases s.len() + 1 - i,
{
    if i < 0 || i + pat.len() > s.len() {
        None
    } else if occurs_at(s, pat, i) {
        Some(i)
    } else {
        find_from(s, pat, i + 1)
    }
}

/// The first space at or after position `i` of `s`.
pub open spec fn space_from(s: Seq<char>, i: int) -> Option<int>
    decreases s.len() - i,
{
    if i < 0 || i >= s.len() {
        None
    } else if s[i] == ' ' {
        Some(i)
    } else {
        space_from(s, i + 1)
    }
}

/// `s` with each occurrence of `pat`, found left to right without overlap,
/// replaced by `rep`, as `str::replace` gives it for a non-empty `pat`.
pub open spec fn replace_all(s: Seq<char>, pat: Seq<char>, rep: Seq<char>) -> Seq<char>
    decreases s.len(),
{
    if pat.len() == 0 || s.len() < pat.len() {
        s
    } else if s.subrange(0, pat.len() as int) == pat {
        rep + replace_all(s.subrange(pat.len() as int, s.len() as int), pat, rep)
    } else {
        seq![s[0]] + replace_all(s.subrange(1, s.len() as int), pat, rep)
    }
}

/// The `console=` setting of a command line: from the first `console=` up
/// to the first space after it.
pub open spec fn console_span_spec(s: Seq<char>) -> Option<(int, int)> {
    match find_from(s, "console="@, 0) {
        Some(a) => match space_from(s, a) {
            Some(b) => Some((a, b)),
            None => None,
        },
        None => None,
    }
}

/// The command line with its `console=` setting, wherever that exact text
/// occurs, replaced by `console=` and the configured console.
pub open spec fn console_override_spec(s: Seq<char>, console: Seq<char>) -> Seq<char> {
    let (a, b) = console_span_spec(s).unwrap();
    replace_all(s, s.subrange(a, b), "console="@ + console)
}

/// Whether `p` occurs in `c` at position `i`.
fn matches_at(c: &Vec<char>, i: usize, p: &Vec<char>) -> (b: bool)
    ensures
        b == occurs_at(c@, p@, i as int),
{
    if i > c.len() || p.len() > c.len() - i {
        return false;
    }
    assert(c@.len() == c.len());
    let mut k: usize = 0;
    while k < p.len()
        invariant
            i + p@.len() <= c@.len(),
            c@.len() <= usize::MAX,
            k <= p@.len(),
            forall|j: int| 0 <= j < k ==> c@[i + j] == p@[j],
        decreases p@.len() - k,
    {
        if c[i + k] != p[k] {
            assert(c@.subrange(i as int, i + p@.len())[k as int] != p@[k as int]);
            return false;
        }
        k = k + 1;
    }
    assert(c@.subrange(i as int, i + p@.len()) =~= p@);
    true
}

/// The position of the `console=` setting in `cmdline` and of the first
/// space after it, if both are there.
pub fn console_span(cmdline: &str) -> (r: Option<(usize, usize)>)
    ensures
        match console_span_spec(cmdline@) {
            Some(ab) => r matches Some((x, y)) && x as int == ab.0 && y as int == ab.1,
            None => r.is_none(),
        },
{
    let c = chars_of(cmdline);
    let p = chars_of("console=");
    let mut i: usize = 0;
    while i < c.len() && !matches_at(&c, i, &p)
        invariant
            c@ == cmdline@,
            p@ == "console="@,
            i <= c@.len(),
            find_from(c@, p@, 0) == find_from(c@, p@, i as int),
        decreases c@.len() - i,
    {
        i = i + 1;
    }
    if i >= c.len() {
        proof {
            reveal_strlit("console=");
        }
        return None;
    }
    let a = i;
    let mut j: usize = a;
    while j < c.len() && c[j] != ' '
        invariant
            c@ == cmdline@,
            a <= j <= c@.len(),
            space_from(c@, a as int) == space_from(c@, j as int),
        decreases c@.len() - j,
    {
        j = j + 1;
    }
    if j >= c.len() {
        return None;
    }
    Some((a, j))
}

/// `s` with each occurrence of the non-empty `pat` replaced by `rep`.
fn replace_all_str(s: &str, pat: &str, rep: &str) -> (r: String)
    requires
        pat@.len() > 0,
    ensures
        r@ == replace_all(s@, pat@, rep@),
{
    let c = chars_of(s);
    let p = chars_of(pat);
    let n = c.len();
    let mut out = String::new();
    let mut i: usize = 0;
    assert(s@.subrange(0, n as int) =~= s@);
    while i < n
        invariant
            c@ == s@,
            p@ == pat@,
            p@.len() > 0,
            n == s@.len(),
            i <= n,
            out@ + replace_all(s@.subrange(i as int, n as int), pat@, rep@) == replace_all(
                s@,
                pat@,
                rep@,
            ),
        decreases n - i,
    {
        let ghost t = s@.subrange(i as int, n as int);
        if matches_at(&c, i, &p) {
            assert(t.subrange(0, p@.len() as int) =~= s@.subrange(i as int, i + p@.len()));
            assert(t.subrange(p@.len() as int, t.len() as int) =~= s@.subrange(
                i + p@.len(),
                n as int,
            ));
            let ghost before = out@;
            out.append(rep);
            assert(out@ =~= before + rep@);
            assert(before + (rep@ + replace_all(s@.subrange(i + p@.len(), n as int), pat@, rep@))
                =~= out@ + replace_all(s@.subrange(i + p@.len(), n as int), pat@, rep@));
            i = i + p.len();
        } else {
            proof {
                if t.len() >= p@.len() {
                    assert(t.subrange(0, p@.len() as int) =~= s@.subrange(i as int, i + p@.len()));
                }
                assert(t.subrange(1, t.len() as int) =~= s@.subrange(i + 1, n as int));
            }
            let ghost before = out@;
            out.append(s.substring_char(i, i + 1));
            assert(out@ =~= before + seq![t[0]]);
            proof {
                if t.len() < p@.len() {
                    // Too short for another match: the rest is copied as it is.
                    assert(replace_all(t, pat@, rep@) == t);
                    assert(replace_all(t.subrange(1, t.len() as int), pat@, rep@) == t.subrange(
                        1,
                        t.len() as int,
                    ));
                    assert(seq![t[0]] + t.subrange(1, t.len() as int) =~= t);
                }
            }
            assert(before + (seq![t[0]] + replace_all(s@.subrange(i + 1, n as int), pat@, rep@))
                =~= out@ + replace_all(s@.subrange(i + 1, n as int), pat@, rep@));
            i = i + 1;
        }
    }
    assert(s@.subrange(n as int, n as int) =~= Seq::<char>::empty());
    assert(out@ + Seq::<char>::empty() =~= out@);
    out
}

/// `cmdline` with its `console=` setting replaced by `console=` and
/// `console`; every occurrence of the old setting's exact text is replaced.
pub fn replace_console(cmdline: &str, console: &str) -> (r: String)
    requires
        console_span_spec(cmdline@).is_some(),
    ensures
        r@ == console_override_spec(cmdline@, console@),
{
    let span = console_span(cmdline);
    let (a, b) = match span {
        Some(ab) => ab,
        None => (0, 0),
    };
    proof {
        reveal_strlit("console=");
        lemma_find_from_found(cmdline@, "console="@, 0);
        // The setting starts with `c`, so it is not empty.
        assert(cmdline@.subrange(a as int, a + 8)[0] == 'c');
        lemma_space_after(cmdline@, a as int);
    }
    let setting = cmdline.substring_char(a, b);
    let rep = concat_message("console=", console);
    replace_all_str(cmdline, setting, rep.as_str())
}

/// `line` with `piece` appended, separated by one space unless `line` is
/// empty.
pub open spec fn cmdline_join(line: Seq<char>, piece: Seq<char>) -> Seq<char> {
    if line.len() == 0 {
        piece
    } else {
        line + seq![' '] + piece
    }
}

/// `line` with `piece` appended where there is one.
pub open spec fn cmdline_join_opt(line: Seq<char>, piece: Option<Seq<char>>) -> Seq<char> {
    match piece {
        Some(p) => cmdline_join(line, p),
        None => line,
    }
}

/// `line` with each of `pieces` appended in order.
pub open spec fn cmdline_join_all(line: Seq<char>, pieces: Seq<Seq<char>>) -> Seq<char>
    decreases pieces.len(),
{
    if pieces.len() == 0 {
        line
    } else {
        cmdline_join(cmdline_join_all(line, pieces.drop_last()), pieces.last())
    }
}

pub open spec fn opt_text(o: Option<&str>) -> Option<Seq<char>> {
    match o {
        Some(t) => Some(t@),
        None => None,
    }
}

/// The kernel command line: the base, then the environment settings; the
/// configured console replaces the `console=` setting of that line; then
/// the host's extra text, further entries (device settings and the like) in
/// order, and the epilog last.
pub open spec fn assembled_cmdline(
    base: Seq<char>,
    krun_env: Option<Seq<char>>,
    console: Option<Seq<char>>,
    append: Option<Seq<char>>,
    entries: Seq<Seq<char>>,
    epilog: Option<Seq<char>>,
) -> Seq<char> {
    let with_env = cmdline_join_opt(base, krun_env);
    let with_console = match console {
        Some(c) => console_override_spec(with_env, c),
        None => with_env,
    };
    cmdline_join_opt(cmdline_join_all(cmdline_join_opt(with_console, append), entries), epilog)
}

/// Appends `piece` to the command line `line`, after a space unless the
/// line is empty.
pub fn cmdline_push(line: &mut String, piece: &str)
    ensures
        final(line)@ == cmdline_join(old(line)@, piece@),
{
    proof {
        reveal_strlit(" ");
    }
    if line.as_str().unicode_len() > 0 {
        line.append(" ");
    }
    line.append(piece);
}

/// Appends `piece` to `line` where there is one.
fn cmdline_push_opt(line: &mut String, piece: Option<&str>)
    ensures
        final(line)@ == cmdline_join_opt(old(line)@, opt_text(piece)),
{
    if let Some(p) = piece {
        cmdline_push(line, p);
    }
}

/// Puts the kernel command line together from its pieces.
pub fn assemble_cmdline(
    base: &str,
    krun_env: Option<&str>,
    console: Option<&str>,
    append: Option<&str>,
    entries: &Vec<String>,
    epilog: Option<&str>,
) -> (s: String)
    requires
        console.is_some() ==> console_span_spec(cmdline_join_opt(base@, opt_text(krun_env))).is_some(),
    ensures
        s@ == assembled_cmdline(
            base@,
            opt_text(krun_env),
            opt_text(console),
            opt_text(append),
            entries@.map_values(|e: String| e@),
            opt_text(epilog),
        ),
{
    let mut line = String::from_str(base);
    cmdline_push_opt(&mut line, krun_env);
    if let Some(c) = console {
        line = replace_console(line.as_str(), c);
    }
    cmdline_push_opt(&mut line, append);
    let ghost start = line@;
    let ghost pieces = entries@.map_values(|e: String| e@);
    let mut i: usize = 0;
    while i < entries.len()
        invariant
            i <= entries@.len(),
            pieces == entries@.map_values(|e: String| e@),
            line@ == cmdline_join_all(start, pieces.take(i as int)),
        decreases entries@.len() - i,
    {
        assert(pieces.take(i + 1).drop_last() =~= pieces.take(i as int));
        cmdline_push(&mut line, entries[i].as_str());
        i = i + 1;
    }
    assert(pieces.take(entries@.len() as int) =~= pieces);
    cmdline_push_opt(&mut line, epilog);
    line
}

proof fn lemma_space_after(s: Seq<char>, i: int)
    requires
        0 <= i <= s.len(),
    ensures
        space_from(s, i) matches Some(b) ==> i <= b < s.len() && s[b] == ' ',
    decreases s.len() - i,
{
    if i < s.len() && s[i] != ' ' {
        lemma_space_after(s, i + 1);
    }
}

proof fn lemma_find_from_found(s: Seq<char>, pat: Seq<char>, i: int)
    ensures
        find_from(s, pat, i) matches Some(k) ==> i <= k && occurs_at(s, pat, k),
    decreases s.len() + 1 - i,
{
    if !(i < 0 || i + pat.len() > s.len()) && !occurs_at(s, pat, i) {
        lemma_find_from_found(s, pat, i + 1);
    }
}

} // verus!
