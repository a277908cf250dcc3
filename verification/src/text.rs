//! Text as sequences of characters: searching, substituting, trimming and
//! splitting into lines, and writing numbers in decimal.
//!
//! Every contract here is stated over `Seq<char>`, the view of `str` and
//! `String`.

use vstd::prelude::*;
use vstd::string::*;

verus! {

/// Appends one character to a string, as `String::push` does: afterwards the
/// string holds what it held before, followed by `c`.
#[verifier::external_body]
fn push_char(s: &mut String, c: char)
    ensures
        final(s)@ == old(s)@.push(c),
{
    s.push(c)
}

/// The characters of `s`, in order.
pub fn to_chars(s: &str) -> (out: Vec<char>)
    ensures
        out@ == s@,
{
    let mut out: Vec<char> = Vec::new();
    let it = s.chars();
    for c in iter: it
        invariant
            out@ == iter.seq().take(iter.index() as int),
    {
        out.push(c);
    }
    out
}

/// The string made of the characters `chars[from..to]`.
pub fn to_text(chars: &Vec<char>, from: usize, to: usize) -> (out: String)
    requires
        from <= to <= chars.len(),
    ensures
        out@ == chars@.subrange(from as int, to as int),
{
    let mut out = String::new();
    let mut i: usize = from;
    while i < to
        invariant
            from <= i <= to <= chars.len(),
            out@ == chars@.subrange(from as int, i as int),
        decreases to - i,
    {
        push_char(&mut out, chars[i]);
        i += 1;
    }
    out
}

/// `pat` stands in `hay` at position `at`.
pub open spec fn occurs_at(hay: Seq<char>, pat: Seq<char>, at: int) -> bool {
    &&& 0 <= at
    &&& at + pat.len() <= hay.len()
    &&& hay.subrange(at, at + pat.len()) == pat
}

/// `pat` stands somewhere in `hay`. The empty text stands in every text.
pub open spec fn has_substring(hay: Seq<char>, pat: Seq<char>) -> bool {
    exists|at: int| occurs_at(hay, pat, at)
}

/// Whether `pat` stands in `hay` at position `at`.
pub fn matches_at(hay: &Vec<char>, pat: &Vec<char>, at: usize) -> (found: bool)
    ensures
        found == occurs_at(hay@, pat@, at as int),
{
    if pat.len() > hay.len() || at > hay.len() - pat.len() {
        return false;
    }
    let mut k: usize = 0;
    while k < pat.len()
        invariant
            k <= pat.len(),
            at + pat.len() <= hay.len(),
            forall|j: int| 0 <= j < k ==> hay@[at + j] == pat@[j],
        decreases pat.len() - k,
    {
        if hay[at + k] != pat[k] {
            proof {
                let window = hay@.subrange(at as int, at + pat.len());
                assert(window[k as int] == hay@[at + k]);
            }
            return false;
        }
        k += 1;
    }
    assert(hay@.subrange(at as int, at + pat.len()) =~= pat@);
    true
}

/// Whether `pat` stands somewhere in `hay`.
pub fn contains_chars(hay: &Vec<char>, pat: &Vec<char>) -> (found: bool)
    ensures
        found == has_substring(hay@, pat@),
{
    if pat.len() > hay.len() {
        return false;
    }
    let last: usize = hay.len() - pat.len();
    let mut at: usize = 0;
    loop
        invariant
            last == hay.len() - pat.len(),
            at <= last,
            forall|j: int| 0 <= j < at ==> !occurs_at(hay@, pat@, j),
        decreases last - at,
    {
        if matches_at(hay, pat, at) {
            return true;
        }
        if at == last {
            return false;
        }
        at += 1;
    }
}

/// Whether the text `pat` stands somewhere in the text `hay`.
pub fn contains(hay: &str, pat: &str) -> (found: bool)
    ensures
        found == has_substring(hay@, pat@),
{
    let hay_chars = to_chars(hay);
    let pat_chars = to_chars(pat);
    contains_chars(&hay_chars, &pat_chars)
}

/// `s` with every occurrence of `pat` replaced by `with`, taking occurrences
/// from the left and never one that overlaps an occurrence already taken.
/// Where `pat` is empty nothing is replaced.
pub open spec fn replaced(s: Seq<char>, pat: Seq<char>, with: Seq<char>) -> Seq<char>
    decreases s.len(),
{
    if pat.len() == 0 || s.len() < pat.len() {
        s
    } else if s.subrange(0, pat.len() as int) == pat {
        with + replaced(s.subrange(pat.len() as int, s.len() as int), pat, with)
    } else {
        seq![s[0]] + replaced(s.subrange(1, s.len() as int), pat, with)
    }
}

/// Replacing in the rest of `s` from `at` on, where `pat` stands at `at`.
proof fn lemma_replaced_hit(s: Seq<char>, pat: Seq<char>, with: Seq<char>, at: int)
    requires
        pat.len() > 0,
        occurs_at(s, pat, at),
    ensures
        replaced(s.subrange(at, s.len() as int), pat, with) == with + replaced(
            s.subrange(at + pat.len(), s.len() as int),
            pat,
            with,
        ),
{
    let rest = s.subrange(at, s.len() as int);
    assert(rest.subrange(0, pat.len() as int) =~= s.subrange(at, at + pat.len()));
    assert(rest.subrange(pat.len() as int, rest.len() as int) =~= s.subrange(
        at + pat.len(),
        s.len() as int,
    ));
}

/// Replacing in the rest of `s` from `at` on, where `pat` does not stand at `at`.
proof fn lemma_replaced_miss(s: Seq<char>, pat: Seq<char>, with: Seq<char>, at: int)
    requires
        pat.len() > 0,
        0 <= at < s.len(),
        !occurs_at(s, pat, at),
    ensures
        replaced(s.subrange(at, s.len() as int), pat, with) == seq![s[at]] + replaced(
            s.subrange(at + 1, s.len() as int),
            pat,
            with,
        ),
{
    let rest = s.subrange(at, s.len() as int);
    if rest.len() >= pat.len() {
        assert(rest.subrange(0, pat.len() as int) =~= s.subrange(at, at + pat.len()));
        assert(rest.subrange(1, rest.len() as int) =~= s.subrange(at + 1, s.len() as int));
    } else {
        lemma_replaced_short(s.subrange(at + 1, s.len() as int), pat, with);
        assert(rest =~= seq![s[at]] + s.subrange(at + 1, s.len() as int));
    }
}

/// A text shorter than `pat` is left as it is.
proof fn lemma_replaced_short(s: Seq<char>, pat: Seq<char>, with: Seq<char>)
    requires
        s.len() < pat.len(),
    ensures
        replaced(s, pat, with) == s,
{
}

/// Appends `extra` to `out`.
fn append_chars(out: &mut Vec<char>, extra: &Vec<char>)
    ensures
        final(out)@ == old(out)@ + extra@,
{
    let mut k: usize = 0;
    while k < extra.len()
        invariant
            k <= extra.len(),
            out@ == old(out)@ + extra@.take(k as int),
        decreases extra.len() - k,
    {
        out.push(extra[k]);
        k += 1;
    }
}

/// `s` with every occurrence of `pat` replaced by `with`.
pub fn replace_chars(s: &Vec<char>, pat: &Vec<char>, with: &Vec<char>) -> (out: Vec<char>)
    ensures
        out@ == replaced(s@, pat@, with@),
{
    let mut out: Vec<char> = Vec::new();
    if pat.len() == 0 {
        append_chars(&mut out, s);
        return out;
    }
    let mut at: usize = 0;
    assert(s@.subrange(0, s.len() as int) =~= s@);
    while at < s.len()
        invariant
            pat.len() > 0,
            at <= s.len(),
            out@ + replaced(s@.subrange(at as int, s.len() as int), pat@, with@) == replaced(
                s@,
                pat@,
                with@,
            ),
        decreases s.len() - at,
    {
        let ghost before = out@;
        if matches_at(s, pat, at) {
            proof {
                lemma_replaced_hit(s@, pat@, with@, at as int);
            }
            append_chars(&mut out, with);
            at += pat.len();
            assert(out@ + replaced(s@.subrange(at as int, s.len() as int), pat@, with@)
                =~= before + (with@ + replaced(
                s@.subrange(at as int, s.len() as int),
                pat@,
                with@,
            )));
        } else {
            proof {
                lemma_replaced_miss(s@, pat@, with@, at as int);
            }
            out.push(s[at]);
            at += 1;
            assert(out@ + replaced(s@.subrange(at as int, s.len() as int), pat@, with@)
                =~= before + (seq![s@[at - 1]] + replaced(
                s@.subrange(at as int, s.len() as int),
                pat@,
                with@,
            )));
        }
    }
    assert(s@.subrange(s.len() as int, s.len() as int) =~= Seq::<char>::empty());
    assert(out@ + Seq::<char>::empty() =~= out@);
    out
}

/// The text `s` with every occurrence of the text `pat` replaced by `with`.
pub fn replace(s: &str, pat: &str, with: &str) -> (out: String)
    ensures
        out@ == replaced(s@, pat@, with@),
{
    let chars = replace_chars(&to_chars(s), &to_chars(pat), &to_chars(with));
    let out = to_text(&chars, 0, chars.len());
    assert(chars@.subrange(0, chars.len() as int) =~= chars@);
    out
}

/// The characters that count as white space: those with the Unicode property
/// `White_Space`.
pub open spec fn is_whitespace(c: char) -> bool {
    let n = c as u32;
    ||| 0x09 <= n <= 0x0D
    ||| n == 0x20
    ||| n == 0x85
    ||| n == 0xA0
    ||| n == 0x1680
    ||| 0x2000 <= n <= 0x200A
    ||| n == 0x2028
    ||| n == 0x2029
    ||| n == 0x202F
    ||| n == 0x205F
    ||| n == 0x3000
}

/// Whether `c` counts as white space.
pub fn whitespace(c: char) -> (yes: bool)
    ensures
        yes == is_whitespace(c),
{
    let n: u32 = c as u32;
    (0x09 <= n && n <= 0x0D) || n == 0x20 || n == 0x85 || n == 0xA0 || n == 0x1680 || (0x2000 <= n
        && n <= 0x200A) || n == 0x2028 || n == 0x2029 || n == 0x202F || n == 0x205F || n == 0x3000
}

/// `s` without the white space it begins with.
pub open spec fn trimmed_start(s: Seq<char>) -> Seq<char>
    decreases s.len(),
{
    if s.len() > 0 && is_whitespace(s[0]) {
        trimmed_start(s.drop_first())
    } else {
        s
    }
}

/// `s` without the white space it ends with.
pub open spec fn trimmed_end(s: Seq<char>) -> Seq<char>
    decreases s.len(),
{
    if s.len() > 0 && is_whitespace(s.last()) {
        trimmed_end(s.drop_last())
    } else {
        s
    }
}

/// `s` without the white space around it.
pub open spec fn trimmed(s: Seq<char>) -> Seq<char> {
    trimmed_end(trimmed_start(s))
}

/// `s` without the white space around it.
pub fn trim_chars(s: &Vec<char>) -> (out: Vec<char>)
    ensures
        out@ == trimmed(s@),
{
    let n: usize = s.len();
    let mut lo: usize = 0;
    assert(s@.subrange(0, n as int) =~= s@);
    while lo < n && whitespace(s[lo])
        invariant
            n == s.len(),
            lo <= n,
            trimmed_start(s@) == trimmed_start(s@.subrange(lo as int, n as int)),
        decreases n - lo,
    {
        assert(s@.subrange(lo as int, n as int).drop_first() =~= s@.subrange(lo + 1, n as int));
        lo += 1;
    }
    let mut hi: usize = n;
    while hi > lo && whitespace(s[hi - 1])
        invariant
            n == s.len(),
            lo <= hi <= n,
            trimmed_end(s@.subrange(lo as int, n as int)) == trimmed_end(
                s@.subrange(lo as int, hi as int),
            ),
        decreases hi - lo,
    {
        assert(s@.subrange(lo as int, hi as int).drop_last() =~= s@.subrange(
            lo as int,
            hi - 1,
        ));
        hi -= 1;
    }
    let mut out: Vec<char> = Vec::new();
    let mut i: usize = lo;
    while i < hi
        invariant
            lo <= i <= hi <= s.len(),
            out@ == s@.subrange(lo as int, i as int),
        decreases hi - i,
    {
        out.push(s[i]);
        i += 1;
    }
    out
}

/// The number of characters of `s` before its first line feed: all of them
/// where it has none.
pub open spec fn line_end(s: Seq<char>) -> nat
    decreases s.len(),
{
    if s.len() == 0 || s[0] == '\n' {
        0
    } else {
        1 + line_end(s.drop_first())
    }
}

/// `line` without the carriage return it may end with.
pub open spec fn without_cr(line: Seq<char>) -> Seq<char> {
    if line.len() > 0 && line.last() == '\r' {
        line.drop_last()
    } else {
        line
    }
}

/// The lines of `s`. A line ends with a line feed, or with a carriage return
/// and a line feed; neither belongs to the line. What follows the last line
/// feed is a line too, unless it is empty.
pub open spec fn lines(s: Seq<char>) -> Seq<Seq<char>>
    decreases s.len(),
{
    if s.len() == 0 {
        Seq::empty()
    } else {
        let k = line_end(s);
        if k >= s.len() {
            seq![s]
        } else {
            seq![without_cr(s.take(k as int))] + lines(s.skip(k as int + 1))
        }
    }
}

/// `line_end` is where the first line feed stands.
proof fn lemma_line_end(s: Seq<char>, n: nat)
    requires
        n <= s.len(),
        forall|j: int| 0 <= j < n ==> s[j] != '\n',
        n == s.len() || s[n as int] == '\n',
    ensures
        line_end(s) == n,
    decreases n,
{
    if n > 0 {
        lemma_line_end(s.drop_first(), (n - 1) as nat);
    }
}

/// The lines of the text in `t`.
pub fn split_lines(t: &Vec<char>) -> (out: Vec<String>)
    ensures
        out.deep_view() == lines(t@),
{
    let mut out: Vec<String> = Vec::new();
    let mut start: usize = 0;
    let mut i: usize = 0;
    assert(t@.skip(0) =~= t@);
    assert(out.deep_view() =~= Seq::<Seq<char>>::empty());
    while i < t.len()
        invariant
            start <= i <= t.len(),
            forall|j: int| start <= j < i ==> t@[j] != '\n',
            out.deep_view() + lines(t@.skip(start as int)) == lines(t@),
        decreases t.len() - i,
    {
        if t[i] == '\n' {
            let end: usize = if i > start && t[i - 1] == '\r' {
                (i - 1) as usize
            } else {
                i
            };
            let line = to_text(t, start, end);
            let ghost before = out.deep_view();
            let ghost rest = t@.skip(start as int);
            proof {
                lemma_line_end(rest, (i - start) as nat);
                assert(rest.take(i - start) =~= t@.subrange(start as int, i as int));
                assert(without_cr(rest.take(i - start)) =~= line@);
                assert(rest.skip(i - start + 1) =~= t@.skip(i + 1));
            }
            out.push(line);
            assert(out.deep_view() =~= before.push(line@));
            assert(out.deep_view() + lines(t@.skip(i + 1)) =~= before + lines(rest));
            start = i + 1;
        }
        i += 1;
    }
    if start < t.len() {
        let line = to_text(t, start, t.len());
        let ghost before = out.deep_view();
        let ghost rest = t@.skip(start as int);
        proof {
            lemma_line_end(rest, (t.len() - start) as nat);
            assert(rest =~= line@);
        }
        out.push(line);
        assert(out.deep_view() =~= before.push(line@));
        assert(out.deep_view() =~= before + lines(rest));
    } else {
        assert(out.deep_view() + Seq::<Seq<char>>::empty() =~= out.deep_view());
    }
    out
}

/// The character that stands for the digit `d`.
pub open spec fn digit(d: int) -> char {
    if d == 0 {
        '0'
    } else if d == 1 {
        '1'
    } else if d == 2 {
        '2'
    } else if d == 3 {
        '3'
    } else if d == 4 {
        '4'
    } else if d == 5 {
        '5'
    } else if d == 6 {
        '6'
    } else if d == 7 {
        '7'
    } else if d == 8 {
        '8'
    } else {
        '9'
    }
}

/// `n` written in decimal, without leading zeros.
pub open spec fn decimal(n: nat) -> Seq<char>
    decreases n,
{
    if n < 10 {
        seq![digit(n as int)]
    } else {
        decimal(n / 10).push(digit((n % 10) as int))
    }
}

/// Appends `n`, written in decimal, to `out`.
pub fn push_decimal(out: &mut Vec<char>, n: u128)
    ensures
        final(out)@ == old(out)@ + decimal(n as nat),
    decreases n,
{
    if n >= 10 {
        push_decimal(out, n / 10);
    }
    let d: u128 = n % 10;
    let c: char = if d == 0 {
        '0'
    } else if d == 1 {
        '1'
    } else if d == 2 {
        '2'
    } else if d == 3 {
        '3'
    } else if d == 4 {
        '4'
    } else if d == 5 {
        '5'
    } else if d == 6 {
        '6'
    } else if d == 7 {
        '7'
    } else if d == 8 {
        '8'
    } else {
        '9'
    };
    out.push(c);
    assert(out@ =~= old(out)@ + decimal(n as nat));
}

} // verus!
