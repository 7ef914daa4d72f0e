//! Reading the public key out of an age key file.
//!
//! `age-keygen` writes a comment line `# public key: <key>` into the key
//! file. The key is taken from the first line that starts with that prefix:
//! every occurrence of the prefix is removed from the line, and white space
//! is trimmed from both ends.
use vstd::prelude::*;
use crate::text::{chars_of, string_of};

verus! {

/// `# public key: `
pub open spec fn key_prefix() -> Seq<char> {
    seq!['#', ' ', 'p', 'u', 'b', 'l', 'i', 'c', ' ', 'k', 'e', 'y', ':', ' ']
}

/// The characters that `char::is_whitespace` accepts (Unicode White_Space).
pub open spec fn is_ws(c: char) -> bool {
    ||| c == ' '
    ||| ('\t' <= c && c <= '\r')
    ||| c == '\u{85}'
    ||| c == '\u{a0}'
    ||| c == '\u{1680}'
    ||| ('\u{2000}' <= c && c <= '\u{200a}')
    ||| c == '\u{2028}'
    ||| c == '\u{2029}'
    ||| c == '\u{202f}'
    ||| c == '\u{205f}'
    ||| c == '\u{3000}'
}

/// `t` without its leading white space.
pub open spec fn trim_start(t: Seq<char>) -> Seq<char>
    decreases t.len(),
{
    if t.len() > 0 && is_ws(t[0]) {
        trim_start(t.drop_first())
    } else {
        t
    }
}

/// `t` without its trailing white space.
pub open spec fn trim_end(t: Seq<char>) -> Seq<char>
    decreases t.len(),
{
    if t.len() > 0 && is_ws(t.last()) {
        trim_end(t.drop_last())
    } else {
        t
    }
}

/// `t` without white space at either end, as `str::trim` gives it.
pub open spec fn trim(t: Seq<char>) -> Seq<char> {
    trim_end(trim_start(t))
}

/// `t` starts with `pre`.
pub open spec fn starts_with(t: Seq<char>, pre: Seq<char>) -> bool {
    pre.len() <= t.len() && t.subrange(0, pre.len() as int) == pre
}

/// `t` with every occurrence of `pat` removed, scanning from the left as
/// `str::replace(pat, "")` does.
pub open spec fn remove_all(t: Seq<char>, pat: Seq<char>) -> Seq<char>
    decreases t.len(),
{
    if pat.len() == 0 || t.len() < pat.len() {
        t
    } else if starts_with(t, pat) {
        remove_all(t.skip(pat.len() as int), pat)
    } else {
        seq![t[0]] + remove_all(t.drop_first(), pat)
    }
}

/// Where the line that starts at `p` ends: at the next `\n`, or at the end.
pub open spec fn line_end(s: Seq<char>, p: int) -> int
    decreases s.len() - p,
{
    if p >= s.len() || p < 0 {
        s.len() as int
    } else if s[p] == '\n' {
        p
    } else {
        line_end(s, p + 1)
    }
}

pub proof fn lemma_line_end(s: Seq<char>, p: int)
    requires
        0 <= p <= s.len(),
    ensures
        p <= line_end(s, p) <= s.len(),
    decreases s.len() - p,
{
    if p < s.len() && s[p] != '\n' {
        lemma_line_end(s, p + 1);
    }
}

/// The start of the first line, at or after the line starting at `p`, that
/// starts with the key prefix.
///
/// A line ends before its `\n`; `str::lines` would also drop a `\r` just
/// before the `\n`, which changes neither which line starts with the prefix
/// nor, since the key is trimmed, the key read from it.
pub open spec fn find_key_line(s: Seq<char>, p: int) -> Option<int>
    decreases s.len() - p,
{
    if p < 0 || p > s.len() {
        None
    } else if starts_with(s.subrange(p, line_end(s, p)), key_prefix()) {
        Some(p)
    } else if line_end(s, p) >= s.len() {
        None
    } else {
        proof {
            lemma_line_end(s, p);
        }
        find_key_line(s, line_end(s, p) + 1)
    }
}

/// The public key recorded in the key file text `s`, if there is one.
pub open spec fn public_key_of(s: Seq<char>) -> Option<Seq<char>> {
    match find_key_line(s, 0) {
        Some(p) => Some(trim(remove_all(s.subrange(p, line_end(s, p)), key_prefix()))),
        None => None,
    }
}

/// Whether `c` is white space.
pub fn is_whitespace(c: char) -> (r: bool)
    ensures
        r == is_ws(c),
{
    c == ' ' || ('\t' <= c && c <= '\r') || c == '\u{85}' || c == '\u{a0}' || c == '\u{1680}' || (
    '\u{2000}' <= c && c <= '\u{200a}') || c == '\u{2028}' || c == '\u{2029}' || c == '\u{202f}'
        || c == '\u{205f}' || c == '\u{3000}'
}

fn key_prefix_chars() -> (r: Vec<char>)
    ensures
        r@ == key_prefix(),
{
    let mut r: Vec<char> = Vec::new();
    r.push('#');
    r.push(' ');
    r.push('p');
    r.push('u');
    r.push('b');
    r.push('l');
    r.push('i');
    r.push('c');
    r.push(' ');
    r.push('k');
    r.push('e');
    r.push('y');
    r.push(':');
    r.push(' ');
    assert(r@ =~= key_prefix());
    r
}

/// Where the line that starts at `p` ends.
fn scan_line_end(cs: &Vec<char>, p: usize) -> (e: usize)
    requires
        p <= cs@.len(),
    ensures
        e as int == line_end(cs@, p as int),
        p <= e <= cs@.len(),
{
    let n = cs.len();
    let mut q: usize = p;
    while q < n && cs[q] != '\n'
        invariant
            n == cs@.len(),
            p <= q <= n,
            line_end(cs@, p as int) == line_end(cs@, q as int),
        decreases n - q,
    {
        q = q + 1;
    }
    q
}

/// Whether `cs[i..hi]` starts with `pat`.
fn matches_at(cs: &Vec<char>, i: usize, hi: usize, pat: &Vec<char>) -> (r: bool)
    requires
        i <= hi <= cs@.len(),
    ensures
        r == starts_with(cs@.subrange(i as int, hi as int), pat@),
{
    let m = pat.len();
    if hi - i < m {
        return false;
    }
    let mut j: usize = 0;
    while j < m
        invariant
            m == pat@.len(),
            i + m <= hi <= cs@.len(),
            j <= m,
            forall|k: int| 0 <= k < j ==> cs@[i + k] == pat@[k],
        decreases m - j,
    {
        if cs[i + j] != pat[j] {
            assert(cs@.subrange(i as int, hi as int).subrange(0, m as int)[j as int] != pat@[j as int]);
            return false;
        }
        j = j + 1;
    }
    assert(cs@.subrange(i as int, hi as int).subrange(0, m as int) =~= pat@);
    true
}

/// The characters of `cs[lo..hi]` with every occurrence of `pat` removed.
fn remove_all_in(cs: &Vec<char>, lo: usize, hi: usize, pat: &Vec<char>) -> (r: Vec<char>)
    requires
        lo <= hi <= cs@.len(),
        pat@.len() > 0,
    ensures
        r@ == remove_all(cs@.subrange(lo as int, hi as int), pat@),
{
    let mut out: Vec<char> = Vec::new();
    let mut i: usize = lo;
    let m = pat.len();
    while i < hi
        invariant
            lo <= i <= hi <= cs@.len(),
            m == pat@.len(),
            m > 0,
            remove_all(cs@.subrange(lo as int, hi as int), pat@) == out@ + remove_all(
                cs@.subrange(i as int, hi as int),
                pat@,
            ),
        decreases hi - i,
    {
        let ghost rest = cs@.subrange(i as int, hi as int);
        if hi - i < m {
            let ghost start = i as int;
            let ghost before = out@;
            while i < hi
                invariant
                    0 <= start <= i <= hi <= cs@.len(),
                    out@ == before + cs@.subrange(start, i as int),
                decreases hi - i,
            {
                out.push(cs[i]);
                i = i + 1;
                assert(out@ =~= before + cs@.subrange(start, i as int));
            }
            assert(rest =~= cs@.subrange(start, hi as int));
            assert(remove_all(rest, pat@) == rest);
            assert(cs@.subrange(i as int, hi as int) =~= Seq::<char>::empty());
            assert(remove_all(Seq::<char>::empty(), pat@) == Seq::<char>::empty());
            assert(out@ + Seq::<char>::empty() =~= before + rest);
        } else if matches_at(cs, i, hi, pat) {
            assert(rest.skip(m as int) =~= cs@.subrange(i + m, hi as int));
            i = i + m;
        } else {
            assert(rest.drop_first() =~= cs@.subrange(i + 1, hi as int));
            let ghost before = out@;
            out.push(cs[i]);
            assert(out@ =~= before + seq![rest[0]]);
            i = i + 1;
        }
    }
    assert(cs@.subrange(i as int, hi as int) =~= Seq::<char>::empty());
    assert(out@ + Seq::<char>::empty() =~= out@);
    out
}

/// `v` without white space at either end.
fn trim_chars(v: &Vec<char>) -> (r: String)
    ensures
        r@ == trim(v@),
{
    let n = v.len();
    let mut a: usize = 0;
    assert(v@.subrange(0, n as int) =~= v@);
    while a < n && is_whitespace(v[a])
        invariant
            n == v@.len(),
            a <= n,
            trim_start(v@) == trim_start(v@.subrange(a as int, n as int)),
        decreases n - a,
    {
        assert(v@.subrange(a as int, n as int).drop_first() =~= v@.subrange(a + 1, n as int));
        a = a + 1;
    }
    let ghost u = v@.subrange(a as int, n as int);
    assert(trim_start(u) == u);
    let mut b: usize = n;
    while b > a && is_whitespace(v[b - 1])
        invariant
            n == v@.len(),
            a <= b <= n,
            trim_end(u) == trim_end(v@.subrange(a as int, b as int)),
        decreases b - a,
    {
        assert(v@.subrange(a as int, b as int).drop_last() =~= v@.subrange(a as int, b - 1));
        b = b - 1;
    }
    assert(trim_end(v@.subrange(a as int, b as int)) == v@.subrange(a as int, b as int));
    string_of(v, a, b)
}

/// The public key recorded in the text of an age key file, if there is one.
pub fn extract_public_key(content: &str) -> (r: Option<String>)
    ensures
        match r {
            Some(k) => public_key_of(content@) == Some(k@),
            None => public_key_of(content@) is None,
        },
{
    let cs = chars_of(content);
    let pre = key_prefix_chars();
    let n = cs.len();
    let mut p: usize = 0;
    loop
        invariant
            n == cs@.len(),
            cs@ == content@,
            pre@ == key_prefix(),
            p <= n,
            find_key_line(cs@, 0) == find_key_line(cs@, p as int),
        decreases n - p,
    {
        let e = scan_line_end(&cs, p);
        if matches_at(&cs, p, e, &pre) {
            let stripped = remove_all_in(&cs, p, e, &pre);
            let key = trim_chars(&stripped);
            return Some(key);
        }
        if e >= n {
            return None;
        }
        p = e + 1;
    }
}

/// White space at the ends of a trimmed text is gone.
proof fn lemma_trim_start(t: Seq<char>)
    ensures
        trim_start(t).len() == 0 || !is_ws(trim_start(t)[0]),
        exists|a: int| 0 <= a <= t.len() && trim_start(t) == t.subrange(a, t.len() as int),
    decreases t.len(),
{
    if t.len() > 0 && is_ws(t[0]) {
        lemma_trim_start(t.drop_first());
        let a = choose|a: int|
            0 <= a <= t.drop_first().len() && trim_start(t.drop_first()) == t.drop_first().subrange(
                a,
                t.drop_first().len() as int,
            );
        assert(t.drop_first().subrange(a, t.drop_first().len() as int) =~= t.subrange(
            a + 1,
            t.len() as int,
        ));
    } else {
        assert(t.subrange(0, t.len() as int) =~= t);
    }
}

proof fn lemma_trim_end(t: Seq<char>)
    ensures
        trim_end(t).len() == 0 || !is_ws(trim_end(t).last()),
        trim_end(t).len() > 0 ==> trim_end(t)[0] == t[0],
    decreases t.len(),
{
    if t.len() > 0 && is_ws(t.last()) {
        lemma_trim_end(t.drop_last());
    }
}

/// A public key read from a key file has no white space at either end.
pub proof fn law_public_key_is_trimmed(s: Seq<char>)
    ensures
        public_key_of(s) matches Some(k) ==> k.len() == 0 || (!is_ws(k[0]) && !is_ws(k.last())),
{
    if let Some(p) = find_key_line(s, 0) {
        let t = remove_all(s.subrange(p, line_end(s, p)), key_prefix());
        lemma_trim_start(t);
        lemma_trim_end(trim_start(t));
    }
}


proof fn lemma_line_end_at(s: Seq<char>, p: int, q: int)
    requires
        0 <= p <= q <= s.len(),
        forall|i: int| p <= i < q ==> s[i] != '\n',
        q == s.len() || s[q] == '\n',
    ensures
        line_end(s, p) == q,
    decreases q - p,
{
    if p < q {
        lemma_line_end_at(s, p + 1, q);
    }
}

proof fn lemma_remove_all_leading(pat: Seq<char>, u: Seq<char>)
    requires
        pat.len() > 0,
    ensures
        remove_all(pat + u, pat) == remove_all(u, pat),
{
    let t = pat + u;
    assert(t.subrange(0, pat.len() as int) =~= pat);
    assert(t.skip(pat.len() as int) =~= u);
}

proof fn lemma_remove_all_absent(k: Seq<char>, pat: Seq<char>)
    requires
        pat.len() > 0,
        forall|i: int| 0 <= i <= k.len() ==> !starts_with(#[trigger] k.subrange(i, k.len() as int), pat),
    ensures
        remove_all(k, pat) == k,
    decreases k.len(),
{
    if k.len() >= pat.len() {
        assert(k.subrange(0, k.len() as int) =~= k);
        let d = k.drop_first();
        assert forall|i: int| 0 <= i <= d.len() implies !starts_with(
            #[trigger] d.subrange(i, d.len() as int),
            pat,
        ) by {
            assert(d.subrange(i, d.len() as int) =~= k.subrange(i + 1, k.len() as int));
        }
        lemma_remove_all_absent(d, pat);
        assert(seq![k[0]] + d =~= k);
    }
}

/// A key made of characters that are not white space is read back whole,
/// with nothing cut or added, from a key file whose first line is
/// `# public key: ` followed by that key, whatever follows on the next
/// lines.
pub proof fn law_key_line_gives_whole_key(key: Seq<char>, rest: Seq<char>)
    requires
        forall|i: int| 0 <= i < key.len() ==> !is_ws(#[trigger] key[i]),
        forall|i: int| 0 <= i <= key.len() ==> !starts_with(
            #[trigger] key.subrange(i, key.len() as int),
            key_prefix(),
        ),
        rest.len() == 0 || rest[0] == '\n',
    ensures
        public_key_of(key_prefix() + key + rest) == Some(key),
{
    let pre = key_prefix();
    let s = pre + key + rest;
    let n: int = (pre.len() + key.len()) as int;
    assert forall|i: int| 0 <= i < n implies s[i] != '\n' by {
        if i >= pre.len() {
            assert(s[i] == key[i - pre.len()]);
            assert(!is_ws(key[i - pre.len()]));
        } else {
            assert(s[i] == pre[i]);
        }
    }
    lemma_line_end_at(s, 0, n);
    let line = s.subrange(0, n);
    assert(line =~= pre + key);
    assert(line.subrange(0, pre.len() as int) =~= pre);
    assert(find_key_line(s, 0) == Some(0int));
    lemma_remove_all_leading(pre, key);
    lemma_remove_all_absent(key, pre);
    if key.len() > 0 {
        assert(!is_ws(key[0]));
        assert(!is_ws(key.last()));
    }
    assert(trim_start(key) == key);
    assert(trim_end(key) == key);
}

proof fn lemma_line_end_shift(u: Seq<char>, t: Seq<char>, q: int)
    requires
        0 <= q <= t.len(),
    ensures
        line_end(u + t, u.len() + q) == u.len() + line_end(t, q),
    decreases t.len() - q,
{
    let s = u + t;
    if q < t.len() {
        assert(s[u.len() + q] == t[q]);
        if t[q] != '\n' {
            lemma_line_end_shift(u, t, q + 1);
        }
    }
}

proof fn lemma_find_bounds(t: Seq<char>, q: int)
    ensures
        find_key_line(t, q) matches Some(x) ==> 0 <= q <= x <= t.len(),
    decreases t.len() - q,
{
    if 0 <= q <= t.len() && !starts_with(t.subrange(q, line_end(t, q)), key_prefix())
        && line_end(t, q) < t.len() {
        lemma_line_end(t, q);
        lemma_find_bounds(t, line_end(t, q) + 1);
    }
}

proof fn lemma_find_shift(u: Seq<char>, t: Seq<char>, q: int)
    requires
        0 <= q <= t.len(),
    ensures
        find_key_line(u + t, u.len() + q) == match find_key_line(t, q) {
            Some(x) => Some(x + u.len()),
            None => None::<int>,
        },
    decreases t.len() - q,
{
    let s = u + t;
    let d = u.len() as int;
    lemma_line_end_shift(u, t, q);
    lemma_line_end(t, q);
    assert(s.subrange(d + q, line_end(s, d + q)) =~= t.subrange(q, line_end(t, q)));
    if !starts_with(t.subrange(q, line_end(t, q)), key_prefix()) && line_end(t, q) < t.len() {
        lemma_find_shift(u, t, line_end(t, q) + 1);
    }
}

/// A first line that does not start with `# public key: ` is passed over: the
/// key read from a key file is the one read from its text after that line.
pub proof fn law_other_line_is_skipped(line: Seq<char>, after: Seq<char>)
    requires
        forall|i: int| 0 <= i < line.len() ==> #[trigger] line[i] != '\n',
        !starts_with(line, key_prefix()),
    ensures
        public_key_of(line + seq!['\n'] + after) == public_key_of(after),
{
    let u = line + seq!['\n'];
    let s = u + after;
    assert(line + seq!['\n'] + after == s);
    assert forall|i: int| 0 <= i < line.len() implies s[i] != '\n' by {
        assert(s[i] == line[i]);
    }
    assert(s[line.len() as int] == '\n');
    lemma_line_end_at(s, 0, line.len() as int);
    assert(s.subrange(0, line.len() as int) =~= line);
    lemma_find_shift(u, after, 0);
    assert(u.len() + 0 == line.len() + 1);
    match find_key_line(after, 0) {
        Some(x) => {
            lemma_find_bounds(after, 0);
            lemma_line_end(after, x);
            lemma_line_end_shift(u, after, x);
            assert(s.subrange(x + u.len(), line_end(s, x + u.len())) =~= after.subrange(
                x,
                line_end(after, x),
            ));
        },
        None => {},
    }
}

} // verus!
