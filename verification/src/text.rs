//! Character-level text helpers for the line-oriented room file
//! format: whitespace trimming, splitting on a separator, string
//! equality, and decimal rendering of counts.

use vstd::prelude::*;
use vstd::string::*;

verus! {

/// A whitespace character, as the room-file format understands it.
pub open spec fn is_space(c: char) -> bool {
    c == ' ' || c == '\t' || c == '\r' || c == '\n'
}

/// Exec test for [`is_space`].
pub fn is_space_char(c: char) -> (r: bool)
    ensures
        r == is_space(c),
{
    c == ' ' || c == '\t' || c == '\r' || c == '\n'
}

/// The sequence with leading whitespace removed.
pub open spec fn trim_front(s: Seq<char>) -> Seq<char>
    decreases s.len(),
{
    if s.len() > 0 && is_space(s[0]) {
        trim_front(s.drop_first())
    } else {
        s
    }
}

/// The sequence with trailing whitespace removed.
pub open spec fn trim_back(s: Seq<char>) -> Seq<char>
    decreases s.len(),
{
    if s.len() > 0 && is_space(s.last()) {
        trim_back(s.drop_last())
    } else {
        s
    }
}

/// The sequence with surrounding whitespace removed.
pub open spec fn trimmed(s: Seq<char>) -> Seq<char> {
    trim_back(trim_front(s))
}

proof fn lemma_trim_front_at(s: Seq<char>, a: int)
    requires
        0 <= a <= s.len(),
        forall|j: int| 0 <= j < a ==> is_space(#[trigger] s[j]),
        a == s.len() || !is_space(s[a]),
    ensures
        trim_front(s) == s.subrange(a, s.len() as int),
    decreases a,
{
    if a == 0 {
        assert(s.subrange(0, s.len() as int) =~= s);
    } else {
        let t = s.drop_first();
        assert(forall|j: int| 0 <= j < a - 1 ==> is_space(#[trigger] t[j]));
        lemma_trim_front_at(t, a - 1);
        assert(t.subrange(a - 1, t.len() as int) =~= s.subrange(a, s.len() as int));
    }
}

proof fn lemma_trim_back_at(s: Seq<char>, b: int)
    requires
        0 <= b <= s.len(),
        forall|j: int| b <= j < s.len() ==> is_space(#[trigger] s[j]),
        b == 0 || !is_space(s[b - 1]),
    ensures
        trim_back(s) == s.subrange(0, b),
    decreases s.len() - b,
{
    if b == s.len() {
        assert(s.subrange(0, b) =~= s);
    } else {
        let t = s.drop_last();
        assert(forall|j: int| b <= j < t.len() ==> is_space(#[trigger] t[j]));
        lemma_trim_back_at(t, b);
        assert(t.subrange(0, b) =~= s.subrange(0, b));
    }
}

/// Remove surrounding whitespace from a string slice.
pub fn trim_str(s: &str) -> (r: &str)
    ensures
        r@ == trimmed(s@),
{
    let n = s.unicode_len();
    let mut a: usize = 0;
    while a < n && is_space_char(s.get_char(a))
        invariant
            a <= n,
            n == s@.len(),
            forall|j: int| 0 <= j < a ==> is_space(#[trigger] s@[j]),
        decreases n - a,
    {
        a = a + 1;
    }
    let mut b: usize = n;
    while b > a && is_space_char(s.get_char(b - 1))
        invariant
            a <= b <= n,
            n == s@.len(),
            forall|j: int| b <= j < n ==> is_space(#[trigger] s@[j]),
        decreases b,
    {
        b = b - 1;
    }
    proof {
        lemma_trim_front_at(s@, a as int);
        let t = s@.subrange(a as int, n as int);
        assert(forall|j: int| b - a <= j < t.len() ==> is_space(#[trigger] t[j]));
        lemma_trim_back_at(t, b - a);
        assert(t.subrange(0, b - a) =~= s@.subrange(a as int, b as int));
    }
    s.substring_char(a, b)
}

/// The pieces of `s` delimited by `sep`, in order. There is always at
/// least one piece; a separator at either end or two in a row yield
/// empty pieces, as `str::split` does.
pub open spec fn split_on(s: Seq<char>, sep: char) -> Seq<Seq<char>>
    decreases s.len(),
{
    if s.len() == 0 {
        seq![Seq::<char>::empty()]
    } else if s[0] == sep {
        seq![Seq::<char>::empty()] + split_on(s.drop_first(), sep)
    } else {
        let rest = split_on(s.drop_first(), sep);
        seq![seq![s[0]] + rest[0]] + rest.drop_first()
    }
}

pub proof fn lemma_split_len(s: Seq<char>, sep: char)
    ensures
        split_on(s, sep).len() >= 1,
    decreases s.len(),
{
    if s.len() > 0 {
        lemma_split_len(s.drop_first(), sep);
    }
}

proof fn lemma_split_single(u: Seq<char>, sep: char)
    requires
        forall|j: int| 0 <= j < u.len() ==> u[j] != sep,
    ensures
        split_on(u, sep) == seq![u],
    decreases u.len(),
{
    if u.len() == 0 {
        assert(split_on(u, sep) =~~= seq![u]);
    } else {
        let t = u.drop_first();
        lemma_split_single(t, sep);
        assert(seq![u[0]] + t =~= u);
        assert(split_on(u, sep) =~~= seq![u]);
    }
}

proof fn lemma_split_first_field(u: Seq<char>, v: Seq<char>, sep: char)
    requires
        forall|j: int| 0 <= j < u.len() ==> u[j] != sep,
    ensures
        split_on(u + seq![sep] + v, sep) == seq![u] + split_on(v, sep),
    decreases u.len(),
{
    let s = u + seq![sep] + v;
    if u.len() == 0 {
        assert(s[0] == sep);
        assert(s.drop_first() =~= v);
        assert(split_on(s, sep) =~~= seq![u] + split_on(v, sep));
    } else {
        let t = u.drop_first();
        lemma_split_first_field(t, v, sep);
        assert(s.drop_first() =~= t + seq![sep] + v);
        lemma_split_len(v, sep);
        assert(seq![s[0]] + (seq![t] + split_on(v, sep))[0] =~= u);
        assert((seq![t] + split_on(v, sep)).drop_first() =~= split_on(v, sep));
        assert(split_on(s, sep) =~~= seq![u] + split_on(v, sep));
    }
}

/// Split a string slice on a separator character, as `str::split`
/// does.
pub fn split_str(s: &str, sep: char) -> (r: Vec<String>)
    ensures
        r.deep_view() == split_on(s@, sep),
{
    let n = s.unicode_len();
    let mut r: Vec<String> = Vec::new();
    let mut start: usize = 0;
    let mut i: usize = 0;
    proof {
        assert(s@.subrange(0, n as int) =~= s@);
        assert(r.deep_view() + split_on(s@, sep) =~~= split_on(s@, sep));
    }
    while i < n
        invariant
            start <= i <= n,
            n == s@.len(),
            forall|j: int| start <= j < i ==> s@[j] != sep,
            split_on(s@, sep) == r.deep_view() + split_on(
                s@.subrange(start as int, n as int),
                sep,
            ),
        decreases n - i,
    {
        if s.get_char(i) == sep {
            let field = s.substring_char(start, i);
            let ghost old_r = r.deep_view();
            r.push(field.to_owned());
            proof {
                let u = s@.subrange(start as int, i as int);
                let v = s@.subrange(i + 1, n as int);
                assert(s@.subrange(start as int, n as int) =~= u + seq![sep] + v);
                lemma_split_first_field(u, v, sep);
                assert(r.deep_view() =~~= old_r + seq![u]);
                assert(split_on(s@, sep) =~~= r.deep_view() + split_on(v, sep));
            }
            start = i + 1;
        }
        i = i + 1;
    }
    let last = s.substring_char(start, n);
    let ghost old_r = r.deep_view();
    r.push(last.to_owned());
    proof {
        let u = s@.subrange(start as int, n as int);
        lemma_split_single(u, sep);
        assert(r.deep_view() =~~= old_r + seq![u]);
        assert(r.deep_view() =~~= split_on(s@, sep));
    }
    r
}

/// The `;`-separated fields of a line, each trimmed of surrounding
/// whitespace, after the line itself is trimmed.
pub open spec fn fields_of(line: Seq<char>) -> Seq<Seq<char>> {
    split_on(trimmed(line), ';').map_values(|f: Seq<char>| trimmed(f))
}

/// A line contributes nothing to the room file: it is blank, or its
/// first non-whitespace character is `#`.
pub open spec fn skippable(line: Seq<char>) -> bool {
    trimmed(line).len() == 0 || trimmed(line)[0] == '#'
}

/// Exec test for [`skippable`].
pub fn is_skippable(line: &str) -> (r: bool)
    ensures
        r == skippable(line@),
{
    let t = trim_str(line);
    if t.unicode_len() == 0 {
        true
    } else {
        t.get_char(0) == '#'
    }
}

/// The trimmed fields of a line, per [`fields_of`].
pub fn line_fields(line: &str) -> (r: Vec<String>)
    ensures
        r.deep_view() == fields_of(line@),
        r.len() >= 1,
{
    let t = trim_str(line);
    let raw = split_str(t, ';');
    proof {
        lemma_split_len(t@, ';');
    }
    let mut out: Vec<String> = Vec::new();
    let mut i: usize = 0;
    while i < raw.len()
        invariant
            i <= raw.len(),
            raw.deep_view() == split_on(trimmed(line@), ';'),
            out.len() == i,
            forall|j: int|
                0 <= j < i ==> out.deep_view()[j] == trimmed(#[trigger] raw.deep_view()[j]),
        decreases raw.len() - i,
    {
        let f = trim_str(raw[i].as_str());
        out.push(f.to_owned());
        i = i + 1;
    }
    proof {
        assert(out.deep_view() =~~= fields_of(line@));
    }
    out
}

/// The character for one decimal digit.
pub open spec fn digit_char(d: nat) -> char {
    if d == 0 {
        '0'
    } else if d == 1 {
        '1'
    } else if d == 2 {
        '2'
    } else if d == 3 {
        '3'
    } else if d == 4 {
        '4'
    } else if d == 5 {
        '5'
    } else if d == 6 {
        '6'
    } else if d == 7 {
        '7'
    } else if d == 8 {
        '8'
    } else {
        '9'
    }
}

/// The decimal rendering of a number, most significant digit first.
pub open spec fn dec_rep(n: nat) -> Seq<char>
    decreases n,
{
    if n < 10 {
        seq![digit_char(n)]
    } else {
        dec_rep(n / 10).push(digit_char(n % 10))
    }
}

/// Render a number in decimal.
pub fn usize_string(n: usize) -> (s: String)
    ensures
        s@ == dec_rep(n as nat),
    decreases n,
{
    let digits = "0123456789";
    proof {
        reveal_strlit("0123456789");
    }
    let d = n % 10;
    let dc = digits.substring_char(d, d + 1);
    proof {
        assert(dc@ =~= seq![digit_char((n % 10) as nat)]);
    }
    if n < 10 {
        dc.to_owned()
    } else {
        let mut s = usize_string(n / 10);
        s.append(dc);
        s
    }
}

/// Character-for-character equality of two string slices.
pub fn str_eq(a: &str, b: &str) -> (r: bool)
    ensures
        r == (a@ == b@),
{
    let n = a.unicode_len();
    if n != b.unicode_len() {
        return false;
    }
    let mut i: usize = 0;
    while i < n
        invariant
            i <= n,
            n == a@.len(),
            n == b@.len(),
            forall|j: int| 0 <= j < i ==> a@[j] == b@[j],
        decreases n - i,
    {
        if a.get_char(i) != b.get_char(i) {
            return false;
        }
        i = i + 1;
    }
    proof {
        assert(a@ =~= b@);
    }
    true
}

} // verus!
