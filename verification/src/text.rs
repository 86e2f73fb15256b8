//! Character-level string operations, stated over `Seq<char>` views.
//!
//! The few operations whose meaning is a Unicode table (letters and digits,
//! white space, lower case) are taken from std through trusted wrappers: on
//! ASCII their contracts say exactly what std documents, and beyond ASCII the
//! answer is named by an uninterpreted spec function. Everything else is
//! verified here.
use vstd::prelude::*;

verus! {

// ───────────────────────── names for Unicode tables ─────────────────────────

/// What `char::is_alphanumeric` answers for `c`: whether it has the Unicode
/// `Alphabetic` or `Numeric` property.
pub uninterp spec fn alphanumeric(c: char) -> bool;

/// What `char::is_whitespace` answers for `c`: whether it has the Unicode
/// `White_Space` property.
pub uninterp spec fn white_space(c: char) -> bool;

/// What `str::to_lowercase` returns for a string with the characters `s`.
pub uninterp spec fn lowercase(s: Seq<char>) -> Seq<char>;

// ─────────────────────────── ASCII characters ──────────────────────────────

/// `c` is an ASCII character (code point below 128).
pub open spec fn is_ascii_char(c: char) -> bool {
    (c as int) < 128
}

/// Every character of `s` is ASCII.
pub open spec fn all_ascii(s: Seq<char>) -> bool {
    forall|i: int| 0 <= i < s.len() ==> is_ascii_char(#[trigger] s[i])
}

/// An ASCII letter ('A'..='Z', 'a'..='z') or digit ('0'..='9').
pub open spec fn ascii_alnum(c: char) -> bool {
    let k = c as int;
    (48 <= k <= 57) || (65 <= k <= 90) || (97 <= k <= 122)
}

/// An ASCII white-space character: tab, line feed, vertical tab, form feed,
/// carriage return or space.
pub open spec fn ascii_space(c: char) -> bool {
    let k = c as int;
    (9 <= k <= 13) || k == 32
}

/// 'A'..='Z' mapped to 'a'..='z'; every other character unchanged.
pub open spec fn ascii_lower(c: char) -> char {
    if 65 <= (c as int) <= 90 {
        ((c as int) + 32) as char
    } else {
        c
    }
}

/// `s` with each ASCII capital letter made small.
pub open spec fn ascii_lower_seq(s: Seq<char>) -> Seq<char> {
    s.map_values(|c: char| ascii_lower(c))
}

/// `char::is_alphanumeric`: the ASCII letters and digits, and beyond ASCII
/// what the Unicode tables say.
pub open spec fn letter_or_digit(c: char) -> bool {
    if is_ascii_char(c) {
        ascii_alnum(c)
    } else {
        alphanumeric(c)
    }
}

/// `char::is_whitespace`: the ASCII white space, and beyond ASCII what the
/// Unicode tables say.
pub open spec fn space_char(c: char) -> bool {
    if is_ascii_char(c) {
        ascii_space(c)
    } else {
        white_space(c)
    }
}

/// `str::to_lowercase`: for ASCII text, each capital letter made small; for
/// other text, what the Unicode tables say.
pub open spec fn lowered(s: Seq<char>) -> Seq<char> {
    if all_ascii(s) {
        ascii_lower_seq(s)
    } else {
        lowercase(s)
    }
}

/// Lower-casing an ASCII character makes each capital letter 'A'..='Z' the
/// small letter 26 places on ('a'..='z') and leaves every other character
/// as it is; the letters and digits are '0'..='9', 'A'..='Z' and 'a'..='z'.
pub proof fn ascii_case_and_classes(c: char)
    ensures
        (65 <= (c as int) <= 90) ==> (ascii_lower(c) as int) == (c as int) + 32,
        !(65 <= (c as int) <= 90) ==> ascii_lower(c) == c,
        ascii_alnum(c) <==> ('0' <= c <= '9' || 'A' <= c <= 'Z' || 'a' <= c <= 'z'),
        ascii_space(c) <==> (c == ' ' || c == '\t' || c == '\n' || c == '\r' || c == '\x0b' || c == '\x0c'),
{
}

/// Trusted: calls `char::is_alphanumeric`. The contract claims that the
/// answer is the one the Unicode tables give for `c` (named `alphanumeric`),
/// and, as std documents for ASCII, that an ASCII character is alphanumeric
/// exactly when it is a letter 'A'..='Z' or 'a'..='z' or a digit '0'..='9'.
#[verifier::external_body]
pub(crate) fn is_alphanumeric(c: char) -> (r: bool)
    ensures
        r == alphanumeric(c),
        is_ascii_char(c) ==> r == ascii_alnum(c),
{
    c.is_alphanumeric()
}

/// Trusted: calls `char::is_whitespace`. The contract claims that the answer
/// is the one the Unicode tables give for `c` (named `white_space`), and, as
/// std documents for ASCII, that the ASCII white space is tab, line feed,
/// vertical tab, form feed, carriage return and space.
#[verifier::external_body]
pub(crate) fn is_whitespace(c: char) -> (r: bool)
    ensures
        r == white_space(c),
        is_ascii_char(c) ==> r == ascii_space(c),
{
    c.is_whitespace()
}

/// Trusted: calls `str::to_lowercase`. The contract claims that the result is
/// a function of the characters of `s` alone (named `lowercase`), and, as std
/// documents for ASCII, that ASCII text is lower-cased character by character,
/// 'A'..='Z' becoming 'a'..='z' and everything else staying as it is. Nothing
/// is said about which characters the Unicode tables produce beyond ASCII.
#[verifier::external_body]
pub(crate) fn to_lowercase(s: &str) -> (r: String)
    ensures
        r@ == lowercase(s@),
        all_ascii(s@) ==> r@ == ascii_lower_seq(s@),
{
    s.to_lowercase()
}

/// Trusted: calls `String::push`, which appends one character.
#[verifier::external_body]
pub(crate) fn push_char(s: &mut String, c: char)
    ensures
        final(s)@ == old(s)@.push(c),
{
    s.push(c)
}

// ───────────────────────────── specifications ──────────────────────────────

/// The characters of each string of `v`.
pub open spec fn strs(v: Seq<String>) -> Seq<Seq<char>> {
    v.map_values(|s: String| s@)
}

/// `Option<String>` seen through the characters it holds.
pub open spec fn opt_chars(o: Option<String>) -> Option<Seq<char>> {
    match o {
        Some(s) => Some(s@),
        None => None,
    }
}

pub open spec fn starts_with(s: Seq<char>, p: Seq<char>) -> bool {
    p.len() <= s.len() && s.subrange(0, p.len() as int) == p
}

pub open spec fn ends_with(s: Seq<char>, p: Seq<char>) -> bool {
    p.len() <= s.len() && s.subrange(s.len() - p.len(), s.len() as int) == p
}

pub open spec fn occurs_at(s: Seq<char>, p: Seq<char>, i: int) -> bool {
    0 <= i && i + p.len() <= s.len() && s.subrange(i, i + p.len()) == p
}

/// `p` occurs somewhere in `s` (the empty pattern occurs everywhere).
pub open spec fn contains(s: Seq<char>, p: Seq<char>) -> bool {
    exists|i: int| #[trigger] occurs_at(s, p, i)
}

/// `s` with every leading copy of `p` removed (`str::trim_start_matches`).
pub open spec fn strip_prefixes(s: Seq<char>, p: Seq<char>) -> Seq<char>
    decreases s.len(),
{
    if p.len() > 0 && starts_with(s, p) {
        strip_prefixes(s.skip(p.len() as int), p)
    } else {
        s
    }
}

/// `s` with each occurrence of the character `c` replaced by `w`
/// (`str::replace` with a character pattern).
pub open spec fn replace_char(s: Seq<char>, c: char, w: Seq<char>) -> Seq<char>
    decreases s.len(),
{
    if s.len() == 0 {
        Seq::empty()
    } else {
        replace_char(s.drop_last(), c, w) + (if s.last() == c {
            w
        } else {
            seq![s.last()]
        })
    }
}

/// Replacing a character works piece by piece: the replacement of `a + b`
/// is that of `a` followed by that of `b`.
pub proof fn replace_char_splits(a: Seq<char>, b: Seq<char>, c: char, w: Seq<char>)
    ensures
        replace_char(a + b, c, w) == replace_char(a, c, w) + replace_char(b, c, w),
    decreases b.len(),
{
    if b.len() == 0 {
        assert(a + b =~= a);
        assert(replace_char(a, c, w) + replace_char(b, c, w) =~= replace_char(a, c, w));
    } else {
        replace_char_splits(a, b.drop_last(), c, w);
        assert((a + b).drop_last() =~= a + b.drop_last());
        assert((a + b).last() == b.last());
        assert(replace_char(a + b, c, w) =~= replace_char(a, c, w) + replace_char(b, c, w));
    }
}

/// `s` without its leading white space.
pub open spec fn trim_start_ws(s: Seq<char>) -> Seq<char>
    decreases s.len(),
{
    if s.len() > 0 && space_char(s[0]) {
        trim_start_ws(s.drop_first())
    } else {
        s
    }
}

/// `s` without its trailing white space.
pub open spec fn trim_end_ws(s: Seq<char>) -> Seq<char>
    decreases s.len(),
{
    if s.len() > 0 && space_char(s.last()) {
        trim_end_ws(s.drop_last())
    } else {
        s
    }
}

/// `str::trim`: leading and trailing white space removed.
pub open spec fn trimmed(s: Seq<char>) -> Seq<char> {
    trim_end_ws(trim_start_ws(s))
}

pub open spec fn digit_char(d: nat) -> char {
    if d == 0 {
        '0'
    } else if d == 1 {
        '1'
    } else if d == 2 {
        '2'
    } else if d == 3 {
        '3'
    } else if d == 4 {
        '4'
    } else if d == 5 {
        '5'
    } else if d == 6 {
        '6'
    } else if d == 7 {
        '7'
    } else if d == 8 {
        '8'
    } else {
        '9'
    }
}

/// The decimal rendering of `n`, as `format!("{}", n)` writes it.
pub open spec fn decimal(n: nat) -> Seq<char>
    decreases n,
{
    if n < 10 {
        seq![digit_char(n)]
    } else {
        decimal(n / 10) + seq![digit_char(n % 10)]
    }
}

/// `s` padded on the right with spaces to at least `width` characters, as
/// `format!("{:<width$}", s)` writes it.
pub open spec fn pad_right(s: Seq<char>, width: nat) -> Seq<char> {
    if s.len() < width {
        s + Seq::new((width - s.len()) as nat, |i: int| ' ')
    } else {
        s
    }
}

/// The strings of `v` joined with `sep` between them (`[String]::join`).
pub open spec fn join(v: Seq<Seq<char>>, sep: Seq<char>) -> Seq<char>
    decreases v.len(),
{
    if v.len() == 0 {
        Seq::empty()
    } else if v.len() == 1 {
        v[0]
    } else {
        join(v.drop_last(), sep) + sep + v.last()
    }
}

/// The concatenation of a sequence of sequences, in order.
pub open spec fn concat<A>(v: Seq<Seq<A>>) -> Seq<A>
    decreases v.len(),
{
    if v.len() == 0 {
        Seq::empty()
    } else {
        concat(v.drop_last()) + v.last()
    }
}

/// Where the `k`-th piece of `s` starts in `concat(s)`: the piece is found
/// there whole.
pub proof fn concat_offset<A>(s: Seq<Seq<A>>, k: int) -> (off: int)
    requires
        0 <= k < s.len(),
    ensures
        0 <= off,
        off + s[k].len() <= concat(s).len(),
        forall|j: int| 0 <= j < s[k].len() ==> concat(s)[off + j] == s[k][j],
    decreases s.len(),
{
    if k == s.len() - 1 {
        concat(s.drop_last()).len() as int
    } else {
        let off = concat_offset(s.drop_last(), k);
        assert(s.drop_last()[k] == s[k]);
        off
    }
}

/// The first piece of `s` starts `concat(s)`.
pub proof fn concat_starts_with_first<A>(s: Seq<Seq<A>>)
    requires
        s.len() > 0,
    ensures
        s[0].len() <= concat(s).len(),
        forall|j: int| 0 <= j < s[0].len() ==> #[trigger] concat(s)[j] == s[0][j],
    decreases s.len(),
{
    if s.len() > 1 {
        concat_starts_with_first(s.drop_last());
        assert(s.drop_last()[0] == s[0]);
    } else {
        assert(concat(s.drop_last()) =~= Seq::<A>::empty());
    }
}

/// Where the `k`-th piece of `s` stands in `pre + concat(s) + post`: the
/// piece is found there whole.
pub proof fn concat_piece_at<A>(pre: Seq<A>, s: Seq<Seq<A>>, post: Seq<A>, k: int) -> (at: int)
    requires
        0 <= k < s.len(),
    ensures
        pre.len() <= at,
        at + s[k].len() <= pre.len() + concat(s).len(),
        (pre + concat(s) + post).subrange(at, at + s[k].len()) == s[k],
{
    let off = concat_offset(s, k);
    let w = pre + concat(s) + post;
    let at = pre.len() + off;
    assert forall|j: int| 0 <= j < s[k].len() implies #[trigger] w.subrange(at, at + s[k].len())[j]
        == s[k][j] by {
        assert(w[at + j] == concat(s)[off + j]);
    }
    assert(w.subrange(at, at + s[k].len()) =~= s[k]);
    at
}

// ─────────────────────────────── laws ──────────────────────────────────────

/// Replacing a character: that character becomes the replacement text and
/// every other character stays as it is.
pub proof fn replace_char_one(x: char, c: char, w: Seq<char>)
    ensures
        replace_char(seq![x], c, w) == (if x == c {
            w
        } else {
            seq![x]
        }),
        replace_char(Seq::empty(), c, w) == Seq::<char>::empty(),
{
    assert(seq![x].drop_last() =~= Seq::<char>::empty());
    assert(replace_char(Seq::<char>::empty(), c, w) =~= Seq::<char>::empty());
    assert(Seq::<char>::empty() + w =~= w);
    assert(Seq::<char>::empty() + seq![x] =~= seq![x]);
}

/// Removing every leading copy of a nonempty pattern leaves the end of the
/// text, removes a whole number of copies, and what is left no longer starts
/// with the pattern; text that does not start with it is left as it is.
pub proof fn strip_prefixes_removes_leading_copies(s: Seq<char>, p: Seq<char>)
    requires
        p.len() > 0,
    ensures
        ({
            let r = strip_prefixes(s, p);
            &&& !starts_with(r, p)
            &&& r.len() <= s.len()
            &&& s.skip(s.len() - r.len()) == r
            &&& (s.len() - r.len()) % (p.len() as int) == 0
            &&& forall|i: int|
                0 <= i < s.len() - r.len() ==> #[trigger] s[i] == p[i % (p.len() as int)]
            &&& !starts_with(s, p) ==> r == s
        }),
    decreases s.len(),
{
    let r = strip_prefixes(s, p);
    let m = p.len() as int;
    if starts_with(s, p) {
        let t = s.skip(m);
        strip_prefixes_removes_leading_copies(t, p);
        assert(r == strip_prefixes(t, p));
        assert(s.skip(s.len() - r.len()) =~= t.skip(t.len() - r.len()));
        assert((s.len() - r.len()) == (t.len() - r.len()) + m);
        assert(((t.len() - r.len()) + m) % m == (t.len() - r.len()) % m) by (nonlinear_arith)
            requires
                m > 0,
                t.len() - r.len() >= 0,
        ;
        assert forall|i: int| 0 <= i < s.len() - r.len() implies #[trigger] s[i] == p[i % m] by {
            if i < m {
                assert(s.subrange(0, m)[i] == s[i]);
                assert(i % m == i) by (nonlinear_arith)
                    requires
                        0 <= i < m,
                ;
            } else {
                assert(t[i - m] == s[i]);
                assert(t[i - m] == p[(i - m) % m]);
                assert((i - m) % m == i % m) by (nonlinear_arith)
                    requires
                        m > 0,
                        i >= m,
                ;
            }
        }
    } else {
        assert(s.skip(0) =~= s);
    }
}

/// The value of a string of decimal digits.
pub open spec fn digits_value(s: Seq<char>) -> int
    decreases s.len(),
{
    if s.len() == 0 {
        0
    } else {
        digits_value(s.drop_last()) * 10 + ((s.last() as int) - 48)
    }
}

/// A number is written with the digits '0'..='9' only, without a leading
/// zero (unless it is zero itself), and the digits read back as the number.
pub proof fn decimal_reads_back(n: nat)
    ensures
        decimal(n).len() > 0,
        forall|i: int| 0 <= i < decimal(n).len() ==> '0' <= #[trigger] decimal(n)[i] <= '9',
        digits_value(decimal(n)) == n,
        n > 0 ==> decimal(n)[0] != '0',
    decreases n,
{
    lemma_digit_char_value((n % 10) as nat);
    if n < 10 {
        assert(decimal(n).drop_last() =~= Seq::<char>::empty());
        assert(n % 10 == n);
        assert(digits_value(Seq::<char>::empty()) == 0);
        assert(digits_value(decimal(n)) == digits_value(decimal(n).drop_last()) * 10 + ((decimal(n).last() as int) - 48));
    } else {
        decimal_reads_back(n / 10);
        assert(n == (n / 10) * 10 + n % 10);
        let d = decimal(n);
        assert(d.drop_last() =~= decimal(n / 10));
        assert(d.last() == digit_char((n % 10) as nat));
        assert(digits_value(d) == digits_value(d.drop_last()) * 10 + ((d.last() as int) - 48));
        assert(d[0] == decimal(n / 10)[0]);
        assert(forall|i: int| 0 <= i < d.len() - 1 ==> d[i] == decimal(n / 10)[i]);
    }
}

proof fn lemma_digit_char_value(d: nat)
    requires
        d < 10,
    ensures
        digit_char(d) as int == 48 + d,
{
}

/// Joining: nothing gives nothing, one string gives itself, and one more
/// string adds the separator and that string at the end.
pub proof fn join_adds_separator_between(v: Seq<Seq<char>>, x: Seq<char>, sep: Seq<char>)
    ensures
        join(Seq::empty(), sep) == Seq::<char>::empty(),
        join(seq![x], sep) == x,
        v.len() > 0 ==> join(v.push(x), sep) == join(v, sep) + sep + x,
{
    assert(v.push(x).drop_last() =~= v);
}

/// Trimming removes white space from both ends and nothing else: what is
/// left stands in the text between white-space characters only, and neither
/// starts nor ends with white space.
pub proof fn trim_removes_only_outer_space(s: Seq<char>)
    ensures
        ({
            let r = trimmed(s);
            &&& r.len() > 0 ==> !space_char(r[0]) && !space_char(r.last())
            &&& exists|i: int|
                0 <= i && i + r.len() <= s.len() && #[trigger] s.subrange(i, i + r.len()) == r && (forall|j: int|
                    0 <= j < i ==> space_char(#[trigger] s[j])) && (forall|j: int|
                    i + r.len() <= j < s.len() ==> space_char(#[trigger] s[j]))
        }),
{
    let i = lemma_trim_start(s);
    let t = trim_start_ws(s);
    let k = lemma_trim_end(t);
    let r = trimmed(s);
    assert(r == t.subrange(0, k));
    assert(s.subrange(i, i + r.len()) =~= r);
    assert forall|j: int| i + r.len() <= j < s.len() implies space_char(#[trigger] s[j]) by {
        assert(s[j] == t[j - i]);
    }
    if r.len() > 0 {
        assert(r[0] == t[0]);
    }
}

proof fn lemma_trim_start(s: Seq<char>) -> (i: int)
    ensures
        0 <= i <= s.len(),
        trim_start_ws(s) == s.skip(i),
        forall|j: int| 0 <= j < i ==> space_char(#[trigger] s[j]),
        i < s.len() ==> !space_char(s[i]),
    decreases s.len(),
{
    if s.len() > 0 && space_char(s[0]) {
        let i = lemma_trim_start(s.drop_first());
        assert(s.drop_first().skip(i) =~= s.skip(i + 1));
        assert forall|j: int| 0 <= j < i + 1 implies space_char(#[trigger] s[j]) by {
            if j > 0 {
                assert(s.drop_first()[j - 1] == s[j]);
            }
        }
        i + 1
    } else {
        assert(s.skip(0) =~= s);
        0
    }
}

proof fn lemma_trim_end(s: Seq<char>) -> (k: int)
    ensures
        0 <= k <= s.len(),
        trim_end_ws(s) == s.subrange(0, k),
        forall|j: int| k <= j < s.len() ==> space_char(#[trigger] s[j]),
        k > 0 ==> !space_char(s[k - 1]),
    decreases s.len(),
{
    if s.len() > 0 && space_char(s.last()) {
        let k = lemma_trim_end(s.drop_last());
        assert(s.drop_last().subrange(0, k) =~= s.subrange(0, k));
        assert forall|j: int| k <= j < s.len() implies space_char(#[trigger] s[j]) by {
            if j < s.len() - 1 {
                assert(s.drop_last()[j] == s[j]);
            }
        }
        k
    } else {
        assert(s.subrange(0, s.len() as int) =~= s);
        s.len() as int
    }
}

// ─────────────────────────────── operations ────────────────────────────────

/// The characters of `s` and `t` are the same.
pub fn str_eq(s: &str, t: &str) -> (r: bool)
    ensures
        r == (s@ == t@),
{
    let a = String::from_str(s);
    let b = String::from_str(t);
    a == b
}

pub fn str_starts_with(s: &str, p: &str) -> (r: bool)
    ensures
        r == starts_with(s@, p@),
{
    let n = s.unicode_len();
    let m = p.unicode_len();
    if m > n {
        return false;
    }
    matches_at(s, p, 0)
}

/// Whether `p` occurs in `s` at position `i`.
fn matches_at(s: &str, p: &str, i: usize) -> (r: bool)
    requires
        i + p@.len() <= s@.len(),
    ensures
        r == (s@.subrange(i as int, i + p@.len()) == p@),
{
    let n = s.unicode_len();
    let m = p.unicode_len();
    let mut k: usize = 0;
    while k < m
        invariant
            n == s@.len(),
            m == p@.len(),
            i + m <= s@.len(),
            k <= m,
            forall|j: int| 0 <= j < k ==> s@[i + j] == p@[j],
        decreases m - k,
    {
        if s.get_char(i + k) != p.get_char(k) {
            assert(s@.subrange(i as int, i + m)[k as int] != p@[k as int]);
            return false;
        }
        k = k + 1;
    }
    assert(s@.subrange(i as int, i + m) =~= p@);
    true
}

pub fn str_contains(s: &str, p: &str) -> (r: bool)
    ensures
        r == contains(s@, p@),
{
    let n = s.unicode_len();
    let m = p.unicode_len();
    if m > n {
        assert forall|i: int| !#[trigger] occurs_at(s@, p@, i) by {}
        return false;
    }
    let mut i: usize = 0;
    loop
        invariant
            n == s@.len(),
            m == p@.len(),
            m <= n,
            i <= n - m,
            forall|j: int| 0 <= j < i ==> !#[trigger] occurs_at(s@, p@, j),
        decreases n - m - i,
    {
        if matches_at(s, p, i) {
            assert(occurs_at(s@, p@, i as int));
            return true;
        }
        if i == n - m {
            assert forall|j: int| !#[trigger] occurs_at(s@, p@, j) by {
                if 0 <= j && j + m <= n && j != i {
                    assert(j < i);
                }
            }
            return false;
        }
        i = i + 1;
    }
}

/// `str::trim_start_matches` with a string pattern.
pub fn trim_start_matches(s: &str, p: &str) -> (r: String)
    ensures
        r@ == strip_prefixes(s@, p@),
{
    let n = s.unicode_len();
    let m = p.unicode_len();
    if m == 0 || m > n {
        return String::from_str(s);
    }
    let mut i: usize = 0;
    assert(s@.skip(0) =~= s@);
    while i <= n - m && matches_at(s, p, i)
        invariant
            n == s@.len(),
            m == p@.len(),
            m > 0,
            m <= n,
            i <= n,
            strip_prefixes(s@, p@) == strip_prefixes(s@.skip(i as int), p@),
        decreases n - i,
    {
        assert(s@.skip(i as int).subrange(0, m as int) =~= s@.subrange(i as int, i + m));
        assert(s@.skip(i as int).skip(m as int) =~= s@.skip(i + m));
        i = i + m;
    }
    proof {
        if i <= n - m {
            assert(s@.skip(i as int).subrange(0, m as int) =~= s@.subrange(i as int, i + m));
        }
    }
    let r = s.substring_char(i, n);
    assert(r@ =~= s@.skip(i as int));
    String::from_str(r)
}

/// `str::replace` with a character pattern.
pub fn replace_char_with(s: &str, c: char, w: &str) -> (r: String)
    ensures
        r@ == replace_char(s@, c, w@),
{
    let n = s.unicode_len();
    let mut r = String::new();
    let mut i: usize = 0;
    while i < n
        invariant
            n == s@.len(),
            i <= n,
            r@ == replace_char(s@.take(i as int), c, w@),
        decreases n - i,
    {
        let ch = s.get_char(i);
        assert(s@.take(i + 1).drop_last() =~= s@.take(i as int));
        if ch == c {
            r.append(w);
        } else {
            push_char(&mut r, ch);
        }
        i = i + 1;
    }
    assert(s@.take(n as int) =~= s@);
    r
}

/// `str::trim`.
pub fn trim(s: &str) -> (r: String)
    ensures
        r@ == trimmed(s@),
{
    let n = s.unicode_len();
    let mut i: usize = 0;
    assert(s@.skip(0) =~= s@);
    while i < n && is_whitespace(s.get_char(i))
        invariant
            n == s@.len(),
            i <= n,
            trim_start_ws(s@) == trim_start_ws(s@.skip(i as int)),
        decreases n - i,
    {
        assert(s@.skip(i as int).drop_first() =~= s@.skip(i + 1));
        i = i + 1;
    }
    assert(trim_start_ws(s@) == s@.subrange(i as int, n as int)) by {
        assert(s@.skip(i as int) =~= s@.subrange(i as int, n as int));
    }
    let mut j: usize = n;
    while j > i && is_whitespace(s.get_char(j - 1))
        invariant
            n == s@.len(),
            i <= j <= n,
            trim_end_ws(s@.subrange(i as int, n as int)) == trim_end_ws(
                s@.subrange(i as int, j as int),
            ),
        decreases j - i,
    {
        assert(s@.subrange(i as int, j as int).drop_last() =~= s@.subrange(
            i as int,
            j - 1,
        ));
        j = j - 1;
    }
    let r = s.substring_char(i, j);
    String::from_str(r)
}

fn digit(d: usize) -> (c: char)
    requires
        d < 10,
    ensures
        c == digit_char(d as nat),
{
    if d == 0 {
        '0'
    } else if d == 1 {
        '1'
    } else if d == 2 {
        '2'
    } else if d == 3 {
        '3'
    } else if d == 4 {
        '4'
    } else if d == 5 {
        '5'
    } else if d == 6 {
        '6'
    } else if d == 7 {
        '7'
    } else if d == 8 {
        '8'
    } else {
        '9'
    }
}

/// `n.to_string()` for an index.
pub fn decimal_string(n: usize) -> (r: String)
    ensures
        r@ == decimal(n as nat),
    decreases n,
{
    if n < 10 {
        let mut r = String::new();
        push_char(&mut r, digit(n));
        assert(r@ =~= seq![digit_char(n as nat)]);
        r
    } else {
        let mut r = decimal_string(n / 10);
        push_char(&mut r, digit(n % 10));
        r
    }
}

/// `format!("{:<width$}", s)`.
pub fn pad_string(s: &str, width: usize) -> (r: String)
    ensures
        r@ == pad_right(s@, width as nat),
{
    let n = s.unicode_len();
    let mut r = String::from_str(s);
    if n < width {
        let mut k: usize = n;
        while k < width
            invariant
                n == s@.len(),
                n <= k <= width,
                r@ =~= s@ + Seq::new((k - n) as nat, |i: int| ' '),
            decreases width - k,
        {
            push_char(&mut r, ' ');
            k = k + 1;
        }
    }
    r
}

/// The characters of `a` followed by those of `b`.
pub fn concat2(a: &str, b: &str) -> (r: String)
    ensures
        r@ == a@ + b@,
{
    let mut r = String::from_str(a);
    r.append(b);
    r
}

pub fn concat3(a: &str, b: &str, c: &str) -> (r: String)
    ensures
        r@ == a@ + b@ + c@,
{
    let mut r = String::from_str(a);
    r.append(b);
    r.append(c);
    r
}

pub fn concat4(a: &str, b: &str, c: &str, d: &str) -> (r: String)
    ensures
        r@ == a@ + b@ + c@ + d@,
{
    let mut r = String::from_str(a);
    r.append(b);
    r.append(c);
    r.append(d);
    r
}

pub fn concat5(a: &str, b: &str, c: &str, d: &str, e: &str) -> (r: String)
    ensures
        r@ == a@ + b@ + c@ + d@ + e@,
{
    let mut r = String::from_str(a);
    r.append(b);
    r.append(c);
    r.append(d);
    r.append(e);
    r
}

/// Appends a copy of `s` to the argument list `v`.
pub fn push_arg(v: &mut Vec<String>, s: &str)
    ensures
        strs(final(v)@) == strs(old(v)@).push(s@),
{
    v.push(String::from_str(s));
    assert(strs(v@) =~= strs(old(v)@).push(s@));
}

/// Appends the arguments of `w` to `v`, in order.
pub fn extend_args(v: &mut Vec<String>, w: Vec<String>)
    ensures
        strs(final(v)@) == strs(old(v)@) + strs(w@),
{
    let n = w.len();
    let mut i: usize = 0;
    while i < n
        invariant
            n == w@.len(),
            i <= n,
            strs(v@) == strs(old(v)@) + strs(w@.take(i as int)),
        decreases n - i,
    {
        push_arg(v, w[i].as_str());
        assert(strs(w@.take(i + 1)) =~= strs(w@.take(i as int)).push(w@[i as int]@));
        i = i + 1;
    }
    assert(w@.take(n as int) =~= w@);
}

/// `v.join(sep)` for a list of strings.
pub fn join_strings(v: &Vec<String>, sep: &str) -> (r: String)
    ensures
        r@ == join(strs(v@), sep@),
{
    let n = v.len();
    let mut r = String::new();
    let mut i: usize = 0;
    while i < n
        invariant
            n == v@.len(),
            i <= n,
            r@ == join(strs(v@.take(i as int)), sep@),
        decreases n - i,
    {
        assert(strs(v@.take(i + 1)).drop_last() =~= strs(v@.take(i as int)));
        if i > 0 {
            r.append(sep);
        } else {
            assert(strs(v@.take(1))[0] == v@[0]@);
        }
        r.append(v[i].as_str());
        i = i + 1;
    }
    assert(v@.take(n as int) =~= v@);
    r
}

} // verus!
