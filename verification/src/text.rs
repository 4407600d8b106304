//! Text helpers working on the character sequence of strings.

use vstd::prelude::*;
use vstd::relations::{sorted_by, total_ordering};

verus! {

/// Returns the characters of the string provided.
pub fn chars_of(s: &str) -> (r: Vec<char>)
    ensures
        r@ == s@,
{
    broadcast use vstd::string::axiom_spec_iter;

    let mut r: Vec<char> = Vec::new();
    for c in it: s.chars()
        invariant
            it.seq() == s@,
            r@ == it.seq().take(it.index() as int),
    {
        r.push(c);
    }
    r
}

/// Builds a string from the characters provided.
pub fn string_of(cs: &Vec<char>) -> (r: String)
    ensures
        r@ == cs@,
{
    let mut r = String::new();
    let mut i: usize = 0;
    while i < cs.len()
        invariant
            i <= cs@.len(),
            r@ == cs@.take(i as int),
        decreases cs@.len() - i,
    {
        push_char(&mut r, cs[i]);
        assert(cs@.take(i + 1) =~= cs@.take(i as int).push(cs@[i as int]));
        i = i + 1;
    }
    assert(cs@.take(cs@.len() as int) =~= cs@);
    r
}

/// Is the character a Unicode `White_Space` code point.
pub open spec fn is_space(c: char) -> bool {
    ||| ('\u{9}' <= c && c <= '\u{d}')
    ||| c == ' '
    ||| c == '\u{85}'
    ||| c == '\u{a0}'
    ||| c == '\u{1680}'
    ||| ('\u{2000}' <= c && c <= '\u{200a}')
    ||| c == '\u{2028}'
    ||| c == '\u{2029}'
    ||| c == '\u{202f}'
    ||| c == '\u{205f}'
    ||| c == '\u{3000}'
}

/// Executable version of [`is_space`].
pub fn is_space_char(c: char) -> (r: bool)
    ensures
        r == is_space(c),
{
    ('\u{9}' <= c && c <= '\u{d}') || c == ' ' || c == '\u{85}' || c == '\u{a0}' || c == '\u{1680}'
        || ('\u{2000}' <= c && c <= '\u{200a}') || c == '\u{2028}' || c == '\u{2029}'
        || c == '\u{202f}' || c == '\u{205f}' || c == '\u{3000}'
}


/// Are the two strings equal.
pub(crate) fn eq_str(a: &str, b: &str) -> (r: bool)
    ensures
        r == (a@ == b@),
{
    let x = chars_of(a);
    let y = chars_of(b);
    if x.len() != y.len() {
        return false;
    }
    let mut i: usize = 0;
    while i < x.len()
        invariant
            x@ == a@,
            y@ == b@,
            x@.len() == y@.len(),
            i <= x@.len(),
            forall|j: int| 0 <= j < i ==> x@[j] == y@[j],
        decreases x@.len() - i,
    {
        if x[i] != y[i] {
            return false;
        }
        i = i + 1;
    }
    proof {
        assert(a@ =~= b@);
    }
    true
}

/// Appends a character to the string provided.
#[verifier::external_body]
pub(crate) fn push_char(s: &mut String, c: char)
    ensures
        final(s)@ == old(s)@.push(c),
{
    s.push(c);
}

/// Appends a string to the string provided.
pub(crate) fn push_str(s: &mut String, t: &str)
    ensures
        final(s)@ == old(s)@ + t@,
{
    s.append(t);
}

/// Copy of the string provided.
pub fn to_owned_string(s: &str) -> (r: String)
    ensures
        r@ == s@,
{
    let mut r = String::new();
    push_str(&mut r, s);
    r
}

/// The sequence without its leading white space.
pub open spec fn trim_start(s: Seq<char>) -> Seq<char>
    decreases s.len(),
{
    if s.len() > 0 && is_space(s[0]) {
        trim_start(s.drop_first())
    } else {
        s
    }
}

/// The sequence without its trailing white space.
pub open spec fn trim_end(s: Seq<char>) -> Seq<char>
    decreases s.len(),
{
    if s.len() > 0 && is_space(s.last()) {
        trim_end(s.drop_last())
    } else {
        s
    }
}

/// The sequence without its leading and trailing white space.
pub open spec fn trim(s: Seq<char>) -> Seq<char> {
    trim_end(trim_start(s))
}

proof fn lemma_trim_start_skip(s: Seq<char>, i: int)
    requires
        0 <= i <= s.len(),
        forall|j: int| 0 <= j < i ==> is_space(s[j]),
    ensures
        trim_start(s) == trim_start(s.subrange(i, s.len() as int)),
    decreases i,
{
    if i > 0 {
        assert(s.drop_first().subrange(i - 1, s.drop_first().len() as int) =~= s.subrange(
            i,
            s.len() as int,
        ));
        lemma_trim_start_skip(s.drop_first(), i - 1);
    } else {
        assert(s.subrange(0, s.len() as int) =~= s);
    }
}

proof fn lemma_trim_end_skip(s: Seq<char>, j: int)
    requires
        0 <= j <= s.len(),
        forall|k: int| j <= k < s.len() ==> is_space(s[k]),
    ensures
        trim_end(s) == trim_end(s.subrange(0, j)),
    decreases s.len() - j,
{
    if j < s.len() {
        assert(s.drop_last().subrange(0, j) =~= s.subrange(0, j));
        lemma_trim_end_skip(s.drop_last(), j);
    } else {
        assert(s.subrange(0, j) =~= s);
    }
}

/// Trims the leading and trailing white space of the characters provided.
pub fn trim_chars(s: &Vec<char>) -> (r: Vec<char>)
    ensures
        r@ == trim(s@),
{
    let n = s.len();
    let mut i: usize = 0;
    while i < n && is_space_char(s[i])
        invariant
            i <= n == s@.len(),
            forall|j: int| 0 <= j < i ==> is_space(s@[j]),
        decreases n - i,
    {
        i = i + 1;
    }
    proof {
        lemma_trim_start_skip(s@, i as int);
    }
    let ghost t = s@.subrange(i as int, n as int);
    let mut j: usize = n;
    while j > i && is_space_char(s[j - 1])
        invariant
            i <= j <= n == s@.len(),
            forall|k: int| j <= k < n ==> is_space(s@[k]),
        decreases j,
    {
        j = j - 1;
    }
    proof {
        lemma_trim_end_skip(t, j - i);
        assert(t.subrange(0, j - i) =~= s@.subrange(i as int, j as int));
        if i < n {
            assert(!is_space(t[0]));
        }
    }
    let mut r: Vec<char> = Vec::new();
    let mut k: usize = i;
    while k < j
        invariant
            i <= k <= j <= n == s@.len(),
            r@ == s@.subrange(i as int, k as int),
        decreases j - k,
    {
        r.push(s[k]);
        k = k + 1;
    }
    r
}

/// Trims the leading and trailing white space of the string provided.
pub fn trim_str(s: &str) -> (r: String)
    ensures
        r@ == trim(s@),
{
    let cs = chars_of(s);
    let t = trim_chars(&cs);
    string_of(&t)
}


/// Every run of white space replaced by a single space character.
pub open spec fn squeeze(s: Seq<char>) -> Seq<char>
    decreases s.len(),
{
    if s.len() == 0 {
        Seq::empty()
    } else {
        let p = squeeze(s.drop_last());
        if is_space(s.last()) {
            if p.len() > 0 && p.last() == ' ' {
                p
            } else {
                p.push(' ')
            }
        } else {
            p.push(s.last())
        }
    }
}

/// The words of the sequence joined with single spaces
/// (`split_whitespace` followed by `join(" ")`).
pub open spec fn collapse(s: Seq<char>) -> Seq<char> {
    trim(squeeze(s))
}

/// Joins the white space separated words of the characters provided with
/// single spaces.
pub fn collapse_chars(s: &Vec<char>) -> (r: Vec<char>)
    ensures
        r@ == collapse(s@),
{
    let mut q: Vec<char> = Vec::new();
    let mut i: usize = 0;
    while i < s.len()
        invariant
            i <= s@.len(),
            q@ == squeeze(s@.take(i as int)),
        decreases s@.len() - i,
    {
        let c = s[i];
        proof {
            assert(s@.take(i + 1).drop_last() =~= s@.take(i as int));
        }
        if is_space_char(c) {
            if !(q.len() > 0 && q[q.len() - 1] == ' ') {
                q.push(' ');
            }
        } else {
            q.push(c);
        }
        i = i + 1;
    }
    proof {
        assert(s@.take(s@.len() as int) =~= s@);
    }
    trim_chars(&q)
}

/// Characters with a meaning in markdown.
pub open spec fn is_md_special(c: char) -> bool {
    c == '\\' || c == '`' || c == '*' || c == '_' || c == '[' || c == ']' || c == '<' || c == '>'
        || c == '~' || c == '|' || c == '#'
}

/// Every markdown special character preceded by a backslash.
pub open spec fn escape(s: Seq<char>) -> Seq<char>
    decreases s.len(),
{
    if s.len() == 0 {
        Seq::empty()
    } else if is_md_special(s.last()) {
        escape(s.drop_last()) + seq!['\\', s.last()]
    } else {
        escape(s.drop_last()).push(s.last())
    }
}

/// Escape markdown special characters in upstream text and collapse
/// whitespace so it cannot alter the details structure.
pub fn escape_md(text: &str) -> (r: String)
    ensures
        r@ == escape(collapse(text@)),
{
    let cs = chars_of(text);
    let words = collapse_chars(&cs);
    let mut out: Vec<char> = Vec::new();
    let mut i: usize = 0;
    while i < words.len()
        invariant
            i <= words@.len(),
            out@ == escape(words@.take(i as int)),
        decreases words@.len() - i,
    {
        let c = words[i];
        proof {
            assert(words@.take(i + 1).drop_last() =~= words@.take(i as int));
        }
        if c == '\\' || c == '`' || c == '*' || c == '_' || c == '[' || c == ']' || c == '<' || c
            == '>' || c == '~' || c == '|' || c == '#' {
            out.push('\\');
            out.push(c);
            proof {
                assert(out@ =~= escape(words@.take(i as int)) + seq!['\\', c]);
            }
        } else {
            out.push(c);
        }
        i = i + 1;
    }
    proof {
        assert(words@.take(words@.len() as int) =~= words@);
    }
    string_of(&out)
}

/// Characters that cannot stand inside inline code.
pub open spec fn breaks_code(c: char) -> bool {
    c == '`' || c == '\n' || c == '\r'
}

/// Characters kept in an identifier rendered inside inline code.
pub open spec fn kept_in_code() -> spec_fn(char) -> bool {
    |c: char| !breaks_code(c)
}

/// Sanitize an identifier so it can be safely rendered inside inline code.
pub fn code(text: &str) -> (r: String)
    ensures
        r@ == text@.filter(kept_in_code()),
{
    let cs = chars_of(text);
    let mut out: Vec<char> = Vec::new();
    let mut i: usize = 0;
    while i < cs.len()
        invariant
            i <= cs@.len(),
            out@ == cs@.take(i as int).filter(kept_in_code()),
        decreases cs@.len() - i,
    {
        let c = cs[i];
        proof {
            reveal_with_fuel(Seq::<_>::filter, 1);
            assert(cs@.take(i + 1).drop_last() =~= cs@.take(i as int));
        }
        if !(c == '`' || c == '\n' || c == '\r') {
            out.push(c);
        }
        i = i + 1;
    }
    proof {
        assert(cs@.take(cs@.len() as int) =~= cs@);
    }
    string_of(&out)
}


/// Lexicographic order of character sequences (the order of `str`).
pub open spec fn seq_lt(a: Seq<char>, b: Seq<char>) -> bool
    decreases a.len(),
{
    if a.len() == 0 {
        b.len() > 0
    } else if b.len() == 0 {
        false
    } else if (a[0] as int) < (b[0] as int) {
        true
    } else if (a[0] as int) > (b[0] as int) {
        false
    } else {
        seq_lt(a.drop_first(), b.drop_first())
    }
}

/// No sequence comes before itself.
pub proof fn lemma_seq_lt_irreflexive(a: Seq<char>)
    ensures
        !seq_lt(a, a),
    decreases a.len(),
{
    if a.len() > 0 {
        lemma_seq_lt_irreflexive(a.drop_first());
    }
}

/// Of two different sequences, one comes before the other.
pub proof fn lemma_seq_lt_total(a: Seq<char>, b: Seq<char>)
    ensures
        a == b || seq_lt(a, b) || seq_lt(b, a),
    decreases a.len(),
{
    if a.len() > 0 && b.len() > 0 {
        if a[0] == b[0] {
            lemma_seq_lt_total(a.drop_first(), b.drop_first());
            if a.drop_first() == b.drop_first() {
                assert(a.drop_first().len() == b.drop_first().len());
                assert forall|i: int| 0 <= i < a.len() implies a[i] == b[i] by {
                    if i > 0 {
                        assert(a[i] == a.drop_first()[i - 1]);
                        assert(b[i] == b.drop_first()[i - 1]);
                    }
                }
                assert(a =~= b);
            }
        } else {
            assert((a[0] as int) != (b[0] as int));
        }
    } else if a.len() == 0 && b.len() == 0 {
        assert(a =~= b);
    }
}

/// The order is transitive.
pub proof fn lemma_seq_lt_transitive(a: Seq<char>, b: Seq<char>, c: Seq<char>)
    requires
        seq_lt(a, b),
        seq_lt(b, c),
    ensures
        seq_lt(a, c),
    decreases a.len(),
{
    if a.len() > 0 && b.len() > 0 && c.len() > 0 {
        if a[0] == b[0] && b[0] == c[0] {
            lemma_seq_lt_transitive(a.drop_first(), b.drop_first(), c.drop_first());
        }
    }
}

/// Of two sequences, at most one comes before the other.
pub proof fn lemma_seq_lt_asymmetric(a: Seq<char>, b: Seq<char>)
    requires
        seq_lt(a, b),
    ensures
        !seq_lt(b, a),
{
    if seq_lt(b, a) {
        lemma_seq_lt_transitive(a, b, a);
        lemma_seq_lt_irreflexive(a);
    }
}

/// Does the first character sequence come before the second one.
pub fn chars_lt(a: &Vec<char>, b: &Vec<char>) -> (r: bool)
    ensures
        r == seq_lt(a@, b@),
{
    let mut i: usize = 0;
    proof {
        assert(a@.skip(0) =~= a@);
        assert(b@.skip(0) =~= b@);
    }
    while i < a.len() && i < b.len() && a[i] == b[i]
        invariant
            i <= a@.len(),
            i <= b@.len(),
            forall|k: int| 0 <= k < i ==> a@[k] == b@[k],
            seq_lt(a@, b@) == seq_lt(a@.skip(i as int), b@.skip(i as int)),
        decreases a@.len() - i,
    {
        proof {
            assert(a@.skip(i as int).drop_first() =~= a@.skip(i + 1));
            assert(b@.skip(i as int).drop_first() =~= b@.skip(i + 1));
        }
        i = i + 1;
    }
    proof {
        if i < a@.len() {
            assert(a@.skip(i as int)[0] == a@[i as int]);
        }
        if i < b@.len() {
            assert(b@.skip(i as int)[0] == b@[i as int]);
        }
        assert(a@.skip(i as int).len() == a@.len() - i);
        assert(b@.skip(i as int).len() == b@.len() - i);
    }
    if i == a.len() {
        i < b.len()
    } else if i == b.len() {
        false
    } else {
        a[i] < b[i]
    }
}

/// Does the first string come before the second one.
pub fn str_lt(a: &str, b: &str) -> (r: bool)
    ensures
        r == seq_lt(a@, b@),
{
    chars_lt(&chars_of(a), &chars_of(b))
}

/// Views of the strings provided.
pub open spec fn string_views(v: Seq<String>) -> Seq<Seq<char>> {
    v.map_values(|s: String| s@)
}

/// Strictly increasing in the order of `str`.
pub open spec fn strictly_sorted(v: Seq<Seq<char>>) -> bool {
    forall|i: int, j: int| 0 <= i < j < v.len() ==> seq_lt(#[trigger] v[i], #[trigger] v[j])
}

/// Inserts the string in its place in the sorted list, unless it is there.
fn insert_sorted(v: &mut Vec<String>, x: String)
    requires
        strictly_sorted(string_views(old(v)@)),
    ensures
        strictly_sorted(string_views(final(v)@)),
        forall|s: Seq<char>|
            string_views(final(v)@).contains(s) <==> (string_views(old(v)@).contains(s) || s
                == x@),
{
    let ghost old_views = string_views(v@);
    let mut p: usize = 0;
    while p < v.len() && str_lt(v[p].as_str(), x.as_str())
        invariant
            p <= v@.len(),
            string_views(v@) == old_views,
            forall|k: int| 0 <= k < p ==> seq_lt(#[trigger] old_views[k], x@),
        decreases v@.len() - p,
    {
        p = p + 1;
    }
    if p < v.len() && text_eq(&v[p], &x) {
        proof {
            assert(old_views[p as int] == x@);
        }
        return;
    }
    proof {
        if p < v@.len() {
            lemma_seq_lt_total(old_views[p as int], x@);
        }
        assert forall|k: int| p <= k < old_views.len() implies seq_lt(x@, #[trigger] old_views[k]) by {
            if k > p {
                lemma_seq_lt_transitive(x@, old_views[p as int], old_views[k]);
            }
        }
        assert forall|k: int| 0 <= k < p implies old_views[k] != x@ by {
            if old_views[k] == x@ {
                lemma_seq_lt_irreflexive(x@);
            }
        }
        assert forall|k: int| p <= k < old_views.len() implies old_views[k] != x@ by {
            if old_views[k] == x@ {
                lemma_seq_lt_irreflexive(x@);
            }
        }
    }
    v.insert(p, x);
    proof {
        let nv = string_views(v@);
        assert(nv =~= old_views.take(p as int).push(x@) + old_views.skip(p as int));
        assert forall|i: int, j: int| 0 <= i < j < nv.len() implies seq_lt(
            #[trigger] nv[i],
            #[trigger] nv[j],
        ) by {
            if j < p {
            } else if j == p {
            } else if i < p {
                lemma_seq_lt_transitive(nv[i], x@, nv[j]);
            } else if i == p {
            } else {
            }
        }
        assert forall|s: Seq<char>| nv.contains(s) <==> (old_views.contains(s) || s == x@) by {
            if nv.contains(s) {
                let i = choose|i: int| 0 <= i < nv.len() && nv[i] == s;
                if i < p {
                    assert(old_views[i] == s);
                } else if i > p {
                    assert(old_views[i - 1] == s);
                }
            }
            if old_views.contains(s) {
                let i = choose|i: int| 0 <= i < old_views.len() && old_views[i] == s;
                if i < p {
                    assert(nv[i] == s);
                } else {
                    assert(nv[i + 1] == s);
                }
            }
            if s == x@ {
                assert(nv[p as int] == s);
            }
        }
    }
}

/// Are the two strings equal.
fn text_eq(a: &String, b: &String) -> (r: bool)
    ensures
        r == (a@ == b@),
{
    eq_str(a.as_str(), b.as_str())
}

/// The distinct strings provided, sorted in the order of `str`.
pub fn sorted_distinct(xs: Vec<String>) -> (r: Vec<String>)
    ensures
        strictly_sorted(string_views(r@)),
        forall|s: Seq<char>| string_views(r@).contains(s) <==> string_views(xs@).contains(s),
{
    let mut r: Vec<String> = Vec::new();
    let mut i: usize = 0;
    let ghost xv = string_views(xs@);
    while i < xs.len()
        invariant
            i <= xs@.len(),
            xv == string_views(xs@),
            strictly_sorted(string_views(r@)),
            forall|s: Seq<char>|
                string_views(r@).contains(s) <==> xv.take(i as int).contains(s),
        decreases xs@.len() - i,
    {
        let x = xs[i].clone();
        let ghost before = string_views(r@);
        proof {
            assert(x@ == xv[i as int]);
        }
        insert_sorted(&mut r, x);
        proof {
            assert forall|s: Seq<char>|
                string_views(r@).contains(s) <==> xv.take(i + 1).contains(s) by {
                assert(string_views(r@).contains(s) <==> (before.contains(s) || s == xv[i as int]));
                assert(before.contains(s) <==> xv.take(i as int).contains(s));
                if xv.take(i + 1).contains(s) {
                    let k = choose|k: int| 0 <= k < i + 1 && #[trigger] xv.take(i + 1)[k] == s;
                    if k < i {
                        assert(xv.take(i as int)[k] == s);
                    }
                }
                if xv.take(i as int).contains(s) {
                    let k = choose|k: int| 0 <= k < i && #[trigger] xv.take(i as int)[k] == s;
                    assert(xv.take(i + 1)[k] == s);
                }
                if s == xv[i as int] {
                    assert(xv.take(i + 1)[i as int] == s);
                }
            }
        }
        i = i + 1;
    }
    proof {
        assert(xv.take(xs@.len() as int) =~= xv);
    }
    r
}

/// Lowercase mapping of the text, by the Unicode case rules
/// (`str::to_lowercase`).
pub uninterp spec fn lowercase(s: Seq<char>) -> Seq<char>;

/// Uppercase mapping of the text, by the Unicode case rules
/// (`str::to_uppercase`).
pub uninterp spec fn uppercase(s: Seq<char>) -> Seq<char>;

/// Calls `str::to_lowercase`.
#[verifier::external_body]
pub(crate) fn to_lowercase(s: &str) -> (r: String)
    ensures
        r@ == lowercase(s@),
{
    s.to_lowercase()
}

/// Calls `str::to_uppercase`.
#[verifier::external_body]
pub(crate) fn to_uppercase(s: &str) -> (r: String)
    ensures
        r@ == uppercase(s@),
{
    s.to_uppercase()
}

/// Does the text start with the prefix provided.
pub fn starts_with(s: &str, prefix: &str) -> (r: bool)
    ensures
        r == prefix@.is_prefix_of(s@),
{
    let sc = chars_of(s);
    let pc = chars_of(prefix);
    if pc.len() > sc.len() {
        return false;
    }
    let mut i: usize = 0;
    while i < pc.len()
        invariant
            i <= pc@.len() <= sc@.len(),
            pc@ == prefix@,
            sc@ == s@,
            forall|j: int| 0 <= j < i ==> pc@[j] == sc@[j],
        decreases pc@.len() - i,
    {
        if pc[i] != sc[i] {
            return false;
        }
        i = i + 1;
    }
    assert(prefix@ =~= s@.take(prefix@.len() as int));
    true
}

/// The first characters of the text, at most as many as provided.
pub open spec fn head(s: Seq<char>, n: nat) -> Seq<char> {
    if s.len() <= n {
        s
    } else {
        s.take(n as int)
    }
}

/// The first characters of the text provided, at most `n` of them.
pub fn head_chars(s: &Vec<char>, n: usize) -> (r: Vec<char>)
    ensures
        r@ == head(s@, n as nat),
{
    let mut r: Vec<char> = Vec::new();
    let mut i: usize = 0;
    while i < s.len() && i < n
        invariant
            i <= s@.len(),
            i <= n,
            r@ == s@.take(i as int),
        decreases s@.len() - i,
    {
        r.push(s[i]);
        assert(s@.take(i + 1) =~= s@.take(i as int).push(s@[i as int]));
        i = i + 1;
    }
    if s.len() <= n {
        assert(s@.take(s@.len() as int) =~= s@);
    }
    r
}

/// Lexicographic order on character sequences (by code point), equal ones
/// included: the order of `str` comparisons.
pub open spec fn text_leq() -> spec_fn(Seq<char>, Seq<char>) -> bool {
    |a: Seq<char>, b: Seq<char>| !seq_lt(b, a)
}

/// The lexicographic order is a total order.
pub proof fn lemma_text_leq_total_ordering()
    ensures
        total_ordering(text_leq()),
{
    assert forall|x: Seq<char>| #[trigger] text_leq()(x, x) by {
        lemma_seq_lt_irreflexive(x);
    }
    assert forall|x: Seq<char>, y: Seq<char>|
        #[trigger] text_leq()(x, y) && #[trigger] text_leq()(y, x) implies x == y by {
        lemma_seq_lt_total(x, y);
    }
    assert forall|x: Seq<char>, y: Seq<char>, z: Seq<char>|
        #[trigger] text_leq()(x, y) && #[trigger] text_leq()(y, z) implies text_leq()(x, z) by {
        if seq_lt(z, x) {
            lemma_seq_lt_total(x, y);
            if seq_lt(x, y) {
                lemma_seq_lt_transitive(z, x, y);
            }
        }
    }
    assert forall|x: Seq<char>, y: Seq<char>|
        #[trigger] text_leq()(x, y) || #[trigger] text_leq()(y, x) by {
        if seq_lt(y, x) && seq_lt(x, y) {
            lemma_seq_lt_transitive(x, y, x);
            lemma_seq_lt_irreflexive(x);
        }
    }
}

/// Insert the string provided into the sorted strings given, after the
/// strings that do not come after it.
fn insert_in_order(v: &mut Vec<String>, x: String)
    requires
        sorted_by(string_views(old(v)@), text_leq()),
    ensures
        sorted_by(string_views(final(v)@), text_leq()),
        string_views(final(v)@).to_multiset() == string_views(old(v)@).to_multiset().insert(x@),
{
    proof {
        lemma_text_leq_total_ordering();
    }
    let ghost xv = x@;
    let mut p: usize = 0;
    while p < v.len() && !str_lt(x.as_str(), v[p].as_str())
        invariant
            p <= v@.len(),
            forall|j: int| 0 <= j < p ==> text_leq()(#[trigger] string_views(v@)[j], xv),
            x@ == xv,
        decreases v@.len() - p,
    {
        proof {
            lemma_seq_lt_total(x@, v@[p as int]@);
        }
        p = p + 1;
    }
    let ghost before = string_views(v@);
    v.insert(p, x);
    proof {
        let after = string_views(v@);
        assert(after =~= before.insert(p as int, xv));
        assert forall|i: int, j: int| 0 <= i < j < after.len() implies #[trigger] text_leq()(
            after[i],
            after[j],
        ) by {
            if j < p {
                assert(text_leq()(before[i], before[j]));
            } else if j == p {
                assert(text_leq()(before[i], xv));
            } else if i < p {
                assert(text_leq()(before[i], xv));
                assert(seq_lt(xv, before[p as int]));
                lemma_seq_lt_asymmetric(xv, before[p as int]);
                assert(text_leq()(xv, before[p as int]));
                if j - 1 > p {
                    assert(text_leq()(before[p as int], before[j - 1]));
                }
                assert(text_leq()(xv, before[j - 1]));
            } else if i == p {
                assert(seq_lt(xv, before[p as int]));
                lemma_seq_lt_asymmetric(xv, before[p as int]);
                assert(text_leq()(xv, before[p as int]));
                if j - 1 > p {
                    assert(text_leq()(before[p as int], before[j - 1]));
                }
            } else {
                assert(text_leq()(before[i - 1], before[j - 1]));
            }
        }
        let left = before.subrange(0, p as int);
        let right = before.subrange(p as int, before.len() as int);
        assert(before =~= left + right);
        assert(after =~= left.push(xv) + right);
        vstd::seq_lib::lemma_multiset_commutative(left, right);
        vstd::seq_lib::lemma_multiset_commutative(left.push(xv), right);
        left.to_multiset_ensures();
        assert(after.to_multiset() =~= before.to_multiset().insert(xv));
    }
}

/// The strings provided, sorted.
pub fn sort_strings(xs: Vec<String>) -> (r: Vec<String>)
    ensures
        string_views(r@) == string_views(xs@).sort_by(text_leq()),
{
    proof {
        lemma_text_leq_total_ordering();
    }
    let mut r: Vec<String> = Vec::new();
    let mut i: usize = 0;
    proof {
        assert(string_views(r@) =~= string_views(xs@).take(0));
    }
    while i < xs.len()
        invariant
            i <= xs@.len(),
            total_ordering(text_leq()),
            sorted_by(string_views(r@), text_leq()),
            string_views(r@).to_multiset() == string_views(xs@).take(i as int).to_multiset(),
        decreases xs@.len() - i,
    {
        insert_in_order(&mut r, xs[i].clone());
        proof {
            let xv = string_views(xs@);
            assert(xv.take(i + 1) =~= xv.take(i as int).push(xv[i as int]));
            xv.take(i as int).to_multiset_ensures();
        }
        i = i + 1;
    }
    proof {
        let xv = string_views(xs@);
        assert(xv.take(xs@.len() as int) =~= xv);
        xv.lemma_sort_by_ensures(text_leq());
        vstd::seq_lib::lemma_sorted_unique(string_views(r@), xv.sort_by(text_leq()), text_leq());
    }
    r
}

/// Decimal digit of the number provided (below ten).
pub open spec fn digit(d: nat) -> char {
    if d == 0 {
        '0'
    } else if d == 1 {
        '1'
    } else if d == 2 {
        '2'
    } else if d == 3 {
        '3'
    } else if d == 4 {
        '4'
    } else if d == 5 {
        '5'
    } else if d == 6 {
        '6'
    } else if d == 7 {
        '7'
    } else if d == 8 {
        '8'
    } else {
        '9'
    }
}

/// Decimal representation of the number provided.
pub open spec fn decimal(n: nat) -> Seq<char>
    decreases n,
{
    if n < 10 {
        seq![digit(n)]
    } else {
        decimal(n / 10).push(digit(n % 10))
    }
}

/// Append the decimal representation of the number provided.
pub fn push_decimal(s: &mut String, n: u64)
    ensures
        final(s)@ == old(s)@ + decimal(n as nat),
    decreases n,
{
    if n >= 10 {
        push_decimal(s, n / 10);
    }
    let d = n % 10;
    let c = if d == 0 {
        '0'
    } else if d == 1 {
        '1'
    } else if d == 2 {
        '2'
    } else if d == 3 {
        '3'
    } else if d == 4 {
        '4'
    } else if d == 5 {
        '5'
    } else if d == 6 {
        '6'
    } else if d == 7 {
        '7'
    } else if d == 8 {
        '8'
    } else {
        '9'
    };
    push_char(s, c);
    proof {
        if n >= 10 {
            assert(decimal(n as nat) == decimal((n / 10) as nat).push(digit((n % 10) as nat)));
        }
    }
}

/// The character is a plain space or not white space: it cannot break a
/// line.
pub open spec fn inline_char(c: char) -> bool {
    !is_space(c) || c == ' '
}

/// Every character of the sequence is inline.
pub open spec fn all_inline(s: Seq<char>) -> bool {
    forall|i: int| 0 <= i < s.len() ==> inline_char(#[trigger] s[i])
}

proof fn lemma_squeeze_inline(s: Seq<char>)
    ensures
        all_inline(squeeze(s)),
    decreases s.len(),
{
    if s.len() > 0 {
        lemma_squeeze_inline(s.drop_last());
        let p = squeeze(s.drop_last());
        assert forall|i: int| 0 <= i < squeeze(s).len() implies inline_char(#[trigger] squeeze(s)[i]) by {
            if i < p.len() {
                assert(inline_char(p[i]));
            }
        }
    }
}

proof fn lemma_trim_start_inline(s: Seq<char>)
    requires
        all_inline(s),
    ensures
        all_inline(trim_start(s)),
    decreases s.len(),
{
    if s.len() > 0 && is_space(s[0]) {
        assert forall|i: int| 0 <= i < s.drop_first().len() implies inline_char(
            #[trigger] s.drop_first()[i],
        ) by {
            assert(inline_char(s[i + 1]));
        }
        lemma_trim_start_inline(s.drop_first());
    }
}

proof fn lemma_trim_end_inline(s: Seq<char>)
    requires
        all_inline(s),
    ensures
        all_inline(trim_end(s)),
    decreases s.len(),
{
    if s.len() > 0 && is_space(s.last()) {
        assert forall|i: int| 0 <= i < s.drop_last().len() implies inline_char(
            #[trigger] s.drop_last()[i],
        ) by {
            assert(inline_char(s[i]));
        }
        lemma_trim_end_inline(s.drop_last());
    }
}

proof fn lemma_escape_inline(s: Seq<char>)
    requires
        all_inline(s),
    ensures
        all_inline(escape(s)),
    decreases s.len(),
{
    if s.len() > 0 {
        assert forall|i: int| 0 <= i < s.drop_last().len() implies inline_char(
            #[trigger] s.drop_last()[i],
        ) by {
            assert(inline_char(s[i]));
        }
        lemma_escape_inline(s.drop_last());
        let e = escape(s.drop_last());
        assert(inline_char(s.last()));
        assert forall|i: int| 0 <= i < escape(s).len() implies inline_char(#[trigger] escape(s)[i]) by {
            if i < e.len() {
                assert(inline_char(e[i]));
            }
        }
    }
}

/// Upstream text escaped for markdown holds no line break nor any white
/// space other than plain spaces, so it cannot alter the structure of the
/// markdown it is inserted into.
pub proof fn lemma_escaped_text_is_inline(text: Seq<char>)
    ensures
        all_inline(escape(collapse(text))),
{
    lemma_squeeze_inline(text);
    lemma_trim_start_inline(squeeze(text));
    lemma_trim_end_inline(trim_start(squeeze(text)));
    lemma_escape_inline(collapse(text));
}

/// Upstream text escaped for markdown holds no unescaped markdown special
/// character: each is preceded by a backslash, and the character before it
/// is not an escaping backslash.
pub open spec fn all_escaped(e: Seq<char>) -> bool {
    forall|i: int|
        0 <= i < e.len() && #[trigger] is_md_special(e[i]) && e[i] != '\\' ==> i > 0 && e[i - 1]
            == '\\'
}

/// In text escaped for markdown, every markdown special character other
/// than the backslash is preceded by a backslash.
pub proof fn lemma_escape_escapes(s: Seq<char>)
    ensures
        all_escaped(escape(s)),
    decreases s.len(),
{
    if s.len() > 0 {
        lemma_escape_escapes(s.drop_last());
        let e = escape(s.drop_last());
        assert forall|i: int|
            0 <= i < escape(s).len() && #[trigger] is_md_special(escape(s)[i]) && escape(s)[i]
                != '\\' implies i > 0 && escape(s)[i - 1] == '\\' by {
            if i < e.len() {
                assert(escape(s)[i] == e[i]);
                assert(escape(s)[i - 1] == e[i - 1]);
            }
        }
    }
}

/// An identifier sanitized for inline code holds no backtick nor line
/// break.
pub proof fn lemma_code_has_no_breaking_chars(text: Seq<char>)
    ensures
        forall|i: int|
            0 <= i < text.filter(kept_in_code()).len() ==> !breaks_code(
                #[trigger] text.filter(kept_in_code())[i],
            ),
{
    broadcast use vstd::seq_lib::group_filter_ensures;

}

} // verus!
