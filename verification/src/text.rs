//! Text operations over strings as sequences of characters: comparison,
//! search and replacement, the KDL v1/v2 boolean spelling, and decimals.

use vstd::prelude::*;

verus! {

broadcast use vstd::string::group_string_axioms;

/// `String::push` appends one character.
pub assume_specification[ std::string::String::push ](string: &mut std::string::String, ch: char)
    ensures
        final(string)@ == old(string)@.push(ch),
;

// ---------------------------------------------------------------------------
// Specification of the text operations
// ---------------------------------------------------------------------------

/// `t` occurs in `s` as a contiguous block.
pub open spec fn occurs_in(t: Seq<char>, s: Seq<char>) -> bool {
    exists|i: int| 0 <= i <= s.len() - t.len() && #[trigger] s.subrange(i, i + t.len()) == t
}

/// The decimal digit character for `d` (`0 <= d < 10`).
pub open spec fn digit(d: int) -> char {
    (d + 48) as char
}

/// The decimal representation of `n`, without leading zeros.
pub open spec fn decimal(n: nat) -> Seq<char>
    decreases n,
{
    if n < 10 {
        seq![digit(n as int)]
    } else {
        decimal(n / 10).push(digit((n % 10) as int))
    }
}

/// No character of `s` is `c`.
pub open spec fn lacks(s: Seq<char>, c: char) -> bool {
    forall|i: int| 0 <= i < s.len() ==> s[i] != c
}

// ---------------------------------------------------------------------------
// Characters and comparison
// ---------------------------------------------------------------------------

/// The characters of `s`, in order.
pub fn chars_of(s: &str) -> (v: Vec<char>)
    ensures
        v@ == s@,
{
    let mut v: Vec<char> = Vec::new();
    for c in it: s.chars()
        invariant
            v@ == it.seq().take(it.index()),
            it.seq() == s@,
    {
        v.push(c);
    }
    v
}

/// A string holding exactly the characters `v`.
pub fn string_of(v: &[char]) -> (s: String)
    ensures
        s@ == v@,
{
    let mut s = String::new();
    let mut i: usize = 0;
    while i < v.len()
        invariant
            i <= v.len(),
            s@ == v@.take(i as int),
        decreases v.len() - i,
    {
        s.push(v[i]);
        i = i + 1;
        assert(s@ =~= v@.take(i as int));
    }
    assert(v@.take(v.len() as int) =~= v@);
    s
}

/// Whether the characters `a` equal the characters of `b`.
pub fn chars_eq_str(a: &[char], b: &str) -> (r: bool)
    ensures
        r == (a@ == b@),
{
    let bv = chars_of(b);
    if a.len() != bv.len() {
        return false;
    }
    let mut i: usize = 0;
    while i < a.len()
        invariant
            i <= a.len(),
            a.len() == bv.len(),
            bv@ == b@,
            forall|j: int| 0 <= j < i ==> a@[j] == bv@[j],
        decreases a.len() - i,
    {
        if a[i] != bv[i] {
            return false;
        }
        i = i + 1;
    }
    assert(a@ =~= bv@);
    true
}

/// Whether two strings hold the same characters.
pub fn str_eq(a: &str, b: &str) -> (r: bool)
    ensures
        r == (a@ == b@),
{
    let av = chars_of(a);
    chars_eq_str(av.as_slice(), b)
}

/// Whether `pat` occurs in `s` starting at position `i`.
fn matches_at(s: &[char], i: usize, pat: &[char]) -> (r: bool)
    requires
        i <= s.len(),
    ensures
        r == (i + pat.len() <= s.len() && s@.subrange(i as int, i + pat.len()) == pat@),
{
    if pat.len() > s.len() - i {
        return false;
    }
    let mut j: usize = 0;
    while j < pat.len()
        invariant
            j <= pat.len(),
            i + pat.len() <= s.len(),
            forall|k: int| 0 <= k < j ==> s@[i + k] == pat@[k],
        decreases pat.len() - j,
    {
        if s[i + j] != pat[j] {
            assert(s@.subrange(i as int, i + pat.len())[j as int] != pat@[j as int]);
            return false;
        }
        j = j + 1;
    }
    assert(s@.subrange(i as int, i + pat.len()) =~= pat@);
    true
}

/// Whether `t` occurs in `s`.
pub fn contains_str(s: &str, t: &str) -> (r: bool)
    ensures
        r == occurs_in(t@, s@),
{
    let sv = chars_of(s);
    let tv = chars_of(t);
    if tv.len() > sv.len() {
        return false;
    }
    let last = sv.len() - tv.len();
    let mut i: usize = 0;
    loop
        invariant
            sv@ == s@,
            tv@ == t@,
            last == s@.len() - t@.len(),
            i <= last,
            forall|j: int| 0 <= j < i ==> #[trigger] s@.subrange(j, j + t@.len()) != t@,
        decreases last - i,
    {
        if matches_at(sv.as_slice(), i, tv.as_slice()) {
            return true;
        }
        if i == last {
            assert forall|j: int| 0 <= j <= s@.len() - t@.len() implies #[trigger] s@.subrange(
                j,
                j + t@.len(),
            ) != t@ by {
                assert(j <= i);
            }
            return false;
        }
        i = i + 1;
    }
}

// ---------------------------------------------------------------------------
// KDL v1 <-> v2 boolean spelling
// ---------------------------------------------------------------------------
// The compositor's parser reads KDL v1, whose booleans are `true`/`false`;
// the document model is read and printed as KDL v2, where they are
// `#true`/`#false`. The two spellings are bridged for property values, that
// is for a boolean directly after `=`.

/// `c` stands directly before a property value: `=`.
pub open spec fn before_value(c: char) -> bool {
    c == '='
}

/// `s` starts with the word `true` or `false`.
pub open spec fn starts_bool(s: Seq<char>) -> bool {
    (s.len() >= 4 && s.take(4) == "true"@) || (s.len() >= 5 && s.take(5) == "false"@)
}

/// A KDL v1 boolean property value starts at `i`: `=`, then `true` or
/// `false`.
pub open spec fn v1_bool_at(s: Seq<char>, i: int) -> bool {
    0 <= i < s.len() && before_value(s[i]) && starts_bool(s.skip(i + 1))
}

/// A KDL v2 boolean property value starts at `i`: `=`, `#`, then `true` or
/// `false`.
pub open spec fn v2_bool_at(s: Seq<char>, i: int) -> bool {
    0 <= i && i + 1 < s.len() && before_value(s[i]) && s[i + 1] == '#' && starts_bool(
        s.skip(i + 2),
    )
}

/// `s` spells no KDL v1 boolean property value (`=true`, `=false`).
pub open spec fn no_v1_bool(s: Seq<char>) -> bool {
    forall|i: int| !#[trigger] v1_bool_at(s, i)
}

/// `s` spells no KDL v2 boolean property value (`=#true`, `=#false`).
pub open spec fn no_v2_bool(s: Seq<char>) -> bool {
    forall|i: int| !#[trigger] v2_bool_at(s, i)
}

/// What `kdl_v1_to_v2` makes of `s`: each `=true` becomes `=#true` and each
/// `=false` becomes `=#false`.
pub open spec fn spec_v1_to_v2(s: Seq<char>) -> Seq<char>
    decreases s.len(),
{
    if s.len() == 0 {
        Seq::empty()
    } else if before_value(s[0]) && starts_bool(s.skip(1)) {
        seq![s[0], '#'] + spec_v1_to_v2(s.skip(1))
    } else {
        seq![s[0]] + spec_v1_to_v2(s.skip(1))
    }
}

/// What `kdl_v2_to_v1` makes of `s`: each `=#true` becomes `=true` and each
/// `=#false` becomes `=false`.
pub open spec fn spec_v2_to_v1(s: Seq<char>) -> Seq<char>
    decreases s.len(),
{
    if s.len() == 0 {
        Seq::empty()
    } else if s.len() >= 2 && before_value(s[0]) && s[1] == '#' && starts_bool(s.skip(2)) {
        seq![s[0]] + spec_v2_to_v1(s.skip(2))
    } else {
        seq![s[0]] + spec_v2_to_v1(s.skip(1))
    }
}

/// Whether the characters of `v` from `i` on start with `true` or `false`.
fn bool_word_at(v: &[char], i: usize) -> (r: bool)
    requires
        i <= v.len(),
    ensures
        r == starts_bool(v@.skip(i as int)),
{
    proof {
        reveal_strlit("true");
        reveal_strlit("false");
    }
    let n = v.len() - i;
    let t = n >= 4 && v[i] == 't' && v[i + 1] == 'r' && v[i + 2] == 'u' && v[i + 3] == 'e';
    let f = n >= 5 && v[i] == 'f' && v[i + 1] == 'a' && v[i + 2] == 'l' && v[i + 3] == 's' && v[i
        + 4] == 'e';
    let ghost w = v@.skip(i as int);
    assert(t == (w.len() >= 4 && w.take(4) == "true"@)) by {
        if w.len() >= 4 && w.take(4) == "true"@ {
            assert(w.take(4)[0] == 't' && w.take(4)[1] == 'r' && w.take(4)[2] == 'u' && w.take(4)[3]
                == 'e');
        }
        if t {
            assert(w.take(4) =~= "true"@);
        }
    }
    assert(f == (w.len() >= 5 && w.take(5) == "false"@)) by {
        if w.len() >= 5 && w.take(5) == "false"@ {
            assert(w.take(5)[0] == 'f' && w.take(5)[1] == 'a' && w.take(5)[2] == 'l' && w.take(5)[3]
                == 's' && w.take(5)[4] == 'e');
        }
        if f {
            assert(w.take(5) =~= "false"@);
        }
    }
    t || f
}

/// Rewrites KDL v1 boolean property values to their KDL v2 spelling.
pub fn kdl_v1_to_v2(content: &str) -> (r: String)
    ensures
        r@ == spec_v1_to_v2(content@),
        no_v1_bool(r@),
{
    let v = chars_of(content);
    let mut out = String::new();
    let mut i: usize = 0;
    assert(v@.skip(0) =~= v@);
    while i < v.len()
        invariant
            i <= v.len(),
            v@ == content@,
            out@ + spec_v1_to_v2(v@.skip(i as int)) == spec_v1_to_v2(content@),
        decreases v.len() - i,
    {
        let ghost before = out@;
        let ghost rest = v@.skip(i as int);
        assert(rest.skip(1) =~= v@.skip(i + 1));
        assert(rest[0] == v@[i as int]);
        let c = v[i];
        out.push(c);
        if c == '=' && bool_word_at(v.as_slice(), i + 1) {
            out.push('#');
            assert(out@ =~= before + seq![c, '#']);
        }
        assert(out@ + spec_v1_to_v2(v@.skip(i + 1)) =~= before + spec_v1_to_v2(rest));
        i = i + 1;
    }
    assert(v@.skip(i as int) =~= Seq::<char>::empty());
    assert(out@ =~= out@ + Seq::<char>::empty());
    proof {
        lemma_v1_to_v2_leaves_no_v1_bool(content@);
    }
    out
}

/// Rewrites KDL v2 boolean property values to their KDL v1 spelling; the
/// result spells no KDL v2 boolean property value.
pub fn kdl_v2_to_v1(content: &str) -> (r: String)
    ensures
        r@ == spec_v2_to_v1(content@),
        no_v2_bool(r@),
{
    let v = chars_of(content);
    let mut out = String::new();
    let mut i: usize = 0;
    assert(v@.skip(0) =~= v@);
    while i < v.len()
        invariant
            i <= v.len(),
            v@ == content@,
            out@ + spec_v2_to_v1(v@.skip(i as int)) == spec_v2_to_v1(content@),
        decreases v.len() - i,
    {
        let ghost before = out@;
        let ghost rest = v@.skip(i as int);
        assert(rest.skip(1) =~= v@.skip(i + 1));
        assert(rest[0] == v@[i as int]);
        let c = v[i];
        out.push(c);
        if i + 1 < v.len() && c == '=' && v[i + 1] == '#' && bool_word_at(
            v.as_slice(),
            i + 2,
        ) {
            assert(rest.skip(2) =~= v@.skip(i + 2));
            assert(rest[1] == v@[i + 1]);
            assert(out@ + spec_v2_to_v1(v@.skip(i + 2)) =~= before + spec_v2_to_v1(rest));
            i = i + 2;
        } else {
            proof {
                if rest.len() >= 2 {
                    assert(rest.skip(2) =~= v@.skip(i + 2));
                    assert(rest[1] == v@[i + 1]);
                }
            }
            assert(out@ + spec_v2_to_v1(v@.skip(i + 1)) =~= before + spec_v2_to_v1(rest));
            i = i + 1;
        }
    }
    assert(v@.skip(i as int) =~= Seq::<char>::empty());
    assert(out@ =~= out@ + Seq::<char>::empty());
    proof {
        lemma_v2_to_v1_leaves_no_v2_bool(content@);
    }
    out
}

// ---------------------------------------------------------------------------
// Proofs about the boolean rewrites
// ---------------------------------------------------------------------------

/// `t` holds no `=`.
pub open spec fn plain_word(t: Seq<char>) -> bool {
    forall|i: int| 0 <= i < t.len() ==> !before_value(#[trigger] t[i])
}

proof fn lemma_words_plain()
    ensures
        plain_word("true"@),
        plain_word("false"@),
        "true"@.len() == 4,
        "false"@.len() == 5,
        "true"@[0] == 't',
        "false"@[0] == 'f',
{
    reveal_strlit("true");
    reveal_strlit("false");
}

/// The v1-to-v2 rewrite keeps a leading plain word, and only makes one.
pub proof fn lemma_v1_to_v2_prefix(u: Seq<char>, t: Seq<char>)
    requires
        plain_word(t),
    ensures
        (spec_v1_to_v2(u).len() >= t.len() && spec_v1_to_v2(u).take(t.len() as int) == t) == (u.len()
            >= t.len() && u.take(t.len() as int) == t),
    decreases t.len(),
{
    let o = spec_v1_to_v2(u);
    if t.len() > 0 && u.len() > 0 {
        assert(!before_value(t[0]));
        if before_value(u[0]) {
            if o.len() >= t.len() && o.take(t.len() as int) == t {
                assert(o.take(t.len() as int)[0] == o[0]);
            }
            if u.len() >= t.len() && u.take(t.len() as int) == t {
                assert(u.take(t.len() as int)[0] == u[0]);
            }
        } else {
            let t1 = t.skip(1);
            assert(plain_word(t1)) by {
                assert forall|i: int| 0 <= i < t1.len() implies !before_value(#[trigger] t1[i]) by {
                    assert(t1[i] == t[i + 1]);
                }
            }
            lemma_v1_to_v2_prefix(u.skip(1), t1);
            let o1 = spec_v1_to_v2(u.skip(1));
            assert(o == seq![u[0]] + o1);
            if o.len() >= t.len() && o.take(t.len() as int) == t {
                assert(o1.take(t1.len() as int) =~= o.take(t.len() as int).skip(1));
                assert(o.take(t.len() as int)[0] == u[0]);
                assert(u.take(t.len() as int) =~= seq![u[0]] + u.skip(1).take(t1.len() as int));
                assert(t =~= seq![t[0]] + t1);
            }
            if u.len() >= t.len() && u.take(t.len() as int) == t {
                assert(u.skip(1).take(t1.len() as int) =~= u.take(t.len() as int).skip(1));
                assert(u.take(t.len() as int)[0] == u[0]);
                assert(o.take(t.len() as int) =~= seq![u[0]] + o1.take(t1.len() as int));
                assert(t =~= seq![t[0]] + t1);
            }
        }
    } else if t.len() > 0 {
        assert(o.len() == 0);
    } else {
        assert(o.take(0) =~= t);
        assert(u.take(0) =~= t);
    }
}

/// The v2-to-v1 rewrite keeps a leading plain word, and only makes one.
pub proof fn lemma_v2_to_v1_prefix(u: Seq<char>, t: Seq<char>)
    requires
        plain_word(t),
    ensures
        (spec_v2_to_v1(u).len() >= t.len() && spec_v2_to_v1(u).take(t.len() as int) == t) == (u.len()
            >= t.len() && u.take(t.len() as int) == t),
    decreases t.len(),
{
    let o = spec_v2_to_v1(u);
    if t.len() > 0 && u.len() > 0 {
        assert(!before_value(t[0]));
        if before_value(u[0]) {
            if o.len() >= t.len() && o.take(t.len() as int) == t {
                assert(o.take(t.len() as int)[0] == o[0]);
            }
            if u.len() >= t.len() && u.take(t.len() as int) == t {
                assert(u.take(t.len() as int)[0] == u[0]);
            }
        } else {
            let t1 = t.skip(1);
            assert(plain_word(t1)) by {
                assert forall|i: int| 0 <= i < t1.len() implies !before_value(#[trigger] t1[i]) by {
                    assert(t1[i] == t[i + 1]);
                }
            }
            lemma_v2_to_v1_prefix(u.skip(1), t1);
            let o1 = spec_v2_to_v1(u.skip(1));
            assert(o == seq![u[0]] + o1);
            if o.len() >= t.len() && o.take(t.len() as int) == t {
                assert(o1.take(t1.len() as int) =~= o.take(t.len() as int).skip(1));
                assert(o.take(t.len() as int)[0] == u[0]);
                assert(u.take(t.len() as int) =~= seq![u[0]] + u.skip(1).take(t1.len() as int));
                assert(t =~= seq![t[0]] + t1);
            }
            if u.len() >= t.len() && u.take(t.len() as int) == t {
                assert(u.skip(1).take(t1.len() as int) =~= u.take(t.len() as int).skip(1));
                assert(u.take(t.len() as int)[0] == u[0]);
                assert(o.take(t.len() as int) =~= seq![u[0]] + o1.take(t1.len() as int));
                assert(t =~= seq![t[0]] + t1);
            }
        }
    } else if t.len() > 0 {
        assert(o.len() == 0);
    } else {
        assert(o.take(0) =~= t);
        assert(u.take(0) =~= t);
    }
}

/// Both rewrites see a boolean word in their output exactly where one
/// stood in their input.
pub proof fn lemma_starts_bool_kept(u: Seq<char>)
    ensures
        starts_bool(spec_v1_to_v2(u)) == starts_bool(u),
        starts_bool(spec_v2_to_v1(u)) == starts_bool(u),
{
    lemma_words_plain();
    lemma_v1_to_v2_prefix(u, "true"@);
    lemma_v1_to_v2_prefix(u, "false"@);
    lemma_v2_to_v1_prefix(u, "true"@);
    lemma_v2_to_v1_prefix(u, "false"@);
}

/// The v1-to-v2 rewrite leaves no KDL v1 boolean.
pub proof fn lemma_v1_to_v2_leaves_no_v1_bool(s: Seq<char>)
    ensures
        no_v1_bool(spec_v1_to_v2(s)),
    decreases s.len(),
{
    let o = spec_v1_to_v2(s);
    if s.len() > 0 {
        let w = s.skip(1);
        lemma_v1_to_v2_leaves_no_v1_bool(w);
        let x = spec_v1_to_v2(w);
        if before_value(s[0]) && starts_bool(w) {
            assert(o == seq![s[0], '#'] + x);
            assert forall|i: int| !#[trigger] v1_bool_at(o, i) by {
                if i >= 2 && i < o.len() {
                    assert(o[i] == x[i - 2]);
                    assert(o.skip(i + 1) =~= x.skip(i - 1));
                    assert(!v1_bool_at(x, i - 2));
                } else if i == 0 {
                    lemma_words_plain();
                    assert(o.skip(1)[0] == '#');
                    if o.skip(1).len() >= 4 && o.skip(1).take(4) == "true"@ {
                        assert(o.skip(1).take(4)[0] == '#');
                    }
                    if o.skip(1).len() >= 5 && o.skip(1).take(5) == "false"@ {
                        assert(o.skip(1).take(5)[0] == '#');
                    }
                } else if i == 1 {
                    assert(o[1] == '#');
                }
            }
        } else {
            assert(o == seq![s[0]] + x);
            assert forall|i: int| !#[trigger] v1_bool_at(o, i) by {
                if i >= 1 && i < o.len() {
                    assert(o[i] == x[i - 1]);
                    assert(o.skip(i + 1) =~= x.skip(i));
                    assert(!v1_bool_at(x, i - 1));
                } else if i == 0 {
                    assert(o.skip(1) =~= x);
                    lemma_starts_bool_kept(w);
                }
            }
        }
    }
}

/// The v2-to-v1 rewrite leaves no KDL v2 boolean.
pub proof fn lemma_v2_to_v1_leaves_no_v2_bool(s: Seq<char>)
    ensures
        no_v2_bool(spec_v2_to_v1(s)),
    decreases s.len(),
{
    let o = spec_v2_to_v1(s);
    if s.len() > 0 {
        if s.len() >= 2 && before_value(s[0]) && s[1] == '#' && starts_bool(s.skip(2)) {
            let w = s.skip(2);
            lemma_v2_to_v1_leaves_no_v2_bool(w);
            let y = spec_v2_to_v1(w);
            assert(o == seq![s[0]] + y);
            assert forall|i: int| !#[trigger] v2_bool_at(o, i) by {
                if i >= 1 && i + 1 < o.len() {
                    assert(o[i] == y[i - 1]);
                    assert(o[i + 1] == y[i]);
                    assert(o.skip(i + 2) =~= y.skip(i + 1));
                    assert(!v2_bool_at(y, i - 1));
                } else if i == 0 && o.len() >= 2 {
                    lemma_words_plain();
                    assert(w.len() > 0) by {
                        if w.len() >= 4 && w.take(4) == "true"@ {
                        }
                    }
                    if w.len() >= 4 && w.take(4) == "true"@ {
                        assert(w.take(4)[0] == w[0]);
                    } else {
                        assert(w.take(5)[0] == w[0]);
                    }
                    assert(y[0] == w[0]);
                    assert(o[1] == y[0]);
                }
            }
        } else {
            let w = s.skip(1);
            lemma_v2_to_v1_leaves_no_v2_bool(w);
            let y = spec_v2_to_v1(w);
            assert(o == seq![s[0]] + y);
            assert forall|i: int| !#[trigger] v2_bool_at(o, i) by {
                if i >= 1 && i + 1 < o.len() {
                    assert(o[i] == y[i - 1]);
                    assert(o[i + 1] == y[i]);
                    assert(o.skip(i + 2) =~= y.skip(i + 1));
                    assert(!v2_bool_at(y, i - 1));
                } else if i == 0 && o.len() >= 2 && before_value(s[0]) {
                    assert(o[1] == y[0]);
                    assert(y[0] == w[0]);
                    if w[0] == '#' {
                        assert(w.len() < 2 || !(before_value(w[0]) && w[1] == '#'));
                        let z = w.skip(1);
                        assert(z =~= s.skip(2));
                        assert(y == seq![w[0]] + spec_v2_to_v1(z));
                        assert(o.skip(2) =~= spec_v2_to_v1(z));
                        lemma_starts_bool_kept(z);
                    }
                }
            }
        }
    }
}

// ---------------------------------------------------------------------------
// Decimal numbers
// ---------------------------------------------------------------------------

/// The decimal digit character for `d`.
fn digit_char(d: u8) -> (c: char)
    requires
        d < 10,
    ensures
        c == digit(d as int),
{
    ((d + 48) as char)
}

/// Appends the decimal representation of `n` to `out`.
pub fn push_decimal(out: &mut String, n: u8)
    ensures
        final(out)@ == old(out)@ + decimal(n as nat),
{
    if n >= 100 {
        out.push(digit_char(n / 100));
    }
    if n >= 10 {
        out.push(digit_char((n / 10) % 10));
    }
    out.push(digit_char(n % 10));
    proof {
        lemma_decimal_u8(n);
    }
    assert(final(out)@ =~= old(out)@ + decimal(n as nat));
}

/// The shape of `decimal(n)` for a byte.
pub proof fn lemma_decimal_u8(n: u8)
    ensures
        n < 10 ==> decimal(n as nat) == seq![digit(n as int)],
        10 <= n < 100 ==> decimal(n as nat) == seq![digit((n / 10) as int), digit((n % 10) as int)],
        100 <= n ==> decimal(n as nat) == seq![
            digit((n / 100) as int),
            digit(((n / 10) % 10) as int),
            digit((n % 10) as int),
        ],
{
    if n >= 10 {
        assert(decimal(n as nat) == decimal((n / 10) as nat).push(digit((n % 10) as int)));
        if n >= 100 {
            assert(decimal((n / 10) as nat) == decimal((n / 100) as nat).push(
                digit(((n / 10) % 10) as int),
            ));
            assert(n / 10 / 10 == n / 100);
        }
    }
}

} // verus!
