//! Text helpers over `String` and `str`: the comparisons the rest of the
//! library decides on.
use vstd::prelude::*;

verus! {

/// Whether two path strings name the same filesystem path, as
/// `std::path::Path`'s equality decides it (component-wise: `a/b`,
/// `a//b` and `a/b/` are the same path, `./a` and `a` are not).
pub uninterp spec fn path_eq(a: Seq<char>, b: Seq<char>) -> bool;

/// Compares two paths with `<std::path::Path as PartialEq>::eq`.
/// Claims that the answer is the named relation `path_eq` of the
/// two strings (what that relation is lies with std), and that a path
/// equals itself (`Path: Eq`).
#[verifier::external_body]
pub(crate) fn same_path(a: &str, b: &str) -> (r: bool)
    ensures
        r == path_eq(a@, b@),
        a@ == b@ ==> r,
{
    std::path::Path::new(a) == std::path::Path::new(b)
}


/// `sub` occurs in `s` starting at position `i`.
pub open spec fn occurs_at(s: Seq<char>, sub: Seq<char>, i: int) -> bool {
    0 <= i && i + sub.len() <= s.len() && s.subrange(i, i + sub.len()) == sub
}

/// `sub` occurs somewhere in `s`.
pub open spec fn seq_contains(s: Seq<char>, sub: Seq<char>) -> bool {
    exists|i: int| #[trigger] occurs_at(s, sub, i)
}

/// `prefix` is a prefix of `s`.
pub open spec fn seq_starts_with(s: Seq<char>, prefix: Seq<char>) -> bool {
    occurs_at(s, prefix, 0)
}

/// The characters of a string, in order.
pub fn chars_of(s: &str) -> (r: Vec<char>)
    ensures
        r@ == s@,
{
    let n = s.unicode_len();
    let mut r: Vec<char> = Vec::new();
    let mut i: usize = 0;
    while i < n
        invariant
            n == s@.len(),
            i <= n,
            r@ == s@.take(i as int),
        decreases n - i,
    {
        r.push(s.get_char(i));
        i = i + 1;
        proof {
            assert(r@ =~= s@.take(i as int));
        }
    }
    proof {
        assert(s@.take(n as int) =~= s@);
    }
    r
}

/// Whether `sub` occurs in `s` at position `i` (character positions).
fn occurs_at_exec(s: &Vec<char>, sub: &Vec<char>, i: usize) -> (r: bool)
    ensures
        r == occurs_at(s@, sub@, i as int),
{
    if sub.len() > s.len() || i > s.len() - sub.len() {
        return false;
    }
    let mut k: usize = 0;
    while k < sub.len()
        invariant
            i + sub@.len() <= s@.len() <= usize::MAX,
            k <= sub@.len(),
            forall|m: int| 0 <= m < k ==> s@[i + m] == sub@[m],
        decreases sub@.len() - k,
    {
        if s[i + k] != sub[k] {
            proof {
                assert(s@.subrange(i as int, i + sub@.len())[k as int] != sub@[k as int]);
            }
            return false;
        }
        k = k + 1;
    }
    proof {
        assert(s@.subrange(i as int, i + sub@.len()) =~= sub@);
    }
    true
}

/// Whether `sub` occurs in `s`.
pub fn contains(s: &str, sub: &str) -> (r: bool)
    ensures
        r == seq_contains(s@, sub@),
{
    let cs = chars_of(s);
    let csub = chars_of(sub);
    if csub.len() > cs.len() {
        proof {
            assert forall|i: int| !#[trigger] occurs_at(s@, sub@, i) by {}
        }
        return false;
    }
    let last = cs.len() - csub.len();
    let mut i: usize = 0;
    loop
        invariant_except_break
            cs@ == s@,
            csub@ == sub@,
            last == s@.len() - sub@.len(),
            i <= last,
            forall|j: int| 0 <= j < i ==> !#[trigger] occurs_at(s@, sub@, j),
        ensures
            forall|j: int| 0 <= j <= last ==> !#[trigger] occurs_at(s@, sub@, j),
        decreases last - i,
    {
        if occurs_at_exec(&cs, &csub, i) {
            return true;
        }
        if i == last {
            break;
        }
        i = i + 1;
    }
    proof {
        assert forall|j: int| !#[trigger] occurs_at(s@, sub@, j) by {
            if j > last {
                assert(j + sub@.len() > s@.len());
            }
        }
    }
    false
}

/// Whether `s` begins with `prefix`.
pub fn starts_with(s: &str, prefix: &str) -> (r: bool)
    ensures
        r == seq_starts_with(s@, prefix@),
{
    let cs = chars_of(s);
    let cp = chars_of(prefix);
    occurs_at_exec(&cs, &cp, 0)
}

/// A copy of a list of strings.
pub fn copy_strings(v: &Vec<String>) -> (r: Vec<String>)
    ensures
        r.deep_view() == v.deep_view(),
{
    let mut out: Vec<String> = Vec::new();
    let mut i: usize = 0;
    while i < v.len()
        invariant
            i <= v@.len(),
            out@.len() == i,
            forall|j: int| 0 <= j < i ==> #[trigger] out@[j]@ == v@[j]@,
        decreases v@.len() - i,
    {
        out.push(v[i].clone());
        i = i + 1;
    }
    proof {
        assert(out.deep_view() =~= v.deep_view());
    }
    out
}

/// Whether two strings are equal.
pub fn str_eq(a: &str, b: &str) -> (r: bool)
    ensures
        r == (a@ == b@),
{
    let ca = chars_of(a);
    let cb = chars_of(b);
    if ca.len() != cb.len() {
        return false;
    }
    let r = occurs_at_exec(&ca, &cb, 0);
    proof {
        assert(a@.subrange(0, b@.len() as int) =~= a@);
    }
    r
}

/// `a` followed by `b`.
pub fn concat2(a: &str, b: &str) -> (r: String)
    ensures
        r@ == a@ + b@,
{
    let mut r = String::from_str(a);
    r.append(b);
    r
}

/// `a`, `b` and `c` in a row.
pub fn concat3(a: &str, b: &str, c: &str) -> (r: String)
    ensures
        r@ == a@ + b@ + c@,
{
    let mut r = String::from_str(a);
    r.append(b);
    r.append(c);
    r
}

/// `a` sorts before `b` in `String`'s order: at the first position where
/// they differ `a` has the smaller character, or `a` is a proper prefix
/// of `b`.
pub open spec fn seq_lt(a: Seq<char>, b: Seq<char>) -> bool {
    exists|k: int| #[trigger] lt_at(a, b, k)
}

/// `a` and `b` agree before `k`, and `k` decides `a < b`.
pub open spec fn lt_at(a: Seq<char>, b: Seq<char>, k: int) -> bool {
    &&& 0 <= k <= a.len()
    &&& k <= b.len()
    &&& a.take(k) == b.take(k)
    &&& ((k == a.len() && k < b.len()) || (k < a.len() && k < b.len() && a[k] < b[k]))
}

/// A sequence of strings in strictly increasing order.
pub open spec fn strictly_sorted(s: Seq<Seq<char>>) -> bool {
    forall|i: int, j: int| 0 <= i < j < s.len() ==> seq_lt(#[trigger] s[i], #[trigger] s[j])
}

proof fn lemma_prefix_agree(a: Seq<char>, b: Seq<char>, k: int, m: int)
    requires
        0 <= m < k <= a.len(),
        k <= b.len(),
        a.take(k) == b.take(k),
    ensures
        a[m] == b[m],
{
    assert(a.take(k)[m] == b.take(k)[m]);
    assert(a.take(k)[m] == a[m]);
    assert(b.take(k)[m] == b[m]);
}

/// The deciding position of `a < b` is unique.
proof fn lemma_lt_at_unique(a: Seq<char>, b: Seq<char>, k1: int, k2: int)
    requires
        lt_at(a, b, k1),
        k1 < k2 <= a.len(),
        k2 <= b.len(),
    ensures
        a.take(k2) != b.take(k2),
{
    if a.take(k2) == b.take(k2) {
        lemma_prefix_agree(a, b, k2, k1);
    }
}

pub proof fn lemma_lt_irreflexive(a: Seq<char>)
    ensures
        !seq_lt(a, a),
{
}

pub proof fn lemma_lt_asymmetric(a: Seq<char>, b: Seq<char>)
    requires
        seq_lt(a, b),
    ensures
        !seq_lt(b, a),
{
    let k1 = choose|k: int| #[trigger] lt_at(a, b, k);
    if seq_lt(b, a) {
        let k2 = choose|k: int| #[trigger] lt_at(b, a, k);
        if k1 < k2 {
            assert(a.take(k2) == b.take(k2));
            lemma_lt_at_unique(a, b, k1, k2);
        } else if k2 < k1 {
            lemma_lt_at_unique(b, a, k2, k1);
        }
    }
}

pub proof fn lemma_lt_transitive(a: Seq<char>, b: Seq<char>, c: Seq<char>)
    requires
        seq_lt(a, b),
        seq_lt(b, c),
    ensures
        seq_lt(a, c),
{
    let k1 = choose|k: int| #[trigger] lt_at(a, b, k);
    let k2 = choose|k: int| #[trigger] lt_at(b, c, k);
    let k = if k1 <= k2 {
        k1
    } else {
        k2
    };
    assert(a.take(k) =~= c.take(k)) by {
        assert forall|m: int| 0 <= m < k implies a.take(k)[m] == c.take(k)[m] by {
            lemma_prefix_agree(a, b, k1, m);
            lemma_prefix_agree(b, c, k2, m);
        }
    }
    if k1 < k2 {
        lemma_prefix_agree(b, c, k2, k1);
    } else if k2 < k1 {
        lemma_prefix_agree(a, b, k1, k2);
    }
    assert(lt_at(a, c, k));
}

/// Two different strings are ordered one way or the other.
pub proof fn lemma_lt_total(a: Seq<char>, b: Seq<char>)
    requires
        a != b,
    ensures
        seq_lt(a, b) || seq_lt(b, a),
{
    assert(a.take(0) =~= b.take(0));
    let k = first_difference(a, b, 0);
    if k < a.len() && k < b.len() {
        if a[k] < b[k] {
            assert(lt_at(a, b, k));
        } else {
            assert(b.take(k) == a.take(k));
            assert(lt_at(b, a, k));
        }
    } else if k == a.len() && k < b.len() {
        assert(lt_at(a, b, k));
    } else if k == b.len() && k < a.len() {
        assert(lt_at(b, a, k));
    } else {
        assert(a =~= a.take(k));
        assert(b =~= b.take(k));
    }
}

/// The first position from `from` on where `a` and `b` differ or one ends.
proof fn first_difference(a: Seq<char>, b: Seq<char>, from: int) -> (k: int)
    requires
        0 <= from <= a.len(),
        from <= b.len(),
        a.take(from) == b.take(from),
    ensures
        from <= k <= a.len(),
        k <= b.len(),
        a.take(k) == b.take(k),
        k < a.len() && k < b.len() ==> a[k] != b[k],
    decreases a.len() - from,
{
    if from < a.len() && from < b.len() && a[from] == b[from] {
        assert(a.take(from + 1) =~= a.take(from).push(a[from]));
        assert(b.take(from + 1) =~= b.take(from).push(b[from]));
        first_difference(a, b, from + 1)
    } else {
        from
    }
}

/// Whether `a` sorts before `b`.
pub fn chars_lt(a: &Vec<char>, b: &Vec<char>) -> (r: bool)
    ensures
        r == seq_lt(a@, b@),
{
    let mut k: usize = 0;
    while k < a.len() && k < b.len() && a[k] == b[k]
        invariant
            k <= a@.len(),
            k <= b@.len(),
            a@.take(k as int) == b@.take(k as int),
        decreases a@.len() - k,
    {
        proof {
            assert(a@.take(k + 1) =~= a@.take(k as int).push(a@[k as int]));
            assert(b@.take(k + 1) =~= b@.take(k as int).push(b@[k as int]));
        }
        k = k + 1;
    }
    let r = if k < a.len() && k < b.len() {
        a[k] < b[k]
    } else {
        k == a.len() && k < b.len()
    };
    proof {
        if r {
            assert(lt_at(a@, b@, k as int));
        } else {
            assert forall|j: int| !#[trigger] lt_at(a@, b@, j) by {
                if lt_at(a@, b@, j) {
                    if j < k {
                        lemma_lt_at_unique(a@, b@, j, k as int);
                    } else if j > k {
                        lemma_prefix_agree(a@, b@, j, k as int);
                    }
                }
            }
        }
    }
    r
}

/// The strings in increasing order. They must be distinct.
pub fn sort_distinct(items: Vec<String>) -> (r: Vec<String>)
    requires
        forall|i: int, j: int| 0 <= i < j < items@.len() ==> items@[i]@ != items@[j]@,
    ensures
        r@.len() == items@.len(),
        strictly_sorted(r.deep_view()),
        forall|i: int| 0 <= i < items@.len() ==> r.deep_view().contains(#[trigger] items@[i]@),
        forall|i: int| 0 <= i < r@.len() ==> items.deep_view().contains(#[trigger] r@[i]@),
{
    let n = items.len();
    let mut out: Vec<String> = Vec::new();
    let mut keys: Vec<Vec<char>> = Vec::new();
    let mut i: usize = 0;
    while i < n
        invariant
            n == items@.len(),
            i <= n,
            forall|a: int, b: int| 0 <= a < b < items@.len() ==> items@[a]@ != items@[b]@,
            out@.len() == i,
            keys@.len() == i,
            forall|m: int| 0 <= m < i ==> #[trigger] keys@[m]@ == out@[m]@,
            strictly_sorted(out.deep_view()),
            forall|m: int| 0 <= m < i ==> out.deep_view().contains(#[trigger] items@[m]@),
            forall|m: int| 0 <= m < i ==> items.deep_view().take(i as int).contains(#[trigger] out@[m]@),
        decreases n - i,
    {
        let item = items[i].clone();
        let key = chars_of(item.as_str());
        // the first position whose string sorts after the new one
        let mut p: usize = 0;
        while p < out.len() && !chars_lt(&key, &keys[p])
            invariant
                p <= out@.len(),
                out@.len() == keys@.len(),
                key@ == item@,
                forall|m: int| 0 <= m < keys@.len() ==> #[trigger] keys@[m]@ == out@[m]@,
                forall|m: int| 0 <= m < p ==> !seq_lt(item@, #[trigger] out@[m]@),
            decreases out@.len() - p,
        {
            p = p + 1;
        }
        let ghost before = out.deep_view();
        proof {
            // the new string differs from every string placed so far
            assert forall|m: int| 0 <= m < out@.len() implies #[trigger] out@[m]@ != item@ by {
                assert(items.deep_view().take(i as int).contains(out@[m]@));
                let a = choose|a: int| 0 <= a < i && #[trigger] items.deep_view().take(i as int)[a] == out@[m]@;
                assert(items@[a]@ == out@[m]@);
            }
            assert forall|m: int| 0 <= m < p implies seq_lt(#[trigger] before[m], item@) by {
                assert(before[m] == out@[m]@);
                lemma_lt_total(before[m], item@);
            }
            assert forall|m: int| p <= m < before.len() implies seq_lt(item@, #[trigger] before[m]) by {
                assert(seq_lt(item@, before[p as int]));
                if m > p {
                    assert(seq_lt(before[p as int], before[m]));
                    lemma_lt_transitive(item@, before[p as int], before[m]);
                }
            }
        }
        out.insert(p, item);
        keys.insert(p, key);
        proof {
            assert(out.deep_view() =~= before.insert(p as int, items@[i as int]@));
            assert forall|a: int, b: int| 0 <= a < b < out.deep_view().len() implies seq_lt(
                #[trigger] out.deep_view()[a],
                #[trigger] out.deep_view()[b],
            ) by {
                if a < p && b < p {
                } else if a < p && b == p {
                } else if a < p && b > p {
                    assert(seq_lt(before[a], before[b - 1]));
                } else if a == p {
                } else {
                    assert(seq_lt(before[a - 1], before[b - 1]));
                }
            }
            assert(items.deep_view().take(i + 1) =~= items.deep_view().take(i as int).push(items@[i as int]@));
            assert forall|m: int| 0 <= m < i + 1 implies out.deep_view().contains(#[trigger] items@[m]@) by {
                if m < i {
                    let q = choose|q: int| 0 <= q < before.len() && before[q] == items@[m]@;
                    if q < p {
                        assert(out.deep_view()[q] == items@[m]@);
                    } else {
                        assert(out.deep_view()[q + 1] == items@[m]@);
                    }
                } else {
                    assert(out.deep_view()[p as int] == items@[m]@);
                }
            }
            assert forall|m: int| 0 <= m < i + 1 implies items.deep_view().take(i + 1).contains(#[trigger] out@[m]@) by {
                if m < p {
                    assert(out@[m]@ == before[m]);
                    assert(items.deep_view().take(i as int).contains(before[m]));
                    let a = choose|a: int| 0 <= a < i && items.deep_view().take(i as int)[a] == before[m];
                    assert(items.deep_view().take(i + 1)[a] == before[m]);
                } else if m == p {
                    assert(items.deep_view().take(i + 1)[i as int] == out@[m]@);
                } else {
                    assert(out@[m]@ == before[m - 1]);
                    assert(items.deep_view().take(i as int).contains(before[m - 1]));
                    let a = choose|a: int| 0 <= a < i && items.deep_view().take(i as int)[a] == before[m - 1];
                    assert(items.deep_view().take(i + 1)[a] == before[m - 1]);
                }
            }
        }
        i = i + 1;
    }
    proof {
        assert(items.deep_view().take(n as int) =~= items.deep_view());
    }
    out
}

} // verus!
