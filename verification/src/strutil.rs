use vstd::prelude::*;
use vstd::string::StrSliceExecFns;
use vstd::string::StringExecFns;

verus! {

/// The three given pieces, joined.
pub fn concat3(a: &str, b: &str, c: &str) -> (r: String)
    ensures
        r@ == a@ + b@ + c@,
{
    String::from_str(a).concat(b).concat(c)
}

/// The four given pieces, joined.
pub fn concat4(a: &str, b: &str, c: &str, d: &str) -> (r: String)
    ensures
        r@ == a@ + b@ + c@ + d@,
{
    String::from_str(a).concat(b).concat(c).concat(d)
}

/// Strict lexicographic order on character sequences, by code point.
pub open spec fn lex_lt(a: Seq<char>, b: Seq<char>) -> bool
    decreases a.len(),
{
    if b.len() == 0 {
        false
    } else if a.len() == 0 {
        true
    } else if (a[0] as u32) < (b[0] as u32) {
        true
    } else if a[0] == b[0] {
        lex_lt(a.skip(1), b.skip(1))
    } else {
        false
    }
}

/// Reflexive closure of `lex_lt`.
pub open spec fn lex_le(a: Seq<char>, b: Seq<char>) -> bool {
    lex_lt(a, b) || a == b
}

/// Any two character sequences are comparable.
pub proof fn lemma_lex_lt_connex(a: Seq<char>, b: Seq<char>)
    ensures
        lex_lt(a, b) || lex_lt(b, a) || a == b,
    decreases a.len(),
{
    if a.len() == 0 && b.len() == 0 {
        assert(a =~= b);
    } else if a.len() == 0 {
        assert(lex_lt(a, b));
    } else if b.len() == 0 {
        assert(lex_lt(b, a));
    } else if a[0] as u32 == b[0] as u32 {
        lemma_char_cast_injective(a[0], b[0]);
        assert(a[0] == b[0]);
        lemma_lex_lt_connex(a.skip(1), b.skip(1));
        if lex_lt(a.skip(1), b.skip(1)) {
            assert(lex_lt(a, b));
        } else if lex_lt(b.skip(1), a.skip(1)) {
            assert(lex_lt(b, a));
        } else {
            assert(a =~= seq![a[0]] + a.skip(1));
            assert(b =~= seq![b[0]] + b.skip(1));
            assert(a == b);
        }
    } else if (a[0] as u32) < (b[0] as u32) {
        assert(lex_lt(a, b));
    } else {
        assert(lex_lt(b, a));
    }
}

pub proof fn lemma_lex_lt_trans(a: Seq<char>, b: Seq<char>, c: Seq<char>)
    requires
        lex_lt(a, b),
        lex_lt(b, c),
    ensures
        lex_lt(a, c),
    decreases a.len(),
{
    if a.len() > 0 && b.len() > 0 && c.len() > 0 {
        if a[0] == b[0] && b[0] == c[0] {
            lemma_lex_lt_trans(a.skip(1), b.skip(1), c.skip(1));
        }
    }
}

pub proof fn lemma_lex_le_trans(a: Seq<char>, b: Seq<char>, c: Seq<char>)
    requires
        lex_le(a, b),
        lex_le(b, c),
    ensures
        lex_le(a, c),
{
    if lex_lt(a, b) && lex_lt(b, c) {
        lemma_lex_lt_trans(a, b, c);
    }
}

/// Character-wise string equality, proved against the sequence views.
pub fn str_eq(a: &str, b: &str) -> (r: bool)
    ensures
        r == (a@ == b@),
{
    let la = a.unicode_len();
    let lb = b.unicode_len();
    if la != lb {
        return false;
    }
    let mut i: usize = 0;
    while i < la
        invariant
            i <= la,
            la == a@.len(),
            lb == b@.len(),
            la == lb,
            forall|j: int| 0 <= j < i ==> a@[j] == b@[j],
        decreases la - i,
    {
        let ca = a.get_char(i);
        let cb = b.get_char(i);
        if (ca as u32) != (cb as u32) {
            proof {
                assert(a@[i as int] != b@[i as int]);
            }
            return false;
        }
        i += 1;
    }
    proof {
        assert(a@ =~= b@);
    }
    true
}

/// Character-wise strict comparison, proved against `lex_lt`.
pub fn str_lt(a: &str, b: &str) -> (r: bool)
    ensures
        r == lex_lt(a@, b@),
{
    let la = a.unicode_len();
    let lb = b.unicode_len();
    let mut i: usize = 0;
    proof {
        assert(a@.skip(0) =~= a@);
        assert(b@.skip(0) =~= b@);
    }
    loop
        invariant
            i <= la,
            i <= lb,
            la == a@.len(),
            lb == b@.len(),
            lex_lt(a@, b@) == lex_lt(a@.skip(i as int), b@.skip(i as int)),
        decreases la - i,
    {
        if i == la {
            return i < lb;
        }
        if i == lb {
            return false;
        }
        let ca = a.get_char(i);
        let cb = b.get_char(i);
        if (ca as u32) < (cb as u32) {
            proof {
                assert(a@.skip(i as int)[0] == a@[i as int]);
                assert(b@.skip(i as int)[0] == b@[i as int]);
            }
            return true;
        }
        if (cb as u32) < (ca as u32) {
            proof {
                assert(a@.skip(i as int)[0] == a@[i as int]);
                assert(b@.skip(i as int)[0] == b@[i as int]);
            }
            return false;
        }
        proof {
            assert(a@[i as int] == b@[i as int]);
            assert(a@.skip(i as int).skip(1) =~= a@.skip(i as int + 1));
            assert(b@.skip(i as int).skip(1) =~= b@.skip(i as int + 1));
        }
        i += 1;
    }
}

/// The sequence views of a list of strings.
pub open spec fn names_view(s: Seq<String>) -> Seq<Seq<char>> {
    s.map_values(|x: String| x@)
}

/// Alphabetical order, with no name out of place.
pub open spec fn names_sorted(s: Seq<Seq<char>>) -> bool {
    forall|i: int, j: int| 0 <= i < j < s.len() ==> lex_le(s[i], s[j])
}

proof fn lemma_char_cast_injective(c: char, d: char)
    requires
        c as u32 == d as u32,
    ensures
        c == d,
{
}

/// Insertion sort on names; the result holds exactly the given names, in order.
pub fn sort_names(names: &Vec<String>) -> (r: Vec<String>)
    ensures
        names_sorted(names_view(r@)),
        names_view(r@).to_multiset() == names_view(names@).to_multiset(),
{
    let mut out: Vec<String> = Vec::new();
    let n = names.len();
    let mut i: usize = 0;
    proof {
        assert(names_view(out@) =~= names_view(names@.take(0)));
    }
    while i < n
        invariant
            i <= n,
            n == names.len(),
            names_sorted(names_view(out@)),
            names_view(out@).to_multiset() == names_view(names@.take(i as int)).to_multiset(),
        decreases n - i,
    {
        let name = names[i].clone();
        let mut j: usize = 0;
        while j < out.len() && str_lt(out[j].as_str(), name.as_str())
            invariant
                j <= out.len(),
                forall|k: int| 0 <= k < j ==> lex_lt(names_view(out@)[k], name@),
            decreases out.len() - j,
        {
            proof {
                assert(names_view(out@)[j as int] == out@[j as int]@);
            }
            j += 1;
        }
        proof {
            if j < out.len() {
                assert(names_view(out@)[j as int] == out@[j as int]@);
            }
            lemma_insert_keeps_sorted(names_view(out@), name@, j as int);
        }
        let ghost old_out = out@;
        out.insert(j, name);
        proof {
            broadcast use vstd::seq_lib::group_to_multiset_ensures;

            assert(names_view(out@) =~= names_view(old_out).insert(j as int, name@));
            lemma_insert_multiset(names_view(old_out), name@, j as int);
            assert(name == names@[i as int]);
            assert(names_view(names@.take(i as int)).push(name@) =~= names_view(
                names@.take(i as int + 1),
            ));
        }
        i += 1;
    }
    proof {
        assert(names@.take(n as int) =~= names@);
    }
    out
}

proof fn lemma_insert_keeps_sorted(s: Seq<Seq<char>>, x: Seq<char>, j: int)
    requires
        names_sorted(s),
        0 <= j <= s.len(),
        forall|k: int| 0 <= k < j ==> lex_lt(s[k], x),
        j < s.len() ==> !lex_lt(s[j], x),
    ensures
        names_sorted(s.insert(j, x)),
{
    let t = s.insert(j, x);
    if j < s.len() {
        lemma_lex_lt_connex(x, s[j]);
        assert(lex_le(x, s[j]));
    }
    assert forall|p: int, q: int| 0 <= p < q < t.len() implies lex_le(t[p], t[q]) by {
        if q < j {
            assert(t[p] == s[p]);
            assert(t[q] == s[q]);
            assert(lex_le(s[p], s[q]));
        } else if q == j {
            assert(t[p] == s[p]);
            assert(lex_lt(s[p], x));
        } else if p < j {
            assert(t[p] == s[p]);
            assert(t[q] == s[q - 1]);
            assert(lex_le(s[p], s[q - 1]));
        } else if p == j {
            assert(t[q] == s[q - 1]);
            if q - 1 > j {
                assert(lex_le(s[j], s[q - 1]));
                lemma_lex_le_trans(x, s[j], s[q - 1]);
            }
        } else {
            assert(t[p] == s[p - 1]);
            assert(t[q] == s[q - 1]);
            assert(lex_le(s[p - 1], s[q - 1]));
        }
    }
}

proof fn lemma_insert_multiset(s: Seq<Seq<char>>, x: Seq<char>, j: int)
    requires
        0 <= j <= s.len(),
    ensures
        s.insert(j, x).to_multiset() == s.to_multiset().insert(x),
{
    broadcast use vstd::seq_lib::group_to_multiset_ensures;

    let t = s.insert(j, x);
    assert(t.remove(j) =~= s);
    assert(t.remove(j).to_multiset() =~= t.to_multiset().remove(t[j]));
    assert(t.to_multiset().contains(x)) by {
        assert(t[j] == x);
        assert(t.contains(x));
    }
    assert(t.to_multiset() =~= s.to_multiset().insert(x));
}

} // verus!
