use vstd::multiset::Multiset;
use vstd::prelude::*;

verus! {

broadcast use vstd::seq_lib::group_to_multiset_ensures;

/// One package entry of a lockfile.
#[derive(Clone, Debug)]
pub struct Dependency {
    pub name: String,
    pub version: String,
    pub source: Option<String>,
    pub checksum: Option<String>,
    pub dependencies: Option<Vec<String>>,
}

/// A lockfile: a format version and its package entries.
#[derive(Clone, Debug)]
pub struct LockData {
    pub version: Option<u32>,
    pub package: Option<Vec<Dependency>>,
}

/// Lexicographic order of character sequences, by code point.
pub open spec fn seq_lt(a: Seq<char>, b: Seq<char>) -> bool
    decreases a.len(),
{
    if a.len() == 0 {
        b.len() > 0
    } else if b.len() == 0 {
        false
    } else if a[0] != b[0] {
        a[0] < b[0]
    } else {
        seq_lt(a.drop_first(), b.drop_first())
    }
}

/// Entries are ordered by name, then by version.
pub open spec fn key_lt(x: Dependency, y: Dependency) -> bool {
    seq_lt(x.name@, y.name@) || (x.name@ == y.name@ && seq_lt(x.version@, y.version@))
}

pub open spec fn same_key(x: Dependency, y: Dependency) -> bool {
    x.name@ == y.name@ && x.version@ == y.version@
}

pub open spec fn sorted(s: Seq<Dependency>) -> bool {
    forall|i: int, j: int| 0 <= i < j < s.len() ==> !key_lt(s[j], s[i])
}

/// No two entries share a name and a version.
pub open spec fn distinct_keys(s: Seq<Dependency>) -> bool {
    forall|i: int, j: int| 0 <= i < s.len() && 0 <= j < s.len() && i != j ==> !same_key(s[i], s[j])
}

proof fn lemma_seq_lt_irreflexive(a: Seq<char>)
    ensures
        !seq_lt(a, a),
    decreases a.len(),
{
    if a.len() > 0 {
        lemma_seq_lt_irreflexive(a.drop_first());
    }
}

proof fn lemma_seq_lt_transitive(a: Seq<char>, b: Seq<char>, c: Seq<char>)
    requires
        seq_lt(a, b),
        seq_lt(b, c),
    ensures
        seq_lt(a, c),
    decreases a.len(),
{
    if a.len() > 0 && b.len() > 0 && c.len() > 0 && a[0] == b[0] && b[0] == c[0] {
        lemma_seq_lt_transitive(a.drop_first(), b.drop_first(), c.drop_first());
    }
}

proof fn lemma_seq_lt_total(a: Seq<char>, b: Seq<char>)
    ensures
        a == b || seq_lt(a, b) || seq_lt(b, a),
    decreases a.len(),
{
    if a.len() > 0 && b.len() > 0 {
        if a[0] == b[0] {
            lemma_seq_lt_total(a.drop_first(), b.drop_first());
            if a.drop_first() == b.drop_first() {
                assert(a =~= seq![a[0]] + a.drop_first());
                assert(b =~= seq![b[0]] + b.drop_first());
            }
        }
    } else if a.len() == 0 && b.len() == 0 {
        assert(a =~= b);
    }
}

proof fn lemma_key_lt_transitive(x: Dependency, y: Dependency, z: Dependency)
    requires
        key_lt(x, y),
        key_lt(y, z),
    ensures
        key_lt(x, z),
{
    if seq_lt(x.name@, y.name@) && seq_lt(y.name@, z.name@) {
        lemma_seq_lt_transitive(x.name@, y.name@, z.name@);
    } else if x.name@ == y.name@ && y.name@ == z.name@ {
        lemma_seq_lt_transitive(x.version@, y.version@, z.version@);
    }
}

proof fn lemma_key_lt_total(x: Dependency, y: Dependency)
    ensures
        same_key(x, y) || key_lt(x, y) || key_lt(y, x),
{
    lemma_seq_lt_total(x.name@, y.name@);
    lemma_seq_lt_total(x.version@, y.version@);
}

proof fn lemma_key_lt_irreflexive(x: Dependency)
    ensures
        !key_lt(x, x),
{
    lemma_seq_lt_irreflexive(x.name@);
    lemma_seq_lt_irreflexive(x.version@);
}

/// Re-resolving an unchanged dependency set writes a byte-identical lock:
/// two sorted orderings of the same entries, where no two entries share a
/// name and a version, are the same sequence.
pub proof fn lemma_lock_order_unique(a: Seq<Dependency>, b: Seq<Dependency>)
    requires
        sorted(a),
        sorted(b),
        distinct_keys(a),
        a.to_multiset() == b.to_multiset(),
    ensures
        a == b,
    decreases a.len(),
{
    if a.len() == 0 {
        assert(b.to_multiset().len() == 0);
        assert(b =~= a);
    } else {
        assert(a.to_multiset().count(a[0]) > 0);
        assert(b.contains(a[0]));
        let j = choose|j: int| 0 <= j < b.len() && b[j] == a[0];
        assert(b.to_multiset().count(b[0]) > 0);
        assert(a.contains(b[0]));
        let k = choose|k: int| 0 <= k < a.len() && a[k] == b[0];
        if j > 0 {
            assert(!key_lt(b[j], b[0]));
        }
        if k > 0 {
            assert(!key_lt(a[k], a[0]));
        }
        lemma_key_lt_irreflexive(a[0]);
        lemma_key_lt_total(a[0], b[0]);
        assert(same_key(a[0], b[0]));
        assert(k == 0);
        let a1 = a.remove(0);
        let b1 = b.remove(0);
        assert(a1 =~= a.drop_first());
        assert(b1 =~= b.drop_first());
        assert(a1.to_multiset() =~= b1.to_multiset());
        assert(sorted(a1)) by {
            assert forall|i: int, j: int| 0 <= i < j < a1.len() implies !key_lt(a1[j], a1[i]) by {
                assert(a1[i] == a[i + 1] && a1[j] == a[j + 1]);
            }
        }
        assert(sorted(b1)) by {
            assert forall|i: int, j: int| 0 <= i < j < b1.len() implies !key_lt(b1[j], b1[i]) by {
                assert(b1[i] == b[i + 1] && b1[j] == b[j + 1]);
            }
        }
        assert(distinct_keys(a1)) by {
            assert forall|i: int, j: int|
                0 <= i < a1.len() && 0 <= j < a1.len() && i != j implies !same_key(
                a1[i],
                a1[j],
            ) by {
                assert(a1[i] == a[i + 1] && a1[j] == a[j + 1]);
            }
        }
        lemma_lock_order_unique(a1, b1);
        assert(a =~= seq![a[0]] + a1);
        assert(b =~= seq![b[0]] + b1);
    }
}

/// Whether `a` comes before `b` in lexicographic order.
pub fn str_lt(a: &str, b: &str) -> (r: bool)
    ensures
        r == seq_lt(a@, b@),
{
    let la = a.unicode_len();
    let lb = b.unicode_len();
    let mut i: usize = 0;
    assert(a@.subrange(0, la as int) =~= a@);
    assert(b@.subrange(0, lb as int) =~= b@);
    while i < la && i < lb
        invariant
            la == a@.len(),
            lb == b@.len(),
            i <= la,
            i <= lb,
            seq_lt(a@, b@) == seq_lt(
                a@.subrange(i as int, la as int),
                b@.subrange(i as int, lb as int),
            ),
        decreases la - i,
    {
        let ca = a.get_char(i);
        let cb = b.get_char(i);
        assert(a@.subrange(i as int, la as int)[0] == ca);
        assert(b@.subrange(i as int, lb as int)[0] == cb);
        if ca != cb {
            return ca < cb;
        }
        assert(a@.subrange(i as int, la as int).drop_first() =~= a@.subrange(i + 1, la as int));
        assert(b@.subrange(i as int, lb as int).drop_first() =~= b@.subrange(i + 1, lb as int));
        i += 1;
    }
    i == la && i < lb
}

/// Whether `x` comes before `y`: by name, then by version.
pub fn entry_lt(x: &Dependency, y: &Dependency) -> (r: bool)
    ensures
        r == key_lt(*x, *y),
{
    if str_lt(x.name.as_str(), y.name.as_str()) {
        true
    } else if x.name == y.name {
        str_lt(x.version.as_str(), y.version.as_str())
    } else {
        false
    }
}

/// Where an entry of `out.push(rem[m]) + rem.remove(m)` stood in `out + rem`,
/// for an `out` of length `o`.
spec fn moved_index(p: int, o: int, m: int) -> int {
    if p < o {
        p
    } else if p == o {
        o + m
    } else if p - o - 1 < m {
        p - 1
    } else {
        p
    }
}

/// The entries in the order a lockfile lists them: by name, then by version.
pub fn sort_entries(entries: Vec<Dependency>) -> (r: Vec<Dependency>)
    ensures
        r@.to_multiset() == entries@.to_multiset(),
        sorted(r@),
        distinct_keys(entries@) ==> distinct_keys(r@),
{
    let ghost orig = entries@;
    let mut rem = entries;
    let mut out: Vec<Dependency> = Vec::new();
    assert(out@.to_multiset().add(rem@.to_multiset()) =~= orig.to_multiset());
    assert(out@ + rem@ =~= orig);
    while rem.len() > 0
        invariant
            out@.to_multiset().add(rem@.to_multiset()) == orig.to_multiset(),
            distinct_keys(orig) ==> distinct_keys(out@ + rem@),
            sorted(out@),
            forall|i: int, j: int|
                0 <= i < out@.len() && 0 <= j < rem@.len() ==> !key_lt(rem@[j], out@[i]),
        decreases rem.len(),
    {
        let mut m: usize = 0;
        let mut k: usize = 1;
        proof {
            lemma_key_lt_irreflexive(rem@[0]);
        }
        while k < rem.len()
            invariant
                0 <= m < k <= rem.len(),
                forall|t: int| 0 <= t < k ==> !key_lt(#[trigger] rem@[t], rem@[m as int]),
            decreases rem.len() - k,
        {
            if entry_lt(&rem[k], &rem[m]) {
                proof {
                    assert forall|t: int| 0 <= t < k implies !key_lt(
                        #[trigger] rem@[t],
                        rem@[k as int],
                    ) by {
                        if key_lt(rem@[t], rem@[k as int]) {
                            lemma_key_lt_transitive(rem@[t], rem@[k as int], rem@[m as int]);
                        }
                    }
                    lemma_key_lt_irreflexive(rem@[k as int]);
                }
                m = k;
            }
            k += 1;
        }
        let ghost before_rem = rem@;
        let ghost before_out = out@;
        let x = rem.remove(m);
        out.push(x);
        proof {
            let o = before_out.len() as int;
            let old_all = before_out + before_rem;
            let new_all = out@ + rem@;
            assert forall|p: int| 0 <= p < new_all.len() implies new_all[p] == old_all[moved_index(
                p,
                o,
                m as int,
            )] && 0 <= moved_index(p, o, m as int) < old_all.len() by {}
            if distinct_keys(orig) {
                assert forall|p: int, q: int|
                    0 <= p < new_all.len() && 0 <= q < new_all.len() && p != q implies !same_key(
                    new_all[p],
                    new_all[q],
                ) by {
                    assert(new_all[p] == old_all[moved_index(p, o, m as int)]);
                    assert(new_all[q] == old_all[moved_index(q, o, m as int)]);
                }
            }
            assert(out@.to_multiset().add(rem@.to_multiset()) =~= before_out.to_multiset().add(
                before_rem.to_multiset(),
            ));
            assert forall|i: int, j: int| 0 <= i < j < out@.len() implies !key_lt(
                out@[j],
                out@[i],
            ) by {
                if j == out@.len() - 1 {
                    assert(out@[j] == before_rem[m as int]);
                }
            }
            assert forall|i: int, j: int|
                0 <= i < out@.len() && 0 <= j < rem@.len() implies !key_lt(rem@[j], out@[i]) by {
                let jj = if j < m { j } else { j + 1 };
                assert(rem@[j] == before_rem[jj]);
                if i == out@.len() - 1 {
                    assert(!key_lt(before_rem[jj], before_rem[m as int]));
                }
            }
        }
    }
    assert(rem@.to_multiset() =~= Multiset::empty());
    assert(out@ + rem@ =~= out@);
    assert(out@.to_multiset() =~= out@.to_multiset().add(rem@.to_multiset()));
    out
}

impl LockData {
    /// A lockfile of the given format version that lists `entries` in order.
    pub fn from_entries(version: u32, entries: Vec<Dependency>) -> (r: LockData)
        ensures
            r.version == Some(version),
            r.package is Some,
            r.package->Some_0@.to_multiset() == entries@.to_multiset(),
            sorted(r.package->Some_0@),
            distinct_keys(entries@) ==> distinct_keys(r.package->Some_0@),
    {
        LockData { version: Some(version), package: Some(sort_entries(entries)) }
    }
}

} // verus!
