//! Canonical ordering of form fields.
//!
//! The document endpoints sign a query string built from the form fields
//! sorted by field name, in plain byte order over the names' UTF-8 bytes.
//! This module holds that order, the sort, the canonical query string, and
//! the fact the protocol relies on: the canonical string depends only on
//! which fields are present, not on the order they were put in.

use vstd::prelude::*;
use vstd::multiset::Multiset;
use vstd::string::StringExecFns;
use vstd::utf8::{decode_utf8, encode_utf8};

verus! {

broadcast use vstd::utf8::encode_utf8_decode_utf8;

/// Lexicographic order on byte strings: the order form field names are
/// sorted by.
pub open spec fn bytes_le(a: Seq<u8>, b: Seq<u8>) -> bool
    decreases a.len(),
{
    if a.len() == 0 {
        true
    } else if b.len() == 0 {
        false
    } else if a[0] < b[0] {
        true
    } else if a[0] > b[0] {
        false
    } else {
        bytes_le(a.drop_first(), b.drop_first())
    }
}

/// `bytes_le` is reflexive.
pub proof fn lemma_bytes_le_refl(a: Seq<u8>)
    ensures
        bytes_le(a, a),
    decreases a.len(),
{
    if a.len() > 0 {
        lemma_bytes_le_refl(a.drop_first());
    }
}

/// `bytes_le` is total: one of the two directions always holds.
pub proof fn lemma_bytes_le_total(a: Seq<u8>, b: Seq<u8>)
    ensures
        bytes_le(a, b) || bytes_le(b, a),
    decreases a.len(),
{
    if a.len() > 0 && b.len() > 0 && a[0] == b[0] {
        lemma_bytes_le_total(a.drop_first(), b.drop_first());
    }
}

/// `bytes_le` is antisymmetric: two byte strings below each other are equal.
pub proof fn lemma_bytes_le_antisym(a: Seq<u8>, b: Seq<u8>)
    requires
        bytes_le(a, b),
        bytes_le(b, a),
    ensures
        a == b,
    decreases a.len(),
{
    if a.len() == 0 {
        assert(b.len() == 0);
        assert(a =~= b);
    } else {
        assert(b.len() > 0);
        assert(a[0] == b[0]);
        lemma_bytes_le_antisym(a.drop_first(), b.drop_first());
        assert(a =~= b) by {
            assert(a.drop_first() =~= b.drop_first());
            assert forall|i: int| 0 <= i < a.len() implies a[i] == b[i] by {
                if i > 0 {
                    assert(a[i] == a.drop_first()[i - 1]);
                    assert(b[i] == b.drop_first()[i - 1]);
                }
            }
        }
    }
}

/// `bytes_le` is transitive.
pub proof fn lemma_bytes_le_trans(a: Seq<u8>, b: Seq<u8>, c: Seq<u8>)
    requires
        bytes_le(a, b),
        bytes_le(b, c),
    ensures
        bytes_le(a, c),
    decreases a.len(),
{
    if a.len() > 0 {
        assert(b.len() > 0);
        assert(c.len() > 0);
        if a[0] == c[0] {
            assert(a[0] == b[0] && b[0] == c[0]);
            lemma_bytes_le_trans(a.drop_first(), b.drop_first(), c.drop_first());
        }
    }
}

/// Field names compare by their UTF-8 bytes.
pub open spec fn name_le(a: Seq<char>, b: Seq<char>) -> bool {
    bytes_le(encode_utf8(a), encode_utf8(b))
}

/// Fields compare by name alone; the value takes no part.
pub open spec fn key_le(a: (Seq<char>, Seq<char>), b: (Seq<char>, Seq<char>)) -> bool {
    name_le(a.0, b.0)
}

/// Name order between two ASCII names whose first characters differ.
pub proof fn lemma_name_le_first(a: Seq<char>, b: Seq<char>)
    requires
        vstd::utf8::is_ascii_chars(a),
        vstd::utf8::is_ascii_chars(b),
        a.len() > 0,
        b.len() > 0,
        (a[0] as u8) < (b[0] as u8),
    ensures
        name_le(a, b),
{
    vstd::utf8::is_ascii_chars_encode_utf8(a);
    vstd::utf8::is_ascii_chars_encode_utf8(b);
    assert(encode_utf8(a)[0] == a[0] as u8);
    assert(encode_utf8(b)[0] == b[0] as u8);
}

/// Name order between two ASCII names that agree on the first character
/// and differ on the second.
pub proof fn lemma_name_le_second(a: Seq<char>, b: Seq<char>)
    requires
        vstd::utf8::is_ascii_chars(a),
        vstd::utf8::is_ascii_chars(b),
        a.len() >= 2,
        b.len() >= 2,
        a[0] == b[0],
        (a[1] as u8) < (b[1] as u8),
    ensures
        name_le(a, b),
{
    vstd::utf8::is_ascii_chars_encode_utf8(a);
    vstd::utf8::is_ascii_chars_encode_utf8(b);
    let ea = encode_utf8(a);
    let eb = encode_utf8(b);
    assert(ea[0] == a[0] as u8 && eb[0] == b[0] as u8);
    assert(ea[1] == a[1] as u8 && eb[1] == b[1] as u8);
    assert(ea.drop_first()[0] == ea[1] && eb.drop_first()[0] == eb[1]);
    assert(bytes_le(ea.drop_first(), eb.drop_first()));
}

/// Keys below each other are the same key.
pub proof fn lemma_key_le_antisym(a: (Seq<char>, Seq<char>), b: (Seq<char>, Seq<char>))
    requires
        key_le(a, b),
        key_le(b, a),
    ensures
        a.0 == b.0,
{
    lemma_bytes_le_antisym(encode_utf8(a.0), encode_utf8(b.0));
    assert(decode_utf8(encode_utf8(a.0)) == decode_utf8(encode_utf8(b.0)));
}

/// A field list sorted by name; fields with equal names may stand in any
/// order.
pub open spec fn sorted_by_key(kv: Seq<(Seq<char>, Seq<char>)>) -> bool {
    forall|i: int, j: int| 0 <= i < j < kv.len() ==> #[trigger] key_le(kv[i], kv[j])
}

/// No two fields of the list share a name.
pub open spec fn distinct_keys(kv: Seq<(Seq<char>, Seq<char>)>) -> bool {
    forall|i: int, j: int|
        0 <= i < j < kv.len() ==> #[trigger] kv[i].0 != #[trigger] kv[j].0
}

/// Whether some field of the list has the given name.
pub open spec fn has_key(kv: Seq<(Seq<char>, Seq<char>)>, k: Seq<char>) -> bool {
    exists|i: int| 0 <= i < kv.len() && #[trigger] kv[i].0 == k
}

/// The fields of an executable form, as mathematical string pairs.
pub open spec fn pairs_view(kv: Seq<(String, String)>) -> Seq<(Seq<char>, Seq<char>)> {
    kv.map_values(|p: (String, String)| (p.0@, p.1@))
}

/// The canonical query string of a field list: `name=value&` for every
/// field in list order, the trailing `&` kept, nothing escaped.
pub open spec fn spec_canonical_query(kv: Seq<(Seq<char>, Seq<char>)>) -> Seq<char>
    decreases kv.len(),
{
    if kv.len() == 0 {
        Seq::empty()
    } else {
        kv[0].0 + "="@ + kv[0].1 + "&"@ + spec_canonical_query(kv.drop_first())
    }
}

/// A list sorted by name with no repeated name is determined by which
/// fields it holds: two such lists with the same fields are equal.  (It is
/// enough that one of the two has no repeated name; being equal, the other
/// then has none either.)
pub proof fn lemma_sorted_distinct_unique(
    x: Seq<(Seq<char>, Seq<char>)>,
    y: Seq<(Seq<char>, Seq<char>)>,
)
    requires
        sorted_by_key(x),
        sorted_by_key(y),
        distinct_keys(y),
        x.to_multiset() == y.to_multiset(),
    ensures
        x == y,
    decreases x.len(),
{
    broadcast use vstd::seq_lib::group_to_multiset_ensures;
    broadcast use vstd::multiset::group_multiset_axioms;

    if x.len() == 0 {
        assert(y.to_multiset().len() == 0);
        assert(x =~= y);
    } else {
        assert(x.contains(x[0]));
        assert(y.to_multiset().count(x[0]) > 0);
        assert(y.contains(x[0]));
        let j = choose|j: int| 0 <= j < y.len() && y[j] == x[0];
        assert(key_le(y[0], y[j]) || j == 0) by {
            if j != 0 {
                assert(key_le(y[0], y[j]));
            }
        }
        lemma_bytes_le_refl(encode_utf8(y[0].0));
        assert(key_le(y[0], x[0]));

        assert(y.contains(y[0]));
        assert(x.to_multiset().count(y[0]) > 0);
        assert(x.contains(y[0]));
        let i = choose|i: int| 0 <= i < x.len() && x[i] == y[0];
        assert(key_le(x[0], x[i]) || i == 0) by {
            if i != 0 {
                assert(key_le(x[0], x[i]));
            }
        }
        lemma_bytes_le_refl(encode_utf8(x[0].0));
        assert(key_le(x[0], y[0]));

        lemma_key_le_antisym(x[0], y[0]);
        // the element of y equal to x[0] carries y[0]'s name, so with
        // distinct names it can only be y[0] itself
        assert(y[j].0 == y[0].0);
        assert(j == 0);
        assert(x[0] == y[0]);

        assert(x.drop_first().to_multiset() =~= x.to_multiset().remove(x[0])) by {
            assert(x.remove(0) =~= x.drop_first());
        }
        assert(y.drop_first().to_multiset() =~= y.to_multiset().remove(y[0])) by {
            assert(y.remove(0) =~= y.drop_first());
        }
        assert(sorted_by_key(x.drop_first())) by {
            assert forall|p: int, q: int|
                0 <= p < q < x.drop_first().len() implies #[trigger] key_le(
                x.drop_first()[p],
                x.drop_first()[q],
            ) by {
                assert(key_le(x[p + 1], x[q + 1]));
            }
        }
        assert(sorted_by_key(y.drop_first())) by {
            assert forall|p: int, q: int|
                0 <= p < q < y.drop_first().len() implies #[trigger] key_le(
                y.drop_first()[p],
                y.drop_first()[q],
            ) by {
                assert(key_le(y[p + 1], y[q + 1]));
            }
        }
        assert(distinct_keys(y.drop_first())) by {
            assert forall|p: int, q: int|
                0 <= p < q < y.drop_first().len() implies #[trigger] y.drop_first()[p].0
                != #[trigger] y.drop_first()[q].0 by {
                assert(y[p + 1].0 != y[q + 1].0);
            }
        }
        lemma_sorted_distinct_unique(x.drop_first(), y.drop_first());
        assert(x =~= y) by {
            assert(x.drop_first() =~= y.drop_first());
            assert forall|k: int| 0 <= k < x.len() implies x[k] == y[k] by {
                if k > 0 {
                    assert(x[k] == x.drop_first()[k - 1]);
                    assert(y[k] == y.drop_first()[k - 1]);
                }
            }
        }
    }
}

/// The canonical query string does not depend on the order fields were
/// first inserted in: any two key-sorted arrangements of the same fields
/// (no name repeated) spell the same string.
pub proof fn lemma_canonical_query_order_irrelevant(
    x: Seq<(Seq<char>, Seq<char>)>,
    y: Seq<(Seq<char>, Seq<char>)>,
)
    requires
        sorted_by_key(x),
        sorted_by_key(y),
        distinct_keys(y),
        x.to_multiset() == y.to_multiset(),
    ensures
        spec_canonical_query(x) == spec_canonical_query(y),
{
    lemma_sorted_distinct_unique(x, y);
}

/// Exchanging two fields of a list leaves its multiset of fields unchanged.
pub proof fn lemma_transpose_multiset(s: Seq<(Seq<char>, Seq<char>)>, i: int, j: int)
    requires
        0 <= i < j < s.len(),
    ensures
        s.update(i, s[j]).update(j, s[i]).to_multiset() == s.to_multiset(),
{
    broadcast use vstd::seq_lib::group_to_multiset_ensures;

    let t1 = s.update(i, s[j]);
    let t2 = t1.update(j, s[i]);
    assert(s.contains(s[i]));
    assert(s.to_multiset().count(s[i]) > 0);
    assert(t1.to_multiset() == s.to_multiset().remove(s[i]).insert(s[j]));
    assert(t1[j] == s[j]);
    assert(t1.contains(t1[j]));
    assert(t1.to_multiset().count(s[j]) > 0);
    assert(t2.to_multiset() == t1.to_multiset().remove(s[j]).insert(s[i]));
    assert(t2.to_multiset() =~= s.to_multiset());
}

fn bytes_le_at(a: &[u8], b: &[u8], i: usize) -> (r: bool)
    requires
        i <= a@.len(),
        i <= b@.len(),
    ensures
        r == bytes_le(a@.skip(i as int), b@.skip(i as int)),
    decreases a@.len() - i,
{
    if i == a.len() {
        assert(a@.skip(i as int).len() == 0);
        true
    } else if i == b.len() {
        assert(b@.skip(i as int).len() == 0);
        assert(a@.skip(i as int).len() > 0);
        false
    } else {
        let x = a[i];
        let y = b[i];
        assert(a@.skip(i as int)[0] == a@[i as int]);
        assert(b@.skip(i as int)[0] == b@[i as int]);
        if x < y {
            true
        } else if x > y {
            false
        } else {
            assert(a@.skip(i as int).drop_first() =~= a@.skip(i as int + 1));
            assert(b@.skip(i as int).drop_first() =~= b@.skip(i as int + 1));
            bytes_le_at(a, b, i + 1)
        }
    }
}

/// Compare two strings in the canonical field order: byte order over their
/// UTF-8 bytes.
pub fn str_le(a: &str, b: &str) -> (r: bool)
    ensures
        r == bytes_le(encode_utf8(a@), encode_utf8(b@)),
{
    let ab = a.as_bytes();
    let bb = b.as_bytes();
    assert(ab@.skip(0) =~= ab@);
    assert(bb@.skip(0) =~= bb@);
    bytes_le_at(ab, bb, 0)
}

/// String equality, decided over the UTF-8 bytes.
pub fn str_eq(a: &str, b: &str) -> (r: bool)
    ensures
        r == (a@ == b@),
{
    let ab = a.as_bytes();
    let bb = b.as_bytes();
    if ab.len() != bb.len() {
        assert(a@ != b@) by {
            if a@ == b@ {
                assert(encode_utf8(a@) == encode_utf8(b@));
            }
        }
        return false;
    }
    let n = ab.len();
    let mut i: usize = 0;
    while i < n
        invariant
            i <= n,
            n == ab@.len(),
            ab@.len() == bb@.len(),
            ab@ == encode_utf8(a@),
            bb@ == encode_utf8(b@),
            forall|k: int| 0 <= k < i ==> ab@[k] == bb@[k],
        decreases n - i,
    {
        if ab[i] != bb[i] {
            assert(a@ != b@) by {
                if a@ == b@ {
                    assert(encode_utf8(a@) == encode_utf8(b@));
                }
            }
            return false;
        }
        i += 1;
    }
    assert(ab@ =~= bb@);
    assert(decode_utf8(encode_utf8(a@)) == decode_utf8(encode_utf8(b@)));
    true
}

/// Sort fields into the canonical order: by name, over UTF-8 bytes.  The
/// result holds exactly the input fields.
pub fn sort_pairs(kv: Vec<(String, String)>) -> (r: Vec<(String, String)>)
    ensures
        sorted_by_key(pairs_view(r@)),
        pairs_view(r@).to_multiset() == pairs_view(kv@).to_multiset(),
{
    broadcast use vstd::seq_lib::group_to_multiset_ensures;
    broadcast use vstd::multiset::group_multiset_axioms;

    let ghost orig_ms = pairs_view(kv@).to_multiset();
    let mut rest = kv;
    let mut out: Vec<(String, String)> = Vec::new();
    proof {
        assert(pairs_view(out@).to_multiset() =~= Multiset::empty()) by {
            assert(pairs_view(out@) =~= Seq::empty());
        }
        assert(pairs_view(out@).to_multiset().add(pairs_view(rest@).to_multiset()) =~= orig_ms);
    }
    while rest.len() > 0
        invariant
            sorted_by_key(pairs_view(out@)),
            pairs_view(out@).to_multiset().add(pairs_view(rest@).to_multiset()) == orig_ms,
            forall|i: int, j: int|
                0 <= i < out@.len() && 0 <= j < rest@.len() ==> #[trigger] key_le(
                    pairs_view(out@)[i],
                    pairs_view(rest@)[j],
                ),
        decreases rest.len(),
    {
        // pick the first field with a minimal name
        let mut m: usize = 0;
        let mut j: usize = 1;
        proof {
            assert(pairs_view(rest@)[0].0 == rest@[0].0@);
            lemma_bytes_le_refl(encode_utf8(pairs_view(rest@)[0].0));
        }
        while j < rest.len()
            invariant
                rest@.len() > 0,
                m < j,
                j <= rest@.len(),
                forall|k: int|
                    0 <= k < j ==> #[trigger] key_le(pairs_view(rest@)[m as int], pairs_view(
                        rest@,
                    )[k]),
            decreases rest@.len() - j,
        {
            let take_j = !str_le(rest[m].0.as_str(), rest[j].0.as_str());
            proof {
                let rv = pairs_view(rest@);
                assert(rv[m as int].0 == rest@[m as int].0@);
                assert(rv[j as int].0 == rest@[j as int].0@);
                if take_j {
                    lemma_bytes_le_total(
                        encode_utf8(rv[m as int].0),
                        encode_utf8(rv[j as int].0),
                    );
                    assert forall|k: int| 0 <= k < j + 1 implies #[trigger] key_le(
                        rv[j as int],
                        rv[k],
                    ) by {
                        if k < j {
                            assert(key_le(rv[m as int], rv[k]));
                            lemma_bytes_le_trans(
                                encode_utf8(rv[j as int].0),
                                encode_utf8(rv[m as int].0),
                                encode_utf8(rv[k].0),
                            );
                        } else {
                            lemma_bytes_le_refl(encode_utf8(rv[j as int].0));
                        }
                    }
                } else {
                    assert(key_le(rv[m as int], rv[j as int]));
                }
            }
            if take_j {
                m = j;
            }
            j += 1;
        }
        let ghost rest_v = pairs_view(rest@);
        let ghost out_v = pairs_view(out@);
        let ghost picked = rest_v[m as int];
        let x = rest.remove(m);
        out.push(x);
        proof {
            assert(pairs_view(out@) =~= out_v.push(picked));
            assert(pairs_view(rest@) =~= rest_v.remove(m as int));
            vstd::seq_lib::to_multiset_build(out_v, picked);
            assert(pairs_view(out@).to_multiset() == out_v.push(picked).to_multiset());
            vstd::seq_lib::to_multiset_remove(rest_v, m as int);
            vstd::seq_lib::to_multiset_contains(rest_v, picked);
            assert(rest_v.contains(picked));
            assert(rest_v.to_multiset().count(picked) > 0);
            assert(pairs_view(out@).to_multiset().add(pairs_view(rest@).to_multiset())
                =~= out_v.to_multiset().add(rest_v.to_multiset()));
            // the picked field is minimal, so sortedness and the bound on
            // the remaining fields both carry over
            assert forall|p: int, q: int|
                0 <= p < q < pairs_view(out@).len() implies #[trigger] key_le(
                pairs_view(out@)[p],
                pairs_view(out@)[q],
            ) by {
                if q == pairs_view(out@).len() - 1 {
                    assert(key_le(out_v[p], picked));
                } else {
                    assert(key_le(out_v[p], out_v[q]));
                }
            }
            assert forall|p: int, q: int|
                0 <= p < pairs_view(out@).len() && 0 <= q < pairs_view(rest@).len()
                implies #[trigger] key_le(pairs_view(out@)[p], pairs_view(rest@)[q]) by {
                let qq = if q < m { q } else { q + 1 };
                assert(pairs_view(rest@)[q] == rest_v[qq]);
                if p == pairs_view(out@).len() - 1 {
                    assert(key_le(picked, rest_v[qq]));
                } else {
                    assert(key_le(out_v[p], rest_v[qq]));
                }
            }
        }
    }
    proof {
        assert(pairs_view(rest@) =~= Seq::empty());
        assert(pairs_view(rest@).to_multiset() =~= Multiset::empty());
        assert(pairs_view(out@).to_multiset() =~= orig_ms);
    }
    out
}

/// Spell out the canonical query string of a field list, in list order.
pub fn canonical_query(kv: &Vec<(String, String)>) -> (r: String)
    ensures
        r@ == spec_canonical_query(pairs_view(kv@)),
{
    let ghost full = pairs_view(kv@);
    let mut r = String::new();
    let n = kv.len();
    let mut i: usize = 0;
    proof {
        assert(full.skip(0) =~= full);
    }
    while i < n
        invariant
            i <= n,
            n == kv@.len(),
            full == pairs_view(kv@),
            r@ + spec_canonical_query(full.skip(i as int)) == spec_canonical_query(full),
        decreases n - i,
    {
        let p = &kv[i];
        r.append(p.0.as_str());
        r.append("=");
        r.append(p.1.as_str());
        r.append("&");
        proof {
            let tail = full.skip(i as int);
            assert(tail[0] == full[i as int]);
            assert(tail.drop_first() =~= full.skip(i as int + 1));
            assert(spec_canonical_query(tail) == tail[0].0 + "="@ + tail[0].1 + "&"@
                + spec_canonical_query(full.skip(i as int + 1)));
        }
        i += 1;
    }
    proof {
        assert(full.skip(n as int) =~= Seq::empty());
    }
    r
}

} // verus!
