//! The order of byte strings, and sorting by it.
use vstd::prelude::*;

verus! {

/// Whether `a` comes no later than `b` in the lexicographic order of byte strings, in which a
/// proper prefix comes before what it is a prefix of.
pub open spec fn bytes_le(a: Seq<u8>, b: Seq<u8>) -> bool
    decreases a.len(),
{
    if a.len() == 0 {
        true
    } else if b.len() == 0 {
        false
    } else if a[0] != b[0] {
        a[0] < b[0]
    } else {
        bytes_le(a.drop_first(), b.drop_first())
    }
}

/// Whether each byte string of `s` comes no later than those behind it.
pub open spec fn is_ascending(s: Seq<Seq<u8>>) -> bool {
    forall|i: int, j: int| 0 <= i <= j < s.len() ==> bytes_le(#[trigger] s[i], #[trigger] s[j])
}

/// What a list of byte vectors holds.
pub open spec fn contents(keys: Seq<Vec<u8>>) -> Seq<Seq<u8>> {
    keys.map_values(|k: Vec<u8>| k@)
}

/// Every byte string comes no later than itself.
pub proof fn lemma_bytes_le_reflexive(a: Seq<u8>)
    ensures
        bytes_le(a, a),
    decreases a.len(),
{
    if a.len() > 0 {
        lemma_bytes_le_reflexive(a.drop_first());
    }
}

/// Of two byte strings one comes no later than the other.
pub proof fn lemma_bytes_le_total(a: Seq<u8>, b: Seq<u8>)
    ensures
        bytes_le(a, b) || bytes_le(b, a),
    decreases a.len(),
{
    if a.len() > 0 && b.len() > 0 {
        lemma_bytes_le_total(a.drop_first(), b.drop_first());
    }
}

/// The order of byte strings is transitive.
pub proof fn lemma_bytes_le_transitive(a: Seq<u8>, b: Seq<u8>, c: Seq<u8>)
    requires
        bytes_le(a, b),
        bytes_le(b, c),
    ensures
        bytes_le(a, c),
    decreases a.len(),
{
    if a.len() > 0 && b.len() > 0 && c.len() > 0 && a[0] == b[0] && b[0] == c[0] {
        lemma_bytes_le_transitive(a.drop_first(), b.drop_first(), c.drop_first());
    }
}

/// Two byte strings of which neither comes later than the other are the same.
pub proof fn lemma_bytes_le_antisymmetric(a: Seq<u8>, b: Seq<u8>)
    requires
        bytes_le(a, b),
        bytes_le(b, a),
    ensures
        a == b,
    decreases a.len(),
{
    if a.len() > 0 && b.len() > 0 {
        lemma_bytes_le_antisymmetric(a.drop_first(), b.drop_first());
        assert(a =~= seq![a[0]] + a.drop_first());
        assert(b =~= seq![b[0]] + b.drop_first());
    } else {
        assert(a =~= b);
    }
}

/// Whether `a` comes no later than `b`.
fn at_most(a: &Vec<u8>, b: &Vec<u8>) -> (r: bool)
    ensures
        r == bytes_le(a@, b@),
{
    let mut i: usize = 0;
    assert(a@.skip(0) =~= a@ && b@.skip(0) =~= b@);
    while i < a.len() && i < b.len() && a[i] == b[i]
        invariant
            i <= a.len(),
            i <= b.len(),
            bytes_le(a@, b@) == bytes_le(a@.skip(i as int), b@.skip(i as int)),
        decreases a.len() - i,
    {
        assert(a@.skip(i as int).drop_first() =~= a@.skip(i + 1));
        assert(b@.skip(i as int).drop_first() =~= b@.skip(i + 1));
        i = i + 1;
    }
    if i == a.len() {
        true
    } else if i == b.len() {
        false
    } else {
        a[i] < b[i]
    }
}

/// Whether `x` comes no later than `y`, or, with `ascending` off, no earlier.
spec fn in_order(x: Seq<u8>, y: Seq<u8>, ascending: bool) -> bool {
    if ascending {
        bytes_le(x, y)
    } else {
        bytes_le(y, x)
    }
}

/// Whether every entry of `s` and every later one are in order.
spec fn is_ordered(s: Seq<Seq<u8>>, ascending: bool) -> bool {
    forall|i: int, j: int|
        0 <= i <= j < s.len() ==> in_order(#[trigger] s[i], #[trigger] s[j], ascending)
}

/// Whether every entry of `s` and every entry of `t` are in order.
spec fn is_before(s: Seq<Seq<u8>>, t: Seq<Seq<u8>>, ascending: bool) -> bool {
    forall|i: int, j: int|
        0 <= i < s.len() && 0 <= j < t.len() ==> in_order(
            #[trigger] s[i],
            #[trigger] t[j],
            ascending,
        )
}

proof fn lemma_in_order_transitive(x: Seq<u8>, y: Seq<u8>, z: Seq<u8>, ascending: bool)
    requires
        in_order(x, y, ascending),
        in_order(y, z, ascending),
    ensures
        in_order(x, z, ascending),
{
    if ascending {
        lemma_bytes_le_transitive(x, y, z);
    } else {
        lemma_bytes_le_transitive(z, y, x);
    }
}

/// Moving the last entry `k` of `s` behind `r` keeps the order, where `k` is also in order with
/// every entry of the other list `t`.
proof fn lemma_move_last(
    s: Seq<Seq<u8>>,
    t: Seq<Seq<u8>>,
    r: Seq<Seq<u8>>,
    k: Seq<u8>,
    ascending: bool,
)
    requires
        is_ordered(s.push(k), !ascending),
        is_ordered(t, !ascending),
        is_ordered(r, ascending),
        is_before(r, s.push(k), ascending),
        is_before(r, t, ascending),
        t.len() > 0 ==> in_order(k, t.last(), ascending),
    ensures
        is_ordered(s, !ascending),
        is_ordered(r.push(k), ascending),
        is_before(r.push(k), s, ascending),
        is_before(r.push(k), t, ascending),
        r.push(k).to_multiset().add(s.to_multiset()) == r.to_multiset().add(
            s.push(k).to_multiset(),
        ),
{
    broadcast use vstd::seq_lib::group_to_multiset_ensures;

    let sk = s.push(k);
    let rk = r.push(k);
    assert(sk[s.len() as int] == k);
    assert forall|i: int, j: int| 0 <= i <= j < s.len() implies in_order(
        #[trigger] s[i],
        #[trigger] s[j],
        !ascending,
    ) by {
        assert(sk[i] == s[i] && sk[j] == s[j]);
    }
    lemma_bytes_le_reflexive(k);
    assert forall|i: int, j: int| 0 <= i <= j < rk.len() implies in_order(
        #[trigger] rk[i],
        #[trigger] rk[j],
        ascending,
    ) by {
        if j < r.len() {
            assert(rk[i] == r[i] && rk[j] == r[j]);
        } else if i < r.len() {
            assert(rk[i] == r[i]);
            assert(in_order(r[i], sk[s.len() as int], ascending));
        }
    }
    assert forall|i: int, j: int| 0 <= i < rk.len() && 0 <= j < s.len() implies in_order(
        #[trigger] rk[i],
        #[trigger] s[j],
        ascending,
    ) by {
        assert(sk[j] == s[j]);
        if i < r.len() {
            assert(in_order(r[i], sk[j], ascending));
        } else {
            assert(in_order(sk[j], sk[s.len() as int], !ascending));
        }
    }
    assert forall|i: int, j: int| 0 <= i < rk.len() && 0 <= j < t.len() implies in_order(
        #[trigger] rk[i],
        #[trigger] t[j],
        ascending,
    ) by {
        if i < r.len() {
            assert(in_order(r[i], t[j], ascending));
        } else {
            assert(in_order(t[j], t[t.len() - 1], !ascending));
            lemma_in_order_transitive(k, t.last(), t[j], ascending);
        }
    }
    assert(rk.to_multiset().add(s.to_multiset()) =~= r.to_multiset().add(sk.to_multiset()));
}

/// Merges two lists that are ordered the other way, taking from their ends what comes next.
fn merge(a: Vec<Vec<u8>>, b: Vec<Vec<u8>>, ascending: bool) -> (r: Vec<Vec<u8>>)
    requires
        is_ordered(contents(a@), !ascending),
        is_ordered(contents(b@), !ascending),
    ensures
        contents(r@).to_multiset() == contents(a@).to_multiset().add(contents(b@).to_multiset()),
        is_ordered(contents(r@), ascending),
{
    let ghost whole = contents(a@).to_multiset().add(contents(b@).to_multiset());
    let mut a = a;
    let mut b = b;
    let mut r: Vec<Vec<u8>> = Vec::new();
    proof {
        broadcast use vstd::seq_lib::group_to_multiset_ensures;

        assert(contents(r@) =~= Seq::<Seq<u8>>::empty());
        assert(contents(r@).to_multiset().add(contents(a@).to_multiset()).add(
            contents(b@).to_multiset(),
        ) =~= whole);
    }
    while a.len() > 0 || b.len() > 0
        invariant
            contents(r@).to_multiset().add(contents(a@).to_multiset()).add(
                contents(b@).to_multiset(),
            ) == whole,
            is_ordered(contents(a@), !ascending),
            is_ordered(contents(b@), !ascending),
            is_ordered(contents(r@), ascending),
            is_before(contents(r@), contents(a@), ascending),
            is_before(contents(r@), contents(b@), ascending),
        decreases a.len() + b.len(),
    {
        let from_a: bool = if a.len() == 0 {
            false
        } else if b.len() == 0 {
            true
        } else if ascending {
            at_most(&a[a.len() - 1], &b[b.len() - 1])
        } else {
            at_most(&b[b.len() - 1], &a[a.len() - 1])
        };
        let ghost a0 = contents(a@);
        let ghost b0 = contents(b@);
        let ghost r0 = contents(r@);
        proof {
            if a0.len() > 0 && b0.len() > 0 {
                lemma_bytes_le_total(a0.last(), b0.last());
            }
        }
        if from_a {
            let next: Vec<u8> = a.pop().unwrap();
            let ghost k = next@;
            r.push(next);
            proof {
                assert(a0 =~= contents(a@).push(k));
                assert(contents(r@) =~= r0.push(k));
                lemma_move_last(contents(a@), b0, r0, k, ascending);
                assert(contents(r@).to_multiset().add(contents(a@).to_multiset()).add(
                    b0.to_multiset(),
                ) =~= whole);
            }
        } else {
            let next: Vec<u8> = b.pop().unwrap();
            let ghost k = next@;
            r.push(next);
            proof {
                assert(b0 =~= contents(b@).push(k));
                assert(contents(r@) =~= r0.push(k));
                lemma_move_last(contents(b@), a0, r0, k, ascending);
                let rm = contents(r@).to_multiset();
                let bm = contents(b@).to_multiset();
                assert(rm.add(a0.to_multiset()).add(bm) =~= rm.add(bm).add(a0.to_multiset()));
                assert(r0.to_multiset().add(b0.to_multiset()).add(a0.to_multiset())
                    =~= r0.to_multiset().add(a0.to_multiset()).add(b0.to_multiset()));
            }
        }
    }
    proof {
        broadcast use vstd::seq_lib::group_to_multiset_ensures;

        assert(contents(a@) =~= Seq::<Seq<u8>>::empty());
        assert(contents(b@) =~= Seq::<Seq<u8>>::empty());
        assert(contents(r@).to_multiset() =~= whole);
    }
    r
}

/// Sorts `keys`, towards the greatest with `ascending` and towards the least without it.
fn merge_sort(keys: Vec<Vec<u8>>, ascending: bool) -> (r: Vec<Vec<u8>>)
    ensures
        contents(r@).to_multiset() == contents(keys@).to_multiset(),
        is_ordered(contents(r@), ascending),
    decreases keys.len(),
{
    if keys.len() <= 1 {
        proof {
            if keys.len() == 1 {
                lemma_bytes_le_reflexive(contents(keys@)[0]);
            }
        }
        keys
    } else {
        let mut front = keys;
        let half: usize = front.len() / 2;
        let back = front.split_off(half);
        proof {
            assert(contents(keys@) =~= contents(front@) + contents(back@));
            vstd::seq_lib::lemma_multiset_commutative(contents(front@), contents(back@));
        }
        let front = merge_sort(front, !ascending);
        let back = merge_sort(back, !ascending);
        merge(front, back, ascending)
    }
}

/// Sorts byte strings in ascending order.
pub fn sort_bytes(keys: Vec<Vec<u8>>) -> (r: Vec<Vec<u8>>)
    ensures
        is_ascending(contents(r@)),
        contents(r@).to_multiset() == contents(keys@).to_multiset(),
{
    let r = merge_sort(keys, true);
    proof {
        assert forall|i: int, j: int| 0 <= i <= j < contents(r@).len() implies bytes_le(
            #[trigger] contents(r@)[i],
            #[trigger] contents(r@)[j],
        ) by {
            assert(in_order(contents(r@)[i], contents(r@)[j], true));
        }
    }
    r
}

/// There is one way to put given byte strings in ascending order: two ascending lists that hold
/// the same byte strings, each as often, are the same list.
pub proof fn law_ascending_order_is_unique(s: Seq<Seq<u8>>, t: Seq<Seq<u8>>)
    requires
        is_ascending(s),
        is_ascending(t),
        s.to_multiset() == t.to_multiset(),
    ensures
        s == t,
    decreases s.len(),
{
    broadcast use vstd::seq_lib::group_to_multiset_ensures;

    assert(s.len() == s.to_multiset().len() && t.len() == t.to_multiset().len());
    if s.len() == 0 {
        assert(s =~= t);
    } else {
        let x = s.last();
        let y = t.last();
        assert(t.to_multiset().contains(y) && s.to_multiset().contains(x));
        assert(s.contains(y) && t.contains(x));
        let i = choose|i: int| 0 <= i < s.len() && s[i] == y;
        let j = choose|j: int| 0 <= j < t.len() && t[j] == x;
        assert(bytes_le(s[i], s[s.len() - 1]));
        assert(bytes_le(t[j], t[t.len() - 1]));
        lemma_bytes_le_antisymmetric(x, y);
        let s0 = s.drop_last();
        let t0 = t.drop_last();
        assert(s =~= s0.push(x));
        assert(t =~= t0.push(y));
        assert(s0.to_multiset() =~= s.to_multiset().remove(x));
        assert(t0.to_multiset() =~= t.to_multiset().remove(y));
        law_ascending_order_is_unique(s0, t0);
    }
}

} // verus!
