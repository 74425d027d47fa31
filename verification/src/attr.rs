//! Attribute lists with override semantics. Every node of the document tree
//! carries an ordered list of options in which options of the same *kind*
//! are mutually exclusive: inserting one first removes the previous holder
//! of that kind and then appends, so the survivor is always the most recent
//! write and sits last in render order. Kind `0` is the free-form kind:
//! free-form options accumulate without bound and never displace anything.

use vstd::prelude::*;

verus! {

/// An option with a kind tag deciding mutual exclusion on insertion.
pub trait AttrKind: Sized {
    /// The option's kind; `0` is the free-form kind.
    spec fn kind_spec(&self) -> u64;

    /// Returns the option's kind.
    fn kind(&self) -> (k: u64)
        ensures
            k == self.kind_spec(),
    ;
}

/// Index of the first option of kind `k` in `s`, or `-1` when there is none.
pub open spec fn find_kind<A: AttrKind>(s: Seq<A>, k: u64) -> int
    decreases s.len(),
{
    if s.len() == 0 {
        -1
    } else if s[0].kind_spec() == k {
        0
    } else {
        let r = find_kind(s.subrange(1, s.len() as int), k);
        if r < 0 {
            -1
        } else {
            r + 1
        }
    }
}

/// The list after inserting `a`: a free-form option is appended
/// unconditionally; any other option first displaces the existing option of
/// its kind, if one is present, and is then appended at the end.
pub open spec fn attr_insert<A: AttrKind>(s: Seq<A>, a: A) -> Seq<A> {
    if a.kind_spec() == 0 {
        s.push(a)
    } else {
        let i = find_kind(s, a.kind_spec());
        if i < 0 {
            s.push(a)
        } else {
            s.remove(i).push(a)
        }
    }
}

/// No two options outside the free-form kind share a kind: the invariant of
/// every option list in the crate.
pub open spec fn attrs_exclusive<A: AttrKind>(s: Seq<A>) -> bool {
    forall|i: int, j: int|
        0 <= i < j < s.len() ==> !((#[trigger] s[i]).kind_spec() == (#[trigger] s[j]).kind_spec()
            && s[i].kind_spec() != 0)
}

proof fn lemma_find_kind_first<A: AttrKind>(s: Seq<A>, k: u64, i: int)
    requires
        0 <= i < s.len(),
        s[i].kind_spec() == k,
        forall|j: int| 0 <= j < i ==> (#[trigger] s[j]).kind_spec() != k,
    ensures
        find_kind(s, k) == i,
    decreases i,
{
    if i > 0 {
        let t = s.subrange(1, s.len() as int);
        assert forall|j: int| 0 <= j < i - 1 implies (#[trigger] t[j]).kind_spec() != k by {
            assert(t[j] == s[j + 1]);
        }
        assert(t[i - 1] == s[i]);
        lemma_find_kind_first(t, k, i - 1);
    }
}

proof fn lemma_find_kind_none<A: AttrKind>(s: Seq<A>, k: u64)
    requires
        forall|j: int| 0 <= j < s.len() ==> (#[trigger] s[j]).kind_spec() != k,
    ensures
        find_kind(s, k) == -1,
    decreases s.len(),
{
    if s.len() > 0 {
        let t = s.subrange(1, s.len() as int);
        assert forall|j: int| 0 <= j < t.len() implies (#[trigger] t[j]).kind_spec() != k by {
            assert(t[j] == s[j + 1]);
        }
        lemma_find_kind_none(t, k);
    }
}

proof fn lemma_find_kind_found<A: AttrKind>(s: Seq<A>, k: u64)
    requires
        find_kind(s, k) >= 0,
    ensures
        0 <= find_kind(s, k) < s.len(),
        s[find_kind(s, k)].kind_spec() == k,
        forall|j: int| 0 <= j < find_kind(s, k) ==> (#[trigger] s[j]).kind_spec() != k,
    decreases s.len(),
{
    if s.len() > 0 && s[0].kind_spec() != k {
        let t = s.subrange(1, s.len() as int);
        lemma_find_kind_found(t, k);
        let r = find_kind(t, k);
        assert(s[r + 1] == t[r]);
        assert forall|j: int| 0 <= j < r + 1 implies (#[trigger] s[j]).kind_spec() != k by {
            if j > 0 {
                assert(s[j] == t[j - 1]);
            }
        }
    }
}

/// Inserts `a` into the option list with the override semantics of
/// [`attr_insert`].
pub fn insert_attr<A: AttrKind>(opts: &mut Vec<A>, a: A)
    ensures
        final(opts)@ == attr_insert(old(opts)@, a),
{
    let k = a.kind();
    let ghost s = opts@;
    if k != 0 {
        let mut i: usize = 0;
        while i < opts.len()
            invariant
                opts@ == s,
                s == old(opts)@,
                i <= s.len(),
                a.kind_spec() == k,
                k != 0,
                forall|j: int| 0 <= j < i ==> (#[trigger] s[j]).kind_spec() != k,
            decreases s.len() - i,
        {
            if opts[i].kind() == k {
                proof {
                    lemma_find_kind_first(s, k, i as int);
                }
                opts.remove(i);
                opts.push(a);
                return ;
            }
            i = i + 1;
        }
        proof {
            lemma_find_kind_none(s, k);
        }
    }
    opts.push(a);
}

/// The override law for exclusive kinds: however the list came about, after
/// inserting an option of a non-free-form kind the list holds exactly one
/// option of that kind - the one just inserted - and it sits at the end,
/// and the invariant of the list is preserved. Applied after each insertion
/// of a run of same-kind writes, this says only the last write survives.
pub proof fn lemma_attr_insert_last_write_wins<A: AttrKind>(s: Seq<A>, a: A)
    requires
        attrs_exclusive(s),
        a.kind_spec() != 0,
    ensures
        attr_insert(s, a).len() >= 1,
        attr_insert(s, a).last() == a,
        forall|i: int|
            0 <= i < attr_insert(s, a).len() - 1 ==> (#[trigger] attr_insert(s, a)[i]).kind_spec()
                != a.kind_spec(),
        attrs_exclusive(attr_insert(s, a)),
{
    let k = a.kind_spec();
    let fi = find_kind(s, k);
    if fi < 0 {
        lemma_find_kind_neg(s, k);
    } else {
        lemma_find_kind_found(s, k);
        let u = s.remove(fi);
        assert(u =~= s.subrange(0, fi) + s.subrange(fi + 1, s.len() as int));
        assert forall|i: int| 0 <= i < u.len() implies (#[trigger] u[i]).kind_spec() != k by {
            if i < fi {
                assert(u[i] == s[i]);
            } else {
                assert(u[i] == s[i + 1]);
                assert(!(s[fi].kind_spec() == s[i + 1].kind_spec() && s[fi].kind_spec() != 0));
            }
        }
        assert forall|i: int, j: int|
            0 <= i < j < u.len() implies !((#[trigger] u[i]).kind_spec()
            == (#[trigger] u[j]).kind_spec() && u[i].kind_spec() != 0) by {
            let i0 = if i < fi {
                i
            } else {
                i + 1
            };
            let j0 = if j < fi {
                j
            } else {
                j + 1
            };
            assert(u[i] == s[i0]);
            assert(u[j] == s[j0]);
            assert(!(s[i0].kind_spec() == s[j0].kind_spec() && s[i0].kind_spec() != 0));
        }
    }
}

proof fn lemma_find_kind_neg<A: AttrKind>(s: Seq<A>, k: u64)
    requires
        find_kind(s, k) < 0,
    ensures
        forall|j: int| 0 <= j < s.len() ==> (#[trigger] s[j]).kind_spec() != k,
    decreases s.len(),
{
    if s.len() > 0 {
        let t = s.subrange(1, s.len() as int);
        lemma_find_kind_neg(t, k);
        assert forall|j: int| 0 <= j < s.len() implies (#[trigger] s[j]).kind_spec() != k by {
            if j > 0 {
                assert(t[j - 1] == s[j]);
            }
        }
    }
}

/// The free-form law: inserting a free-form option only appends it, so such
/// options accumulate and never collide, whatever their text, and the list
/// invariant is preserved.
pub proof fn lemma_attr_insert_free_form<A: AttrKind>(s: Seq<A>, a: A)
    requires
        a.kind_spec() == 0,
    ensures
        attr_insert(s, a) == s.push(a),
        attr_insert(s, a).len() == s.len() + 1,
        attrs_exclusive(s) ==> attrs_exclusive(attr_insert(s, a)),
{
}

/// Insertion never invents options: a property of the option inserted and
/// of everything already present holds of everything afterwards.
pub proof fn lemma_attr_insert_preserves<A: AttrKind>(s: Seq<A>, a: A, p: spec_fn(A) -> bool)
    requires
        forall|i: int| 0 <= i < s.len() ==> #[trigger] p(s[i]),
        p(a),
    ensures
        forall|i: int| 0 <= i < attr_insert(s, a).len() ==> #[trigger] p(attr_insert(s, a)[i]),
{
    lemma_attr_insert_elements(s, a);
    assert forall|i: int| 0 <= i < attr_insert(s, a).len() implies #[trigger] p(
        attr_insert(s, a)[i],
    ) by {
        if attr_insert(s, a)[i] != a {
            let j = choose|j: int| 0 <= j < s.len() && s[j] == attr_insert(s, a)[i];
            assert(p(s[j]));
        }
    }
}

/// The list after inserting each option of `batch` in order.
pub open spec fn attr_insert_all<A: AttrKind>(s: Seq<A>, batch: Seq<A>) -> Seq<A>
    decreases batch.len(),
{
    if batch.len() == 0 {
        s
    } else {
        attr_insert_all(attr_insert(s, batch[0]), batch.drop_first())
    }
}

/// The override law for a whole run of writes of one exclusive kind: after
/// any sequence of insertions of that kind, exactly one option of the kind
/// remains - the value written last - and it sits at the end of the list.
pub proof fn lemma_same_kind_run_last_write_wins<A: AttrKind>(s: Seq<A>, batch: Seq<A>, k: u64)
    requires
        attrs_exclusive(s),
        k != 0,
        batch.len() > 0,
        forall|i: int| 0 <= i < batch.len() ==> (#[trigger] batch[i]).kind_spec() == k,
    ensures
        attrs_exclusive(attr_insert_all(s, batch)),
        attr_insert_all(s, batch).len() >= 1,
        attr_insert_all(s, batch).last() == batch.last(),
        forall|i: int|
            0 <= i < attr_insert_all(s, batch).len() - 1 ==> (#[trigger] attr_insert_all(
                s,
                batch,
            )[i]).kind_spec() != k,
    decreases batch.len(),
{
    reveal_with_fuel(attr_insert_all, 2);
    let t = attr_insert(s, batch[0]);
    lemma_attr_insert_last_write_wins(s, batch[0]);
    if batch.len() == 1 {
        assert(batch.drop_first() =~= Seq::<A>::empty());
        assert(attr_insert_all(s, batch) == t);
    } else {
        let rest = batch.drop_first();
        assert forall|i: int| 0 <= i < rest.len() implies (#[trigger] rest[i]).kind_spec()
            == k by {
            assert(rest[i] == batch[i + 1]);
        }
        assert(rest.last() == batch.last());
        lemma_same_kind_run_last_write_wins(t, rest, k);
    }
}

/// Every option of the list after an insertion was either already present
/// or is the option inserted.
pub proof fn lemma_attr_insert_elements<A: AttrKind>(s: Seq<A>, a: A)
    ensures
        forall|i: int|
            0 <= i < attr_insert(s, a).len() ==> (#[trigger] attr_insert(s, a)[i]) == a
                || s.contains(attr_insert(s, a)[i]),
{
    let t = attr_insert(s, a);
    let k = a.kind_spec();
    if k != 0 && find_kind(s, k) >= 0 {
        let fi = find_kind(s, k);
        lemma_find_kind_found(s, k);
        let u = s.remove(fi);
        assert(u =~= s.subrange(0, fi) + s.subrange(fi + 1, s.len() as int));
        assert forall|i: int| 0 <= i < t.len() implies t[i] == a || s.contains(t[i]) by {
            if i < u.len() {
                if i < fi {
                    assert(t[i] == s[i]);
                } else {
                    assert(t[i] == s[i + 1]);
                }
            }
        }
    }
}

} // verus!
