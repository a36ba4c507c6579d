//! Ordering of function-category files: a file literally named `types.sql`
//! sorts before every other file, so that the types it creates exist before
//! any function created later in the same run refers to them. Relative order
//! within the types files and within the remaining files is kept as given;
//! no other ordering is defined.

use vstd::prelude::*;
use vstd::seq_lib::lemma_multiset_commutative;

verus! {

/// One source file whose statements have already been validated: its path,
/// its bare file name, and its statement texts in file order.
#[derive(Debug, PartialEq, Eq)]
pub struct SqlFile {
    /// The file's full path, kept for diagnostics.
    pub path: String,
    /// The file's bare name, the last path component.
    pub name: String,
    /// The file's validated statement texts, in file order.
    pub statements: Vec<String>,
}

/// Whether this file is a types file, by its bare name.
pub open spec fn is_types(f: SqlFile) -> bool {
    f.name@ == "types.sql"@
}

/// The types-first order: all `types.sql` files, in their given order,
/// followed by all other files, in their given order.
pub open spec fn types_first(files: Seq<SqlFile>) -> Seq<SqlFile> {
    files.filter(|f: SqlFile| is_types(f)) + files.filter(|f: SqlFile| !is_types(f))
}

/// Whether this file is named exactly `types.sql`.
pub fn is_types_file(f: &SqlFile) -> (r: bool)
    ensures
        r == is_types(*f),
{
    let types_name: String = "types.sql".to_owned();
    f.name.eq(&types_name)
}

/// Reorders the function-category files so that every `types.sql` file comes
/// first, keeping the given order within each class.
pub fn order_function_files(files: Vec<SqlFile>) -> (r: Vec<SqlFile>)
    ensures
        r@ == types_first(files@),
{
    let ghost orig: Seq<SqlFile> = files@;
    let mut rest = files;
    let total: usize = rest.len();
    proof {
        assert(orig.len() == total);
    }
    let mut types: Vec<SqlFile> = Vec::new();
    let mut others: Vec<SqlFile> = Vec::new();
    let mut k: usize = 0;
    proof {
        assert(orig.take(0int) =~= Seq::<SqlFile>::empty());
        assert(types@ =~= orig.take(0int).filter(|f: SqlFile| is_types(f)));
        assert(others@ =~= orig.take(0int).filter(|f: SqlFile| !is_types(f)));
    }
    while rest.len() > 0
        invariant
            orig.len() <= usize::MAX,
            k + rest@.len() == orig.len(),
            rest@ =~= orig.skip(k as int),
            types@ == orig.take(k as int).filter(|f: SqlFile| is_types(f)),
            others@ == orig.take(k as int).filter(|f: SqlFile| !is_types(f)),
        decreases rest@.len(),
    {
        let f = rest.remove(0);
        proof {
            assert(f == orig[k as int]);
            assert(rest@ =~= orig.skip(k + 1));
            assert(orig.take(k + 1) =~= orig.take(k as int) + seq![orig[k as int]]);
            reveal_with_fuel(Seq::<SqlFile>::filter, 2);
            Seq::<SqlFile>::filter_distributes_over_add(
                orig.take(k as int),
                seq![orig[k as int]],
                |f: SqlFile| is_types(f),
            );
            Seq::<SqlFile>::filter_distributes_over_add(
                orig.take(k as int),
                seq![orig[k as int]],
                |f: SqlFile| !is_types(f),
            );
            assert(seq![orig[k as int]].drop_last() =~= Seq::<SqlFile>::empty());
        }
        if is_types_file(&f) {
            types.push(f);
        } else {
            others.push(f);
        }
        proof {
            assert(types@ =~= orig.take(k + 1).filter(|f: SqlFile| is_types(f)));
            assert(others@ =~= orig.take(k + 1).filter(|f: SqlFile| !is_types(f)));
        }
        k = k + 1;
    }
    proof {
        assert(orig.take(orig.len() as int) =~= orig);
    }
    let mut ordered = types;
    ordered.append(&mut others);
    ordered
}

/// Law: the types-first order is a permutation of the given files in which
/// every `types.sql` file stands before every other file, and the given
/// order is kept within each class.
pub proof fn lemma_types_first_ordering(files: Seq<SqlFile>)
    ensures
        types_first(files).to_multiset() == files.to_multiset(),
        forall|i: int, j: int|
            0 <= i < j < types_first(files).len() && is_types(#[trigger] types_first(files)[j])
                ==> is_types(#[trigger] types_first(files)[i]),
        types_first(files).filter(|f: SqlFile| is_types(f)) == files.filter(
            |f: SqlFile| is_types(f),
        ),
        types_first(files).filter(|f: SqlFile| !is_types(f)) == files.filter(
            |f: SqlFile| !is_types(f),
        ),
{
    broadcast use vstd::seq_lib::group_filter_ensures;

    let p = |f: SqlFile| is_types(f);
    let q = |f: SqlFile| !is_types(f);
    let a = files.filter(p);
    let b = files.filter(q);
    lemma_filter_partition_multiset(files);
    assert forall|i: int, j: int|
        0 <= i < j < types_first(files).len() && is_types(
            #[trigger] types_first(files)[j],
        ) implies is_types(#[trigger] types_first(files)[i]) by {
        if j >= a.len() {
            assert(types_first(files)[j] == b[j - a.len()]);
            assert(!is_types(b[j - a.len()]));
        }
    }
    Seq::<SqlFile>::filter_distributes_over_add(a, b, p);
    Seq::<SqlFile>::filter_distributes_over_add(a, b, q);
    lemma_filter_all(a, p);
    lemma_filter_none(b, p);
    lemma_filter_all_neg(b);
    lemma_filter_none_neg(a);
    assert(types_first(files).filter(p) =~= files.filter(p));
    assert(types_first(files).filter(q) =~= files.filter(q));
}

/// Filtering keeps a sequence all of whose elements satisfy the predicate.
proof fn lemma_filter_all(s: Seq<SqlFile>, pred: spec_fn(SqlFile) -> bool)
    requires
        forall|i: int| 0 <= i < s.len() ==> pred(#[trigger] s[i]),
    ensures
        s.filter(pred) == s,
    decreases s.len(),
{
    reveal_with_fuel(Seq::<SqlFile>::filter, 2);
    if s.len() > 0 {
        lemma_filter_all(s.drop_last(), pred);
        assert(s.drop_last().filter(pred).push(s.last()) =~= s);
    }
}

/// Filtering empties a sequence none of whose elements satisfies the
/// predicate.
proof fn lemma_filter_none(s: Seq<SqlFile>, pred: spec_fn(SqlFile) -> bool)
    requires
        forall|i: int| 0 <= i < s.len() ==> !pred(#[trigger] s[i]),
    ensures
        s.filter(pred) == Seq::<SqlFile>::empty(),
    decreases s.len(),
{
    reveal_with_fuel(Seq::<SqlFile>::filter, 2);
    if s.len() > 0 {
        lemma_filter_none(s.drop_last(), pred);
    }
}

/// Every element of a filtered sequence satisfies the predicate, stated for
/// the negated types predicate.
proof fn lemma_filter_all_neg(b: Seq<SqlFile>)
    requires
        forall|i: int| 0 <= i < b.len() ==> !is_types(#[trigger] b[i]),
    ensures
        b.filter(|f: SqlFile| !is_types(f)) == b,
{
    lemma_filter_all(b, |f: SqlFile| !is_types(f));
}

/// A sequence of types files has no element left by the negated predicate.
proof fn lemma_filter_none_neg(a: Seq<SqlFile>)
    requires
        forall|i: int| 0 <= i < a.len() ==> is_types(#[trigger] a[i]),
    ensures
        a.filter(|f: SqlFile| !is_types(f)) == Seq::<SqlFile>::empty(),
{
    lemma_filter_none(a, |f: SqlFile| !is_types(f));
}

/// A sequence is a permutation of its partition by any predicate.
proof fn lemma_filter_partition_multiset(s: Seq<SqlFile>)
    ensures
        (s.filter(|f: SqlFile| is_types(f)) + s.filter(|f: SqlFile| !is_types(f))).to_multiset()
            == s.to_multiset(),
    decreases s.len(),
{
    broadcast use vstd::seq_lib::group_to_multiset_ensures;

    let p = |f: SqlFile| is_types(f);
    let q = |f: SqlFile| !is_types(f);
    reveal_with_fuel(Seq::<SqlFile>::filter, 2);
    if s.len() == 0 {
        assert(s.filter(p) =~= Seq::<SqlFile>::empty());
        assert(s.filter(q) =~= Seq::<SqlFile>::empty());
        assert((s.filter(p) + s.filter(q)) =~= Seq::<SqlFile>::empty());
        assert((s.filter(p) + s.filter(q)).to_multiset() =~= s.to_multiset());
    } else {
        let t = s.drop_last();
        let x = s.last();
        lemma_filter_partition_multiset(t);
        lemma_multiset_commutative(t.filter(p), t.filter(q));
        lemma_multiset_commutative(s.filter(p), s.filter(q));
        assert(t.push(x) =~= s);
        if p(x) {
            assert(s.filter(p) == t.filter(p).push(x));
            assert(s.filter(q) == t.filter(q));
        } else {
            assert(s.filter(q) == t.filter(q).push(x));
            assert(s.filter(p) == t.filter(p));
        }
        assert((s.filter(p) + s.filter(q)).to_multiset() =~= s.to_multiset());
    }
}

} // verus!
