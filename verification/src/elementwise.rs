use vstd::prelude::*;

verus! {

/// The shorter of two lengths.
pub open spec fn common_len(a: nat, b: nat) -> nat {
    if a <= b {
        a
    } else {
        b
    }
}

/// `f` applied to every element of `a`.
pub open spec fn map_each<T>(a: Seq<T>, f: spec_fn(T) -> T) -> Seq<T> {
    Seq::new(a.len(), |i: int| f(a[i]))
}

/// `f` applied to every element of `a` with the same scalar `s` on the right.
pub open spec fn with_scalar<T>(a: Seq<T>, s: T, f: spec_fn(T, T) -> T) -> Seq<T> {
    Seq::new(a.len(), |i: int| f(a[i], s))
}

/// `f` applied position by position to `a` and `b`, as far as both reach: what
/// the longer one holds beyond that is dropped.
pub open spec fn zip_with<T>(a: Seq<T>, b: Seq<T>, f: spec_fn(T, T) -> T) -> Seq<T> {
    Seq::new(common_len(a.len(), b.len()), |i: int| f(a[i], b[i]))
}

/// `a` with `f` applied position by position to `a` and `b` as far as both
/// reach, and with the rest of `a` kept as it is.
pub open spec fn zip_onto<T>(a: Seq<T>, b: Seq<T>, f: spec_fn(T, T) -> T) -> Seq<T> {
    Seq::new(
        a.len(),
        |i: int|
            if i < b.len() {
                f(a[i], b[i])
            } else {
                a[i]
            },
    )
}

/// `r` holds, for every element of `a`, a result of the call `f(a[i])`.
pub open spec fn each_from<T, F: Fn(T) -> T>(a: Seq<T>, f: F, r: Seq<T>) -> bool {
    &&& r.len() == a.len()
    &&& forall|i: int| 0 <= i < a.len() ==> call_ensures(f, (a[i],), #[trigger] r[i])
}

/// `r` holds, for every element of `a`, a result of the call `f(a[i], s)`.
pub open spec fn each_from_scalar<T, F: Fn(T, T) -> T>(a: Seq<T>, s: T, f: F, r: Seq<T>) -> bool {
    &&& r.len() == a.len()
    &&& forall|i: int| 0 <= i < a.len() ==> call_ensures(f, (a[i], s), #[trigger] r[i])
}

/// `r` has the length that `a` and `b` share and holds at every position a
/// result of the call `f(a[i], b[i])`.
pub open spec fn each_from_pair<T, F: Fn(T, T) -> T>(
    a: Seq<T>,
    b: Seq<T>,
    f: F,
    r: Seq<T>,
) -> bool {
    &&& r.len() == common_len(a.len(), b.len())
    &&& forall|i: int| 0 <= i < r.len() ==> call_ensures(f, (a[i], b[i]), #[trigger] r[i])
}

/// `r` has the length of `a`, holds a result of the call `f(a[i], b[i])` at
/// every position that `b` reaches, and the element of `a` at every other.
pub open spec fn each_onto<T, F: Fn(T, T) -> T>(a: Seq<T>, b: Seq<T>, f: F, r: Seq<T>) -> bool {
    &&& r.len() == a.len()
    &&& forall|i: int|
        0 <= i < a.len() && i < b.len() ==> call_ensures(f, (a[i], b[i]), #[trigger] r[i])
    &&& forall|i: int| b.len() <= i < a.len() ==> #[trigger] r[i] == a[i]
}

/// The call `f(a[i])` is allowed for every element of `a`.
pub open spec fn each_allowed<T, F: Fn(T) -> T>(a: Seq<T>, f: F) -> bool {
    forall|i: int| 0 <= i < a.len() ==> call_requires(f, (#[trigger] a[i],))
}

/// The call `f(a[i], s)` is allowed for every element of `a`.
pub open spec fn scalar_allowed<T, F: Fn(T, T) -> T>(a: Seq<T>, s: T, f: F) -> bool {
    forall|i: int| 0 <= i < a.len() ==> call_requires(f, (#[trigger] a[i], s))
}

/// The call `f(a[i], b[i])` is allowed at every position that both reach.
pub open spec fn pair_allowed<T, F: Fn(T, T) -> T>(a: Seq<T>, b: Seq<T>, f: F) -> bool {
    forall|i: int|
        #![trigger a[i]]
        #![trigger b[i]]
        0 <= i < a.len() && i < b.len() ==> call_requires(f, (a[i], b[i]))
}

/// An operator with a scalar gives, at every position, the operator applied
/// to the element there and the scalar, and keeps the length.
pub proof fn lemma_with_scalar_at<T>(a: Seq<T>, s: T, f: spec_fn(T, T) -> T, i: int)
    requires
        0 <= i < a.len(),
    ensures
        with_scalar(a, s, f).len() == a.len(),
        with_scalar(a, s, f)[i] == f(a[i], s),
{
}

/// An operator with another list gives, at every position that both reach,
/// the operator applied to the two elements there, and nothing beyond.
pub proof fn lemma_zip_with_at<T>(a: Seq<T>, b: Seq<T>, f: spec_fn(T, T) -> T, i: int)
    requires
        0 <= i < a.len(),
        i < b.len(),
    ensures
        zip_with(a, b, f).len() == common_len(a.len(), b.len()),
        zip_with(a, b, f)[i] == f(a[i], b[i]),
{
}

/// With an empty operand on either side the result is empty.
pub proof fn lemma_zip_with_empty<T>(a: Seq<T>, b: Seq<T>, f: spec_fn(T, T) -> T)
    requires
        a.len() == 0 || b.len() == 0,
    ensures
        zip_with(a, b, f) == Seq::<T>::empty(),
{
    assert(zip_with(a, b, f) =~= Seq::<T>::empty());
}

/// Compound assignment keeps the length of the left operand, changes the
/// positions that the right operand reaches, and leaves the others as they
/// were.
pub proof fn lemma_zip_onto_at<T>(a: Seq<T>, b: Seq<T>, f: spec_fn(T, T) -> T, i: int)
    requires
        0 <= i < a.len(),
    ensures
        zip_onto(a, b, f).len() == a.len(),
        i < b.len() ==> zip_onto(a, b, f)[i] == f(a[i], b[i]),
        i >= b.len() ==> zip_onto(a, b, f)[i] == a[i],
{
}

/// Compound assignment leaves in the left operand what the operator gives
/// for the two lists, followed by the elements of the left operand that the
/// right one does not reach. Where the left operand is no longer than the
/// right one, and so for two lists of equal length, it leaves exactly what
/// the operator gives.
pub proof fn lemma_zip_onto_is_zip_with<T>(a: Seq<T>, b: Seq<T>, f: spec_fn(T, T) -> T)
    ensures
        zip_onto(a, b, f) == zip_with(a, b, f) + a.skip(common_len(a.len(), b.len()) as int),
        a.len() <= b.len() ==> zip_onto(a, b, f) == zip_with(a, b, f),
{
    assert(zip_onto(a, b, f) =~= zip_with(a, b, f) + a.skip(
        common_len(a.len(), b.len()) as int,
    ));
    if a.len() <= b.len() {
        assert(zip_onto(a, b, f) =~= zip_with(a, b, f));
    }
}

/// A unary operator that undoes itself on every element of a list undoes
/// itself on the list: applied twice, it gives the list back.
pub proof fn lemma_map_each_twice<T>(a: Seq<T>, f: spec_fn(T) -> T)
    requires
        forall|i: int| 0 <= i < a.len() ==> f(f(#[trigger] a[i])) == a[i],
    ensures
        map_each(map_each(a, f), f) == a,
{
    assert(map_each(map_each(a, f), f) =~= a);
}

/// Replaces every element of `data` by `f` of it.
pub(crate) fn map_array<T: Copy, F: Fn(T) -> T, const N: usize>(data: &mut [T; N], f: F)
    requires
        each_allowed(old(data)@, f),
    ensures
        each_from(old(data)@, f, final(data)@),
{
    let mut i: usize = 0;
    while i < N
        invariant
            i <= N,
            each_allowed(old(data)@, f),
            forall|j: int| i <= j < N ==> data@[j] == old(data)@[j],
            forall|j: int| 0 <= j < i ==> call_ensures(f, (old(data)@[j],), #[trigger] data@[j]),
        decreases N - i,
    {
        let x = data[i];
        assert(x == old(data)@[i as int]);
        data[i] = f(x);
        i += 1;
    }
}

/// Replaces every element of `data` by `f` of it and the scalar `rhs`.
pub(crate) fn scalar_array<T: Copy, F: Fn(T, T) -> T, const N: usize>(
    data: &mut [T; N],
    rhs: T,
    f: F,
)
    requires
        scalar_allowed(old(data)@, rhs, f),
    ensures
        each_from_scalar(old(data)@, rhs, f, final(data)@),
{
    let mut i: usize = 0;
    while i < N
        invariant
            i <= N,
            scalar_allowed(old(data)@, rhs, f),
            forall|j: int| i <= j < N ==> data@[j] == old(data)@[j],
            forall|j: int|
                0 <= j < i ==> call_ensures(f, (old(data)@[j], rhs), #[trigger] data@[j]),
        decreases N - i,
    {
        let x = data[i];
        assert(x == old(data)@[i as int]);
        data[i] = f(x, rhs);
        i += 1;
    }
}

/// Replaces every element of `data` by `f` of it and the element of `rhs` at
/// the same position.
pub(crate) fn pair_array<T: Copy, F: Fn(T, T) -> T, const N: usize>(
    data: &mut [T; N],
    rhs: &[T; N],
    f: F,
)
    requires
        pair_allowed(old(data)@, rhs@, f),
    ensures
        each_onto(old(data)@, rhs@, f, final(data)@),
        each_from_pair(old(data)@, rhs@, f, final(data)@),
{
    let mut i: usize = 0;
    while i < N
        invariant
            i <= N,
            pair_allowed(old(data)@, rhs@, f),
            forall|j: int| i <= j < N ==> data@[j] == old(data)@[j],
            forall|j: int|
                0 <= j < i ==> call_ensures(f, (old(data)@[j], rhs@[j]), #[trigger] data@[j]),
        decreases N - i,
    {
        let x = data[i];
        assert(x == old(data)@[i as int]);
        data[i] = f(x, rhs[i]);
        i += 1;
    }
}

/// Replaces every element of `data` by `f` of it.
pub(crate) fn map_vec<T: Copy, F: Fn(T) -> T>(data: &mut Vec<T>, f: F)
    requires
        each_allowed(old(data)@, f),
    ensures
        each_from(old(data)@, f, final(data)@),
{
    let n = data.len();
    let mut i: usize = 0;
    while i < n
        invariant
            i <= n,
            n == old(data)@.len(),
            data@.len() == n,
            each_allowed(old(data)@, f),
            forall|j: int| i <= j < n ==> data@[j] == old(data)@[j],
            forall|j: int| 0 <= j < i ==> call_ensures(f, (old(data)@[j],), #[trigger] data@[j]),
        decreases n - i,
    {
        let x = data[i];
        assert(x == old(data)@[i as int]);
        data[i] = f(x);
        i += 1;
    }
}

/// Replaces every element of `data` by `f` of it and the scalar `rhs`.
pub(crate) fn scalar_vec<T: Copy, F: Fn(T, T) -> T>(data: &mut Vec<T>, rhs: T, f: F)
    requires
        scalar_allowed(old(data)@, rhs, f),
    ensures
        each_from_scalar(old(data)@, rhs, f, final(data)@),
{
    let n = data.len();
    let mut i: usize = 0;
    while i < n
        invariant
            i <= n,
            n == old(data)@.len(),
            data@.len() == n,
            scalar_allowed(old(data)@, rhs, f),
            forall|j: int| i <= j < n ==> data@[j] == old(data)@[j],
            forall|j: int|
                0 <= j < i ==> call_ensures(f, (old(data)@[j], rhs), #[trigger] data@[j]),
        decreases n - i,
    {
        let x = data[i];
        assert(x == old(data)@[i as int]);
        data[i] = f(x, rhs);
        i += 1;
    }
}

/// Replaces the elements of `data` that `rhs` reaches by `f` of each and the
/// element of `rhs` at the same position; the others stay.
pub(crate) fn pair_vec_onto<T: Copy, F: Fn(T, T) -> T>(data: &mut Vec<T>, rhs: &Vec<T>, f: F)
    requires
        pair_allowed(old(data)@, rhs@, f),
    ensures
        each_onto(old(data)@, rhs@, f, final(data)@),
{
    let n = if data.len() <= rhs.len() {
        data.len()
    } else {
        rhs.len()
    };
    let mut i: usize = 0;
    while i < n
        invariant
            i <= n,
            n == common_len(old(data)@.len(), rhs@.len()),
            data@.len() == old(data)@.len(),
            pair_allowed(old(data)@, rhs@, f),
            forall|j: int| i <= j < data@.len() ==> data@[j] == old(data)@[j],
            forall|j: int|
                0 <= j < i ==> call_ensures(f, (old(data)@[j], rhs@[j]), #[trigger] data@[j]),
        decreases n - i,
    {
        let x = data[i];
        assert(x == old(data)@[i as int]);
        data[i] = f(x, rhs[i]);
        i += 1;
    }
}

/// A new vector, as long as the shorter of `lhs` and `rhs`, of `f` of the
/// elements of the two at each position.
pub(crate) fn pair_vec<T: Copy, F: Fn(T, T) -> T>(lhs: &Vec<T>, rhs: &Vec<T>, f: F) -> (res: Vec<T>)
    requires
        pair_allowed(lhs@, rhs@, f),
    ensures
        each_from_pair(lhs@, rhs@, f, res@),
{
    let n = if lhs.len() <= rhs.len() {
        lhs.len()
    } else {
        rhs.len()
    };
    let mut res: Vec<T> = Vec::new();
    let mut i: usize = 0;
    while i < n
        invariant
            i <= n,
            n == common_len(lhs@.len(), rhs@.len()),
            res@.len() == i,
            pair_allowed(lhs@, rhs@, f),
            forall|j: int| 0 <= j < i ==> call_ensures(f, (lhs@[j], rhs@[j]), #[trigger] res@[j]),
        decreases n - i,
    {
        res.push(f(lhs[i], rhs[i]));
        i += 1;
    }
    res
}

} // verus!
