//! Storage layout of 4x4 matrices held as sixteen entries in column-major
//! order: the entry at row `r`, column `c` sits at index `r + 4 * c`.
//!
//! The operations here only place entries: they build the fixed layouts of
//! the identity, translation, scaling and camera-basis matrices from entry
//! values that the caller supplies (its zero, its one, the parameters), and
//! transpose a matrix. None does arithmetic on entries, so each is stated
//! for any copyable entry type and holds bit for bit.
use vstd::prelude::*;

verus! {

/// Index of the entry at row `r`, column `c` in column-major storage.
pub open spec fn at(r: int, c: int) -> int {
    r + 4 * c
}

/// The entry of `m` at row `r`, column `c`.
pub open spec fn entry<T>(m: Seq<T>, r: int, c: int) -> T {
    m[at(r, c)]
}

/// The transpose of a column-major matrix: the entry at row `r`, column `c`
/// of the result is the entry at row `c`, column `r` of `m`.
pub open spec fn transposed<T>(m: Seq<T>) -> Seq<T> {
    Seq::new(16, |i: int| entry(m, i / 4, i % 4))
}

/// The diagonal matrix with `d[k]` at row `k`, column `k` and `zero`
/// everywhere else.
pub open spec fn diagonal<T>(zero: T, d: Seq<T>) -> Seq<T> {
    Seq::new(16, |i: int| if i % 4 == i / 4 { d[i % 4] } else { zero })
}

/// The identity matrix over the given zero and one.
pub open spec fn identity_of<T>(zero: T, one: T) -> Seq<T> {
    diagonal(zero, seq![one, one, one, one])
}

/// The identity with its translation column, rows 0 to 2 of column 3, set to
/// `tx`, `ty`, `tz`.
pub open spec fn translation_of<T>(zero: T, one: T, tx: T, ty: T, tz: T) -> Seq<T> {
    identity_of(zero, one).update(at(0, 3), tx).update(at(1, 3), ty).update(at(2, 3), tz)
}

/// The diagonal matrix `diag(sx, sy, sz, one)`.
pub open spec fn scaling_of<T>(zero: T, one: T, sx: T, sy: T, sz: T) -> Seq<T> {
    diagonal(zero, seq![sx, sy, sz, one])
}

/// The matrix whose first three columns hold the axes `x`, `y`, `z` over a
/// last row of `zero`, and whose last column holds the position `p` over
/// `one`.
pub open spec fn basis_of<T>(x: Seq<T>, y: Seq<T>, z: Seq<T>, p: Seq<T>, zero: T, one: T) -> Seq<T> {
    Seq::new(
        16,
        |i: int|
            if i % 4 < 3 {
                seq![x, y, z, p][i / 4][i % 4]
            } else if i / 4 < 3 {
                zero
            } else {
                one
            },
    )
}

/// The identity matrix, with `one` on the diagonal and `zero` elsewhere.
pub fn m4_identity<T: Copy>(zero: T, one: T) -> (m: [T; 16])
    ensures
        m@ == identity_of(zero, one),
{
    let m = [
        one, zero, zero, zero,
        zero, one, zero, zero,
        zero, zero, one, zero,
        zero, zero, zero, one,
    ];
    assert(m@ =~= identity_of(zero, one));
    m
}

/// The translation by `(tx, ty, tz)`: the identity with its last column set
/// to `[tx, ty, tz, one]`.
pub fn m4_translation<T: Copy>(zero: T, one: T, tx: T, ty: T, tz: T) -> (m: [T; 16])
    ensures
        m@ == translation_of(zero, one, tx, ty, tz),
{
    let m = [
        one, zero, zero, zero,
        zero, one, zero, zero,
        zero, zero, one, zero,
        tx, ty, tz, one,
    ];
    assert(m@ =~= translation_of(zero, one, tx, ty, tz));
    m
}

/// The scaling by `(sx, sy, sz)`: the diagonal matrix `diag(sx, sy, sz, one)`.
pub fn m4_scaling<T: Copy>(zero: T, one: T, sx: T, sy: T, sz: T) -> (m: [T; 16])
    ensures
        m@ == scaling_of(zero, one, sx, sy, sz),
{
    let m = [
        sx, zero, zero, zero,
        zero, sy, zero, zero,
        zero, zero, sz, zero,
        zero, zero, zero, one,
    ];
    assert(m@ =~= scaling_of(zero, one, sx, sy, sz));
    m
}

/// The camera matrix of a look-at transform, from its three axes and the
/// camera position: columns 0, 1 and 2 hold `x`, `y` and `z` over `zero`,
/// column 3 holds `pos` over `one`.
pub fn m4_basis<T: Copy>(x: [T; 3], y: [T; 3], z: [T; 3], pos: [T; 3], zero: T, one: T) -> (m: [T; 16])
    ensures
        m@ == basis_of(x@, y@, z@, pos@, zero, one),
{
    let m = [
        x[0], x[1], x[2], zero,
        y[0], y[1], y[2], zero,
        z[0], z[1], z[2], zero,
        pos[0], pos[1], pos[2], one,
    ];
    assert(m@ =~= basis_of(x@, y@, z@, pos@, zero, one));
    m
}

/// Swaps rows and columns.
pub fn m4_transpose<T: Copy>(m: &[T; 16]) -> (t: [T; 16])
    ensures
        t@ == transposed(m@),
        forall|r: int, c: int|
            0 <= r < 4 && 0 <= c < 4 ==> #[trigger] entry(t@, r, c) == entry(m@, c, r),
{
    let t = [
        m[0], m[4], m[8], m[12],
        m[1], m[5], m[9], m[13],
        m[2], m[6], m[10], m[14],
        m[3], m[7], m[11], m[15],
    ];
    assert(t@ =~= transposed(m@));
    t
}

/// Transposing twice gives back the matrix, entry for entry.
pub proof fn lemma_transpose_involutive<T>(m: Seq<T>)
    requires
        m.len() == 16,
    ensures
        transposed(transposed(m)) == m,
{
    assert forall|i: int| 0 <= i < 16 implies #[trigger] transposed(transposed(m))[i] == m[i] by {
        let j = at(i / 4, i % 4);
        assert(0 <= j < 16 && j / 4 == i % 4 && j % 4 == i / 4);
    }
    assert(transposed(transposed(m)) =~= m);
}

/// Scaling by one along every axis is the identity.
pub proof fn lemma_unit_scaling_is_identity<T>(zero: T, one: T)
    ensures
        scaling_of(zero, one, one, one, one) == identity_of(zero, one),
{
    assert(scaling_of(zero, one, one, one, one) =~= identity_of(zero, one));
}

/// Translating by zero along every axis is the identity.
pub proof fn lemma_zero_translation_is_identity<T>(zero: T, one: T)
    ensures
        translation_of(zero, one, zero, zero, zero) == identity_of(zero, one),
{
    assert(translation_of(zero, one, zero, zero, zero) =~= identity_of(zero, one));
}

/// A diagonal matrix, so the identity and every scaling, is its own
/// transpose.
pub proof fn lemma_diagonal_symmetric<T>(zero: T, d: Seq<T>)
    requires
        d.len() == 4,
    ensures
        transposed(diagonal(zero, d)) == diagonal(zero, d),
{
    assert(transposed(diagonal(zero, d)) =~= diagonal(zero, d));
}

} // verus!
