use vstd::prelude::*;

verus! {

/// A 4x4 matrix whose sixteen entries are kept in row-major order:
/// the entry of row `r` and column `c` is `m[4 * r + c]`.
#[derive(Clone, Copy)]
pub struct Matrix4<T> {
    pub m: [T; 16],
}

impl<T> Matrix4<T> {
    /// The entry of row `r` and column `c`.
    pub open spec fn entry(self, r: int, c: int) -> T {
        self.m@[4 * r + c]
    }
}

/// The column-major layout of a row-major flat matrix `s`: position `i` of the
/// result holds the entry of row `i % 4` and column `i / 4`.
pub open spec fn transposed_layout<T>(s: Seq<T>) -> Seq<T> {
    Seq::new(16, |i: int| s[4 * (i % 4) + i / 4])
}

/// The sixteen entries in column-major order.
pub fn mat_to_col_array<T: Copy>(mat: &Matrix4<T>) -> (r: [T; 16])
    ensures
        r@ == transposed_layout(mat.m@),
        forall|row: int, col: int|
            0 <= row < 4 && 0 <= col < 4 ==> r@[4 * col + row] == mat.entry(row, col),
{
    let m = &mat.m;
    let r = [
        m[0], m[4], m[8], m[12],
        m[1], m[5], m[9], m[13],
        m[2], m[6], m[10], m[14],
        m[3], m[7], m[11], m[15],
    ];
    assert(r@ =~= transposed_layout(mat.m@));
    r
}

/// The sixteen entries in row-major order.
pub fn mat_to_row_array<T: Copy>(mat: &Matrix4<T>) -> (r: [T; 16])
    ensures
        r@ == mat.m@,
{
    mat.m
}

/// The matrix whose column-major layout is `a`.
pub fn mat_from_col_array<T: Copy>(a: &[T; 16]) -> (mat: Matrix4<T>)
    ensures
        mat.m@ == transposed_layout(a@),
        forall|row: int, col: int|
            0 <= row < 4 && 0 <= col < 4 ==> mat.entry(row, col) == a@[4 * col + row],
{
    let r = [
        a[0], a[4], a[8], a[12],
        a[1], a[5], a[9], a[13],
        a[2], a[6], a[10], a[14],
        a[3], a[7], a[11], a[15],
    ];
    assert(r@ =~= transposed_layout(a@));
    Matrix4 { m: r }
}

/// The matrix whose row-major layout is `a`.
pub fn mat_from_row_array<T: Copy>(a: &[T; 16]) -> (mat: Matrix4<T>)
    ensures
        mat.m@ == a@,
{
    Matrix4 { m: *a }
}

/// Relayout to column-major order and back gives the same matrix.
pub proof fn lemma_col_array_round_trip<T>(m: Matrix4<T>, a: [T; 16], back: Matrix4<T>)
    requires
        a@ == transposed_layout(m.m@),
        back.m@ == transposed_layout(a@),
    ensures
        back == m,
{
    assert(back.m@ =~= m.m@);
    vstd::array::lemma_array_index(back.m, 0);
    assert(back.m == m.m);
}

} // verus!
