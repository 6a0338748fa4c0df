//! Vector and matrix operations on 64-bit integer coordinates.
//!
//! The toolkit's callers move meshes around with small linear-algebra
//! helpers: componentwise sums and differences, dot and cross products,
//! matrix products, and the standard identity, translation and scaling
//! matrices.  Each operation here states its result exactly, element by
//! element.  The multiplicative operations ask that every input lie within
//! `COORD_BOUND` so that every intermediate product and sum provably fits in
//! an `i64`.

use vstd::prelude::*;

verus! {

/// Largest magnitude a coordinate may have when it enters a product:
/// two to the thirtieth power.  A product of two such values stays below
/// two to the sixtieth, and a sum of at most four products below two to the
/// sixty-second, well inside `i64`.
pub const COORD_BOUND: i64 = 0x4000_0000;

/// The coordinate is small enough to take part in products.
pub open spec fn in_coord_range(x: i64) -> bool {
    -COORD_BOUND <= x && x <= COORD_BOUND
}

/// Every entry of a length-two vector is in coordinate range.
pub open spec fn vec2_in_range(v: Seq<i64>) -> bool {
    forall|k: int| 0 <= k < 2 ==> in_coord_range(#[trigger] v[k])
}

/// Every entry of a length-three vector is in coordinate range.
pub open spec fn vec3_in_range(v: Seq<i64>) -> bool {
    forall|k: int| 0 <= k < 3 ==> in_coord_range(#[trigger] v[k])
}

/// Every entry of a length-four vector is in coordinate range.
pub open spec fn vec4_in_range(v: Seq<i64>) -> bool {
    forall|k: int| 0 <= k < 4 ==> in_coord_range(#[trigger] v[k])
}

/// Every entry of a two-by-two matrix is in coordinate range.
pub open spec fn mat2_in_range(m: Seq<[i64; 2]>) -> bool {
    forall|i: int| 0 <= i < 2 ==> vec2_in_range(#[trigger] m[i]@)
}

/// Every entry of a three-by-three matrix is in coordinate range.
pub open spec fn mat3_in_range(m: Seq<[i64; 3]>) -> bool {
    forall|i: int| 0 <= i < 3 ==> vec3_in_range(#[trigger] m[i]@)
}

/// Every entry of a four-by-four matrix is in coordinate range.
pub open spec fn mat4_in_range(m: Seq<[i64; 4]>) -> bool {
    forall|i: int| 0 <= i < 4 ==> vec4_in_range(#[trigger] m[i]@)
}

/// Dot product of two length-two vectors, as an unbounded integer.
pub open spec fn spec_dot2(a: Seq<i64>, b: Seq<i64>) -> int {
    a[0] * b[0] + a[1] * b[1]
}

/// Dot product of two length-three vectors, as an unbounded integer.
pub open spec fn spec_dot3(a: Seq<i64>, b: Seq<i64>) -> int {
    a[0] * b[0] + a[1] * b[1] + a[2] * b[2]
}

/// Dot product of two length-four vectors, as an unbounded integer.
pub open spec fn spec_dot4(a: Seq<i64>, b: Seq<i64>) -> int {
    a[0] * b[0] + a[1] * b[1] + a[2] * b[2] + a[3] * b[3]
}

/// Column `j` of a two-by-two matrix.
pub open spec fn spec_col2(m: Seq<[i64; 2]>, j: int) -> Seq<i64> {
    seq![m[0]@[j], m[1]@[j]]
}

/// Column `j` of a three-by-three matrix.
pub open spec fn spec_col3(m: Seq<[i64; 3]>, j: int) -> Seq<i64> {
    seq![m[0]@[j], m[1]@[j], m[2]@[j]]
}

/// Column `j` of a four-by-four matrix.
pub open spec fn spec_col4(m: Seq<[i64; 4]>, j: int) -> Seq<i64> {
    seq![m[0]@[j], m[1]@[j], m[2]@[j], m[3]@[j]]
}

/// A product of two values within `b` of zero lies within `b * b` of zero.
pub proof fn lemma_mul_bound(x: int, y: int, b: int)
    by (nonlinear_arith)
    requires
        0 <= b,
        -b <= x && x <= b,
        -b <= y && y <= b,
    ensures
        -(b * b) <= x * y && x * y <= b * b,
{
}

/// The matrix is the four-by-four identity.
pub open spec fn spec_is_eye4(m: Seq<[i64; 4]>) -> bool {
    forall|i: int, j: int|
        0 <= i < 4 && 0 <= j < 4 ==> #[trigger] m[i]@[j] == (if i == j {
            1i64
        } else {
            0i64
        })
}

/// The identity matrix is a left identity of the matrix product: every
/// entry of the product of the identity with a matrix is the matrix's own
/// entry.
pub proof fn lemma_eye4_left_identity(e: Seq<[i64; 4]>, m: Seq<[i64; 4]>)
    requires
        spec_is_eye4(e),
    ensures
        forall|i: int, j: int|
            0 <= i < 4 && 0 <= j < 4 ==> #[trigger] spec_dot4(e[i]@, spec_col4(m, j)) == m[i]@[j],
{
    assert forall|i: int, j: int|
        0 <= i < 4 && 0 <= j < 4 implies #[trigger] spec_dot4(e[i]@, spec_col4(m, j))
        == m[i]@[j] by {
        let row = e[i]@;
        let col = spec_col4(m, j);
        assert(col[0] == m[0]@[j] && col[1] == m[1]@[j] && col[2] == m[2]@[j] && col[3] == m[3]@[
        j]);
        assert(row[0] == e[i]@[0] && row[1] == e[i]@[1] && row[2] == e[i]@[2] && row[3] == e[i]@[
        3]);
    }
}

/// The identity matrix is a right identity of the matrix product: every
/// entry of the product of a matrix with the identity is the matrix's own
/// entry.
pub proof fn lemma_eye4_right_identity(m: Seq<[i64; 4]>, e: Seq<[i64; 4]>)
    requires
        spec_is_eye4(e),
    ensures
        forall|i: int, j: int|
            0 <= i < 4 && 0 <= j < 4 ==> #[trigger] spec_dot4(m[i]@, spec_col4(e, j)) == m[i]@[j],
{
    assert forall|i: int, j: int|
        0 <= i < 4 && 0 <= j < 4 implies #[trigger] spec_dot4(m[i]@, spec_col4(e, j))
        == m[i]@[j] by {
        let row = m[i]@;
        let col = spec_col4(e, j);
        assert(col[0] == e[0]@[j] && col[1] == e[1]@[j] && col[2] == e[2]@[j] && col[3] == e[3]@[
        j]);
    }
}

/// Subtract two vectors.
pub fn subtract2(a: [i64; 2], b: [i64; 2]) -> (r: [i64; 2])
    requires
        forall|k: int| 0 <= k < 2 ==> i64::MIN <= #[trigger] (a@[k] - b@[k]) <= i64::MAX,
    ensures
        forall|k: int| 0 <= k < 2 ==> #[trigger] r@[k] == a@[k] - b@[k],
{
    [a[0] - b[0], a[1] - b[1]]
}

/// Subtract two vectors.
pub fn subtract3(a: [i64; 3], b: [i64; 3]) -> (r: [i64; 3])
    requires
        forall|k: int| 0 <= k < 3 ==> i64::MIN <= #[trigger] (a@[k] - b@[k]) <= i64::MAX,
    ensures
        forall|k: int| 0 <= k < 3 ==> #[trigger] r@[k] == a@[k] - b@[k],
{
    [a[0] - b[0], a[1] - b[1], a[2] - b[2]]
}

/// Subtract two vectors.
pub fn subtract4(a: [i64; 4], b: [i64; 4]) -> (r: [i64; 4])
    requires
        forall|k: int| 0 <= k < 4 ==> i64::MIN <= #[trigger] (a@[k] - b@[k]) <= i64::MAX,
    ensures
        forall|k: int| 0 <= k < 4 ==> #[trigger] r@[k] == a@[k] - b@[k],
{
    [a[0] - b[0], a[1] - b[1], a[2] - b[2], a[3] - b[3]]
}

/// Add two vectors componentwise.
pub fn add3(a: [i64; 3], b: [i64; 3]) -> (r: [i64; 3])
    requires
        forall|k: int| 0 <= k < 3 ==> i64::MIN <= #[trigger] (a@[k] + b@[k]) <= i64::MAX,
    ensures
        forall|k: int| 0 <= k < 3 ==> #[trigger] r@[k] == a@[k] + b@[k],
{
    [a[0] + b[0], a[1] + b[1], a[2] + b[2]]
}

/// Extract a column from a matrix.
pub fn extract_column2(mat: [[i64; 2]; 2], index: usize) -> (r: [i64; 2])
    requires
        index < 2,
    ensures
        r@ == spec_col2(mat@, index as int),
{
    let r = [mat[0][index], mat[1][index]];
    proof {
        assert(r@ =~= spec_col2(mat@, index as int));
    }
    r
}

/// Extract a column from a matrix.
pub fn extract_column3(mat: [[i64; 3]; 3], index: usize) -> (r: [i64; 3])
    requires
        index < 3,
    ensures
        r@ == spec_col3(mat@, index as int),
{
    let r = [mat[0][index], mat[1][index], mat[2][index]];
    proof {
        assert(r@ =~= spec_col3(mat@, index as int));
    }
    r
}

/// Extract a column from a matrix.
pub fn extract_column4(mat: [[i64; 4]; 4], index: usize) -> (r: [i64; 4])
    requires
        index < 4,
    ensures
        r@ == spec_col4(mat@, index as int),
{
    let r = [mat[0][index], mat[1][index], mat[2][index], mat[3][index]];
    proof {
        assert(r@ =~= spec_col4(mat@, index as int));
    }
    r
}

/// Calculate the dot product between two vectors.
pub fn dot2(a: [i64; 2], b: [i64; 2]) -> (r: i64)
    requires
        vec2_in_range(a@),
        vec2_in_range(b@),
    ensures
        r == spec_dot2(a@, b@),
{
    proof {
        lemma_mul_bound(a@[0] as int, b@[0] as int, COORD_BOUND as int);
        lemma_mul_bound(a@[1] as int, b@[1] as int, COORD_BOUND as int);
    }
    a[0] * b[0] + a[1] * b[1]
}

/// Calculate the dot product between two vectors.
pub fn dot3(a: [i64; 3], b: [i64; 3]) -> (r: i64)
    requires
        vec3_in_range(a@),
        vec3_in_range(b@),
    ensures
        r == spec_dot3(a@, b@),
{
    proof {
        lemma_mul_bound(a@[0] as int, b@[0] as int, COORD_BOUND as int);
        lemma_mul_bound(a@[1] as int, b@[1] as int, COORD_BOUND as int);
        lemma_mul_bound(a@[2] as int, b@[2] as int, COORD_BOUND as int);
    }
    a[0] * b[0] + a[1] * b[1] + a[2] * b[2]
}

/// Calculate the dot product between two vectors.
pub fn dot4(a: [i64; 4], b: [i64; 4]) -> (r: i64)
    requires
        vec4_in_range(a@),
        vec4_in_range(b@),
    ensures
        r == spec_dot4(a@, b@),
{
    proof {
        lemma_mul_bound(a@[0] as int, b@[0] as int, COORD_BOUND as int);
        lemma_mul_bound(a@[1] as int, b@[1] as int, COORD_BOUND as int);
        lemma_mul_bound(a@[2] as int, b@[2] as int, COORD_BOUND as int);
        lemma_mul_bound(a@[3] as int, b@[3] as int, COORD_BOUND as int);
    }
    a[0] * b[0] + a[1] * b[1] + a[2] * b[2] + a[3] * b[3]
}

/// Calculate the cross product between two vectors.
pub fn cross(a: [i64; 3], b: [i64; 3]) -> (r: [i64; 3])
    requires
        vec3_in_range(a@),
        vec3_in_range(b@),
    ensures
        r@[0] == a@[1] * b@[2] - a@[2] * b@[1],
        r@[1] == a@[2] * b@[0] - a@[0] * b@[2],
        r@[2] == a@[0] * b@[1] - a@[1] * b@[0],
{
    proof {
        lemma_mul_bound(a@[0] as int, b@[1] as int, COORD_BOUND as int);
        lemma_mul_bound(a@[0] as int, b@[2] as int, COORD_BOUND as int);
        lemma_mul_bound(a@[1] as int, b@[0] as int, COORD_BOUND as int);
        lemma_mul_bound(a@[1] as int, b@[2] as int, COORD_BOUND as int);
        lemma_mul_bound(a@[2] as int, b@[0] as int, COORD_BOUND as int);
        lemma_mul_bound(a@[2] as int, b@[1] as int, COORD_BOUND as int);
    }
    [
        a[1] * b[2] - a[2] * b[1],
        a[2] * b[0] - a[0] * b[2],
        a[0] * b[1] - a[1] * b[0],
    ]
}

/// Multiply two matrices.
pub fn matmul2(a: [[i64; 2]; 2], b: [[i64; 2]; 2]) -> (r: [[i64; 2]; 2])
    requires
        mat2_in_range(a@),
        mat2_in_range(b@),
    ensures
        forall|i: int, j: int|
            0 <= i < 2 && 0 <= j < 2 ==> #[trigger] r@[i]@[j] == spec_dot2(a@[i]@, spec_col2(b@, j)),
{
    let c0 = extract_column2(b, 0);
    let c1 = extract_column2(b, 1);
    [
        [dot2(a[0], c0), dot2(a[0], c1)],
        [dot2(a[1], c0), dot2(a[1], c1)],
    ]
}

/// Multiply two matrices.
pub fn matmul3(a: [[i64; 3]; 3], b: [[i64; 3]; 3]) -> (r: [[i64; 3]; 3])
    requires
        mat3_in_range(a@),
        mat3_in_range(b@),
    ensures
        forall|i: int, j: int|
            0 <= i < 3 && 0 <= j < 3 ==> #[trigger] r@[i]@[j] == spec_dot3(a@[i]@, spec_col3(b@, j)),
{
    let c0 = extract_column3(b, 0);
    let c1 = extract_column3(b, 1);
    let c2 = extract_column3(b, 2);
    [
        [dot3(a[0], c0), dot3(a[0], c1), dot3(a[0], c2)],
        [dot3(a[1], c0), dot3(a[1], c1), dot3(a[1], c2)],
        [dot3(a[2], c0), dot3(a[2], c1), dot3(a[2], c2)],
    ]
}

/// Multiply two matrices.
pub fn matmul4(a: [[i64; 4]; 4], b: [[i64; 4]; 4]) -> (r: [[i64; 4]; 4])
    requires
        mat4_in_range(a@),
        mat4_in_range(b@),
    ensures
        forall|i: int, j: int|
            0 <= i < 4 && 0 <= j < 4 ==> #[trigger] r@[i]@[j] == spec_dot4(a@[i]@, spec_col4(b@, j)),
{
    let c0 = extract_column4(b, 0);
    let c1 = extract_column4(b, 1);
    let c2 = extract_column4(b, 2);
    let c3 = extract_column4(b, 3);
    [
        [dot4(a[0], c0), dot4(a[0], c1), dot4(a[0], c2), dot4(a[0], c3)],
        [dot4(a[1], c0), dot4(a[1], c1), dot4(a[1], c2), dot4(a[1], c3)],
        [dot4(a[2], c0), dot4(a[2], c1), dot4(a[2], c2), dot4(a[2], c3)],
        [dot4(a[3], c0), dot4(a[3], c1), dot4(a[3], c2), dot4(a[3], c3)],
    ]
}

/// Multiply a matrix and a vector.
pub fn matmul2v(mat: [[i64; 2]; 2], v: [i64; 2]) -> (r: [i64; 2])
    requires
        mat2_in_range(mat@),
        vec2_in_range(v@),
    ensures
        forall|i: int| 0 <= i < 2 ==> #[trigger] r@[i] == spec_dot2(mat@[i]@, v@),
{
    [dot2(mat[0], v), dot2(mat[1], v)]
}

/// Multiply a matrix and a vector.
pub fn matmul3v(mat: [[i64; 3]; 3], v: [i64; 3]) -> (r: [i64; 3])
    requires
        mat3_in_range(mat@),
        vec3_in_range(v@),
    ensures
        forall|i: int| 0 <= i < 3 ==> #[trigger] r@[i] == spec_dot3(mat@[i]@, v@),
{
    [dot3(mat[0], v), dot3(mat[1], v), dot3(mat[2], v)]
}

/// Multiply a matrix and a vector.
pub fn matmul4v(mat: [[i64; 4]; 4], v: [i64; 4]) -> (r: [i64; 4])
    requires
        mat4_in_range(mat@),
        vec4_in_range(v@),
    ensures
        forall|i: int| 0 <= i < 4 ==> #[trigger] r@[i] == spec_dot4(mat@[i]@, v@),
{
    [dot4(mat[0], v), dot4(mat[1], v), dot4(mat[2], v), dot4(mat[3], v)]
}

/// What clamping a number between two optional limits yields: the upper
/// limit where the number exceeds it, otherwise the lower limit where the
/// number falls short of it, otherwise the number itself.
pub open spec fn spec_clamp(num: i64, bottom: Option<i64>, top: Option<i64>) -> i64 {
    if top is Some && num > top->0 {
        top->0
    } else if bottom is Some && num < bottom->0 {
        bottom->0
    } else {
        num
    }
}

/// Clamp a number between two limits.
pub fn clamp(num: i64, bottom: Option<i64>, top: Option<i64>) -> (r: i64)
    ensures
        r == spec_clamp(num, bottom, top),
{
    if top.is_some() && num > top.unwrap() {
        top.unwrap()
    } else if bottom.is_some() && num < bottom.unwrap() {
        bottom.unwrap()
    } else {
        num
    }
}

/// Generate the one-by-one identity matrix.
pub fn eye1() -> (r: [[i64; 1]; 1])
    ensures
        r@[0]@[0] == 1,
{
    [[1]]
}

/// Generate the two-by-two identity matrix.
pub fn eye2() -> (r: [[i64; 2]; 2])
    ensures
        forall|i: int, j: int|
            0 <= i < 2 && 0 <= j < 2 ==> #[trigger] r@[i]@[j] == (if i == j { 1i64 } else { 0i64 }),
{
    [[1, 0], [0, 1]]
}

/// Generate the three-by-three identity matrix.
pub fn eye3() -> (r: [[i64; 3]; 3])
    ensures
        forall|i: int, j: int|
            0 <= i < 3 && 0 <= j < 3 ==> #[trigger] r@[i]@[j] == (if i == j { 1i64 } else { 0i64 }),
{
    [[1, 0, 0], [0, 1, 0], [0, 0, 1]]
}

/// Generate the four-by-four identity matrix.
pub fn eye4() -> (r: [[i64; 4]; 4])
    ensures
        forall|i: int, j: int|
            0 <= i < 4 && 0 <= j < 4 ==> #[trigger] r@[i]@[j] == (if i == j { 1i64 } else { 0i64 }),
{
    [[1, 0, 0, 0], [0, 1, 0, 0], [0, 0, 1, 0], [0, 0, 0, 1]]
}

/// Generate a translation matrix: the identity with the offset in the last
/// column.
pub fn translation(x: i64, y: i64, z: i64) -> (r: [[i64; 4]; 4])
    ensures
        forall|i: int, j: int|
            0 <= i < 4 && 0 <= j < 4 ==> #[trigger] r@[i]@[j] == (if j == 3 {
                if i == 0 { x } else if i == 1 { y } else if i == 2 { z } else { 1i64 }
            } else if i == j {
                1i64
            } else {
                0i64
            }),
{
    [[1, 0, 0, x], [0, 1, 0, y], [0, 0, 1, z], [0, 0, 0, 1]]
}

/// Generate a scaling matrix: the scale factors on the diagonal.
pub fn scaling(x: i64, y: i64, z: i64) -> (r: [[i64; 4]; 4])
    ensures
        forall|i: int, j: int|
            0 <= i < 4 && 0 <= j < 4 ==> #[trigger] r@[i]@[j] == (if i != j {
                0i64
            } else if i == 0 {
                x
            } else if i == 1 {
                y
            } else if i == 2 {
                z
            } else {
                1i64
            }),
{
    [[x, 0, 0, 0], [0, y, 0, 0], [0, 0, z, 0], [0, 0, 0, 1]]
}

} // verus!
