//! Transforms of homogeneous coordinates as exact 4×4 integer matrices.
//!
//! Entries are stored column by column, as a graphics pipeline reads them:
//! the entry in row `r` and column `c` has index `4 * c + r`.

use vstd::prelude::*;
use crate::engine::math::fixed::{Heading, Vector3, UNIT};

verus! {

/// A bound on the entries of two matrices under which no step of their
/// product leaves the range of a 128-bit integer: two to the power of 62.
pub const ENTRY_LIMIT: i128 = 0x4000_0000_0000_0000;

/// The number that stands for 1 in a model matrix: the product of a
/// translation, a rotation and a scaling, each with `UNIT` for 1.
pub const MODEL_UNIT: i128 = 1_000_000_000_000_000_000;

/// The product of two matrices.
pub open spec fn product(a: Seq<int>, b: Seq<int>) -> Seq<int> {
    Seq::new(
        16,
        |i: int|
            a[i % 4] * b[4 * (i / 4)] + a[4 + i % 4] * b[4 * (i / 4) + 1] + a[8 + i % 4] * b[4 * (i
                / 4) + 2] + a[12 + i % 4] * b[4 * (i / 4) + 3],
    )
}

/// The matrix that moves a point by `offset`, with `UNIT` for 1.
pub open spec fn translation(offset: Vector3) -> Seq<int> {
    seq![
        UNIT as int, 0, 0, 0,
        0, UNIT as int, 0, 0,
        0, 0, UNIT as int, 0,
        offset.x as int, offset.y as int, offset.z as int, UNIT as int,
    ]
}

/// The matrix that turns a point about the z axis onto a heading, with
/// `UNIT` for 1.
pub open spec fn rotation(heading: Heading) -> Seq<int> {
    seq![
        heading.cos(), heading.sin(), 0, 0,
        -heading.sin(), heading.cos(), 0, 0,
        0, 0, UNIT as int, 0,
        0, 0, 0, UNIT as int,
    ]
}

/// The matrix that scales a point by `factor` on every axis, with `UNIT`
/// for 1.
pub open spec fn scaling(factor: int) -> Seq<int> {
    seq![
        factor, 0, 0, 0,
        0, factor, 0, 0,
        0, 0, factor, 0,
        0, 0, 0, UNIT as int,
    ]
}

/// The model matrix of an entity: scale first, then rotate, then translate.
/// Its entries have `MODEL_UNIT` for 1.
pub open spec fn model(position: Vector3, heading: Heading, scale: int) -> Seq<int> {
    product(product(translation(position), rotation(heading)), scaling(scale))
}

/// The matrix that leaves every point where it is, with `MODEL_UNIT` for 1.
pub open spec fn identity() -> Seq<int> {
    seq![
        MODEL_UNIT as int, 0, 0, 0,
        0, MODEL_UNIT as int, 0, 0,
        0, 0, MODEL_UNIT as int, 0,
        0, 0, 0, MODEL_UNIT as int,
    ]
}

/// Where a matrix sends the point `(x, y, z)`: the three coordinates of the
/// image, each multiplied by the number that stands for 1 in the matrix.
pub open spec fn image(matrix: Seq<int>, x: int, y: int, z: int) -> (int, int, int) {
    (
        matrix[0] * x + matrix[4] * y + matrix[8] * z + matrix[12] * UNIT,
        matrix[1] * x + matrix[5] * y + matrix[9] * z + matrix[13] * UNIT,
        matrix[2] * x + matrix[6] * y + matrix[10] * z + matrix[14] * UNIT,
    )
}

proof fn lemma_zero_product(x: int, y: int)
    by (nonlinear_arith)
    requires
        x == 0 || y == 0,
    ensures
        x * y == 0,
{
}

proof fn lemma_same_product(x: int, y: int, a: int, b: int)
    by (nonlinear_arith)
    requires
        x == a,
        y == b,
    ensures
        x * y == a * b,
{
}

/// In a product of matrices, a term with a factor of 0 counts for nothing.
proof fn lemma_zero_terms(a: Seq<int>, b: Seq<int>)
    requires
        a.len() == 16,
        b.len() == 16,
    ensures
        forall|i: int, j: int|
            0 <= i < 16 && 0 <= j < 16 && (#[trigger] a[i] == 0 || #[trigger] b[j] == 0) ==> a[i] * b[j]
                == 0,
{
    assert forall|i: int, j: int|
        0 <= i < 16 && 0 <= j < 16 && (#[trigger] a[i] == 0 || #[trigger] b[j] == 0) implies a[i] * b[j]
        == 0 by {
        lemma_zero_product(a[i], b[j]);
    }
}

/// The entries of a translation followed by a rotation.
pub proof fn lemma_placed_entries(position: Vector3, heading: Heading)
    ensures
        product(translation(position), rotation(heading)) == seq![
            UNIT * heading.cos(), UNIT * heading.sin(), 0, 0,
            -UNIT * heading.sin(), UNIT * heading.cos(), 0, 0,
            0, 0, UNIT * UNIT, 0,
            UNIT * position.x, UNIT * position.y, UNIT * position.z, UNIT * UNIT,
        ],
{
    let t = translation(position);
    let r = rotation(heading);
    lemma_zero_terms(t, r);
    assert(product(t, r) =~= seq![
        UNIT * heading.cos(), UNIT * heading.sin(), 0, 0,
        -UNIT * heading.sin(), UNIT * heading.cos(), 0, 0,
        0, 0, UNIT * UNIT, 0,
        UNIT * position.x, UNIT * position.y, UNIT * position.z, UNIT * UNIT,
    ]);
}

/// The entries of a model matrix.
pub proof fn lemma_model_entries(position: Vector3, heading: Heading, scale: int)
    ensures
        model(position, heading, scale) == seq![
            UNIT * heading.cos() * scale, UNIT * heading.sin() * scale, 0, 0,
            -UNIT * heading.sin() * scale, UNIT * heading.cos() * scale, 0, 0,
            0, 0, UNIT * UNIT * scale, 0,
            UNIT * UNIT * position.x, UNIT * UNIT * position.y, UNIT * UNIT * position.z, UNIT * UNIT * UNIT,
        ],
{
    lemma_placed_entries(position, heading);
    let placed = product(translation(position), rotation(heading));
    let s = scaling(scale);
    lemma_zero_terms(placed, s);
    lemma_same_product(placed[0], s[0], UNIT * heading.cos(), scale);
    lemma_same_product(placed[1], s[0], UNIT * heading.sin(), scale);
    lemma_same_product(placed[4], s[5], -UNIT * heading.sin(), scale);
    lemma_same_product(placed[5], s[5], UNIT * heading.cos(), scale);
    lemma_same_product(placed[10], s[10], UNIT * UNIT, scale);
    lemma_same_product(placed[12], s[15], UNIT * position.x, UNIT as int);
    lemma_same_product(placed[13], s[15], UNIT * position.y, UNIT as int);
    lemma_same_product(placed[14], s[15], UNIT * position.z, UNIT as int);
    lemma_same_product(placed[15], s[15], UNIT * UNIT, UNIT as int);
    assert((UNIT * position.x) * UNIT == UNIT * UNIT * position.x && (UNIT * position.y) * UNIT
        == UNIT * UNIT * position.y && (UNIT * position.z) * UNIT == UNIT * UNIT * position.z)
        by (nonlinear_arith);
    assert(product(placed, s) =~= seq![
        UNIT * heading.cos() * scale, UNIT * heading.sin() * scale, 0, 0,
        -UNIT * heading.sin() * scale, UNIT * heading.cos() * scale, 0, 0,
        0, 0, UNIT * UNIT * scale, 0,
        UNIT * UNIT * position.x, UNIT * UNIT * position.y, UNIT * UNIT * position.z, UNIT * UNIT * UNIT,
    ]);
}

/// With no rotation and a scale of 1, the model matrix moves every point of
/// the local plane by the position: the local vertex `(x, y, 0)` lands at
/// `(x + position.x, y + position.y, position.z)`.
pub proof fn lemma_plain_model_translates(position: Vector3, heading: Heading, x: int, y: int)
    requires
        heading.cos() == UNIT,
        heading.sin() == 0,
    ensures
        image(model(position, heading, UNIT as int), x, y, 0) == (
            MODEL_UNIT * (x + position.x),
            MODEL_UNIT * (y + position.y),
            MODEL_UNIT * position.z,
        ),
        model(Vector3 { x: 0, y: 0, z: 0 }, heading, UNIT as int) == identity(),
{
    let origin = Vector3 { x: 0, y: 0, z: 0 };
    lemma_model_entries(position, heading, UNIT as int);
    lemma_model_entries(origin, heading, UNIT as int);
    let cos = heading.cos();
    let sin = heading.sin();
    assert(UNIT * cos * UNIT == MODEL_UNIT && UNIT * sin * UNIT == 0 && -UNIT * sin * UNIT == 0)
        by (nonlinear_arith)
        requires
            cos == 1_000_000,
            sin == 0,
    ;
    let m = model(position, heading, UNIT as int);
    let z = 0int;
    assert(m[0] * x + m[4] * y + m[8] * z + m[12] * UNIT == MODEL_UNIT * (x + position.x))
        by (nonlinear_arith)
        requires
            m[0] == MODEL_UNIT,
            m[4] == 0,
            z == 0,
            m[12] == UNIT * UNIT * position.x,
    ;
    assert(m[1] * x + m[5] * y + m[9] * z + m[13] * UNIT == MODEL_UNIT * (y + position.y))
        by (nonlinear_arith)
        requires
            m[1] == 0,
            m[5] == MODEL_UNIT,
            z == 0,
            m[13] == UNIT * UNIT * position.y,
    ;
    assert(m[2] * x + m[6] * y + m[10] * z + m[14] * UNIT == MODEL_UNIT * position.z)
        by (nonlinear_arith)
        requires
            m[2] == 0,
            m[6] == 0,
            z == 0,
            m[14] == UNIT * UNIT * position.z,
    ;
    assert(model(origin, heading, UNIT as int) =~= identity());
}

/// A 4×4 matrix of integers.
#[derive(Clone, Copy, Debug)]
pub struct Matrix4 {
    entries: [i128; 16],
}

impl View for Matrix4 {
    type V = Seq<int>;

    closed spec fn view(&self) -> Seq<int> {
        Seq::new(16, |i: int| self.entries[i] as int)
    }
}

/// Whether every entry of a matrix lies within `ENTRY_LIMIT` of 0.
pub open spec fn within_limit(matrix: Seq<int>) -> bool {
    forall|i: int| 0 <= i < 16 ==> -ENTRY_LIMIT <= #[trigger] matrix[i] <= ENTRY_LIMIT
}

/// The product of two matrices, computed by `nalgebra`'s `Mul` for
/// `Matrix4<i128>`.
///
/// The contract claims that the result is the matrix product. `nalgebra`
/// fills each entry with the sum, taken from left to right, of the four
/// products of a row of `a` with a column of `b`; with entries within
/// `ENTRY_LIMIT` neither a product nor a partial sum overflows.
#[verifier::external_body]
fn nalgebra_product(a: &[i128; 16], b: &[i128; 16]) -> (result: [i128; 16])
    requires
        within_limit(a@.map_values(|e: i128| e as int)),
        within_limit(b@.map_values(|e: i128| e as int)),
    ensures
        result@.map_values(|e: i128| e as int) == product(
            a@.map_values(|e: i128| e as int),
            b@.map_values(|e: i128| e as int),
        ),
{
    let left = nalgebra::Matrix4::<i128>::from_column_slice(a);
    let right = nalgebra::Matrix4::<i128>::from_column_slice(b);
    let mut result = [0i128; 16];
    result.copy_from_slice((left * right).as_slice());
    result
}

impl Matrix4 {
    /// The identity matrix, with `MODEL_UNIT` for 1.
    pub fn identity() -> (matrix: Self)
        ensures
            matrix@ == identity(),
    {
        let one: i128 = MODEL_UNIT;
        let matrix = Matrix4 { entries: [one, 0, 0, 0, 0, one, 0, 0, 0, 0, one, 0, 0, 0, 0, one] };
        assert(matrix@ =~= identity());
        matrix
    }

    /// The model matrix of an entity at `position`, facing `heading`, scaled
    /// by `scale`.
    pub fn model(position: &Vector3, heading: &Heading, scale: i32) -> (matrix: Self)
        ensures
            matrix@ == model(*position, *heading, scale as int),
    {
        let one: i128 = UNIT as i128;
        let cos: i128 = heading.get_cos() as i128;
        let sin: i128 = heading.get_sin() as i128;
        let factor: i128 = scale as i128;
        let translate: [i128; 16] = [
            one, 0, 0, 0,
            0, one, 0, 0,
            0, 0, one, 0,
            position.x as i128, position.y as i128, position.z as i128, one,
        ];
        let rotate: [i128; 16] = [cos, sin, 0, 0, -sin, cos, 0, 0, 0, 0, one, 0, 0, 0, 0, one];
        let scale_by: [i128; 16] = [factor, 0, 0, 0, 0, factor, 0, 0, 0, 0, factor, 0, 0, 0, 0, one];
        let ghost t = translate@.map_values(|e: i128| e as int);
        let ghost r = rotate@.map_values(|e: i128| e as int);
        let ghost s = scale_by@.map_values(|e: i128| e as int);
        assert(t =~= translation(*position));
        assert(r =~= rotation(*heading));
        assert(s =~= scaling(scale as int));
        let placed = nalgebra_product(&translate, &rotate);
        proof {
            lemma_placed_entries(*position, *heading);
        }
        let entries = nalgebra_product(&placed, &scale_by);
        let matrix = Matrix4 { entries };
        assert(matrix@ =~= entries@.map_values(|e: i128| e as int));
        matrix
    }

    /// The entries, column by column.
    pub fn entries(&self) -> (entries: [i128; 16])
        ensures
            entries@.map_values(|e: i128| e as int) == self@,
    {
        assert(self.entries@.map_values(|e: i128| e as int) =~= self@);
        self.entries
    }
}

} // verus!
