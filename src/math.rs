//! Small fixed-size vectors and 3x3 matrices over any numeric component type.
//!
//! Every operation works component by component through the component type's
//! own operators. Where the component type follows vstd's operator
//! specifications (the machine integers do), the contracts state the result
//! exactly; the `*_req` spec functions spell out what each component operation
//! needs (for integers: no overflow, no division by zero).

use std::ops::{Add, Div, Mul, Neg, Rem, Sub};
use vstd::prelude::*;
use vstd::std_specs::convert::FromSpec;
use vstd::std_specs::ops::{AddSpec, DivSpec, MulSpec, NegSpec, SubSpec};

verus! {

/// A plain number: copyable, comparable for equality, and closed under the
/// four arithmetic operations and the remainder. The vectors and matrices of
/// this module are not numbers in this sense.
pub trait Num:
    Copy
    + PartialEq
    + Add<Output = Self>
    + Sub<Output = Self>
    + Mul<Output = Self>
    + Div<Output = Self>
    + Rem<Output = Self>
{
}

impl<T> Num for T
where
    T: Copy
        + PartialEq
        + Add<Output = T>
        + Sub<Output = T>
        + Mul<Output = T>
        + Div<Output = T>
        + Rem<Output = T>,
{
}

/// A two-component vector.
#[derive(Clone, Copy, Debug, Default, PartialEq)]
pub struct Vector2<T>(pub T, pub T);

impl<T> Vector2<T> {
    /// Appends one more component.
    pub fn extend(self, x: T) -> (r: Vector3<T>)
        ensures
            r == Vector3(self.0, self.1, x),
    {
        Vector3(self.0, self.1, x)
    }
}

impl<T: Neg<Output = T>> Neg for Vector2<T> {
    type Output = Vector2<T>;

    fn neg(self) -> (r: Vector2<T>) {
        Vector2(self.0.neg(), self.1.neg())
    }
}

impl<T: Neg<Output = T>> vstd::std_specs::ops::NegSpecImpl for Vector2<T> {
    open spec fn obeys_neg_spec() -> bool {
        T::obeys_neg_spec()
    }

    open spec fn neg_req(self) -> bool {
        &&& self.0.neg_req()
        &&& self.1.neg_req()
    }

    open spec fn neg_spec(self) -> Vector2<T> {
        Vector2(self.0.neg_spec(), self.1.neg_spec())
    }
}

impl<T: Add<Output = T>> Add for Vector2<T> {
    type Output = Vector2<T>;

    fn add(self, rhs: Vector2<T>) -> (r: Vector2<T>) {
        Vector2(self.0 + rhs.0, self.1 + rhs.1)
    }
}

impl<T: Add<Output = T>> vstd::std_specs::ops::AddSpecImpl for Vector2<T> {
    open spec fn obeys_add_spec() -> bool {
        T::obeys_add_spec()
    }

    open spec fn add_req(self, rhs: Vector2<T>) -> bool {
        &&& self.0.add_req(rhs.0)
        &&& self.1.add_req(rhs.1)
    }

    open spec fn add_spec(self, rhs: Vector2<T>) -> Vector2<T> {
        Vector2(self.0.add_spec(rhs.0), self.1.add_spec(rhs.1))
    }
}

impl<T: Sub<Output = T>> Sub for Vector2<T> {
    type Output = Vector2<T>;

    fn sub(self, rhs: Vector2<T>) -> (r: Vector2<T>) {
        Vector2(self.0 - rhs.0, self.1 - rhs.1)
    }
}

impl<T: Sub<Output = T>> vstd::std_specs::ops::SubSpecImpl for Vector2<T> {
    open spec fn obeys_sub_spec() -> bool {
        T::obeys_sub_spec()
    }

    open spec fn sub_req(self, rhs: Vector2<T>) -> bool {
        &&& self.0.sub_req(rhs.0)
        &&& self.1.sub_req(rhs.1)
    }

    open spec fn sub_spec(self, rhs: Vector2<T>) -> Vector2<T> {
        Vector2(self.0.sub_spec(rhs.0), self.1.sub_spec(rhs.1))
    }
}

/// Multiplication of every component by a scalar.
impl<T: Mul<Output = T> + Copy> Mul<T> for Vector2<T> {
    type Output = Vector2<T>;

    fn mul(self, rhs: T) -> (r: Vector2<T>) {
        Vector2(self.0 * rhs, self.1 * rhs)
    }
}

impl<T: Mul<Output = T> + Copy> vstd::std_specs::ops::MulSpecImpl<T> for Vector2<T> {
    open spec fn obeys_mul_spec() -> bool {
        T::obeys_mul_spec()
    }

    open spec fn mul_req(self, rhs: T) -> bool {
        &&& self.0.mul_req(rhs)
        &&& self.1.mul_req(rhs)
    }

    open spec fn mul_spec(self, rhs: T) -> Vector2<T> {
        Vector2(self.0.mul_spec(rhs), self.1.mul_spec(rhs))
    }
}

/// Division of every component by a scalar.
impl<T: Div<Output = T> + Copy> Div<T> for Vector2<T> {
    type Output = Vector2<T>;

    fn div(self, rhs: T) -> (r: Vector2<T>) {
        Vector2(self.0 / rhs, self.1 / rhs)
    }
}

impl<T: Div<Output = T> + Copy> vstd::std_specs::ops::DivSpecImpl<T> for Vector2<T> {
    open spec fn obeys_div_spec() -> bool {
        T::obeys_div_spec()
    }

    open spec fn div_req(self, rhs: T) -> bool {
        &&& self.0.div_req(rhs)
        &&& self.1.div_req(rhs)
    }

    open spec fn div_spec(self, rhs: T) -> Vector2<T> {
        Vector2(self.0.div_spec(rhs), self.1.div_spec(rhs))
    }
}

/// The dot product, summed from the first component on.
impl<T: Add<Output = T> + Mul<Output = T>> Mul<Vector2<T>> for Vector2<T> {
    type Output = T;

    fn mul(self, rhs: Vector2<T>) -> (r: T) {
        self.0 * rhs.0 + self.1 * rhs.1
    }
}

impl<T: Add<Output = T> + Mul<Output = T>> vstd::std_specs::ops::MulSpecImpl<Vector2<T>> for Vector2<T> {
    open spec fn obeys_mul_spec() -> bool {
        T::obeys_mul_spec() && T::obeys_add_spec()
    }

    open spec fn mul_req(self, rhs: Vector2<T>) -> bool {
        &&& T::obeys_mul_spec()
        &&& T::obeys_add_spec()
        &&& self.0.mul_req(rhs.0)
        &&& self.1.mul_req(rhs.1)
        &&& self.0.mul_spec(rhs.0).add_req(self.1.mul_spec(rhs.1))
    }

    open spec fn mul_spec(self, rhs: Vector2<T>) -> T {
        self.0.mul_spec(rhs.0).add_spec(self.1.mul_spec(rhs.1))
    }
}

/// A three-component vector.
#[derive(Clone, Copy, Debug, Default, PartialEq)]
pub struct Vector3<T>(pub T, pub T, pub T);

impl<T> Vector3<T> {
    /// Appends one more component.
    pub fn extend(self, x: T) -> (r: Vector4<T>)
        ensures
            r == Vector4(self.0, self.1, self.2, x),
    {
        Vector4(self.0, self.1, self.2, x)
    }

    /// Drops the last component.
    pub fn shrink(self) -> (r: Vector2<T>)
        ensures
            r == Vector2(self.0, self.1),
    {
        Vector2(self.0, self.1)
    }
}

impl<T: Neg<Output = T>> Neg for Vector3<T> {
    type Output = Vector3<T>;

    fn neg(self) -> (r: Vector3<T>) {
        Vector3(self.0.neg(), self.1.neg(), self.2.neg())
    }
}

impl<T: Neg<Output = T>> vstd::std_specs::ops::NegSpecImpl for Vector3<T> {
    open spec fn obeys_neg_spec() -> bool {
        T::obeys_neg_spec()
    }

    open spec fn neg_req(self) -> bool {
        &&& self.0.neg_req()
        &&& self.1.neg_req()
        &&& self.2.neg_req()
    }

    open spec fn neg_spec(self) -> Vector3<T> {
        Vector3(self.0.neg_spec(), self.1.neg_spec(), self.2.neg_spec())
    }
}

impl<T: Add<Output = T>> Add for Vector3<T> {
    type Output = Vector3<T>;

    fn add(self, rhs: Vector3<T>) -> (r: Vector3<T>) {
        Vector3(self.0 + rhs.0, self.1 + rhs.1, self.2 + rhs.2)
    }
}

impl<T: Add<Output = T>> vstd::std_specs::ops::AddSpecImpl for Vector3<T> {
    open spec fn obeys_add_spec() -> bool {
        T::obeys_add_spec()
    }

    open spec fn add_req(self, rhs: Vector3<T>) -> bool {
        &&& self.0.add_req(rhs.0)
        &&& self.1.add_req(rhs.1)
        &&& self.2.add_req(rhs.2)
    }

    open spec fn add_spec(self, rhs: Vector3<T>) -> Vector3<T> {
        Vector3(self.0.add_spec(rhs.0), self.1.add_spec(rhs.1), self.2.add_spec(rhs.2))
    }
}

impl<T: Sub<Output = T>> Sub for Vector3<T> {
    type Output = Vector3<T>;

    fn sub(self, rhs: Vector3<T>) -> (r: Vector3<T>) {
        Vector3(self.0 - rhs.0, self.1 - rhs.1, self.2 - rhs.2)
    }
}

impl<T: Sub<Output = T>> vstd::std_specs::ops::SubSpecImpl for Vector3<T> {
    open spec fn obeys_sub_spec() -> bool {
        T::obeys_sub_spec()
    }

    open spec fn sub_req(self, rhs: Vector3<T>) -> bool {
        &&& self.0.sub_req(rhs.0)
        &&& self.1.sub_req(rhs.1)
        &&& self.2.sub_req(rhs.2)
    }

    open spec fn sub_spec(self, rhs: Vector3<T>) -> Vector3<T> {
        Vector3(self.0.sub_spec(rhs.0), self.1.sub_spec(rhs.1), self.2.sub_spec(rhs.2))
    }
}

/// Multiplication of every component by a scalar.
impl<T: Mul<Output = T> + Copy> Mul<T> for Vector3<T> {
    type Output = Vector3<T>;

    fn mul(self, rhs: T) -> (r: Vector3<T>) {
        Vector3(self.0 * rhs, self.1 * rhs, self.2 * rhs)
    }
}

impl<T: Mul<Output = T> + Copy> vstd::std_specs::ops::MulSpecImpl<T> for Vector3<T> {
    open spec fn obeys_mul_spec() -> bool {
        T::obeys_mul_spec()
    }

    open spec fn mul_req(self, rhs: T) -> bool {
        &&& self.0.mul_req(rhs)
        &&& self.1.mul_req(rhs)
        &&& self.2.mul_req(rhs)
    }

    open spec fn mul_spec(self, rhs: T) -> Vector3<T> {
        Vector3(self.0.mul_spec(rhs), self.1.mul_spec(rhs), self.2.mul_spec(rhs))
    }
}

/// Division of every component by a scalar.
impl<T: Div<Output = T> + Copy> Div<T> for Vector3<T> {
    type Output = Vector3<T>;

    fn div(self, rhs: T) -> (r: Vector3<T>) {
        Vector3(self.0 / rhs, self.1 / rhs, self.2 / rhs)
    }
}

impl<T: Div<Output = T> + Copy> vstd::std_specs::ops::DivSpecImpl<T> for Vector3<T> {
    open spec fn obeys_div_spec() -> bool {
        T::obeys_div_spec()
    }

    open spec fn div_req(self, rhs: T) -> bool {
        &&& self.0.div_req(rhs)
        &&& self.1.div_req(rhs)
        &&& self.2.div_req(rhs)
    }

    open spec fn div_spec(self, rhs: T) -> Vector3<T> {
        Vector3(self.0.div_spec(rhs), self.1.div_spec(rhs), self.2.div_spec(rhs))
    }
}

/// The dot product, summed from the first component on.
impl<T: Add<Output = T> + Mul<Output = T>> Mul<Vector3<T>> for Vector3<T> {
    type Output = T;

    fn mul(self, rhs: Vector3<T>) -> (r: T) {
        self.0 * rhs.0 + self.1 * rhs.1 + self.2 * rhs.2
    }
}

impl<T: Add<Output = T> + Mul<Output = T>> vstd::std_specs::ops::MulSpecImpl<Vector3<T>> for Vector3<T> {
    open spec fn obeys_mul_spec() -> bool {
        T::obeys_mul_spec() && T::obeys_add_spec()
    }

    open spec fn mul_req(self, rhs: Vector3<T>) -> bool {
        &&& T::obeys_mul_spec()
        &&& T::obeys_add_spec()
        &&& self.0.mul_req(rhs.0)
        &&& self.1.mul_req(rhs.1)
        &&& self.2.mul_req(rhs.2)
        &&& self.0.mul_spec(rhs.0).add_req(self.1.mul_spec(rhs.1))
        &&& self.0.mul_spec(rhs.0).add_spec(self.1.mul_spec(rhs.1)).add_req(self.2.mul_spec(rhs.2))
    }

    open spec fn mul_spec(self, rhs: Vector3<T>) -> T {
        self.0.mul_spec(rhs.0).add_spec(self.1.mul_spec(rhs.1)).add_spec(self.2.mul_spec(rhs.2))
    }
}

/// A four-component vector.
#[derive(Clone, Copy, Debug, Default, PartialEq)]
pub struct Vector4<T>(pub T, pub T, pub T, pub T);

impl<T> Vector4<T> {
    /// Drops the last component.
    pub fn shrink(self) -> (r: Vector3<T>)
        ensures
            r == Vector3(self.0, self.1, self.2),
    {
        Vector3(self.0, self.1, self.2)
    }
}

impl<T: Neg<Output = T>> Neg for Vector4<T> {
    type Output = Vector4<T>;

    fn neg(self) -> (r: Vector4<T>) {
        Vector4(self.0.neg(), self.1.neg(), self.2.neg(), self.3.neg())
    }
}

impl<T: Neg<Output = T>> vstd::std_specs::ops::NegSpecImpl for Vector4<T> {
    open spec fn obeys_neg_spec() -> bool {
        T::obeys_neg_spec()
    }

    open spec fn neg_req(self) -> bool {
        &&& self.0.neg_req()
        &&& self.1.neg_req()
        &&& self.2.neg_req()
        &&& self.3.neg_req()
    }

    open spec fn neg_spec(self) -> Vector4<T> {
        Vector4(self.0.neg_spec(), self.1.neg_spec(), self.2.neg_spec(), self.3.neg_spec())
    }
}

impl<T: Add<Output = T>> Add for Vector4<T> {
    type Output = Vector4<T>;

    fn add(self, rhs: Vector4<T>) -> (r: Vector4<T>) {
        Vector4(self.0 + rhs.0, self.1 + rhs.1, self.2 + rhs.2, self.3 + rhs.3)
    }
}

impl<T: Add<Output = T>> vstd::std_specs::ops::AddSpecImpl for Vector4<T> {
    open spec fn obeys_add_spec() -> bool {
        T::obeys_add_spec()
    }

    open spec fn add_req(self, rhs: Vector4<T>) -> bool {
        &&& self.0.add_req(rhs.0)
        &&& self.1.add_req(rhs.1)
        &&& self.2.add_req(rhs.2)
        &&& self.3.add_req(rhs.3)
    }

    open spec fn add_spec(self, rhs: Vector4<T>) -> Vector4<T> {
        Vector4(self.0.add_spec(rhs.0), self.1.add_spec(rhs.1), self.2.add_spec(rhs.2), self.3.add_spec(rhs.3))
    }
}

impl<T: Sub<Output = T>> Sub for Vector4<T> {
    type Output = Vector4<T>;

    fn sub(self, rhs: Vector4<T>) -> (r: Vector4<T>) {
        Vector4(self.0 - rhs.0, self.1 - rhs.1, self.2 - rhs.2, self.3 - rhs.3)
    }
}

impl<T: Sub<Output = T>> vstd::std_specs::ops::SubSpecImpl for Vector4<T> {
    open spec fn obeys_sub_spec() -> bool {
        T::obeys_sub_spec()
    }

    open spec fn sub_req(self, rhs: Vector4<T>) -> bool {
        &&& self.0.sub_req(rhs.0)
        &&& self.1.sub_req(rhs.1)
        &&& self.2.sub_req(rhs.2)
        &&& self.3.sub_req(rhs.3)
    }

    open spec fn sub_spec(self, rhs: Vector4<T>) -> Vector4<T> {
        Vector4(self.0.sub_spec(rhs.0), self.1.sub_spec(rhs.1), self.2.sub_spec(rhs.2), self.3.sub_spec(rhs.3))
    }
}

/// Multiplication of every component by a scalar.
impl<T: Mul<Output = T> + Copy> Mul<T> for Vector4<T> {
    type Output = Vector4<T>;

    fn mul(self, rhs: T) -> (r: Vector4<T>) {
        Vector4(self.0 * rhs, self.1 * rhs, self.2 * rhs, self.3 * rhs)
    }
}

impl<T: Mul<Output = T> + Copy> vstd::std_specs::ops::MulSpecImpl<T> for Vector4<T> {
    open spec fn obeys_mul_spec() -> bool {
        T::obeys_mul_spec()
    }

    open spec fn mul_req(self, rhs: T) -> bool {
        &&& self.0.mul_req(rhs)
        &&& self.1.mul_req(rhs)
        &&& self.2.mul_req(rhs)
        &&& self.3.mul_req(rhs)
    }

    open spec fn mul_spec(self, rhs: T) -> Vector4<T> {
        Vector4(self.0.mul_spec(rhs), self.1.mul_spec(rhs), self.2.mul_spec(rhs), self.3.mul_spec(rhs))
    }
}

/// Division of every component by a scalar.
impl<T: Div<Output = T> + Copy> Div<T> for Vector4<T> {
    type Output = Vector4<T>;

    fn div(self, rhs: T) -> (r: Vector4<T>) {
        Vector4(self.0 / rhs, self.1 / rhs, self.2 / rhs, self.3 / rhs)
    }
}

impl<T: Div<Output = T> + Copy> vstd::std_specs::ops::DivSpecImpl<T> for Vector4<T> {
    open spec fn obeys_div_spec() -> bool {
        T::obeys_div_spec()
    }

    open spec fn div_req(self, rhs: T) -> bool {
        &&& self.0.div_req(rhs)
        &&& self.1.div_req(rhs)
        &&& self.2.div_req(rhs)
        &&& self.3.div_req(rhs)
    }

    open spec fn div_spec(self, rhs: T) -> Vector4<T> {
        Vector4(self.0.div_spec(rhs), self.1.div_spec(rhs), self.2.div_spec(rhs), self.3.div_spec(rhs))
    }
}

/// The dot product, summed from the first component on.
impl<T: Add<Output = T> + Mul<Output = T>> Mul<Vector4<T>> for Vector4<T> {
    type Output = T;

    fn mul(self, rhs: Vector4<T>) -> (r: T) {
        self.0 * rhs.0 + self.1 * rhs.1 + self.2 * rhs.2 + self.3 * rhs.3
    }
}

impl<T: Add<Output = T> + Mul<Output = T>> vstd::std_specs::ops::MulSpecImpl<Vector4<T>> for Vector4<T> {
    open spec fn obeys_mul_spec() -> bool {
        T::obeys_mul_spec() && T::obeys_add_spec()
    }

    open spec fn mul_req(self, rhs: Vector4<T>) -> bool {
        &&& T::obeys_mul_spec()
        &&& T::obeys_add_spec()
        &&& self.0.mul_req(rhs.0)
        &&& self.1.mul_req(rhs.1)
        &&& self.2.mul_req(rhs.2)
        &&& self.3.mul_req(rhs.3)
        &&& self.0.mul_spec(rhs.0).add_req(self.1.mul_spec(rhs.1))
        &&& self.0.mul_spec(rhs.0).add_spec(self.1.mul_spec(rhs.1)).add_req(self.2.mul_spec(rhs.2))
        &&& self.0.mul_spec(rhs.0).add_spec(self.1.mul_spec(rhs.1)).add_spec(self.2.mul_spec(rhs.2)).add_req(self.3.mul_spec(rhs.3))
    }

    open spec fn mul_spec(self, rhs: Vector4<T>) -> T {
        self.0.mul_spec(rhs.0).add_spec(self.1.mul_spec(rhs.1)).add_spec(self.2.mul_spec(rhs.2)).add_spec(self.3.mul_spec(rhs.3))
    }
}

/// The dot product of two three-component vectors, as a spec value.
pub open spec fn dot<T: Add<Output = T> + Mul<Output = T>>(a: Vector3<T>, b: Vector3<T>) -> T {
    <Vector3<T> as MulSpec<Vector3<T>>>::mul_spec(a, b)
}

/// What the dot product of `a` and `b` needs of the component operations.
pub open spec fn dot_req<T: Add<Output = T> + Mul<Output = T>>(a: Vector3<T>, b: Vector3<T>) -> bool {
    <Vector3<T> as MulSpec<Vector3<T>>>::mul_req(a, b)
}

/// A 3x3 matrix, stored as its three columns.
#[derive(Clone, Copy, Debug, Default, PartialEq)]
pub struct Matrix3x3<T>(pub Vector3<T>, pub Vector3<T>, pub Vector3<T>);

impl<T> Matrix3x3<T> {
    /// The matrix whose rows are the given vectors.
    pub open spec fn with_rows(r1: Vector3<T>, r2: Vector3<T>, r3: Vector3<T>) -> Matrix3x3<T> {
        Matrix3x3(
            Vector3(r1.0, r2.0, r3.0),
            Vector3(r1.1, r2.1, r3.1),
            Vector3(r1.2, r2.2, r3.2),
        )
    }

    /// The first, second and third row.
    pub open spec fn row1(self) -> Vector3<T> {
        Vector3(self.0.0, self.1.0, self.2.0)
    }

    pub open spec fn row2(self) -> Vector3<T> {
        Vector3(self.0.1, self.1.1, self.2.1)
    }

    pub open spec fn row3(self) -> Vector3<T> {
        Vector3(self.0.2, self.1.2, self.2.2)
    }

    /// The matrix with every entry equal to `x`.
    pub open spec fn filled(x: T) -> Matrix3x3<T> {
        Matrix3x3(Vector3(x, x, x), Vector3(x, x, x), Vector3(x, x, x))
    }

    /// The matrix with `d` on the diagonal and `z` elsewhere.
    pub open spec fn diagonal(d: T, z: T) -> Matrix3x3<T> {
        Matrix3x3(Vector3(d, z, z), Vector3(z, d, z), Vector3(z, z, d))
    }

    pub fn from_columns(col1: Vector3<T>, col2: Vector3<T>, col3: Vector3<T>) -> (r: Matrix3x3<T>)
        ensures
            r == Matrix3x3(col1, col2, col3),
    {
        Matrix3x3(col1, col2, col3)
    }

    pub fn columns(&self) -> (r: (Vector3<T>, Vector3<T>, Vector3<T>))
        where
            T: Copy,
        ensures
            r == (self.0, self.1, self.2),
    {
        (self.0, self.1, self.2)
    }

    pub fn from_rows(row1: Vector3<T>, row2: Vector3<T>, row3: Vector3<T>) -> (r: Matrix3x3<T>)
        ensures
            r == Self::with_rows(row1, row2, row3),
            r.row1() == row1,
            r.row2() == row2,
            r.row3() == row3,
    {
        Matrix3x3(
            Vector3(row1.0, row2.0, row3.0),
            Vector3(row1.1, row2.1, row3.1),
            Vector3(row1.2, row2.2, row3.2),
        )
    }

    pub fn rows(&self) -> (r: (Vector3<T>, Vector3<T>, Vector3<T>))
        where
            T: Copy,
        ensures
            r == (self.row1(), self.row2(), self.row3()),
    {
        (
            Vector3(self.0.0, self.1.0, self.2.0),
            Vector3(self.0.1, self.1.1, self.2.1),
            Vector3(self.0.2, self.1.2, self.2.2),
        )
    }

    /// The matrix whose entries are all the component type's default value
    /// (zero for every numeric type).
    pub fn zero() -> (r: Matrix3x3<T>)
        where
            T: Default + Copy,
        ensures
            r == Self::filled(r.0.0),
    {
        let z = T::default();
        Matrix3x3(Vector3(z, z, z), Vector3(z, z, z), Vector3(z, z, z))
    }

    /// The identity matrix: ones made from `1u8` on the diagonal, zeros made
    /// from `0u8` elsewhere.
    pub fn identity() -> (r: Matrix3x3<T>)
        where
            T: From<u8> + Copy,
        ensures
            <T as FromSpec<u8>>::obeys_from_spec() ==> r == Self::diagonal(
                <T as FromSpec<u8>>::from_spec(1u8),
                <T as FromSpec<u8>>::from_spec(0u8),
            ),
    {
        let o = T::from(1u8);
        let z = T::from(0u8);
        Matrix3x3(Vector3(o, z, z), Vector3(z, o, z), Vector3(z, z, o))
    }
}


impl<T: Neg<Output = T>> Neg for Matrix3x3<T> {
    type Output = Matrix3x3<T>;

    fn neg(self) -> (r: Matrix3x3<T>) {
        Matrix3x3(self.0.neg(), self.1.neg(), self.2.neg())
    }
}

impl<T: Neg<Output = T>> vstd::std_specs::ops::NegSpecImpl for Matrix3x3<T> {
    open spec fn obeys_neg_spec() -> bool {
        T::obeys_neg_spec()
    }

    open spec fn neg_req(self) -> bool {
        &&& <Vector3<T> as NegSpec>::neg_req(self.0)
        &&& <Vector3<T> as NegSpec>::neg_req(self.1)
        &&& <Vector3<T> as NegSpec>::neg_req(self.2)
    }

    open spec fn neg_spec(self) -> Matrix3x3<T> {
        Matrix3x3(<Vector3<T> as NegSpec>::neg_spec(self.0), <Vector3<T> as NegSpec>::neg_spec(self.1), <Vector3<T> as NegSpec>::neg_spec(self.2))
    }
}

impl<T: Add<Output = T>> Add for Matrix3x3<T> {
    type Output = Matrix3x3<T>;

    fn add(self, rhs: Matrix3x3<T>) -> (r: Matrix3x3<T>) {
        Matrix3x3(self.0 + rhs.0, self.1 + rhs.1, self.2 + rhs.2)
    }
}

impl<T: Add<Output = T>> vstd::std_specs::ops::AddSpecImpl for Matrix3x3<T> {
    open spec fn obeys_add_spec() -> bool {
        T::obeys_add_spec()
    }

    open spec fn add_req(self, rhs: Matrix3x3<T>) -> bool {
        &&& <Vector3<T> as AddSpec>::add_req(self.0, rhs.0)
        &&& <Vector3<T> as AddSpec>::add_req(self.1, rhs.1)
        &&& <Vector3<T> as AddSpec>::add_req(self.2, rhs.2)
    }

    open spec fn add_spec(self, rhs: Matrix3x3<T>) -> Matrix3x3<T> {
        Matrix3x3(<Vector3<T> as AddSpec>::add_spec(self.0, rhs.0), <Vector3<T> as AddSpec>::add_spec(self.1, rhs.1), <Vector3<T> as AddSpec>::add_spec(self.2, rhs.2))
    }
}

impl<T: Sub<Output = T>> Sub for Matrix3x3<T> {
    type Output = Matrix3x3<T>;

    fn sub(self, rhs: Matrix3x3<T>) -> (r: Matrix3x3<T>) {
        Matrix3x3(self.0 - rhs.0, self.1 - rhs.1, self.2 - rhs.2)
    }
}

impl<T: Sub<Output = T>> vstd::std_specs::ops::SubSpecImpl for Matrix3x3<T> {
    open spec fn obeys_sub_spec() -> bool {
        T::obeys_sub_spec()
    }

    open spec fn sub_req(self, rhs: Matrix3x3<T>) -> bool {
        &&& <Vector3<T> as SubSpec>::sub_req(self.0, rhs.0)
        &&& <Vector3<T> as SubSpec>::sub_req(self.1, rhs.1)
        &&& <Vector3<T> as SubSpec>::sub_req(self.2, rhs.2)
    }

    open spec fn sub_spec(self, rhs: Matrix3x3<T>) -> Matrix3x3<T> {
        Matrix3x3(<Vector3<T> as SubSpec>::sub_spec(self.0, rhs.0), <Vector3<T> as SubSpec>::sub_spec(self.1, rhs.1), <Vector3<T> as SubSpec>::sub_spec(self.2, rhs.2))
    }
}

/// Multiplication of every entry by a scalar.
impl<T: Mul<Output = T> + Copy> Mul<T> for Matrix3x3<T> {
    type Output = Matrix3x3<T>;

    fn mul(self, rhs: T) -> (r: Matrix3x3<T>) {
        Matrix3x3(self.0 * rhs, self.1 * rhs, self.2 * rhs)
    }
}

impl<T: Mul<Output = T> + Copy> vstd::std_specs::ops::MulSpecImpl<T> for Matrix3x3<T> {
    open spec fn obeys_mul_spec() -> bool {
        T::obeys_mul_spec()
    }

    open spec fn mul_req(self, rhs: T) -> bool {
        &&& <Vector3<T> as MulSpec<T>>::mul_req(self.0, rhs)
        &&& <Vector3<T> as MulSpec<T>>::mul_req(self.1, rhs)
        &&& <Vector3<T> as MulSpec<T>>::mul_req(self.2, rhs)
    }

    open spec fn mul_spec(self, rhs: T) -> Matrix3x3<T> {
        Matrix3x3(<Vector3<T> as MulSpec<T>>::mul_spec(self.0, rhs), <Vector3<T> as MulSpec<T>>::mul_spec(self.1, rhs), <Vector3<T> as MulSpec<T>>::mul_spec(self.2, rhs))
    }
}

/// Division of every entry by a scalar.
impl<T: Div<Output = T> + Copy> Div<T> for Matrix3x3<T> {
    type Output = Matrix3x3<T>;

    fn div(self, rhs: T) -> (r: Matrix3x3<T>) {
        Matrix3x3(self.0 / rhs, self.1 / rhs, self.2 / rhs)
    }
}

impl<T: Div<Output = T> + Copy> vstd::std_specs::ops::DivSpecImpl<T> for Matrix3x3<T> {
    open spec fn obeys_div_spec() -> bool {
        T::obeys_div_spec()
    }

    open spec fn div_req(self, rhs: T) -> bool {
        &&& <Vector3<T> as DivSpec<T>>::div_req(self.0, rhs)
        &&& <Vector3<T> as DivSpec<T>>::div_req(self.1, rhs)
        &&& <Vector3<T> as DivSpec<T>>::div_req(self.2, rhs)
    }

    open spec fn div_spec(self, rhs: T) -> Matrix3x3<T> {
        Matrix3x3(<Vector3<T> as DivSpec<T>>::div_spec(self.0, rhs), <Vector3<T> as DivSpec<T>>::div_spec(self.1, rhs), <Vector3<T> as DivSpec<T>>::div_spec(self.2, rhs))
    }
}

/// The product of a matrix with a column vector: one dot product per row.
impl<T: Add<Output = T> + Mul<Output = T> + Copy> Mul<Vector3<T>> for Matrix3x3<T> {
    type Output = Vector3<T>;

    fn mul(self, rhs: Vector3<T>) -> (r: Vector3<T>) {
        let rows = self.rows();
        Vector3(rows.0 * rhs, rows.1 * rhs, rows.2 * rhs)
    }
}

impl<T: Add<Output = T> + Mul<Output = T> + Copy> vstd::std_specs::ops::MulSpecImpl<Vector3<T>> for Matrix3x3<T> {
    open spec fn obeys_mul_spec() -> bool {
        T::obeys_mul_spec() && T::obeys_add_spec()
    }

    open spec fn mul_req(self, rhs: Vector3<T>) -> bool {
        &&& dot_req(self.row1(), rhs)
        &&& dot_req(self.row2(), rhs)
        &&& dot_req(self.row3(), rhs)
    }

    open spec fn mul_spec(self, rhs: Vector3<T>) -> Vector3<T> {
        Vector3(dot(self.row1(), rhs), dot(self.row2(), rhs), dot(self.row3(), rhs))
    }
}

/// The matrix product: column `j` of the result is `self` times column `j`
/// of `rhs`.
impl<T: Add<Output = T> + Mul<Output = T> + Copy> Mul<Matrix3x3<T>> for Matrix3x3<T> {
    type Output = Matrix3x3<T>;

    fn mul(self, rhs: Matrix3x3<T>) -> (r: Matrix3x3<T>) {
        let self_rows = self.rows();
        let rhs_columns = rhs.columns();

        Self::from_rows(
            Vector3(
                self_rows.0 * rhs_columns.0,
                self_rows.0 * rhs_columns.1,
                self_rows.0 * rhs_columns.2,
            ),
            Vector3(
                self_rows.1 * rhs_columns.0,
                self_rows.1 * rhs_columns.1,
                self_rows.1 * rhs_columns.2,
            ),
            Vector3(
                self_rows.2 * rhs_columns.0,
                self_rows.2 * rhs_columns.1,
                self_rows.2 * rhs_columns.2,
            ),
        )
    }
}

impl<T: Add<Output = T> + Mul<Output = T> + Copy> vstd::std_specs::ops::MulSpecImpl<Matrix3x3<T>> for Matrix3x3<T> {
    open spec fn obeys_mul_spec() -> bool {
        T::obeys_mul_spec() && T::obeys_add_spec()
    }

    open spec fn mul_req(self, rhs: Matrix3x3<T>) -> bool {
        &&& <Matrix3x3<T> as MulSpec<Vector3<T>>>::mul_req(self, rhs.0)
        &&& <Matrix3x3<T> as MulSpec<Vector3<T>>>::mul_req(self, rhs.1)
        &&& <Matrix3x3<T> as MulSpec<Vector3<T>>>::mul_req(self, rhs.2)
    }

    open spec fn mul_spec(self, rhs: Matrix3x3<T>) -> Matrix3x3<T> {
        Matrix3x3(
            <Matrix3x3<T> as MulSpec<Vector3<T>>>::mul_spec(self, rhs.0),
            <Matrix3x3<T> as MulSpec<Vector3<T>>>::mul_spec(self, rhs.1),
            <Matrix3x3<T> as MulSpec<Vector3<T>>>::mul_spec(self, rhs.2),
        )
    }
}

} // verus!
