//! Packed counterparts of the vector and matrix types, laid out as the GPU
//! reads them, and the conversions in both directions.
//!
//! A 3x3 matrix packs as three columns of four components: each column gets
//! one trailing padding component, so that every column fills a 16-byte slot
//! when the components are 4-byte numbers.

use crate::math::{Matrix3x3, Num, Vector2, Vector3, Vector4};
use vstd::prelude::*;

verus! {

/// Conversion of a logical value into its packed form.
pub trait IntoPacked<Packed>: Sized {
    /// Whether `p` is a packed form of `self`.
    spec fn packs_to(self, p: Packed) -> bool;

    fn into_packed(self) -> (r: Packed)
        ensures
            self.packs_to(r),
    ;
}

/// Conversion of a packed value back into its logical form.
pub trait IntoUnpacked<Unpacked>: Sized {
    /// Whether `u` is the logical value that `self` holds.
    spec fn unpacks_to(self, u: Unpacked) -> bool;

    fn into_unpacked(self) -> (r: Unpacked)
        ensures
            self.unpacks_to(r),
    ;
}

/// A number packs as itself.
impl<T: Num> IntoPacked<T> for T {
    open spec fn packs_to(self, p: T) -> bool {
        p == self
    }

    fn into_packed(self) -> (r: T) {
        self
    }
}

/// A number unpacks as itself.
impl<T: Num> IntoUnpacked<T> for T {
    open spec fn unpacks_to(self, u: T) -> bool {
        u == self
    }

    fn into_unpacked(self) -> (r: T) {
        self
    }
}

/// Packed form of a two-component vector.
#[derive(Clone, Copy, Debug, Default, PartialEq)]
pub struct Vector2Packed<T>(pub T, pub T);

/// Packed form of a three-component vector.
#[derive(Clone, Copy, Debug, Default, PartialEq)]
pub struct Vector3Packed<T>(pub T, pub T, pub T);

/// Packed form of a four-component vector.
#[derive(Clone, Copy, Debug, Default, PartialEq)]
pub struct Vector4Packed<T>(pub T, pub T, pub T, pub T);

/// Packed form of a 3x3 matrix: its columns, each followed by a padding
/// component.
pub type Matrix3x3Packed<T> = Vector3Packed<Vector4Packed<T>>;

impl<T: IntoPacked<U>, U> IntoPacked<Vector2Packed<U>> for Vector2<T> {
    open spec fn packs_to(self, p: Vector2Packed<U>) -> bool {
        &&& self.0.packs_to(p.0)
        &&& self.1.packs_to(p.1)
    }

    fn into_packed(self) -> (r: Vector2Packed<U>) {
        Vector2Packed(self.0.into_packed(), self.1.into_packed())
    }
}

impl<T: IntoUnpacked<U>, U> IntoUnpacked<Vector2<U>> for Vector2Packed<T> {
    open spec fn unpacks_to(self, u: Vector2<U>) -> bool {
        &&& self.0.unpacks_to(u.0)
        &&& self.1.unpacks_to(u.1)
    }

    fn into_unpacked(self) -> (r: Vector2<U>) {
        Vector2(self.0.into_unpacked(), self.1.into_unpacked())
    }
}

impl<T: IntoPacked<U>, U> IntoPacked<Vector3Packed<U>> for Vector3<T> {
    open spec fn packs_to(self, p: Vector3Packed<U>) -> bool {
        &&& self.0.packs_to(p.0)
        &&& self.1.packs_to(p.1)
        &&& self.2.packs_to(p.2)
    }

    fn into_packed(self) -> (r: Vector3Packed<U>) {
        Vector3Packed(self.0.into_packed(), self.1.into_packed(), self.2.into_packed())
    }
}

impl<T: IntoUnpacked<U>, U> IntoUnpacked<Vector3<U>> for Vector3Packed<T> {
    open spec fn unpacks_to(self, u: Vector3<U>) -> bool {
        &&& self.0.unpacks_to(u.0)
        &&& self.1.unpacks_to(u.1)
        &&& self.2.unpacks_to(u.2)
    }

    fn into_unpacked(self) -> (r: Vector3<U>) {
        Vector3(self.0.into_unpacked(), self.1.into_unpacked(), self.2.into_unpacked())
    }
}

impl<T: IntoPacked<U>, U> IntoPacked<Vector4Packed<U>> for Vector4<T> {
    open spec fn packs_to(self, p: Vector4Packed<U>) -> bool {
        &&& self.0.packs_to(p.0)
        &&& self.1.packs_to(p.1)
        &&& self.2.packs_to(p.2)
        &&& self.3.packs_to(p.3)
    }

    fn into_packed(self) -> (r: Vector4Packed<U>) {
        Vector4Packed(
            self.0.into_packed(),
            self.1.into_packed(),
            self.2.into_packed(),
            self.3.into_packed(),
        )
    }
}

impl<T: IntoUnpacked<U>, U> IntoUnpacked<Vector4<U>> for Vector4Packed<T> {
    open spec fn unpacks_to(self, u: Vector4<U>) -> bool {
        &&& self.0.unpacks_to(u.0)
        &&& self.1.unpacks_to(u.1)
        &&& self.2.unpacks_to(u.2)
        &&& self.3.unpacks_to(u.3)
    }

    fn into_unpacked(self) -> (r: Vector4<U>) {
        Vector4(
            self.0.into_unpacked(),
            self.1.into_unpacked(),
            self.2.into_unpacked(),
            self.3.into_unpacked(),
        )
    }
}

/// The packed matrix whose columns are those of `m`, each followed by `pad`.
pub open spec fn padded_columns<T>(m: Matrix3x3<T>, pad: T) -> Matrix3x3Packed<T> {
    Vector3Packed(
        Vector4Packed(m.0.0, m.0.1, m.0.2, pad),
        Vector4Packed(m.1.0, m.1.1, m.1.2, pad),
        Vector4Packed(m.2.0, m.2.1, m.2.2, pad),
    )
}

/// A matrix packs column by column; the padding component is the component
/// type's default value (zero for every numeric type), the same in all three
/// columns.
impl<T: Num + Default> IntoPacked<Matrix3x3Packed<T>> for Matrix3x3<T> {
    open spec fn packs_to(self, p: Matrix3x3Packed<T>) -> bool {
        p == padded_columns(self, p.0.3)
    }

    fn into_packed(self) -> (r: Matrix3x3Packed<T>) {
        let columns = self.columns();
        let pad = T::default();

        Vector3Packed(
            columns.0.extend(pad).into_packed(),
            columns.1.extend(pad).into_packed(),
            columns.2.extend(pad).into_packed(),
        )
    }
}

/// A packed matrix unpacks to its columns with the padding dropped.
impl<T: Num> IntoUnpacked<Matrix3x3<T>> for Matrix3x3Packed<T> {
    open spec fn unpacks_to(self, u: Matrix3x3<T>) -> bool {
        u == Matrix3x3(
            Vector3(self.0.0, self.0.1, self.0.2),
            Vector3(self.1.0, self.1.1, self.1.2),
            Vector3(self.2.0, self.2.1, self.2.2),
        )
    }

    fn into_unpacked(self) -> (r: Matrix3x3<T>) {
        let c1: Vector4<T> = self.0.into_unpacked();
        let c2: Vector4<T> = self.1.into_unpacked();
        let c3: Vector4<T> = self.2.into_unpacked();
        Matrix3x3::from_columns(c1.shrink(), c2.shrink(), c3.shrink())
    }
}

/// Unpacking the packed form of a two-component vector of numbers gives the
/// vector back, and the packed form is the components in order.
pub proof fn lemma_vector2_round_trip<T: Num>(v: Vector2<T>, p: Vector2Packed<T>, u: Vector2<T>)
    ensures
        <Vector2<T> as IntoPacked<Vector2Packed<T>>>::packs_to(v, p) <==> p == Vector2Packed(
            v.0,
            v.1,
        ),
        <Vector2<T> as IntoPacked<Vector2Packed<T>>>::packs_to(v, p)
            && <Vector2Packed<T> as IntoUnpacked<Vector2<T>>>::unpacks_to(p, u) ==> u == v,
{
}

/// Unpacking the packed form of a three-component vector of numbers gives the
/// vector back, and the packed form is the components in order.
pub proof fn lemma_vector3_round_trip<T: Num>(v: Vector3<T>, p: Vector3Packed<T>, u: Vector3<T>)
    ensures
        <Vector3<T> as IntoPacked<Vector3Packed<T>>>::packs_to(v, p) <==> p == Vector3Packed(
            v.0,
            v.1,
            v.2,
        ),
        <Vector3<T> as IntoPacked<Vector3Packed<T>>>::packs_to(v, p)
            && <Vector3Packed<T> as IntoUnpacked<Vector3<T>>>::unpacks_to(p, u) ==> u == v,
{
}

/// Unpacking the packed form of a four-component vector of numbers gives the
/// vector back, and the packed form is the components in order.
pub proof fn lemma_vector4_round_trip<T: Num>(v: Vector4<T>, p: Vector4Packed<T>, u: Vector4<T>)
    ensures
        <Vector4<T> as IntoPacked<Vector4Packed<T>>>::packs_to(v, p) <==> p == Vector4Packed(
            v.0,
            v.1,
            v.2,
            v.3,
        ),
        <Vector4<T> as IntoPacked<Vector4Packed<T>>>::packs_to(v, p)
            && <Vector4Packed<T> as IntoUnpacked<Vector4<T>>>::unpacks_to(p, u) ==> u == v,
{
}

/// Unpacking the packed form of a matrix of numbers gives the matrix back,
/// whatever the padding; packing the matrix that a packed matrix holds gives
/// it back whenever its three padding components are equal.
pub proof fn lemma_matrix_round_trip<T: Num + Default>(
    m: Matrix3x3<T>,
    p: Matrix3x3Packed<T>,
    u: Matrix3x3<T>,
)
    ensures
        <Matrix3x3<T> as IntoPacked<Matrix3x3Packed<T>>>::packs_to(m, p)
            && <Matrix3x3Packed<T> as IntoUnpacked<Matrix3x3<T>>>::unpacks_to(p, u) ==> u == m,
        <Matrix3x3Packed<T> as IntoUnpacked<Matrix3x3<T>>>::unpacks_to(p, u) && p.1.3 == p.0.3
            && p.2.3 == p.0.3 ==> <Matrix3x3<T> as IntoPacked<Matrix3x3Packed<T>>>::packs_to(u, p),
{
}

} // verus!
