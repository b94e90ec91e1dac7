use kifs_raymarching::math::{Matrix3x3, Vector2, Vector3, Vector4};
use kifs_raymarching::packed::{
    IntoPacked, IntoUnpacked, Matrix3x3Packed, Vector2Packed, Vector3Packed, Vector4Packed,
};

#[test]
fn test_packing_and_unpacking() {
    assert_eq!(Vector2(1., 2.).into_packed(), Vector2Packed(1., 2.));
    assert_eq!(Vector2Packed(1., 2.).into_unpacked(), Vector2(1., 2.));
    assert_eq!(Vector3(1., 2., 3.).into_packed(), Vector3Packed(1., 2., 3.));
    assert_eq!(
        Vector3Packed(1., 2., 3.).into_unpacked(),
        Vector3(1., 2., 3.)
    );
    assert_eq!(
        Vector4(1., 2., 3., 4.).into_packed(),
        Vector4Packed(1., 2., 3., 4.)
    );
    assert_eq!(
        Vector4Packed(1., 2., 3., 4.).into_unpacked(),
        Vector4(1., 2., 3., 4.)
    );
    assert_eq!(
        Vector2(Vector2(1., 2.), Vector2(3., 4.)).into_packed(),
        Vector2Packed(Vector2Packed(1., 2.), Vector2Packed(3., 4.))
    );
}

#[test]
fn test_packing_and_depacking() {
    assert_eq!(Vector2(1., 2.).into_packed(), Vector2Packed(1., 2.));
    assert_eq!(Vector2Packed(1., 2.).into_unpacked(), Vector2(1., 2.));
    assert_eq!(Vector3(1., 2., 3.).into_packed(), Vector3Packed(1., 2., 3.));
    assert_eq!(
        Vector3Packed(1., 2., 3.).into_unpacked(),
        Vector3(1., 2., 3.)
    );
    assert_eq!(
        Vector4(1., 2., 3., 4.).into_packed(),
        Vector4Packed(1., 2., 3., 4.)
    );
    assert_eq!(
        Vector4Packed(1., 2., 3., 4.).into_unpacked(),
        Vector4(1., 2., 3., 4.)
    );
    let packed: Matrix3x3Packed<f32> = Matrix3x3::from_columns(
        Vector3(1., 2., 3.),
        Vector3(4., 5., 6.),
        Vector3(7., 8., 9.),
    )
    .into_packed();
    assert_eq!(
        packed,
        Vector3Packed(
            Vector4Packed(1., 2., 3., 0.),
            Vector4Packed(4., 5., 6., 0.),
            Vector4Packed(7., 8., 9., 0.),
        )
    );
    let unpacked: Matrix3x3<f32> = Vector3Packed(
        Vector4Packed(1., 2., 3., 0.),
        Vector4Packed(4., 5., 6., 0.),
        Vector4Packed(7., 8., 9., 0.),
    )
    .into_unpacked();
    assert_eq!(
        unpacked,
        Matrix3x3::from_columns(
            Vector3(1., 2., 3.),
            Vector3(4., 5., 6.),
            Vector3(7., 8., 9.),
        )
    );
    assert_eq!(
        Vector2(Vector2(1., 2.), Vector2(3., 4.)).into_packed(),
        Vector2Packed(Vector2Packed(1., 2.), Vector2Packed(3., 4.))
    );
}

#[test]
fn integer_matrix_round_trip_drops_padding() {
    let m = Matrix3x3::from_columns(Vector3(1u32, 2, 3), Vector3(4, 5, 6), Vector3(7, 8, 9));
    let p: Matrix3x3Packed<u32> = m.into_packed();
    assert_eq!(p.0, Vector4Packed(1, 2, 3, 0));
    assert_eq!(p.2, Vector4Packed(7, 8, 9, 0));
    let back: Matrix3x3<u32> = p.into_unpacked();
    assert_eq!(back, m);
    let padded = Vector3Packed(
        Vector4Packed(1i32, 2, 3, 99),
        Vector4Packed(4, 5, 6, 99),
        Vector4Packed(7, 8, 9, 99),
    );
    let u: Matrix3x3<i32> = padded.into_unpacked();
    assert_eq!(u, Matrix3x3::from_columns(Vector3(1, 2, 3), Vector3(4, 5, 6), Vector3(7, 8, 9)));
}

#[test]
fn number_packs_as_itself() {
    assert_eq!(IntoPacked::<i64>::into_packed(-7i64), -7);
    assert_eq!(IntoUnpacked::<u16>::into_unpacked(300u16), 300);
}
