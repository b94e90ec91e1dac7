use kifs_raymarching::math::{Matrix3x3, Vector2, Vector3, Vector4};

#[test]
fn math_test_vector_extension_and_shrinking() {
    assert_eq!(Vector2(1., 2.).extend(3.), Vector3(1., 2., 3.));
    assert_eq!(Vector3(1., 2., 3.).extend(4.), Vector4(1., 2., 3., 4.));
}

#[test]
fn math_test_vector_addition() {
    assert_eq!(Vector2(1., 2.) + Vector2(-1., -2.), Vector2(0., 0.));
    assert_eq!(
        Vector3(1., 2., 3.) + Vector3(-1., -2., -3.),
        Vector3(0., 0., 0.)
    );
    assert_eq!(
        Vector4(1., 2., 3., 4.) + Vector4(-1., -2., -3., -4.),
        Vector4(0., 0., 0., 0.)
    );
}

#[test]
fn math_test_vector_subtraction() {
    assert_eq!(Vector2(1., 2.) - Vector2(1., 2.), Vector2(0., 0.));
    assert_eq!(
        Vector3(1., 2., 3.) - Vector3(1., 2., 3.),
        Vector3(0., 0., 0.)
    );
    assert_eq!(
        Vector4(1., 2., 3., 4.) - Vector4(1., 2., 3., 4.),
        Vector4(0., 0., 0., 0.)
    );
}

#[test]
fn test_vector_dot_product() {
    assert_eq!(Vector2(1, 2) * Vector2(2, -1), 0);
    assert_eq!(Vector3(1, 2, 3) * Vector3(1, 1, -1), 0);
    assert_eq!(Vector4(1, 2, 3, 4) * Vector4(-1, 1, 1, -1), 0);
}

#[test]
fn math_test_vector_multiplication_with_scalar() {
    assert_eq!(Vector2(1.0f32, 2.0f32) * 2.0f32, Vector2(2.0f32, 4.0f32));
    assert_eq!(Vector2(1.0f64, 2.0f64) * 2.0f64, Vector2(2.0f64, 4.0f64));
    assert_eq!(Vector2(1.0f32, 2.0f32) * 2.0f32, Vector2(2.0f32, 4.0f32));
    assert_eq!(Vector2(1.0f64, 2.0f64) * 2.0f64, Vector2(2.0f64, 4.0f64));
    assert_eq!(
        Vector3(1.0f32, 2.0f32, 3.0f32) * 2.0f32,
        Vector3(2.0f32, 4.0f32, 6.0f32)
    );
    assert_eq!(
        Vector3(1.0f64, 2.0f64, 3.0f64) * 2.0f64,
        Vector3(2.0f64, 4.0f64, 6.0f64)
    );
    assert_eq!(
        Vector3(1.0f32, 2.0f32, 3.0f32) * 2.0f32,
        Vector3(2.0f32, 4.0f32, 6.0f32)
    );
    assert_eq!(
        Vector3(1.0f64, 2.0f64, 3.0f64) * 2.0f64,
        Vector3(2.0f64, 4.0f64, 6.0f64)
    );
    assert_eq!(
        Vector4(1.0f32, 2.0f32, 3.0f32, 4.0f32) * 2.0f32,
        Vector4(2.0f32, 4.0f32, 6.0f32, 8.0f32)
    );
    assert_eq!(
        Vector4(1.0f64, 2.0f64, 3.0f64, 4.0f64) * 2.0f64,
        Vector4(2.0f64, 4.0f64, 6.0f64, 8.0f64)
    );
    assert_eq!(
        Vector4(1.0f32, 2.0f32, 3.0f32, 4.0f32) * 2.0f32,
        Vector4(2.0f32, 4.0f32, 6.0f32, 8.0f32)
    );
    assert_eq!(
        Vector4(1.0f64, 2.0f64, 3.0f64, 4.0f64) * 2.0f64,
        Vector4(2.0f64, 4.0f64, 6.0f64, 8.0f64)
    );
}

#[test]
fn math_test_vector_division_with_scalar() {
    assert_eq!(Vector2(2., 4.) / 2., Vector2(1., 2.));
    assert_eq!(Vector3(2., 4., 6.) / 2., Vector3(1., 2., 3.));
    assert_eq!(Vector4(2., 4., 6., 8.) / 2., Vector4(1., 2., 3., 4.));
}

#[test]
fn math_test_vector_negation() {
    assert_eq!(-Vector2(1., 2.), Vector2(-1., -2.));
    assert_eq!(-Vector3(1., 2., 3.), Vector3(-1., -2., -3.));
    assert_eq!(-Vector4(1., 2., 3., 4.), Vector4(-1., -2., -3., -4.));
}

#[test]
fn math_test_matrix_addition() {
    assert_eq!(
        Matrix3x3::from_columns(
            Vector3(1., 2., 3.),
            Vector3(4., 5., 6.),
            Vector3(7., 8., 9.)
        ) + Matrix3x3::from_columns(
            Vector3(-1., -2., -3.),
            Vector3(-4., -5., -6.),
            Vector3(-7., -8., -9.)
        ),
        Matrix3x3::zero()
    );
}

#[test]
fn math_test_matrix_subtraction() {
    assert_eq!(
        Matrix3x3::from_columns(
            Vector3(1., 2., 3.),
            Vector3(4., 5., 6.),
            Vector3(7., 8., 9.)
        ) - Matrix3x3::from_columns(
            Vector3(1., 2., 3.),
            Vector3(4., 5., 6.),
            Vector3(7., 8., 9.)
        ),
        Matrix3x3::zero()
    );
}

#[test]
fn math_test_matrix_multiplication() {
    assert_eq!(
        Matrix3x3::from_columns(
            Vector3(1., 2., 3.),
            Vector3(4., 5., 6.),
            Vector3(7., 8., 9.)
        ) * Matrix3x3::from_columns(
            Vector3(1., 2., 3.),
            Vector3(4., 5., 6.),
            Vector3(7., 8., 9.)
        ),
        Matrix3x3::from_columns(
            Vector3(30., 36., 42.),
            Vector3(66., 81., 96.),
            Vector3(102., 126., 150.)
        )
    );
    assert_eq!(
        Matrix3x3::from_columns(
            Vector3(1., 2., 3.),
            Vector3(4., 5., 6.),
            Vector3(7., 8., 9.)
        ) * Matrix3x3::identity(),
        Matrix3x3::from_columns(
            Vector3(1., 2., 3.),
            Vector3(4., 5., 6.),
            Vector3(7., 8., 9.)
        )
    );
}

#[test]
fn math_test_matrix_multiplication_with_scalar() {
    assert_eq!(
        Matrix3x3::from_columns(
            Vector3(1., 2., 3.),
            Vector3(4., 5., 6.),
            Vector3(7., 8., 9.)
        ) * 2.0f32,
        Matrix3x3::from_columns(
            Vector3(2., 4., 6.),
            Vector3(8., 10., 12.),
            Vector3(14., 16., 18.)
        )
    );
    assert_eq!(
        Matrix3x3::from_columns(
            Vector3(1.0f64, 2.0f64, 3.0f64),
            Vector3(4.0f64, 5.0f64, 6.0f64),
            Vector3(7.0f64, 8.0f64, 9.0f64)
        ) * 2.0f64,
        Matrix3x3::from_columns(
            Vector3(2.0f64, 4.0f64, 6.0f64),
            Vector3(8.0f64, 10.0f64, 12.0f64),
            Vector3(14.0f64, 16.0f64, 18.0f64)
        )
    );
    assert_eq!(
        Matrix3x3::from_columns(
                Vector3(1.0f32, 2.0f32, 3.0f32),
                Vector3(4.0f32, 5.0f32, 6.0f32),
                Vector3(7.0f32, 8.0f32, 9.0f32)
            ) * 2.0f32,
        Matrix3x3::from_columns(
            Vector3(2.0f32, 4.0f32, 6.0f32),
            Vector3(8.0f32, 10.0f32, 12.0f32),
            Vector3(14.0f32, 16.0f32, 18.0f32)
        )
    );
    assert_eq!(
        Matrix3x3::from_columns(
                Vector3(1.0f64, 2.0f64, 3.0f64),
                Vector3(4.0f64, 5.0f64, 6.0f64),
                Vector3(7.0f64, 8.0f64, 9.0f64)
            ) * 2.0f64,
        Matrix3x3::from_columns(
            Vector3(2.0f64, 4.0f64, 6.0f64),
            Vector3(8.0f64, 10.0f64, 12.0f64),
            Vector3(14.0f64, 16.0f64, 18.0f64)
        )
    );
}

#[test]
fn math_test_matrix_division_with_scalar() {
    assert_eq!(
        Matrix3x3::from_columns(
            Vector3(2., 4., 6.),
            Vector3(8., 10., 12.),
            Vector3(14., 16., 18.)
        ) / 2.,
        Matrix3x3::from_columns(
            Vector3(1., 2., 3.),
            Vector3(4., 5., 6.),
            Vector3(7., 8., 9.)
        )
    );
}

#[test]
fn math_test_matrix_negation() {
    assert_eq!(
        -Matrix3x3::from_columns(
            Vector3(1., 2., 3.),
            Vector3(4., 5., 6.),
            Vector3(7., 8., 9.)
        ),
        Matrix3x3::from_columns(
            Vector3(-1., -2., -3.),
            Vector3(-4., -5., -6.),
            Vector3(-7., -8., -9.)
        )
    );
}

#[test]
fn math_test_matrix_multiplication_with_vector() {
    assert_eq!(
        Matrix3x3::identity() * Vector3(1., 2., 3.),
        Vector3(1., 2., 3.)
    );
    assert_eq!(
        Matrix3x3::from_columns(
            Vector3(1., 2., 3.),
            Vector3(4., 5., 6.),
            Vector3(7., 8., 9.)
        ) * Vector3(1., 2., 3.),
        Vector3(30., 36., 42.)
    );
}

#[test]
fn test_vector_scalar_product() {
    assert_eq!(Vector2(1, 2) * Vector2(2, -1), 0);
    assert_eq!(Vector3(1, 2, 3) * Vector3(1, 1, -1), 0);
    assert_eq!(Vector4(1, 2, 3, 4) * Vector4(-1, 1, 1, -1), 0);
}

#[test]
fn vector_shrinking_drops_last_component() {
    assert_eq!(Vector4(1, 2, 3, 4).shrink(), Vector3(1, 2, 3));
    assert_eq!(Vector3(1, 2, 3).shrink(), Vector2(1, 2));
}

#[test]
fn integer_vector_dot_product_values() {
    assert_eq!(Vector2(3i64, 4) * Vector2(5i64, 6), 39);
    assert_eq!(Vector3(1u32, 2, 3) * Vector3(4u32, 5, 6), 32);
    assert_eq!(Vector4(1i32, -2, 3, -4) * Vector4(2i32, 2, 2, 2), -4);
}

#[test]
fn integer_vector_scalar_operations() {
    assert_eq!(Vector3(1i32, -2, 3) * 3, Vector3(3, -6, 9));
    assert_eq!(Vector4(9u8, 6, 3, 0) / 3, Vector4(3, 2, 1, 0));
    assert_eq!(-Vector2(5i16, -7), Vector2(-5, 7));
}

#[test]
fn matrix_rows_and_columns() {
    let m = Matrix3x3::from_columns(Vector3(1, 2, 3), Vector3(4, 5, 6), Vector3(7, 8, 9));
    assert_eq!(m.columns(), (Vector3(1, 2, 3), Vector3(4, 5, 6), Vector3(7, 8, 9)));
    assert_eq!(m.rows(), (Vector3(1, 4, 7), Vector3(2, 5, 8), Vector3(3, 6, 9)));
    let (r1, r2, r3) = m.rows();
    assert_eq!(Matrix3x3::from_rows(r1, r2, r3), m);
}

#[test]
fn integer_matrix_products() {
    let m = Matrix3x3::from_columns(Vector3(1i64, 2, 3), Vector3(4, 5, 6), Vector3(7, 8, 9));
    assert_eq!(m * Matrix3x3::identity(), m);
    assert_eq!(Matrix3x3::<i64>::identity() * m, m);
    assert_eq!(m * Vector3(1, 0, 0), Vector3(1, 2, 3));
    assert_eq!(
        m * m,
        Matrix3x3::from_columns(Vector3(30, 36, 42), Vector3(66, 81, 96), Vector3(102, 126, 150))
    );
    assert_eq!(m + (-m), Matrix3x3::zero());
    assert_eq!(
        Matrix3x3::<u32>::zero(),
        Matrix3x3::from_columns(Vector3(0, 0, 0), Vector3(0, 0, 0), Vector3(0, 0, 0))
    );
}
