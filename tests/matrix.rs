use render_core::matrix::{
    mat_from_col_array, mat_from_row_array, mat_to_col_array, mat_to_row_array, Matrix4,
};

fn sample() -> Matrix4<f32> {
    let mut m = [0.0f32; 16];
    for (i, v) in m.iter_mut().enumerate() {
        *v = i as f32 + 0.5;
    }
    Matrix4 { m }
}

#[test]
fn col_array_is_transposed_layout() {
    let m = sample();
    let c = mat_to_col_array(&m);
    assert_eq!(
        c,
        [0.5, 4.5, 8.5, 12.5, 1.5, 5.5, 9.5, 13.5, 2.5, 6.5, 10.5, 14.5, 3.5, 7.5, 11.5, 15.5]
    );
}

#[test]
fn row_array_keeps_order() {
    let m = sample();
    assert_eq!(mat_to_row_array(&m), m.m);
    assert_eq!(mat_from_row_array(&m.m).m, m.m);
}

#[test]
fn col_array_round_trip_is_exact() {
    let mut m = sample();
    m.m[3] = f32::MIN_POSITIVE;
    m.m[7] = -0.0;
    m.m[11] = 1.0e-30;
    let back = mat_from_col_array(&mat_to_col_array(&m));
    for i in 0..16 {
        assert_eq!(back.m[i].to_bits(), m.m[i].to_bits());
    }
}

#[test]
fn from_col_array_reads_columns() {
    let a: [u32; 16] = [1, 2, 3, 4, 5, 6, 7, 8, 9, 10, 11, 12, 13, 14, 15, 16];
    let m = mat_from_col_array(&a);
    // row 0 is the first value of each column
    assert_eq!(&m.m[0..4], &[1, 5, 9, 13]);
    assert_eq!(&m.m[12..16], &[4, 8, 12, 16]);
}
