use wiener::math::{
    add3, clamp, cross, dot2, dot3, dot4, extract_column2, extract_column3, extract_column4, eye1,
    eye2, eye3, eye4, matmul2, matmul2v, matmul3, matmul3v, matmul4, matmul4v, scaling, subtract2,
    subtract3, subtract4, translation,
};

#[test]
fn subtract_is_componentwise() {
    assert_eq!(subtract2([5, 3], [2, 7]), [3, -4]);
    assert_eq!(subtract3([5, 3, 1], [2, 7, -1]), [3, -4, 2]);
    assert_eq!(subtract4([5, 3, 1, 0], [2, 7, -1, 4]), [3, -4, 2, -4]);
}

#[test]
fn add_is_componentwise() {
    assert_eq!(add3([5, 3, 1], [2, 7, -1]), [7, 10, 0]);
}

#[test]
fn cross_of_the_axes_gives_the_third_axis() {
    assert_eq!(cross([1, 0, 0], [0, 1, 0]), [0, 0, 1]);
    assert_eq!(cross([0, 1, 0], [1, 0, 0]), [0, 0, -1]);
    assert_eq!(cross([1, 2, 3], [4, 5, 6]), [-3, 6, -3]);
}

#[test]
fn dot_products_match_their_formulas() {
    assert_eq!(dot2([1, 2], [3, 4]), 11);
    assert_eq!(dot3([1, 2, 3], [4, 5, 6]), 32);
    assert_eq!(dot4([1, 2, 3, 4], [5, 6, 7, 8]), 70);
    assert_eq!(dot3([-2, 0, 2], [3, 9, 3]), 0);
}

#[test]
fn extract_column_reads_down_the_rows() {
    assert_eq!(extract_column2([[1, 2], [3, 4]], 1), [2, 4]);
    assert_eq!(extract_column3([[1, 2, 3], [4, 5, 6], [7, 8, 9]], 0), [1, 4, 7]);
    assert_eq!(
        extract_column4([[1, 2, 3, 4], [5, 6, 7, 8], [9, 10, 11, 12], [13, 14, 15, 16]], 3),
        [4, 8, 12, 16]
    );
}

#[test]
fn matmul_has_exact_entries() {
    assert_eq!(matmul2([[1, 2], [3, 4]], [[5, 6], [7, 8]]), [[19, 22], [43, 50]]);
    let a = [[1, 2, 3], [4, 5, 6], [7, 8, 9]];
    assert_eq!(matmul3(a, eye3()), a);
    assert_eq!(matmul3(eye3(), a), a);
    let m = [[2, 0, 0, 0], [0, 3, 0, 0], [0, 0, 4, 0], [0, 0, 0, 1]];
    assert_eq!(matmul4(m, eye4()), m);
    assert_eq!(
        matmul4(translation(1, 2, 3), scaling(2, 2, 2)),
        [[2, 0, 0, 1], [0, 2, 0, 2], [0, 0, 2, 3], [0, 0, 0, 1]]
    );
}

#[test]
fn matrix_vector_products_match_their_formulas() {
    assert_eq!(matmul2v([[1, 2], [3, 4]], [5, 6]), [17, 39]);
    assert_eq!(matmul3v(eye3(), [7, 8, 9]), [7, 8, 9]);
    assert_eq!(matmul4v(translation(10, 20, 30), [1, 2, 3, 1]), [11, 22, 33, 1]);
    assert_eq!(matmul4v(scaling(2, 3, 4), [1, 1, 1, 1]), [2, 3, 4, 1]);
}

#[test]
fn clamp_honours_optional_limits() {
    assert_eq!(clamp(5, None, None), 5);
    assert_eq!(clamp(5, Some(0), Some(3)), 3);
    assert_eq!(clamp(-5, Some(0), Some(3)), 0);
    assert_eq!(clamp(2, Some(0), Some(3)), 2);
    assert_eq!(clamp(9, Some(0), None), 9);
    assert_eq!(clamp(-9, None, Some(3)), -9);
}

#[test]
fn identity_matrices_have_ones_on_the_diagonal() {
    assert_eq!(eye1(), [[1]]);
    assert_eq!(eye2(), [[1, 0], [0, 1]]);
    assert_eq!(eye3(), [[1, 0, 0], [0, 1, 0], [0, 0, 1]]);
    assert_eq!(eye4(), [[1, 0, 0, 0], [0, 1, 0, 0], [0, 0, 1, 0], [0, 0, 0, 1]]);
}

#[test]
fn translation_and_scaling_have_their_textbook_shapes() {
    assert_eq!(
        translation(7, 8, 9),
        [[1, 0, 0, 7], [0, 1, 0, 8], [0, 0, 1, 9], [0, 0, 0, 1]]
    );
    assert_eq!(scaling(7, 8, 9), [[7, 0, 0, 0], [0, 8, 0, 0], [0, 0, 9, 0], [0, 0, 0, 1]]);
}
