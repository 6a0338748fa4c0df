use wiener::off::{parse_off, parse_count, parse_face_index, split_lines, split_tokens, OffError};

fn tok(s: &str) -> Vec<u8> {
    s.as_bytes().to_vec()
}

#[test]
fn parses_a_single_triangle() {
    let data = b"OFF\r\n3 1 0\r\n0 0 0\r\n1 0 0\r\n0 1 0\r\n3 0 1 2\r\n";
    let m = parse_off(data).unwrap();
    assert_eq!(m.vertex_count, 3);
    assert_eq!(m.face_count, 1);
    assert_eq!(m.coords.len(), 9);
    assert_eq!(m.coords[0], tok("0"));
    assert_eq!(m.coords[3], tok("1"));
    assert_eq!(m.coords[4], tok("0"));
    assert_eq!(m.faces, vec![0, 1, 2]);
}

#[test]
fn parses_fractional_coordinate_tokens_verbatim() {
    let data = b"OFF\r\n1 0 0\r\n0.5 -1.25 3e2\r\n";
    let m = parse_off(data).unwrap();
    assert_eq!(m.vertex_count, 1);
    assert_eq!(m.face_count, 0);
    assert_eq!(m.coords, vec![tok("0.5"), tok("-1.25"), tok("3e2")]);
    assert!(m.faces.is_empty());
}

#[test]
fn ignores_extra_tokens_on_vertex_and_face_lines() {
    let data = b"OFF\r\n3 1 9\r\n0 0 0 255 255 255\r\n1 0 0 255 0 0\r\n0 1 0 0 0 255\r\n3 2 1 0 77\r\n";
    let m = parse_off(data).unwrap();
    assert_eq!(m.coords.len(), 9);
    assert_eq!(m.faces, vec![2, 1, 0]);
}

#[test]
fn accepts_an_empty_mesh() {
    let m = parse_off(b"OFF\r\n0 0 0\r\n").unwrap();
    assert_eq!(m.vertex_count, 0);
    assert_eq!(m.face_count, 0);
    assert!(m.coords.is_empty());
    assert!(m.faces.is_empty());
}

#[test]
fn ignores_lines_after_the_declared_faces() {
    let data = b"OFF\r\n1 0 0\r\n0 0 0\r\nanything at all\r\n";
    let m = parse_off(data).unwrap();
    assert_eq!(m.vertex_count, 1);
    assert_eq!(m.face_count, 0);
}

#[test]
fn rejects_a_missing_header() {
    assert_eq!(parse_off(b"3 1 0\r\n"), Err(OffError::MissingHeader));
    assert_eq!(parse_off(b""), Err(OffError::MissingHeader));
    // A header with trailing content on the line is not exactly `OFF`.
    assert_eq!(parse_off(b"OFF extra\r\n3 1 0\r\n"), Err(OffError::MissingHeader));
}

#[test]
fn rejects_line_feeds_without_carriage_returns() {
    // Lines are separated by a carriage return directly followed by a line
    // feed, so this whole file is one line and the header check fails.
    assert_eq!(parse_off(b"OFF\n1 0 0\n0 0 0\n"), Err(OffError::MissingHeader));
}

#[test]
fn rejects_bad_counts() {
    assert_eq!(parse_off(b"OFF"), Err(OffError::BadCounts));
    assert_eq!(parse_off(b"OFF\r\n"), Err(OffError::BadCounts));
    assert_eq!(parse_off(b"OFF\r\n3\r\n"), Err(OffError::BadCounts));
    assert_eq!(parse_off(b"OFF\r\nx 1\r\n"), Err(OffError::BadCounts));
    assert_eq!(parse_off(b"OFF\r\n3 -1\r\n"), Err(OffError::BadCounts));
    // One past the largest signed 32-bit value.
    assert_eq!(parse_off(b"OFF\r\n2147483648 1\r\n"), Err(OffError::BadCounts));
}

#[test]
fn rejects_bad_vertex_lines() {
    // Too few coordinates on a vertex line.
    assert_eq!(parse_off(b"OFF\r\n1 0 0\r\n0 0\r\n"), Err(OffError::BadVertex));
    // A declared vertex line that is missing entirely.
    assert_eq!(parse_off(b"OFF\r\n2 0 0\r\n0 0 0\r\n"), Err(OffError::BadVertex));
}

#[test]
fn rejects_bad_face_lines() {
    let head = b"OFF\r\n3 1 0\r\n0 0 0\r\n1 0 0\r\n0 1 0\r\n";
    let with = |tail: &[u8]| {
        let mut v = head.to_vec();
        v.extend_from_slice(tail);
        v
    };
    // Too few tokens.
    assert_eq!(parse_off(&with(b"3 0 1\r\n")), Err(OffError::BadFace));
    // A face index that is not a number.
    assert_eq!(parse_off(&with(b"3 0 x 2\r\n")), Err(OffError::BadFace));
    // A declared face line that is missing entirely.
    assert_eq!(parse_off(&with(b"")), Err(OffError::BadFace));
}

#[test]
fn rejects_out_of_range_face_indices() {
    let head = b"OFF\r\n3 1 0\r\n0 0 0\r\n1 0 0\r\n0 1 0\r\n";
    let with = |tail: &[u8]| {
        let mut v = head.to_vec();
        v.extend_from_slice(tail);
        v
    };
    // The vertex count itself is already out of range.
    assert_eq!(parse_off(&with(b"3 0 1 3\r\n")), Err(OffError::IndexOutOfRange));
    // A huge index is out of range, not malformed.
    assert_eq!(
        parse_off(&with(b"3 0 1 99999999999999999999\r\n")),
        Err(OffError::IndexOutOfRange)
    );
    // A parse failure on another index takes precedence over range.
    assert_eq!(parse_off(&with(b"3 9 x 0\r\n")), Err(OffError::BadFace));
}

#[test]
fn split_lines_cuts_on_carriage_return_line_feed_only() {
    let lines = split_lines(b"a\r\nb c\rd\ne\r\n");
    assert_eq!(lines, vec![tok("a"), "b c\rd\ne".as_bytes().to_vec(), tok("")]);
    assert_eq!(split_lines(b""), vec![tok("")]);
}

#[test]
fn split_tokens_cuts_on_whitespace_runs() {
    let toks = split_tokens(&"  a\tbb   c \n".as_bytes().to_vec());
    assert_eq!(toks, vec![tok("a"), tok("bb"), tok("c")]);
    assert_eq!(split_tokens(&tok("")), Vec::<Vec<u8>>::new());
    assert_eq!(split_tokens(&tok("   ")), Vec::<Vec<u8>>::new());
}

#[test]
fn parse_count_accepts_values_up_to_the_signed_32_bit_maximum() {
    assert_eq!(parse_count(&tok("0")), Some(0));
    assert_eq!(parse_count(&tok("0042")), Some(42));
    assert_eq!(parse_count(&tok("2147483647")), Some(2147483647));
    assert_eq!(parse_count(&tok("2147483648")), None);
    assert_eq!(parse_count(&tok("")), None);
    assert_eq!(parse_count(&tok("12a")), None);
    assert_eq!(parse_count(&tok("-3")), None);
}

#[test]
fn parse_face_index_distinguishes_bad_tokens_from_out_of_range_values() {
    assert_eq!(parse_face_index(&tok("2"), 3), Ok(2));
    assert_eq!(parse_face_index(&tok("0002"), 3), Ok(2));
    assert_eq!(parse_face_index(&tok("3"), 3), Err(OffError::IndexOutOfRange));
    assert_eq!(parse_face_index(&tok("7x"), 3), Err(OffError::BadFace));
    assert_eq!(parse_face_index(&tok(""), 3), Err(OffError::BadFace));
    assert_eq!(parse_face_index(&tok("0"), 0), Err(OffError::IndexOutOfRange));
}
