#[test]
fn transpose_transpose_square() {
    let mut buffer: Vec<u8> = vec![1, 2, 3, 4, 5, 6, 7, 8, 9];
    pixelgrid::transpose_square(3, &mut buffer);

    assert_eq!(buffer[0], 1);
    assert_eq!(buffer[1], 4);
    assert_eq!(buffer[2], 7);

    assert_eq!(buffer[3], 2);
    assert_eq!(buffer[4], 5);
    assert_eq!(buffer[5], 8);

    assert_eq!(buffer[6], 3);
    assert_eq!(buffer[7], 6);
    assert_eq!(buffer[8], 9);
}

#[test]
fn transpose_transpose() {
    let mut buffer: Vec<u8> = vec![1, 2, 3, 4, 5, 6, 7, 8];
    pixelgrid::transpose(2, 4, &mut buffer);

    assert_eq!(buffer[0], 1); // 1 2        1 3 5 7
    assert_eq!(buffer[1], 3); // 3 4  -->   2 4 6 8
    assert_eq!(buffer[2], 5); // 5 6
    assert_eq!(buffer[3], 7); // 7 8

    assert_eq!(buffer[4], 2);
    assert_eq!(buffer[5], 4);
    assert_eq!(buffer[6], 6);
    assert_eq!(buffer[7], 8);
}

#[test]
fn transpose_single_row() {
    let mut buffer: Vec<u8> = vec![1, 2, 3, 4, 5, 6];
    pixelgrid::transpose(6, 1, &mut buffer);
    assert_eq!(buffer, vec![1, 2, 3, 4, 5, 6]);
}

#[test]
fn transpose_single_column() {
    let mut buffer: Vec<u8> = vec![1, 2, 3, 4, 5, 6];
    pixelgrid::transpose(1, 6, &mut buffer);
    assert_eq!(buffer, vec![1, 2, 3, 4, 5, 6]);
}

#[test]
fn transpose_empty() {
    let mut buffer: Vec<u8> = vec![];
    pixelgrid::transpose(0, 5, &mut buffer);
    assert_eq!(buffer, Vec::<u8>::new());
}

#[test]
fn transpose_rectangular_wide() {
    let mut buffer: Vec<u8> = vec![1, 2, 3, 4, 5, 6, 7, 8];
    pixelgrid::transpose(4, 2, &mut buffer);
    // 1 2 3 4        1 5
    // 5 6 7 8  -->   2 6
    //                3 7
    //                4 8
    assert_eq!(buffer, vec![1, 5, 2, 6, 3, 7, 4, 8]);
}

#[test]
fn transpose_square_one_cell() {
    let mut buffer: Vec<u8> = vec![42];
    pixelgrid::transpose_square(1, &mut buffer);
    assert_eq!(buffer, vec![42]);
}

#[test]
fn transpose_square() {
    let mut buffer: Vec<u8> = vec![1, 2, 3, 4, 5, 6, 7, 8, 9];
    pixelgrid::transpose_square(3, &mut buffer);

    assert_eq!(buffer[0], 1);
    assert_eq!(buffer[1], 4);
    assert_eq!(buffer[2], 7);

    assert_eq!(buffer[3], 2);
    assert_eq!(buffer[4], 5);
    assert_eq!(buffer[5], 8);

    assert_eq!(buffer[6], 3);
    assert_eq!(buffer[7], 6);
    assert_eq!(buffer[8], 9);
}

#[test]
fn transpose() {
    let mut buffer: Vec<u8> = vec![1, 2, 3, 4, 5, 6, 7, 8];
    pixelgrid::transpose(2, 4, &mut buffer);

    assert_eq!(buffer[0], 1); // 1 2        1 3 5 7
    assert_eq!(buffer[1], 3); // 3 4  -->   2 4 6 8
    assert_eq!(buffer[2], 5); // 5 6
    assert_eq!(buffer[3], 7); // 7 8

    assert_eq!(buffer[4], 2);
    assert_eq!(buffer[5], 4);
    assert_eq!(buffer[6], 6);
    assert_eq!(buffer[7], 8);
}
