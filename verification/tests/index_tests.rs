use pixelgrid::{index2d_to_index, index_to_index2d};

#[test]
fn math_index() {
    let width: u32 = 243;

    let index = index2d_to_index(width, 0, 0);
    assert_eq!(index, 0);
    let index = index_to_index2d(width, index);
    assert_eq!(index, (0, 0));

    let index = index2d_to_index(width, width - 1, 0);
    assert_eq!(index, width as usize - 1);
    let index = index_to_index2d(width, index);
    assert_eq!(index, (width - 1, 0));

    let index = index2d_to_index(width, 0, width - 1);
    assert_eq!(index, (width - 1) as usize * width as usize);
    let index = index_to_index2d(width, index);
    assert_eq!(index, (0, width - 1));

    let index = index2d_to_index(width, width - 1, width - 1);
    assert_eq!(index, (width as usize * width as usize) - 1);
    let index = index_to_index2d(width, index);
    assert_eq!(index, (width - 1, width - 1));
}

#[test]
fn mod_index() {
    let width: u32 = 243;

    let index = index2d_to_index(width, 0, 0);
    assert_eq!(index, 0);
    let index = index_to_index2d(width, index);
    assert_eq!(index, (0, 0));

    let index = index2d_to_index(width, width - 1, 0);
    assert_eq!(index, width as usize - 1);
    let index = index_to_index2d(width, index);
    assert_eq!(index, (width - 1, 0));

    let index = index2d_to_index(width, 0, width - 1);
    assert_eq!(index, (width - 1) as usize * width as usize);
    let index = index_to_index2d(width, index);
    assert_eq!(index, (0, width - 1));

    let index = index2d_to_index(width, width - 1, width - 1);
    assert_eq!(index, (width as usize * width as usize) - 1);
    let index = index_to_index2d(width, index);
    assert_eq!(index, (width - 1, width - 1));
}
