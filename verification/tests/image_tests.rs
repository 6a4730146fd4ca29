use pixelgrid::{Image, RGB8, index2d_to_index};

#[test]
fn rotate90_square() {
    let width: u32 = 20;
    let height: u32 = 20;
    let mut img: Image<RGB8> = Image::new(width, height, RGB8::from([0, 0, 0])).unwrap();
    let color = RGB8::from([255, 0, 0]);
    img.set(0, color);
    assert_eq!(img.get(0), color);

    img.rotate90();
    assert_eq!(img.get(index2d_to_index(width, width - 1, 0)), color);

    img.rotate90();
    assert_eq!(img.get(index2d_to_index(width, width - 1, height - 1)), color);

    img.rotate90();
    assert_eq!(img.get(index2d_to_index(width, 0, height - 1)), color);

    img.rotate90();
    assert_eq!(img.get(index2d_to_index(width, 0, 0)), color);
}

#[test]
fn rotate90() {
    let mut img: Image<RGB8> = Image::new(450, 20, RGB8::from([255, 255, 255])).unwrap();
    let color = RGB8::from([0, 255, 0]);
    img.set(0, color);
    assert_eq!(img.get(0), color);

    img.rotate90();
    assert_eq!(
        img.get(index2d_to_index(img.width(), img.width() - 1, 0)),
        color
    );

    img.rotate90();
    assert_eq!(
        img.get(index2d_to_index(img.width(), img.width() - 1, img.height() - 1)),
        color
    );

    img.rotate90();
    assert_eq!(
        img.get(index2d_to_index(img.width(), 0, img.height() - 1)),
        color
    );

    img.rotate90();
    assert_eq!(img.get(index2d_to_index(img.width(), 0, 0)), color);
}

#[test]
fn flip_vertically() {
    let mut buffer: Image<RGB8> = Image::new(21, 21, RGB8::from([0, 0, 0])).unwrap();
    let color1 = RGB8::from([255, 0, 0]);
    let color2 = RGB8::from([0, 255, 0]);
    let color3 = RGB8::from([0, 0, 255]);
    buffer.set(0, color1);
    let len = buffer.len();
    buffer.set(len - 1, color2);
    let index = index2d_to_index(buffer.width(), buffer.width() / 2, buffer.height() / 2);
    buffer.set(index, color3);

    buffer.flip_vertically();
    assert_eq!(
        buffer.get(index2d_to_index(buffer.width(), buffer.width() - 1, 0)),
        color1
    );
    assert_eq!(
        buffer.get(index2d_to_index(buffer.width(), 0, buffer.height() - 1)),
        color2
    );
    assert_eq!(
        buffer.get(index2d_to_index(
            buffer.width(),
            buffer.width() / 2,
            buffer.height() / 2
        )),
        color3
    );
}

#[test]
fn flip_horizontally() {
    let mut buffer: Image<RGB8> = Image::new(43, 43, RGB8::from([0, 0, 0])).unwrap();
    let color1 = RGB8::from([255, 0, 0]);
    let color2 = RGB8::from([0, 255, 0]);
    let color3 = RGB8::from([0, 0, 255]);
    buffer.set(0, color1);
    let len = buffer.len();
    buffer.set(len - 1, color2);
    let index = index2d_to_index(buffer.width(), buffer.width() / 2, buffer.height() / 2);
    buffer.set(index, color3);

    buffer.flip_horizontally();
    assert_eq!(
        buffer.get(index2d_to_index(buffer.width(), 0, buffer.height() - 1)),
        color1
    );
    assert_eq!(
        buffer.get(index2d_to_index(buffer.width(), buffer.width() - 1, 0)),
        color2
    );
    assert_eq!(
        buffer.get(index2d_to_index(
            buffer.width(),
            buffer.width() / 2,
            buffer.height() / 2
        )),
        color3
    );
}

#[test]
fn rotate_four_times_restores_content() {
    let data: Vec<u8> = vec![1, 2, 3, 4, 5, 6];
    let mut img: Image<u8> = Image::from_vec(3, 2, data.clone()).unwrap();
    img.rotate90();
    assert_eq!(img.width(), 2);
    assert_eq!(img.height(), 3);
    img.rotate90();
    img.rotate90();
    img.rotate90();
    assert_eq!(img.width(), 3);
    assert_eq!(img.height(), 2);
    assert_eq!(img.as_vec(), data);
}

#[test]
fn flip_vertically_twice_restores_content() {
    let data: Vec<u8> = vec![1, 2, 3, 4, 5, 6, 7, 8];
    let mut img: Image<u8> = Image::from_vec(4, 2, data.clone()).unwrap();
    img.flip_vertically();
    assert_eq!(img.as_vec(), vec![4, 3, 2, 1, 8, 7, 6, 5]);

    let mut img: Image<u8> = Image::from_vec(4, 2, data.clone()).unwrap();
    img.flip_vertically();
    img.flip_vertically();
    assert_eq!(img.as_vec(), data);
}

#[test]
fn flip_horizontally_twice_restores_content() {
    let data: Vec<u8> = vec![1, 2, 3, 4, 5, 6, 7, 8];
    let mut img: Image<u8> = Image::from_vec(4, 2, data.clone()).unwrap();
    img.flip_horizontally();
    assert_eq!(img.as_vec(), vec![5, 6, 7, 8, 1, 2, 3, 4]);

    let mut img: Image<u8> = Image::from_vec(4, 2, data.clone()).unwrap();
    img.flip_horizontally();
    img.flip_horizontally();
    assert_eq!(img.as_vec(), data);
}

#[test]
fn rotate90_single_row_and_column() {
    let data: Vec<u8> = vec![1, 2, 3, 4, 5];
    let mut img: Image<u8> = Image::from_vec(5, 1, data.clone()).unwrap();
    img.rotate90();
    assert_eq!(img.width(), 1);
    assert_eq!(img.height(), 5);
    assert_eq!(img.as_vec(), data);

    let mut img: Image<u8> = Image::from_vec(1, 5, data.clone()).unwrap();
    img.rotate90();
    assert_eq!(img.width(), 5);
    assert_eq!(img.height(), 1);
    assert_eq!(img.as_vec(), vec![5, 4, 3, 2, 1]);
}

#[test]
fn rotate90_empty_image() {
    let mut img: Image<u8> = Image::new(0, 7, 0).unwrap();
    img.rotate90();
    assert_eq!(img.width(), 7);
    assert_eq!(img.height(), 0);
    assert_eq!(img.len(), 0);
}

#[test]
fn index_maps_match() {
    let img: Image<u8> = Image::new(12, 9, 0).unwrap();
    for y in 0..9u32 {
        for x in 0..12u32 {
            let index = img.index2d_to_index(x, y);
            assert_eq!(index, (y * 12 + x) as usize);
            assert_eq!(img.index_to_index2d(index), (x, y));
        }
    }
}
