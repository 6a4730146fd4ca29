use pixelgrid::{Buffer, ComponentsRaw, Frame, IncorrectData, RGB, RGB8, index2d_to_index};

#[test]
fn new() {
    let width: u32 = 20;
    let height: u32 = 20;
    let capacity = width as usize * height as usize;
    let color = RGB8::from([255, 255, 255]);

    let buffer = Buffer::new(width, height, color).unwrap();

    assert_eq!(buffer.data.len(), capacity);
    assert_eq!(buffer.width as usize * buffer.height as usize, capacity);
    for x in buffer.data.iter() {
        assert_eq!(x, &color);
    }
}

#[test]
fn new_overflow() {
    let width: u32 = u32::MAX;
    let height: u32 = u32::MAX;
    let color = RGB8::from([255, 255, 255]);

    let buffer = Buffer::new(width, height, color);
    assert!(buffer.is_err());

    if let Err(e) = buffer {
        match e {
            IncorrectData::Overflow => assert!(true),
            _ => assert!(false),
        }
    }
}

#[test]
fn from_vec() {
    let width: u32 = 10;
    let height: u32 = 5;
    let capacity = width as usize * height as usize;
    let color = RGB8::from([255, 255, 255]);

    let buffer = Buffer::from_vec(width, height, vec![color; capacity]).unwrap();

    assert_eq!(buffer.data.len(), capacity);
    assert_eq!(buffer.width as usize * buffer.height as usize, capacity);
    for x in buffer.data {
        assert_eq!(x, color);
    }
}

#[test]
fn from_vec_size_mismatch() {
    let color = RGB8::from([1, 2, 3]);
    let result = Buffer::from_vec(4, 4, vec![color; 15]);
    match result {
        Err(IncorrectData::Size { expected, got }) => {
            assert_eq!(expected, 16);
            assert_eq!(got, 15);
        }
        _ => panic!("expected a size mismatch"),
    }
}

#[test]
fn width_and_height() {
    let width: u32 = 5;
    let height: u32 = 10;
    let buffer = Buffer::new(width, height, RGB8::from([255, 255, 255])).unwrap();
    assert_eq!(width, buffer.width());
    assert_eq!(height, buffer.height());
}

#[test]
fn pixel() {
    let color = RGB8::from([255, 255, 255]);
    let mut buffer = Buffer::new(45, 45, color).unwrap();
    assert_eq!(*buffer.pixel(1, 1), color);
    assert_eq!(
        *buffer.pixel(1, 1),
        buffer.data[index2d_to_index(buffer.width, 1, 1)]
    );

    let color = RGB8::from([0, 0, 0]);
    *buffer.pixel_mut(0, 0) = color;
    assert_eq!(*buffer.pixel(0, 0), color);
    assert_eq!(
        *buffer.pixel(0, 0),
        buffer.data[index2d_to_index(buffer.width, 0, 0)]
    );

    let color = RGB8::from([0, 255, 0]);
    *buffer.pixel_mut(buffer.width() - 1, buffer.height() - 1) = color;
    assert_eq!(
        buffer.pixel(buffer.width() - 1, buffer.height() - 1),
        &color
    );
    assert_eq!(
        *buffer.pixel(buffer.height() - 1, buffer.height() - 1),
        buffer.data[index2d_to_index(buffer.width, buffer.width() - 1, buffer.height() - 1)]
    );
}

#[test]
fn row() {
    let buffer = Buffer::new(45, 45, RGB8::from([255, 255, 255])).unwrap();

    let row = buffer.row(0);
    assert_eq!(row.len() as u32, buffer.height());

    let row = buffer.row(buffer.height() - 1);
    assert_eq!(row.len() as u32, buffer.height());
}

#[test]
fn slice_index() {
    let width: u32 = 7;
    let height: u32 = 15;
    let capacity = width as usize * height as usize;
    let color = RGB8::from([255, 255, 255]);
    let mut buffer = Buffer::new(width, height, color).unwrap();

    assert_eq!(buffer.data[..].len(), capacity);

    let color = RGB8::from([0, 0, 255]);
    buffer.data[0] = color;
    assert_eq!(buffer.data[0], color);
}

#[test]
fn rgb_raw() {
    type T = u8;
    let width: u32 = 200;
    let height: u32 = 200;
    let color: u8 = 0;
    let canals = std::mem::size_of::<RGB<T>>();
    assert_eq!(canals, 3);

    let buff: Buffer<RGB<T>> =
        Buffer::new(width, height, RGB8::from([color, color, color])).unwrap();

    let raw: Vec<T> = buff.raw();
    assert_eq!(raw.len(), width as usize * height as usize * canals);

    for x in &raw {
        assert!((*x) == color);
    }
}

#[test]
fn rgb_raw_into_vec() {
    type T = f64;
    let width: u32 = 121;
    let height: u32 = 121;
    let color = 0_f64;
    let canals: usize = 3;

    let buff: Buffer<RGB<T>> =
        Buffer::new(width, height, RGB::from([color, color, color])).unwrap();

    let raw: Vec<T> = buff.raw_into_vec();
    assert_eq!(raw.len(), width as usize * height as usize * canals);

    for x in raw {
        assert!(x == color);
    }
}

#[test]
fn raw_reconstructs_pixels() {
    let pixels = vec![
        RGB8::from([1, 2, 3]),
        RGB8::from([4, 5, 6]),
        RGB8::from([7, 8, 9]),
        RGB8::from([10, 11, 12]),
    ];
    let buffer = Buffer::from_vec(2, 2, pixels.clone()).unwrap();
    let raw = buffer.raw();
    assert_eq!(raw.len(), 12);
    for (p, px) in pixels.iter().enumerate() {
        let rebuilt = RGB8::from([raw[3 * p], raw[3 * p + 1], raw[3 * p + 2]]);
        assert_eq!(rebuilt, *px);
    }
    assert_eq!(raw, vec![1, 2, 3, 4, 5, 6, 7, 8, 9, 10, 11, 12]);
}
