use pixelgrid::{BGR, BGR8, RGB, RGB8};
use std::ops::{Add, Div, Mul};

#[test]
fn bgr8_from_rgb8() {
    let bgr = BGR8::from_rgb8(RGB8::from([255, 0, 0]));
    assert_eq!(bgr, BGR8::from([0, 0, 255]));

    let bgr = BGR8::from_rgb8(RGB8::from([0, 255, 255]));
    assert_eq!(bgr, BGR8::from([255, 255, 0]));

    let bgr = BGR8::from_rgb8(RGB8::from([255, 0, 255]));
    assert_eq!(bgr, BGR8::from([255, 0, 255]));
}

#[test]
fn rgb8_from_bgr8() {
    let rgb = RGB8::from_bgr8(BGR8::from([255, 0, 0]));
    assert_eq!(rgb, RGB8::from([0, 0, 255]));

    let rgb = RGB8::from_bgr8(BGR8::from([0, 255, 255]));
    assert_eq!(rgb, RGB8::from([255, 255, 0]));

    let rgb = RGB8::from_bgr8(BGR8::from([255, 0, 255]));
    assert_eq!(rgb, RGB8::from([255, 0, 255]));
}

#[test]
fn partial_eq() {
    let rgb1 = RGB::from([1.0, 1.0, 1.0]);
    let rgb2 = RGB::from([1.0, 1.0, 1.0]);
    assert_eq!(rgb1, rgb2);
    let rgb2 = RGB::from([0.0, 1.0, 1.0]);
    assert_ne!(rgb1, rgb2);
    let rgb2 = RGB::from([1.0, 0.0, 1.0]);
    assert_ne!(rgb1, rgb2);
    let rgb2 = RGB::from([1.0, 1.0, 0.0]);
    assert_ne!(rgb1, rgb2);
    let rgb2 = RGB::from([0.0, 0.0, 0.0]);
    assert_ne!(rgb1, rgb2);
}

#[test]
fn mod_partial_eq() {
    let bgr1 = BGR::from([1.0, 1.0, 1.0]);
    let bgr2 = BGR::from([1.0, 1.0, 1.0]);
    assert_eq!(bgr1, bgr2);
    let bgr2 = BGR::from([0.0, 1.0, 1.0]);
    assert_ne!(bgr1, bgr2);
    let bgr2 = BGR::from([1.0, 0.0, 1.0]);
    assert_ne!(bgr1, bgr2);
    let bgr2 = BGR::from([1.0, 1.0, 0.0]);
    assert_ne!(bgr1, bgr2);
    let bgr2 = BGR::from([0.0, 0.0, 0.0]);
    assert_ne!(bgr1, bgr2);
}

#[test]
fn add() {
    let rgb: RGB<i32> = RGB { r: 0, g: 0, b: 0 };
    let rth: RGB<i32> = RGB { r: 0, g: 0, b: 0 };
    assert_eq!(rgb.add(rth), RGB { r: 0, g: 0, b: 0 });

    let rgb: RGB<f32> = RGB {
        r: 1.0,
        g: 5.0,
        b: 0.0,
    };
    let rth: RGB<f32> = RGB {
        r: 45.0,
        g: 10.0,
        b: 17.0,
    };
    assert_eq!(
        rgb.add(rth),
        RGB {
            r: 46.0,
            g: 15.0,
            b: 17.0
        }
    );

    let rgb: RGB<u8> = RGB { r: 0, g: 0, b: 0 };
    assert_eq!(rgb.add(7), RGB { r: 7, g: 7, b: 7 });

    let rgb: RGB<u8> = RGB { r: 0, g: 2, b: 4 };
    assert_eq!(rgb.add(2), RGB { r: 2, g: 4, b: 6 });
}

#[test]
fn mul() {
    let rgb: RGB<u8> = RGB { r: 0, g: 0, b: 0 };
    let rth: RGB<u8> = RGB { r: 0, g: 0, b: 0 };
    assert_eq!(rgb.mul(rth), RGB { r: 0, g: 0, b: 0 });

    let rgb: RGB<u8> = RGB { r: 1, g: 5, b: 0 };
    let rth: RGB<u8> = RGB {
        r: 45,
        g: 10,
        b: 17,
    };
    assert_eq!(rgb.mul(rth), RGB { r: 45, g: 50, b: 0 });

    let rgb: RGB<f64> = RGB {
        r: 1.0,
        g: 5.0,
        b: 0.0,
    };
    let rth: RGB<f64> = RGB {
        r: 45.0,
        g: 10.0,
        b: 17.0,
    };
    assert_eq!(
        rgb.mul(rth),
        RGB {
            r: 45.0,
            g: 50.0,
            b: 0.0
        }
    );

    let rgb: RGB<u8> = RGB { r: 0, g: 0, b: 0 };
    assert_eq!(rgb.mul(7), RGB { r: 0, g: 0, b: 0 });

    let rgb: RGB<u8> = RGB { r: 0, g: 2, b: 4 };
    assert_eq!(rgb.mul(2), RGB { r: 0, g: 4, b: 8 });
}

#[test]
fn div() {
    let rgb: RGB<i32> = RGB { r: 0, g: 0, b: 0 };
    let rth: RGB<i32> = RGB { r: 8, g: 4, b: 4 };
    assert_eq!(rgb.div(rth), RGB { r: 0, g: 0, b: 0 });

    let rgb: RGB<f32> = RGB {
        r: 6.0,
        g: 4.0,
        b: 3.0,
    };
    let rth: RGB<f32> = RGB {
        r: 2.0,
        g: 4.0,
        b: 2.0,
    };
    assert_eq!(
        rgb.div(rth),
        RGB {
            r: 3.0,
            g: 1.0,
            b: 1.5
        }
    );

    let rgb: RGB<u8> = RGB {
        r: 19,
        g: 20,
        b: 44,
    };
    assert_eq!(rgb.div(2), RGB { r: 9, g: 10, b: 22 });

    let rgb: RGB<u8> = RGB { r: 10, g: 25, b: 5 };
    assert_eq!(rgb.div(5), RGB { r: 2, g: 5, b: 1 });
}
