use pixelgrid::{Vec2, Vec3};

#[test]
fn vec2_min() {
    let a: Vec2<u8> = Vec2 { x: 0, y: 0 };
    let b: Vec2<u8> = Vec2 { x: 0, y: 0 };
    assert_eq!(a.min(b), Vec2 { x: 0_u8, y: 0_u8 });

    let a: Vec2<i32> = Vec2 { x: 100, y: 0 };
    let b: Vec2<i32> = Vec2 { x: 3, y: 1000 };
    assert_eq!(a.min(b), Vec2 { x: 3_i32, y: 0_i32 });
}

#[test]
fn vec2_max() {
    let a: Vec2<u8> = Vec2 { x: 0, y: 0 };
    let b: Vec2<u8> = Vec2 { x: 0, y: 0 };
    assert_eq!(a.max(b), Vec2 { x: 0_u8, y: 0_u8 });

    let a: Vec2<i32> = Vec2 { x: 100, y: 0 };
    let b: Vec2<i32> = Vec2 { x: 3, y: 54 };
    assert_eq!(a.max(b), Vec2 { x: 100, y: 54 });
}

#[test]
fn vec3_min() {
    let a: Vec3<u8> = Vec3 { x: 0, y: 0, z: 0 };
    let b: Vec3<u8> = Vec3 { x: 0, y: 0, z: 0 };
    assert_eq!(a.min(b), Vec3 { x: 0, y: 0, z: 0 });

    let a: Vec3<i32> = Vec3 { x: 100, y: 0, z: 0 };
    let b: Vec3<i32> = Vec3 { x: 3, y: 10, z: -4 };
    assert_eq!(a.min(b), Vec3 { x: 3, y: 0, z: -4 });
}

#[test]
fn vec3_max() {
    let a: Vec3<u8> = Vec3 { x: 0, y: 0, z: 0 };
    let b: Vec3<u8> = Vec3 { x: 0, y: 0, z: 0 };
    assert_eq!(a.max(b), Vec3 { x: 0, y: 0, z: 0 });

    let a: Vec3<i32> = Vec3 { x: 10, y: 0, z: 0 };
    let b: Vec3<i32> = Vec3 { x: 3, y: 10, z: -4 };
    assert_eq!(a.max(b), Vec3 { x: 10, y: 10, z: 0 });
}
