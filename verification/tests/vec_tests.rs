use lift::vec::{Origin, Vec2};

#[test]
fn vec2_new_and_accessors() {
    let v = Vec2::new(3i32, -4i32);
    assert_eq!(v.x, 3);
    assert_eq!(v.y, -4);
    assert_eq!(v.to_array(), [3, -4]);
    let w = v.with_x(10);
    assert_eq!((w.x, w.y), (10, -4));
    let u = v.with_y(7);
    assert_eq!((u.x, u.y), (3, 7));
}

#[test]
fn vec2_component_arithmetic() {
    let v = Vec2::new(3i32, -4i32);
    let a = v.add_x(2);
    assert_eq!((a.x, a.y), (5, -4));
    let b = v.add_y(6);
    assert_eq!((b.x, b.y), (3, 2));
    let c = v.mul_x(-2);
    assert_eq!((c.x, c.y), (-6, -4));
    let d = v.mul_y(3);
    assert_eq!((d.x, d.y), (3, -12));
    let e = v.scale(5);
    assert_eq!((e.x, e.y), (15, -20));
}

#[test]
fn vec2_operators() {
    let a = Vec2::new(6i32, 8i32);
    let b = Vec2::new(2i32, -4i32);
    let s = a + b;
    assert_eq!((s.x, s.y), (8, 4));
    let d = a - b;
    assert_eq!((d.x, d.y), (4, 12));
    let m = a * b;
    assert_eq!((m.x, m.y), (12, -32));
    let q = a / b;
    assert_eq!((q.x, q.y), (3, -2));
}

#[test]
fn vec2_unit_directions() {
    let z: Vec2<i32> = Vec2::zeros();
    assert_eq!((z.x, z.y), (0, 0));
    let r: Vec2<i32> = Vec2::right();
    assert_eq!((r.x, r.y), (1, 0));
    let l: Vec2<i32> = Vec2::left();
    assert_eq!((l.x, l.y), (-1, 0));
    let u: Vec2<i64> = Vec2::up();
    assert_eq!((u.x, u.y), (0, 1));
    let d: Vec2<i64> = Vec2::down();
    assert_eq!((d.x, d.y), (0, -1));
    let f: Vec2<f32> = Vec2::left();
    assert_eq!((f.x, f.y), (-1.0, 0.0));
}

#[test]
fn origin_from_every_name() {
    let cases = [
        ("Center", Origin::Center),
        ("BotCenter", Origin::BotCenter),
        ("TopCenter", Origin::TopCenter),
        ("BotLeft", Origin::BotLeft),
        ("TopLeft", Origin::TopLeft),
        ("TopRight", Origin::TopRight),
        ("RightCenter", Origin::RightCenter),
        ("LeftCenter", Origin::LeftCenter),
    ];
    for (name, origin) in cases.iter() {
        assert_eq!(Origin::from_str(name), *origin);
    }
}

#[test]
fn origin_default_is_center() {
    assert_eq!(Origin::default(), Origin::Center);
}
