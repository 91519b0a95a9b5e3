use composition_session::geometry::Point;
use composition_session::geometry::client_to_screen;
use composition_session::geometry::screen_to_client;

#[test]
fn transform_is_offset_subtraction() {
    let p = Point { x: 150, y: 150 };
    let origin = Point { x: 50, y: 50 };
    let c = screen_to_client(p, origin);
    assert_eq!(c, Point { x: 100, y: 100 });
}

#[test]
fn transform_zero_origin_is_identity() {
    let p = Point { x: 12345, y: -6789 };
    let origin = Point { x: 0, y: 0 };
    assert_eq!(screen_to_client(p, origin), p);
}

#[test]
fn transform_negative_deltas_exact() {
    let p = Point { x: 10, y: 10 };
    let origin = Point { x: 50, y: 70 };
    assert_eq!(screen_to_client(p, origin), Point { x: -40, y: -60 });
}

#[test]
fn transform_boundary_values() {
    let p = Point { x: -32768, y: 32767 };
    let origin = Point { x: 32767, y: -32768 };
    assert_eq!(screen_to_client(p, origin), Point { x: -65535, y: 65535 });
}

#[test]
fn transform_roundtrip() {
    let p = Point { x: -321, y: 7 };
    let origin = Point { x: 44, y: -99 };
    let c = screen_to_client(p, origin);
    assert_eq!(client_to_screen(c, origin), p);
}
