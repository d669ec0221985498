use geom2d::intersection_line_line;
use geom2d::L;

#[test]
fn lib_intersect() {
    let a = L::new(0, 0, 10, 10);
    let b = L::new(0, 10, 10, 0);

    assert!(intersection_line_line(&a, &b))
}

#[test]
fn lib_not_intersect() {
    let a = L::new(0, 0, 0, 10);
    let b = L::new(10, 0, 10, 10);

    assert!(!intersection_line_line(&a, &b))
}

#[test]
fn lib_colinear_touching() {
    let a = L::new(0, 0, 10, 10);
    let b = L::new(10, 10, 20, 20);

    assert!(intersection_line_line(&a, &b))
}

#[test]
fn lib_colinear_overlap() {
    let a = L::new(0, 0, 10, 10);
    let b = L::new(5, 5, 20, 20);

    assert!(intersection_line_line(&a, &b))
}

#[test]
fn lib_colinear_not_touching() {
    let a = L::new(0, 0, 10, 10);
    let b = L::new(11, 11, 20, 20);

    assert!(!intersection_line_line(&a, &b))
}

#[test]
fn test_intersect() {
    let a = L::new(0, 0, 10, 10);
    let b = L::new(0, 10, 10, 0);

    assert!(intersection_line_line(&a, &b))
}

#[test]
fn test_not_intersect() {
    let a = L::new(0, 0, 0, 10);
    let b = L::new(10, 0, 10, 10);

    assert!(!intersection_line_line(&a, &b))
}

#[test]
fn test_colinear_touching() {
    let a = L::new(0, 0, 10, 10);
    let b = L::new(10, 10, 20, 20);

    assert!(intersection_line_line(&a, &b))
}

#[test]
fn test_colinear_overlap() {
    let a = L::new(0, 0, 10, 10);
    let b = L::new(5, 5, 20, 20);

    assert!(intersection_line_line(&a, &b))
}

#[test]
fn test_colinear_not_touching() {
    let a = L::new(0, 0, 10, 10);
    let b = L::new(11, 11, 20, 20);

    assert!(!intersection_line_line(&a, &b))
}

#[test]
fn intersection_is_symmetric() {
    let a = L::new(0, 0, 10, 10);
    let b = L::new(0, 10, 10, 0);
    let c = L::new(11, 11, 20, 20);

    assert_eq!(intersection_line_line(&a, &b), intersection_line_line(&b, &a));
    assert_eq!(intersection_line_line(&a, &c), intersection_line_line(&c, &a));
}

#[test]
fn touching_at_endpoint_intersects() {
    let a = L::new(0, 0, 4, 6);
    let b = L::new(4, 6, -3, 9);

    assert!(intersection_line_line(&a, &b));
}

#[test]
fn degenerate_point_on_segment() {
    let p = L::new(5, 5, 5, 5);
    let a = L::new(0, 0, 10, 10);

    assert!(intersection_line_line(&p, &a));
    assert!(intersection_line_line(&a, &p));
}

#[test]
fn degenerate_point_off_segment() {
    let p = L::new(5, 6, 5, 6);
    let a = L::new(0, 0, 10, 10);

    assert!(!intersection_line_line(&p, &a));
    assert!(!intersection_line_line(&a, &p));
}

#[test]
fn degenerate_equal_points() {
    let p = L::new(3, 4, 3, 4);
    let q = L::new(3, 4, 3, 4);

    assert!(intersection_line_line(&p, &q));
}

#[test]
fn degenerate_distinct_points() {
    let p = L::new(0, 0, 0, 0);
    let q = L::new(5, 0, 5, 0);

    assert!(!intersection_line_line(&p, &q));
}
