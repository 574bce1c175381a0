//! The peak data model: constructors, center delegation, pipeline building.

use spectra::peaks::{Gauss, Lorentz, Peak, Pipeline, Shape, Skew};

#[test]
fn gauss_holds_its_parameters() {
    let g = Gauss::new(10, 20, 30);
    assert_eq!((g.x0, g.a, g.s), (10, 20, 30));
    assert_eq!(g.center(), 10);
}

#[test]
fn lorentz_holds_its_parameters() {
    let l = Lorentz::new(11, 21, 31);
    assert_eq!((l.x0, l.a, l.s), (11, 21, 31));
    assert_eq!(l.center(), 11);
}

#[test]
fn skew_delegates_center_to_the_inner_shape() {
    let g = Shape::Gauss(Gauss::new(500, 2, 3));
    let l = Shape::Lorentz(Lorentz::new(200, 2, 3));
    let left = Skew::left(g, 7);
    let right = Skew::right(l, 9);
    assert!(left.skew_left);
    assert!(!right.skew_left);
    assert_eq!(left.k, 7);
    assert_eq!(left.center(), 500);
    assert_eq!(right.center(), 200);
    assert_eq!(Peak::Skewed(left).center(), 500);
    assert_eq!(Peak::Plain(l).center(), 200);
}

#[test]
fn pipeline_keeps_order() {
    let a = Peak::Plain(Shape::Gauss(Gauss::new(1, 2, 3)));
    let b = Peak::Plain(Shape::Lorentz(Lorentz::new(4, 5, 6)));
    let mut pl = Pipeline::new();
    assert_eq!(pl.len(), 0);
    pl.push(a);
    pl.push(b);
    assert_eq!(pl.len(), 2);
    assert_eq!(pl.peak_at(0), a);
    assert_eq!(pl.peak_at(1), b);
}
