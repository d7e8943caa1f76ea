use rust_basics::generics::{largest, MixedPoint, Point};
use rust_basics::pair::Pair;
use rust_basics::rectangles::{area, Rectangle};
use rust_basics::structs::{build_user, AUnitLikeStruct, Color};
use std::cmp::Ordering;

#[test]
fn rectangle_area_and_fit() {
    let r1 = Rectangle { width: 30, height: 50 };
    assert_eq!(area(&r1), 1500);
    assert_eq!(r1.area(), 1500);
    let r2 = Rectangle { width: 10, height: 40 };
    let r3 = Rectangle { width: 60, height: 45 };
    assert!(r1.can_hold(&r2));
    assert!(!r1.can_hold(&r3));
    assert!(!r1.can_hold(&r1));
}

#[test]
fn square_has_equal_sides() {
    let sq = Rectangle::square(3);
    assert_eq!(sq, Rectangle { width: 3, height: 3 });
    assert_eq!(sq.area(), 9);
}

#[test]
fn largest_of_lists() {
    assert_eq!(largest(&[34, 50, 25, 100, 65]), 100);
    assert_eq!(largest(&[102, 34, 6000, 89, 54, 2, 43, 8]), 6000);
    assert_eq!(largest(&['y', 'm', 'a', 'q']), 'y');
    assert_eq!(largest(&[-3]), -3);
}

#[test]
fn points_and_mixup() {
    let p = Point { x: 5, y: 10 };
    assert_eq!((*p.x(), *p.y()), (5, 10));
    let mp1 = MixedPoint { x: 5, y: 10.4 };
    let mp2 = MixedPoint { x: "hello", y: 'c' };
    assert_eq!(*mp1.x(), 5);
    let mp3 = mp1.mixup(mp2);
    assert_eq!(mp3.x, 5);
    assert_eq!(mp3.y, 'c');
}

#[test]
fn pair_compare() {
    assert_eq!(Pair::new(2, 1).compare(), Ordering::Greater);
    assert_eq!(Pair::new(3, 4).compare(), Ordering::Less);
    assert_eq!(Pair::new(5, 5).compare(), Ordering::Equal);
}

#[test]
fn build_user_is_active_with_one_sign_in() {
    let u = build_user(String::from("some@user.com"), String::from("someuser"));
    assert_eq!(u.email, "some@user.com");
    assert_eq!(u.username, "someuser");
    assert!(u.active);
    assert_eq!(u.sign_in_count, 1);
    let _unit = AUnitLikeStruct {};
    let black = Color(0, 0, 0);
    assert_eq!(black.0 + black.1 + black.2, 0);
}
