use worker_pool::basics::{add_four, add_two, greeting, internal_adder, Guess};
use worker_pool::rectangle::{area, area2, Rectangle};

#[test]
fn larger_can_hold_smaller() {
    let larger = Rectangle { width: 8, height: 7 };
    let smaller = Rectangle { width: 5, height: 1 };

    assert!(larger.can_hold(&smaller));
}

#[test]
fn smaller_cannot_hold_larger() {
    let larger = Rectangle { width: 8, height: 7 };
    let smaller = Rectangle { width: 5, height: 1 };

    assert!(!smaller.can_hold(&larger));
}

#[test]
fn it_adds_two() {
    assert_eq!(4, add_two(2));
}

#[test]
fn greeting_contains_name() {
    let result = greeting("Carol");
    assert!(result.contains("Carol"));
}

#[test]
fn unit_test_sample() {
    assert_eq!(2 + 2, 4);
}

#[test]
fn it_works() -> Result<(), String> {
    if 2 + 2 == 4 {
        Ok(())
    } else {
        Err(String::from("two plus two does not equal four"))
    }
}

#[test]
fn internal() {
    assert_eq!(4, internal_adder(2, 2));
}

#[test]
fn greeting_is_exact() {
    assert_eq!(greeting("Carol"), "Hello Carol!");
    assert_eq!(greeting(""), "Hello !");
}

#[test]
fn add_four_adds_four() {
    assert_eq!(add_four(3), 7);
    assert_eq!(add_four(-4), 0);
}

#[test]
fn guess_accepts_bounds() {
    Guess::new(1);
    Guess::new(100);
    Guess::new(50);
}

#[test]
fn rectangle_areas() {
    let rect = Rectangle { width: 30, height: 50 };
    assert_eq!(rect.area(), 1500);
    assert_eq!(area((30, 50)), 1500);
    assert_eq!(area2(&rect), 1500);
    let sq = Rectangle::square(3);
    assert_eq!(sq.width, 3);
    assert_eq!(sq.height, 3);
    assert_eq!(sq.area(), 9);
}

#[test]
fn equal_rectangles_cannot_hold_each_other() {
    let a = Rectangle { width: 4, height: 4 };
    let b = Rectangle { width: 4, height: 4 };
    assert!(!a.can_hold(&b));
    assert!(!b.can_hold(&a));
}
