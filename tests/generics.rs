use rust_book::generics::{largest, longest, Point};
use rust_book::rectangle::Rectangle;

#[test]
fn largest_number() {
    let number_list = vec![34, 50, 25, 100, 65];
    assert_eq!(100, largest(&number_list));
}

#[test]
fn largest_char() {
    let char_list = vec!['y', 'm', 'a', 'q'];
    assert_eq!('y', largest(&char_list));
}

#[test]
fn largest_of_one() {
    assert_eq!(-7, largest(&[-7i64]));
}

#[test]
fn point_first_coordinate() {
    let p = Point { x: 5, y: 10 };
    assert_eq!(5, *p.x());
    assert_eq!(10, p.y);
}

#[test]
fn longest_string() {
    assert_eq!("long string is long", longest("long string is long", "xyz"));
    assert_eq!("abcd", longest("ab", "abcd"));
    assert_eq!("cd", longest("ab", "cd"));
    assert_eq!("é", longest("é", "a"));
}

#[test]
fn rectangle_area() {
    let rect = Rectangle { width: 30, height: 50 };
    assert_eq!(1500, rect.area());
    assert_eq!(0, Rectangle { width: 0, height: 9 }.area());
    assert_eq!(u32::MAX, Rectangle { width: u32::MAX, height: 1 }.area());
}
