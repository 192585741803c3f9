use rust_generics::extremum::{extremum_of, largest_i32, EmptyInputError};
use rust_generics::point::{Point, Point2};
use rust_generics::selector::{longest, longest_announced, Sink};

#[test]
fn extremum_of_first_sample() {
    let list = vec![34, 50, 25, 100, 65];
    assert_eq!(*extremum_of(&list).unwrap(), 100);
}

#[test]
fn extremum_of_second_sample() {
    let list = vec![102, 34, 6000, 89, 52, 2, 43, 8];
    assert_eq!(*extremum_of(&list).unwrap(), 6000);
}

#[test]
fn extremum_of_empty_fails() {
    let list: Vec<i32> = Vec::new();
    assert_eq!(extremum_of(&list), Err(EmptyInputError));
}

#[test]
fn extremum_of_single_element() {
    let list = vec![-7];
    assert_eq!(*extremum_of(&list).unwrap(), -7);
}

#[test]
fn extremum_is_present_and_maximal() {
    let list = vec![7, -3, 12, 0, 11, 5];
    let r = *extremum_of(&list).unwrap();
    assert!(list.contains(&r));
    assert!(list.iter().all(|e| *e <= r));
}

#[test]
fn extremum_returns_first_of_duplicate_maxima() {
    let list = vec![5, 9, 2, 9, 9];
    let r = extremum_of(&list).unwrap();
    assert_eq!(*r, 9);
    assert!(std::ptr::eq(r, &list[1]));
}

#[test]
fn largest_i32_first_sample() {
    let list = vec![34, 50, 25, 100, 65];
    assert_eq!(*largest_i32(&list), 100);
}

#[test]
fn longest_picks_strictly_longer() {
    assert_eq!(longest("abcd", "xyz"), "abcd");
    assert_eq!(longest("xy", "abcd"), "abcd");
}

#[test]
fn longest_tie_goes_to_second() {
    assert_eq!(longest("ab", "cd"), "cd");
    assert_eq!(longest("", ""), "");
}

#[test]
fn longest_announced_emits_exactly_once() {
    let mut sink = Sink::new();
    let r = longest_announced("abcd", "xyz", "Today is someone's birthday!", &mut sink);
    assert_eq!(sink.messages().len(), 1);
    assert_eq!(sink.messages()[0], "Announcement! Today is someone's birthday!");
    assert_eq!(r, "abcd");
}

#[test]
fn longest_announced_emits_regardless_of_selection() {
    let mut sink = Sink::new();
    let tie = longest_announced("ab", "cd", "tie", &mut sink);
    assert_eq!(tie, "cd");
    let first = longest_announced("abc", "z", "first wins", &mut sink);
    assert_eq!(first, "abc");
    assert_eq!(sink.messages().len(), 2);
    assert_eq!(sink.messages()[0], "Announcement! tie");
    assert_eq!(sink.messages()[1], "Announcement! first wins");
}

#[test]
fn point_accessor_returns_first_coordinate() {
    let p = Point { _x: 5, _y: 10 };
    assert_eq!(*p.x(), 5);
}

#[test]
fn point2_holds_two_element_types() {
    let q = Point2 { _x: 5, _y: 7.2 };
    assert_eq!(q._x, 5);
    assert!(q._y > 7.0);
}
