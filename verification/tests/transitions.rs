use one_or_both::{HasBoth, HasLeft, HasRight, Nothing, OneOrBoth};

#[test]
fn insert_left() {
    let either: OneOrBoth<&str, &str> = OneOrBoth::new();
    let either = either.insert_left("Left value inserted!");
    assert_eq!(either.clone().unwrap_left(), "Left value inserted!");
}

#[test]
fn insert_right() {
    let either: OneOrBoth<&str, &str> = OneOrBoth::new();
    let either = either.insert_right("Right value inserted!");
    assert_eq!(either.clone().unwrap_right(), "Right value inserted!");
}

#[test]
fn insert_both_at_once() {
    let either: OneOrBoth<&str, &str> = OneOrBoth::new();
    let either = either.insert_both("Left value inserted!", "Right value inserted!");
    assert_eq!(either.clone().unwrap_left(), "Left value inserted!");
    assert_eq!(either.clone().unwrap_right(), "Right value inserted!");
    assert_eq!(
        either.clone().unwrap_both(),
        ("Left value inserted!", "Right value inserted!")
    );
}

#[test]
fn insert_both_with_separate_methods() {
    let either: OneOrBoth<&str, &str> = OneOrBoth::new();
    let either = either.insert_left("Left value inserted!");
    let either = either.insert_right("Right value inserted!");
    assert_eq!(either.clone().unwrap_left(), "Left value inserted!");
    assert_eq!(either.clone().unwrap_right(), "Right value inserted!");
    assert_eq!(
        either.clone().unwrap_both(),
        ("Left value inserted!", "Right value inserted!")
    );
}

#[test]
fn owned_left_value_round_trips() {
    let pair: OneOrBoth<String, String> = OneOrBoth::new();
    let pair = pair.insert_left(String::from("Left value inserted!"));
    assert_eq!(pair.unwrap_left(), String::from("Left value inserted!"));
}

#[test]
fn owned_right_value_round_trips() {
    let pair: OneOrBoth<String, String> = OneOrBoth::new();
    let pair = pair.insert_right(String::from("Right value inserted!"));
    assert_eq!(pair.unwrap_right(), String::from("Right value inserted!"));
}

#[test]
fn owned_values_inserted_together_round_trip() {
    let pair: OneOrBoth<String, String> = OneOrBoth::new();
    let pair = pair.insert_both(
        String::from("Left value inserted!"),
        String::from("Right value inserted!"),
    );
    assert_eq!(
        pair.unwrap_both(),
        (
            String::from("Left value inserted!"),
            String::from("Right value inserted!")
        )
    );
}

#[test]
fn right_then_left_reaches_both() {
    let pair: OneOrBoth<u32, char> = OneOrBoth::new();
    let pair: OneOrBoth<u32, char, HasRight> = pair.insert_right('r');
    let pair: OneOrBoth<u32, char, HasBoth> = pair.insert_left(7);
    assert_eq!(pair.clone().unwrap_left(), 7);
    assert_eq!(pair.clone().unwrap_right(), 'r');
    assert_eq!(pair.unwrap_both(), (7, 'r'));
}

#[test]
fn insertion_order_does_not_change_the_contents() {
    let at_once = OneOrBoth::<u8, Vec<u8>>::new().insert_both(1, vec![2, 3]);
    let left_first = OneOrBoth::<u8, Vec<u8>>::new()
        .insert_left(1)
        .insert_right(vec![2, 3]);
    let right_first = OneOrBoth::<u8, Vec<u8>>::new()
        .insert_right(vec![2, 3])
        .insert_left(1);
    let expected = (1, vec![2, 3]);
    assert_eq!(at_once.unwrap_both(), expected);
    assert_eq!(left_first.unwrap_both(), expected);
    assert_eq!(right_first.unwrap_both(), expected);
}

#[test]
fn left_and_right_of_different_types_keep_their_sides() {
    let pair = OneOrBoth::<i64, bool>::new().insert_both(-5, true);
    let (left, right) = pair.unwrap_both();
    assert_eq!(left, -5);
    assert!(right);
}

#[test]
fn reading_one_side_of_a_clone_leaves_the_other_side_readable() {
    let pair = OneOrBoth::<String, u16>::new().insert_both(String::from("kept"), 9);
    let left = pair.clone().unwrap_left();
    let right = pair.clone().unwrap_right();
    assert_eq!(left, "kept");
    assert_eq!(right, 9);
    assert_eq!(pair.unwrap_both(), (String::from("kept"), 9));
}

#[test]
fn clone_keeps_state_and_value() {
    let left_only: OneOrBoth<Vec<u8>, u8, HasLeft> = OneOrBoth::new().insert_left(vec![1, 2]);
    let copy: OneOrBoth<Vec<u8>, u8, HasLeft> = left_only.clone();
    assert_eq!(copy.insert_right(3).unwrap_both(), (vec![1, 2], 3));
    assert_eq!(left_only.unwrap_left(), vec![1, 2]);
}

#[test]
fn empty_container_can_be_cloned_and_filled_independently() {
    let empty: OneOrBoth<u8, u8, Nothing> = OneOrBoth::new();
    let other = empty.clone();
    assert_eq!(empty.insert_left(1).unwrap_left(), 1);
    assert_eq!(other.insert_right(2).unwrap_right(), 2);
}

#[test]
fn debug_output_names_the_container() {
    let pair = OneOrBoth::<u8, u8>::new().insert_left(4);
    assert!(format!("{:?}", pair).contains("OneOrBoth"));
}
