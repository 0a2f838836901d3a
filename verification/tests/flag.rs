use beul::Flag;

#[test]
fn new_flag_is_down() {
    let mut flag = Flag::new();
    assert!(!flag.raised);
    assert!(!flag.take());
    assert!(!flag.raised);
}

#[test]
fn raised_flag_is_taken_once() {
    let mut flag = Flag::new();
    flag.raise();
    assert!(flag.raised);
    assert!(flag.take());
    assert!(!flag.raised);
    assert!(!flag.take());
}

#[test]
fn requests_before_one_take_count_as_one() {
    let mut flag = Flag::new();
    flag.raise();
    flag.raise();
    flag.raise();
    assert!(flag.take());
    assert!(!flag.take());
}

#[test]
fn request_after_a_take_is_kept_for_the_next() {
    let mut flag = Flag::new();
    flag.raise();
    assert!(flag.take());
    flag.raise();
    assert!(flag.raised);
    assert!(flag.take());
    assert!(!flag.take());
}
