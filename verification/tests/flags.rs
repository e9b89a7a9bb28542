use string_param::flags::ParamFlag;
use string_param::flags::ParamFlags;

#[test]
fn empty_set_has_no_flag() {
    let flags = ParamFlags::empty();
    assert!(!flags.contains(ParamFlag::NonAutomatable));
    assert!(!flags.contains(ParamFlag::Hidden));
    assert!(!flags.contains(ParamFlag::HideInGenericUi));
    assert_eq!(flags.bits(), 0);
}

#[test]
fn default_set_is_empty() {
    assert_eq!(ParamFlags::default(), ParamFlags::empty());
    assert_eq!(ParamFlags::default().bits(), 0);
}

#[test]
fn each_flag_has_its_own_bit() {
    assert_eq!(ParamFlag::NonAutomatable.bit(), 1);
    assert_eq!(ParamFlag::Hidden.bit(), 2);
    assert_eq!(ParamFlag::HideInGenericUi.bit(), 4);
}

#[test]
fn insert_turns_on_one_flag_only() {
    let mut flags = ParamFlags::empty();
    flags.insert(ParamFlag::Hidden);
    assert!(flags.contains(ParamFlag::Hidden));
    assert!(!flags.contains(ParamFlag::NonAutomatable));
    assert!(!flags.contains(ParamFlag::HideInGenericUi));
    assert_eq!(flags.bits(), 2);
}

#[test]
fn insert_keeps_flags_that_were_on() {
    let mut flags = ParamFlags::empty();
    flags.insert(ParamFlag::NonAutomatable);
    flags.insert(ParamFlag::HideInGenericUi);
    assert!(flags.contains(ParamFlag::NonAutomatable));
    assert!(flags.contains(ParamFlag::HideInGenericUi));
    assert!(!flags.contains(ParamFlag::Hidden));
    assert_eq!(flags.bits(), 5);
}

#[test]
fn insert_of_a_flag_that_is_on_changes_nothing() {
    let mut once = ParamFlags::empty();
    once.insert(ParamFlag::Hidden);
    let mut twice = once;
    twice.insert(ParamFlag::Hidden);
    assert_eq!(once, twice);
    assert_eq!(twice.bits(), 2);
}

#[test]
fn union_has_the_flags_of_both() {
    let mut left = ParamFlags::empty();
    left.insert(ParamFlag::NonAutomatable);
    let mut right = ParamFlags::empty();
    right.insert(ParamFlag::Hidden);
    right.insert(ParamFlag::HideInGenericUi);
    let both = left.union(right);
    assert!(both.contains(ParamFlag::NonAutomatable));
    assert!(both.contains(ParamFlag::Hidden));
    assert!(both.contains(ParamFlag::HideInGenericUi));
    assert_eq!(both.bits(), 7);
}

#[test]
fn union_with_the_empty_set_is_the_same_set() {
    let mut flags = ParamFlags::empty();
    flags.insert(ParamFlag::HideInGenericUi);
    assert_eq!(flags.union(ParamFlags::empty()), flags);
    assert_eq!(ParamFlags::empty().union(flags), flags);
    assert_eq!(flags.union(flags), flags);
}
