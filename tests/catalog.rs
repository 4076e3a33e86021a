use classes::{Classes, OutOfRange, Rgb, CLASS_COUNT};
use eframe::egui::Key;

const ALL: [Classes; 4] = [Classes::Ball, Classes::Robot, Classes::GoalPost, Classes::PenaltySpot];

#[test]
fn list_has_each_class_once_in_order() {
    let list = Classes::list();
    assert_eq!(list.len(), CLASS_COUNT);
    assert_eq!(list, ALL.to_vec());
    for c in ALL {
        assert_eq!(list.iter().filter(|&&x| x == c).count(), 1);
    }
    assert_eq!(Classes::list(), list);
}

#[test]
fn code_then_class_round_trip() {
    for c in ALL {
        assert_eq!(Classes::from_code(c.code()), Ok(c));
    }
}

#[test]
fn class_then_code_round_trip() {
    for k in 0..CLASS_COUNT {
        assert_eq!(Classes::from_code(k).unwrap().code(), k);
    }
}

#[test]
fn from_code_rejects_out_of_range() {
    assert_eq!(Classes::from_code(4), Err(OutOfRange { code: 4 }));
    assert_eq!(Classes::from_code(9), Err(OutOfRange { code: 9 }));
    assert_eq!(Classes::from_code(usize::MAX), Err(OutOfRange { code: usize::MAX }));
}

#[test]
fn usize_from_class_is_its_code() {
    assert_eq!(usize::from(&Classes::Ball), 0);
    assert_eq!(usize::from(&Classes::Robot), 1);
    assert_eq!(usize::from(&Classes::GoalPost), 2);
    assert_eq!(usize::from(&Classes::PenaltySpot), 3);
}

#[test]
fn next_and_previous_are_inverse() {
    for c in ALL {
        assert_eq!(Classes::next(&Classes::previous(&c)), c);
        assert_eq!(Classes::previous(&Classes::next(&c)), c);
    }
}

#[test]
fn next_and_previous_step_in_canonical_order() {
    assert_eq!(Classes::next(&Classes::Ball), Classes::Robot);
    assert_eq!(Classes::next(&Classes::Robot), Classes::GoalPost);
    assert_eq!(Classes::next(&Classes::GoalPost), Classes::PenaltySpot);
    assert_eq!(Classes::previous(&Classes::GoalPost), Classes::Robot);
}

#[test]
fn full_cycle_returns_to_start() {
    for c in ALL {
        let mut forward = c;
        let mut backward = c;
        for _ in 0..CLASS_COUNT {
            forward = Classes::next(&forward);
            backward = Classes::previous(&backward);
        }
        assert_eq!(forward, c);
        assert_eq!(backward, c);
    }
}

#[test]
fn hotkeys_select_the_first_four_classes() {
    assert_eq!(Classes::from_key(Key::Num1), Some(Classes::Ball));
    assert_eq!(Classes::from_key(Key::Num2), Some(Classes::Robot));
    assert_eq!(Classes::from_key(Key::Num3), Some(Classes::GoalPost));
    assert_eq!(Classes::from_key(Key::Num4), Some(Classes::PenaltySpot));
}

#[test]
fn other_keys_select_nothing() {
    for key in [Key::Num0, Key::Num5, Key::Num9, Key::A, Key::Space, Key::Escape] {
        assert_eq!(Classes::from_key(key), None);
    }
}

#[test]
fn base_colors_are_the_named_palette() {
    assert_eq!(Classes::Ball.base_color(), Rgb { r: 255, g: 128, b: 128 });
    assert_eq!(Classes::Robot.base_color(), Rgb { r: 0, g: 0, b: 255 });
    assert_eq!(Classes::GoalPost.base_color(), Rgb { r: 0x8B, g: 0, b: 0 });
    assert_eq!(Classes::PenaltySpot.base_color(), Rgb { r: 255, g: 215, b: 0 });
}

#[test]
fn base_colors_are_distinct_and_stable() {
    for c1 in ALL {
        assert_eq!(c1.base_color(), c1.base_color());
        for c2 in ALL {
            if c1 != c2 {
                assert_ne!(c1.base_color(), c2.base_color());
            }
        }
    }
}

#[test]
fn canonical_scenario() {
    assert_eq!(Classes::list(), vec![Classes::Ball, Classes::Robot, Classes::GoalPost, Classes::PenaltySpot]);
    assert_eq!(Classes::Ball.code(), 0);
    assert_eq!(Classes::PenaltySpot.code(), 3);
    assert_eq!(Classes::next(&Classes::PenaltySpot), Classes::Ball);
    assert_eq!(Classes::previous(&Classes::Ball), Classes::PenaltySpot);
    assert_eq!(Classes::from_key(Key::Num2), Some(Classes::Robot));
    assert_eq!(Classes::from_key(Key::Num9), None);
}
