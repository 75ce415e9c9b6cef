use cocoa::appkit::{
    NSAlignAllEdgesInward, NSAlignAllEdgesNearest, NSAlignAllEdgesOutward, NSAlignMaxXInward,
    NSAlignMaxYInward, NSAlignMinXInward, NSAlignMinYInward, NSAlignRectFlipped,
    NSAlignmentOptions, NSAlphaShiftKeyMask, NSAlternateKeyMask, NSAnyEventMask,
    NSCommandKeyMask, NSControlKeyMask, NSDeviceIndependentModifierFlagsMask, NSEventMask,
    NSEventMaskPressure, NSEventModifierFlags, NSEventPhase, NSEventPhaseBegan,
    NSEventPhaseMayBegin, NSEventPhaseNone, NSEventSwipeTrackingClampGestureAmount,
    NSEventSwipeTrackingLockDirection, NSEventSwipeTrackingOptions, NSEventType,
    NSFunctionKeyMask, NSKeyDownMask, NSKeyUpMask, NSLeftMouseDownMask, NSMainMenuWindowLevel,
    NSShiftKeyMask, NSTouchPhase, NSTouchPhaseAny, NSTouchPhaseBegan, NSTouchPhaseMoved,
    NSTouchPhaseStationary, NSTouchPhaseTouching, NSUpArrowFunctionKey, NSModeSwitchFunctionKey,
    NSF35FunctionKey, NSWindowAbove, NSWindowBelow, NSWindowCollectionBehavior,
    NSWindowCollectionBehaviorDefault, NSWindowCollectionBehaviorFullScreenAuxiliary,
    NSWindowCollectionBehaviorManaged, NSWindowOcclusionState, NSWindowOcclusionStateVisible,
    NSWindowOrderingMode, NSWindowOut,
};
use cocoa::flags::Flags;
use std::marker::PhantomData;

#[test]
fn from_type_sets_the_bit_with_the_number_of_the_kind() {
    assert_eq!(NSEventMask::from_type(NSEventType::NSLeftMouseDown).bits(), 1 << 1);
    assert_eq!(NSEventMask::from_type(NSEventType::NSKeyDown).bits(), 1 << 10);
    assert_eq!(NSEventMask::from_type(NSEventType::NSCursorUpdate).bits(), 1 << 17);
    assert_eq!(NSEventMask::from_type(NSEventType::NSEventTypeRotate).bits(), 1 << 18);
    assert_eq!(NSEventMask::from_type(NSEventType::NSScrollWheel).bits(), 1 << 22);
    assert_eq!(NSEventMask::from_type(NSEventType::NSEventTypeSwipe).bits(), 1 << 31);
    assert_eq!(NSEventMask::from_type(NSEventType::NSEventTypePressure).bits(), 1 << 34);
}

#[test]
fn from_type_agrees_with_the_named_masks() {
    assert_eq!(NSEventMask::from_type(NSEventType::NSLeftMouseDown).bits(), NSLeftMouseDownMask);
    assert_eq!(NSEventMask::from_type(NSEventType::NSKeyDown).bits(), NSKeyDownMask);
    assert_eq!(NSEventMask::from_type(NSEventType::NSKeyUp).bits(), NSKeyUpMask);
    assert_eq!(
        NSEventMask::from_type(NSEventType::NSEventTypePressure).bits(),
        NSEventMaskPressure
    );
}

#[test]
fn from_type_makes_a_set_of_one_named_flag_for_every_kind() {
    for raw in 0..64 {
        if let Some(ty) = NSEventType::from_raw(raw) {
            let mask = NSEventMask::from_type(ty);
            assert_eq!(mask.bits().count_ones(), 1);
            assert_eq!(mask.bits().trailing_zeros() as u64, raw);
            assert!(NSEventMask::all().contains(&mask));
            assert_eq!(NSEventMask::from_bits(mask.bits()), Some(mask));
        }
    }
}

#[test]
fn event_masks_have_the_bits_of_the_framework() {
    assert_eq!(NSLeftMouseDownMask, 2);
    assert_eq!(NSKeyDownMask, 1024);
    assert_eq!(NSKeyUpMask, 2048);
    assert_eq!(NSEventMaskPressure, 0x4_0000_0000);
    assert_eq!(NSAnyEventMask, 0xffff_ffff);
    assert_eq!(NSEventMask::all().bits(), 0x4_ffff_ffff);
}

#[test]
fn modifier_flags_have_the_bits_of_the_framework() {
    assert_eq!(NSAlphaShiftKeyMask, 1 << 16);
    assert_eq!(NSShiftKeyMask, 1 << 17);
    assert_eq!(NSControlKeyMask, 1 << 18);
    assert_eq!(NSAlternateKeyMask, 1 << 19);
    assert_eq!(NSCommandKeyMask, 1 << 20);
    assert_eq!(NSFunctionKeyMask, 1 << 23);
    assert_eq!(NSDeviceIndependentModifierFlagsMask, 0xffff_0000);
    assert_eq!(NSEventModifierFlags::all().bits(), 0xffff_0000);
}

#[test]
fn alignment_options_have_the_bits_of_the_framework() {
    assert_eq!(NSAlignMinXInward, 1);
    assert_eq!(NSAlignRectFlipped, 1 << 63);
    assert_eq!(
        NSAlignAllEdgesInward,
        NSAlignMinXInward | NSAlignMaxXInward | NSAlignMinYInward | NSAlignMaxYInward
    );
    assert_eq!(NSAlignAllEdgesInward, 0xf);
    assert_eq!(NSAlignAllEdgesOutward, 0xf00);
    assert_eq!(NSAlignAllEdgesNearest, 0xf_0000);
    assert_eq!(NSAlignmentOptions::all().bits(), 0x8000_0000_003f_3f3f);
}

#[test]
fn other_flags_have_the_bits_of_the_framework() {
    assert_eq!(NSWindowCollectionBehaviorDefault, 0);
    assert_eq!(NSWindowCollectionBehaviorManaged, 4);
    assert_eq!(NSWindowCollectionBehaviorFullScreenAuxiliary, 256);
    assert_eq!(NSWindowCollectionBehavior::all().bits(), 0x1ff);
    assert_eq!(NSWindowOcclusionStateVisible, 2);
    assert_eq!(NSWindowOcclusionState::all().bits(), 2);
    assert_eq!(NSEventSwipeTrackingLockDirection, 1);
    assert_eq!(NSEventSwipeTrackingClampGestureAmount, 2);
    assert_eq!(NSEventSwipeTrackingOptions::all().bits(), 3);
    assert_eq!(NSEventPhaseNone, 0);
    assert_eq!(NSEventPhaseBegan, 1);
    assert_eq!(NSEventPhaseMayBegin, 32);
    assert_eq!(NSEventPhase::all().bits(), 0x3f);
    assert_eq!(NSTouchPhaseTouching, NSTouchPhaseBegan | NSTouchPhaseMoved | NSTouchPhaseStationary);
    assert_eq!(NSTouchPhaseTouching, 7);
    assert_eq!(NSTouchPhaseAny, u64::MAX);
    assert_eq!(NSTouchPhase::all().bits(), u64::MAX);
}

#[test]
fn ordering_modes_have_the_numbers_of_the_framework() {
    assert_eq!(NSWindowAbove, 1);
    assert_eq!(NSWindowBelow, -1);
    assert_eq!(NSWindowOut, 0);
    assert_eq!(NSWindowOrderingMode { bits: NSWindowBelow }.bits(), -1);
}

#[test]
fn function_keys_and_levels_have_the_numbers_of_the_framework() {
    assert_eq!(NSUpArrowFunctionKey, 0xF700);
    assert_eq!(NSF35FunctionKey, 0xF726);
    assert_eq!(NSModeSwitchFunctionKey, 0xF747);
    assert_eq!(NSMainMenuWindowLevel, 24);
}

#[test]
fn empty_set_has_no_flag() {
    let none = NSEventModifierFlags::empty();
    assert_eq!(none.bits(), 0);
    assert!(none.is_empty());
    assert!(!none.is_all());
    assert!(!none.intersects(&NSEventModifierFlags::all()));
    assert!(NSEventModifierFlags::all().contains(&none));
}

#[test]
fn set_of_every_named_flag_is_all() {
    let all = NSEventPhase::all();
    assert!(all.is_all());
    assert!(!all.is_empty());
    assert_eq!((!all).bits(), 0);
}

#[test]
fn from_bits_refuses_a_bit_without_a_name() {
    assert_eq!(NSEventPhase::from_bits(0x40), None);
    assert_eq!(NSEventPhase::from_bits(0x41), None);
    assert_eq!(NSEventModifierFlags::from_bits(0x100), None);
    assert_eq!(NSWindowOcclusionState::from_bits(1), None);
    assert_eq!(NSEventMask::from_bits(1 << 32), None);
}

#[test]
fn from_bits_takes_named_bits_as_they_are() {
    let shift_command = NSEventModifierFlags::from_bits(NSShiftKeyMask | NSCommandKeyMask).unwrap();
    assert_eq!(shift_command.bits(), 0x12_0000);
    assert_eq!(NSEventPhase::from_bits(0).unwrap().bits(), 0);
    assert_eq!(NSTouchPhase::from_bits(0x1234_5678_9abc_def0).unwrap().bits(), 0x1234_5678_9abc_def0);
}

#[test]
fn from_bits_truncate_drops_the_bits_without_a_name() {
    assert_eq!(NSEventModifierFlags::from_bits_truncate(0x12_0104).bits(), 0x12_0000);
    assert_eq!(NSEventPhase::from_bits_truncate(u64::MAX).bits(), 0x3f);
    assert_eq!(NSWindowOcclusionState::from_bits_truncate(3).bits(), 2);
}

#[test]
fn from_bits_retain_keeps_every_bit() {
    let flags = NSEventModifierFlags::from_bits_retain(0x12_0104);
    assert_eq!(flags.bits(), 0x12_0104);
    assert_eq!(flags, Flags { bits: 0x12_0104, kind: PhantomData });
}

#[test]
fn contains_and_intersects_compare_the_flags() {
    let shift = NSEventModifierFlags::from_bits_truncate(NSShiftKeyMask);
    let command = NSEventModifierFlags::from_bits_truncate(NSCommandKeyMask);
    let both = shift | command;
    assert!(both.contains(&shift));
    assert!(both.contains(&command));
    assert!(both.contains(&both));
    assert!(!shift.contains(&both));
    assert!(!shift.contains(&command));
    assert!(both.intersects(&shift));
    assert!(!shift.intersects(&command));
}

#[test]
fn insert_remove_and_toggle_change_the_set() {
    let mut flags = NSEventModifierFlags::from_bits_truncate(NSShiftKeyMask);
    flags.insert(&NSEventModifierFlags::from_bits_truncate(NSControlKeyMask | NSCommandKeyMask));
    assert_eq!(flags.bits(), NSShiftKeyMask | NSControlKeyMask | NSCommandKeyMask);
    flags.remove(&NSEventModifierFlags::from_bits_truncate(NSShiftKeyMask | NSAlternateKeyMask));
    assert_eq!(flags.bits(), NSControlKeyMask | NSCommandKeyMask);
    flags.toggle(&NSEventModifierFlags::from_bits_truncate(NSCommandKeyMask | NSFunctionKeyMask));
    assert_eq!(flags.bits(), NSControlKeyMask | NSFunctionKeyMask);
}

#[test]
fn operators_combine_the_sets() {
    let a = NSEventPhase::from_bits_truncate(0b0_0111);
    let b = NSEventPhase::from_bits_truncate(0b1_1100);
    assert_eq!((a | b).bits(), 0b1_1111);
    assert_eq!((a & b).bits(), 0b0_0100);
    assert_eq!((a ^ b).bits(), 0b1_1011);
    assert_eq!((a - b).bits(), 0b0_0011);
    assert_eq!((!a).bits(), 0b11_1000);
}

#[test]
fn complement_leaves_out_the_bits_without_a_name() {
    let odd = NSEventModifierFlags::from_bits_retain(NSShiftKeyMask | 0x104);
    assert_eq!((!odd).bits(), 0xffff_0000 & !NSShiftKeyMask);
}

#[test]
fn a_copy_is_the_same_set() {
    let a = NSEventMask::from_type(NSEventType::NSKeyDown);
    let b = a;
    let c = a.clone();
    assert_eq!(a, b);
    assert_eq!(a, c);
}
