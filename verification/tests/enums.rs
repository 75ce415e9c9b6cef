use cocoa::appkit::{
    NSApplicationActivationOptions,
    NSApplicationActivationPolicy,
    NSApplicationTerminateReply,
    NSBackingStoreType,
    NSEventGestureAxis,
    NSEventSubtype,
    NSEventType,
    NSOpenGLContextParameter,
    NSOpenGLPFAOpenGLProfiles,
    NSOpenGLPixelFormatAttribute,
    NSWindowButton,
    NSWindowMask,
    NSWindowTitleVisibility,
};

#[test]
fn activation_policy_has_the_numbers_of_the_framework() {
    assert_eq!(NSApplicationActivationPolicy::NSApplicationActivationPolicyRegular.raw(), 0);
    assert_eq!(NSApplicationActivationPolicy::NSApplicationActivationPolicyAccessory.raw(), 1);
    assert_eq!(NSApplicationActivationPolicy::NSApplicationActivationPolicyERROR.raw(), -1);
}

#[test]
fn activation_options_has_the_numbers_of_the_framework() {
    assert_eq!(NSApplicationActivationOptions::NSApplicationActivateAllWindows.raw(), 1);
    assert_eq!(NSApplicationActivationOptions::NSApplicationActivateIgnoringOtherApps.raw(), 2);
}

#[test]
fn terminate_reply_has_the_numbers_of_the_framework() {
    assert_eq!(NSApplicationTerminateReply::NSTerminateCancel.raw(), 0);
    assert_eq!(NSApplicationTerminateReply::NSTerminateNow.raw(), 1);
    assert_eq!(NSApplicationTerminateReply::NSTerminateLater.raw(), 2);
}

#[test]
fn window_mask_has_the_numbers_of_the_framework() {
    assert_eq!(NSWindowMask::NSBorderlessWindowMask.raw(), 0);
    assert_eq!(NSWindowMask::NSTitledWindowMask.raw(), 1);
    assert_eq!(NSWindowMask::NSClosableWindowMask.raw(), 2);
    assert_eq!(NSWindowMask::NSMiniaturizableWindowMask.raw(), 4);
    assert_eq!(NSWindowMask::NSResizableWindowMask.raw(), 8);
    assert_eq!(NSWindowMask::NSTexturedBackgroundWindowMask.raw(), 256);
    assert_eq!(NSWindowMask::NSUnifiedTitleAndToolbarWindowMask.raw(), 4096);
    assert_eq!(NSWindowMask::NSFullScreenWindowMask.raw(), 16384);
    assert_eq!(NSWindowMask::NSFullSizeContentViewWindowMask.raw(), 32768);
}

#[test]
fn title_visibility_has_the_numbers_of_the_framework() {
    assert_eq!(NSWindowTitleVisibility::NSWindowTitleVisible.raw(), 0);
    assert_eq!(NSWindowTitleVisibility::NSWindowTitleHidden.raw(), 1);
}

#[test]
fn backing_store_type_has_the_numbers_of_the_framework() {
    assert_eq!(NSBackingStoreType::NSBackingStoreRetained.raw(), 0);
    assert_eq!(NSBackingStoreType::NSBackingStoreNonretained.raw(), 1);
    assert_eq!(NSBackingStoreType::NSBackingStoreBuffered.raw(), 2);
}

#[test]
fn pixel_format_attribute_has_the_numbers_of_the_framework() {
    assert_eq!(NSOpenGLPixelFormatAttribute::NSOpenGLPFAAllRenderers.raw(), 1);
    assert_eq!(NSOpenGLPixelFormatAttribute::NSOpenGLPFATripleBuffer.raw(), 3);
    assert_eq!(NSOpenGLPixelFormatAttribute::NSOpenGLPFADoubleBuffer.raw(), 5);
    assert_eq!(NSOpenGLPixelFormatAttribute::NSOpenGLPFAStereo.raw(), 6);
    assert_eq!(NSOpenGLPixelFormatAttribute::NSOpenGLPFAAuxBuffers.raw(), 7);
    assert_eq!(NSOpenGLPixelFormatAttribute::NSOpenGLPFAColorSize.raw(), 8);
    assert_eq!(NSOpenGLPixelFormatAttribute::NSOpenGLPFAAlphaSize.raw(), 11);
    assert_eq!(NSOpenGLPixelFormatAttribute::NSOpenGLPFADepthSize.raw(), 12);
    assert_eq!(NSOpenGLPixelFormatAttribute::NSOpenGLPFAStencilSize.raw(), 13);
    assert_eq!(NSOpenGLPixelFormatAttribute::NSOpenGLPFAAccumSize.raw(), 14);
    assert_eq!(NSOpenGLPixelFormatAttribute::NSOpenGLPFAMinimumPolicy.raw(), 51);
    assert_eq!(NSOpenGLPixelFormatAttribute::NSOpenGLPFAMaximumPolicy.raw(), 52);
    assert_eq!(NSOpenGLPixelFormatAttribute::NSOpenGLPFAOffScreen.raw(), 53);
    assert_eq!(NSOpenGLPixelFormatAttribute::NSOpenGLPFAFullScreen.raw(), 54);
    assert_eq!(NSOpenGLPixelFormatAttribute::NSOpenGLPFASampleBuffers.raw(), 55);
    assert_eq!(NSOpenGLPixelFormatAttribute::NSOpenGLPFASamples.raw(), 56);
    assert_eq!(NSOpenGLPixelFormatAttribute::NSOpenGLPFAAuxDepthStencil.raw(), 57);
    assert_eq!(NSOpenGLPixelFormatAttribute::NSOpenGLPFAColorFloat.raw(), 58);
    assert_eq!(NSOpenGLPixelFormatAttribute::NSOpenGLPFAMultisample.raw(), 59);
    assert_eq!(NSOpenGLPixelFormatAttribute::NSOpenGLPFASupersample.raw(), 60);
    assert_eq!(NSOpenGLPixelFormatAttribute::NSOpenGLPFASampleAlpha.raw(), 61);
    assert_eq!(NSOpenGLPixelFormatAttribute::NSOpenGLPFARendererID.raw(), 70);
    assert_eq!(NSOpenGLPixelFormatAttribute::NSOpenGLPFASingleRenderer.raw(), 71);
    assert_eq!(NSOpenGLPixelFormatAttribute::NSOpenGLPFANoRecovery.raw(), 72);
    assert_eq!(NSOpenGLPixelFormatAttribute::NSOpenGLPFAAccelerated.raw(), 73);
    assert_eq!(NSOpenGLPixelFormatAttribute::NSOpenGLPFAClosestPolicy.raw(), 74);
    assert_eq!(NSOpenGLPixelFormatAttribute::NSOpenGLPFARobust.raw(), 75);
    assert_eq!(NSOpenGLPixelFormatAttribute::NSOpenGLPFABackingStore.raw(), 76);
    assert_eq!(NSOpenGLPixelFormatAttribute::NSOpenGLPFAMPSafe.raw(), 78);
    assert_eq!(NSOpenGLPixelFormatAttribute::NSOpenGLPFAWindow.raw(), 80);
    assert_eq!(NSOpenGLPixelFormatAttribute::NSOpenGLPFAMultiScreen.raw(), 81);
    assert_eq!(NSOpenGLPixelFormatAttribute::NSOpenGLPFACompliant.raw(), 83);
    assert_eq!(NSOpenGLPixelFormatAttribute::NSOpenGLPFAScreenMask.raw(), 84);
    assert_eq!(NSOpenGLPixelFormatAttribute::NSOpenGLPFAPixelBuffer.raw(), 90);
    assert_eq!(NSOpenGLPixelFormatAttribute::NSOpenGLPFARemotePixelBuffer.raw(), 91);
    assert_eq!(NSOpenGLPixelFormatAttribute::NSOpenGLPFAAllowOfflineRenderers.raw(), 96);
    assert_eq!(NSOpenGLPixelFormatAttribute::NSOpenGLPFAAcceleratedCompute.raw(), 97);
    assert_eq!(NSOpenGLPixelFormatAttribute::NSOpenGLPFAOpenGLProfile.raw(), 99);
    assert_eq!(NSOpenGLPixelFormatAttribute::NSOpenGLPFAVirtualScreenCount.raw(), 128);
}

#[test]
fn opengl_profile_has_the_numbers_of_the_framework() {
    assert_eq!(NSOpenGLPFAOpenGLProfiles::NSOpenGLProfileVersionLegacy.raw(), 4096);
    assert_eq!(NSOpenGLPFAOpenGLProfiles::NSOpenGLProfileVersion3_2Core.raw(), 12800);
    assert_eq!(NSOpenGLPFAOpenGLProfiles::NSOpenGLProfileVersion4_1Core.raw(), 16640);
}

#[test]
fn context_parameter_has_the_numbers_of_the_framework() {
    assert_eq!(NSOpenGLContextParameter::NSOpenGLCPSwapInterval.raw(), 222);
    assert_eq!(NSOpenGLContextParameter::NSOpenGLCPSurfaceOrder.raw(), 235);
    assert_eq!(NSOpenGLContextParameter::NSOpenGLCPSurfaceOpacity.raw(), 236);
    assert_eq!(NSOpenGLContextParameter::NSOpenGLCPSurfaceBackingSize.raw(), 304);
    assert_eq!(NSOpenGLContextParameter::NSOpenGLCPReclaimResources.raw(), 308);
    assert_eq!(NSOpenGLContextParameter::NSOpenGLCPCurrentRendererID.raw(), 309);
    assert_eq!(NSOpenGLContextParameter::NSOpenGLCPGPUVertexProcessing.raw(), 310);
    assert_eq!(NSOpenGLContextParameter::NSOpenGLCPGPUFragmentProcessing.raw(), 311);
    assert_eq!(NSOpenGLContextParameter::NSOpenGLCPHasDrawable.raw(), 314);
    assert_eq!(NSOpenGLContextParameter::NSOpenGLCPMPSwapsInFlight.raw(), 315);
}

#[test]
fn window_button_has_the_numbers_of_the_framework() {
    assert_eq!(NSWindowButton::NSWindowCloseButton.raw(), 0);
    assert_eq!(NSWindowButton::NSWindowMiniaturizeButton.raw(), 1);
    assert_eq!(NSWindowButton::NSWindowZoomButton.raw(), 2);
    assert_eq!(NSWindowButton::NSWindowToolbarButton.raw(), 3);
    assert_eq!(NSWindowButton::NSWindowDocumentIconButton.raw(), 4);
    assert_eq!(NSWindowButton::NSWindowDocumentVersionsButton.raw(), 6);
    assert_eq!(NSWindowButton::NSWindowFullScreenButton.raw(), 7);
}

#[test]
fn gesture_axis_has_the_numbers_of_the_framework() {
    assert_eq!(NSEventGestureAxis::NSEventGestureAxisNone.raw(), 0);
    assert_eq!(NSEventGestureAxis::NSEventGestureAxisHorizontal.raw(), 1);
    assert_eq!(NSEventGestureAxis::NSEventGestureAxisVertical.raw(), 2);
}

#[test]
fn event_type_has_the_numbers_of_the_framework() {
    assert_eq!(NSEventType::NSLeftMouseDown.raw(), 1);
    assert_eq!(NSEventType::NSLeftMouseUp.raw(), 2);
    assert_eq!(NSEventType::NSRightMouseDown.raw(), 3);
    assert_eq!(NSEventType::NSRightMouseUp.raw(), 4);
    assert_eq!(NSEventType::NSMouseMoved.raw(), 5);
    assert_eq!(NSEventType::NSLeftMouseDragged.raw(), 6);
    assert_eq!(NSEventType::NSRightMouseDragged.raw(), 7);
    assert_eq!(NSEventType::NSMouseEntered.raw(), 8);
    assert_eq!(NSEventType::NSMouseExited.raw(), 9);
    assert_eq!(NSEventType::NSKeyDown.raw(), 10);
    assert_eq!(NSEventType::NSKeyUp.raw(), 11);
    assert_eq!(NSEventType::NSFlagsChanged.raw(), 12);
    assert_eq!(NSEventType::NSAppKitDefined.raw(), 13);
    assert_eq!(NSEventType::NSSystemDefined.raw(), 14);
    assert_eq!(NSEventType::NSApplicationDefined.raw(), 15);
    assert_eq!(NSEventType::NSPeriodic.raw(), 16);
    assert_eq!(NSEventType::NSCursorUpdate.raw(), 17);
    assert_eq!(NSEventType::NSScrollWheel.raw(), 22);
    assert_eq!(NSEventType::NSTabletPoint.raw(), 23);
    assert_eq!(NSEventType::NSTabletProximity.raw(), 24);
    assert_eq!(NSEventType::NSOtherMouseDown.raw(), 25);
    assert_eq!(NSEventType::NSOtherMouseUp.raw(), 26);
    assert_eq!(NSEventType::NSOtherMouseDragged.raw(), 27);
    assert_eq!(NSEventType::NSEventTypeGesture.raw(), 29);
    assert_eq!(NSEventType::NSEventTypeMagnify.raw(), 30);
    assert_eq!(NSEventType::NSEventTypeSwipe.raw(), 31);
    assert_eq!(NSEventType::NSEventTypeRotate.raw(), 18);
    assert_eq!(NSEventType::NSEventTypeBeginGesture.raw(), 19);
    assert_eq!(NSEventType::NSEventTypeEndGesture.raw(), 20);
    assert_eq!(NSEventType::NSEventTypePressure.raw(), 34);
}

#[test]
fn event_subtype_has_the_numbers_of_the_framework() {
    assert_eq!(NSEventSubtype::NSWindowExposedEventType.raw(), 0);
    assert_eq!(NSEventSubtype::NSApplicationActivatedEventType.raw(), 1);
    assert_eq!(NSEventSubtype::NSApplicationDeactivatedEventType.raw(), 2);
    assert_eq!(NSEventSubtype::NSWindowMovedEventType.raw(), 4);
    assert_eq!(NSEventSubtype::NSScreenChangedEventType.raw(), 8);
    assert_eq!(NSEventSubtype::NSAWTEventType.raw(), 16);
}

#[test]
fn window_button_from_raw_finds_each_value_by_its_number() {
    assert_eq!(NSWindowButton::from_raw(0), Some(NSWindowButton::NSWindowCloseButton));
    assert_eq!(NSWindowButton::from_raw(1), Some(NSWindowButton::NSWindowMiniaturizeButton));
    assert_eq!(NSWindowButton::from_raw(2), Some(NSWindowButton::NSWindowZoomButton));
    assert_eq!(NSWindowButton::from_raw(3), Some(NSWindowButton::NSWindowToolbarButton));
    assert_eq!(NSWindowButton::from_raw(4), Some(NSWindowButton::NSWindowDocumentIconButton));
    assert_eq!(NSWindowButton::from_raw(6), Some(NSWindowButton::NSWindowDocumentVersionsButton));
    assert_eq!(NSWindowButton::from_raw(7), Some(NSWindowButton::NSWindowFullScreenButton));
}

#[test]
fn window_button_from_raw_knows_no_other_number() {
    for raw in [5, 8, 9, 100] {
        assert_eq!(NSWindowButton::from_raw(raw), None);
    }
    assert_eq!(NSWindowButton::from_raw(u64::MAX), None);
}

#[test]
fn event_type_from_raw_finds_each_value_by_its_number() {
    assert_eq!(NSEventType::from_raw(1), Some(NSEventType::NSLeftMouseDown));
    assert_eq!(NSEventType::from_raw(2), Some(NSEventType::NSLeftMouseUp));
    assert_eq!(NSEventType::from_raw(3), Some(NSEventType::NSRightMouseDown));
    assert_eq!(NSEventType::from_raw(4), Some(NSEventType::NSRightMouseUp));
    assert_eq!(NSEventType::from_raw(5), Some(NSEventType::NSMouseMoved));
    assert_eq!(NSEventType::from_raw(6), Some(NSEventType::NSLeftMouseDragged));
    assert_eq!(NSEventType::from_raw(7), Some(NSEventType::NSRightMouseDragged));
    assert_eq!(NSEventType::from_raw(8), Some(NSEventType::NSMouseEntered));
    assert_eq!(NSEventType::from_raw(9), Some(NSEventType::NSMouseExited));
    assert_eq!(NSEventType::from_raw(10), Some(NSEventType::NSKeyDown));
    assert_eq!(NSEventType::from_raw(11), Some(NSEventType::NSKeyUp));
    assert_eq!(NSEventType::from_raw(12), Some(NSEventType::NSFlagsChanged));
    assert_eq!(NSEventType::from_raw(13), Some(NSEventType::NSAppKitDefined));
    assert_eq!(NSEventType::from_raw(14), Some(NSEventType::NSSystemDefined));
    assert_eq!(NSEventType::from_raw(15), Some(NSEventType::NSApplicationDefined));
    assert_eq!(NSEventType::from_raw(16), Some(NSEventType::NSPeriodic));
    assert_eq!(NSEventType::from_raw(17), Some(NSEventType::NSCursorUpdate));
    assert_eq!(NSEventType::from_raw(22), Some(NSEventType::NSScrollWheel));
    assert_eq!(NSEventType::from_raw(23), Some(NSEventType::NSTabletPoint));
    assert_eq!(NSEventType::from_raw(24), Some(NSEventType::NSTabletProximity));
    assert_eq!(NSEventType::from_raw(25), Some(NSEventType::NSOtherMouseDown));
    assert_eq!(NSEventType::from_raw(26), Some(NSEventType::NSOtherMouseUp));
    assert_eq!(NSEventType::from_raw(27), Some(NSEventType::NSOtherMouseDragged));
    assert_eq!(NSEventType::from_raw(29), Some(NSEventType::NSEventTypeGesture));
    assert_eq!(NSEventType::from_raw(30), Some(NSEventType::NSEventTypeMagnify));
    assert_eq!(NSEventType::from_raw(31), Some(NSEventType::NSEventTypeSwipe));
    assert_eq!(NSEventType::from_raw(18), Some(NSEventType::NSEventTypeRotate));
    assert_eq!(NSEventType::from_raw(19), Some(NSEventType::NSEventTypeBeginGesture));
    assert_eq!(NSEventType::from_raw(20), Some(NSEventType::NSEventTypeEndGesture));
    assert_eq!(NSEventType::from_raw(34), Some(NSEventType::NSEventTypePressure));
}

#[test]
fn event_type_from_raw_knows_no_other_number() {
    for raw in [0, 21, 28, 32, 33, 35, 63, 64] {
        assert_eq!(NSEventType::from_raw(raw), None);
    }
    assert_eq!(NSEventType::from_raw(u64::MAX), None);
}

#[test]
fn event_subtype_from_raw_finds_each_value_by_its_number() {
    assert_eq!(NSEventSubtype::from_raw(0), Some(NSEventSubtype::NSWindowExposedEventType));
    assert_eq!(NSEventSubtype::from_raw(1), Some(NSEventSubtype::NSApplicationActivatedEventType));
    assert_eq!(NSEventSubtype::from_raw(2), Some(NSEventSubtype::NSApplicationDeactivatedEventType));
    assert_eq!(NSEventSubtype::from_raw(4), Some(NSEventSubtype::NSWindowMovedEventType));
    assert_eq!(NSEventSubtype::from_raw(8), Some(NSEventSubtype::NSScreenChangedEventType));
    assert_eq!(NSEventSubtype::from_raw(16), Some(NSEventSubtype::NSAWTEventType));
}

#[test]
fn event_subtype_from_raw_knows_no_other_number() {
    for raw in [-1, 3, 5, 6, 7, 9, 10, 11, 12, 13, 14, 15, 17] {
        assert_eq!(NSEventSubtype::from_raw(raw), None);
    }
    assert_eq!(NSEventSubtype::from_raw(i16::MAX), None);
    assert_eq!(NSEventSubtype::from_raw(i16::MIN), None);
}

#[test]
fn from_raw_undoes_raw() {
    for button in [
        NSWindowButton::NSWindowCloseButton,
        NSWindowButton::NSWindowDocumentVersionsButton,
        NSWindowButton::NSWindowFullScreenButton,
    ] {
        assert_eq!(NSWindowButton::from_raw(button.raw()), Some(button));
    }
    for subtype in [
        NSEventSubtype::NSWindowExposedEventType,
        NSEventSubtype::NSAWTEventType,
    ] {
        assert_eq!(NSEventSubtype::from_raw(subtype.raw()), Some(subtype));
    }
    for raw in 0..64 {
        if let Some(ty) = NSEventType::from_raw(raw) {
            assert_eq!(ty.raw(), raw);
        }
    }
}

#[test]
fn a_window_style_is_the_sum_of_its_traits() {
    let style = NSWindowMask::NSTitledWindowMask.raw()
        | NSWindowMask::NSClosableWindowMask.raw()
        | NSWindowMask::NSResizableWindowMask.raw();
    assert_eq!(style, 0b1011);
}
