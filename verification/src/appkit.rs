use crate::base::id;
use crate::bits::{lemma_members_one_bit, lemma_members_subset};
use crate::flags::{FlagKind, Flags};
use crate::foundation::{NSInteger, NSObjectPrototype, NSUInteger};
use std::marker::PhantomData;
use vstd::prelude::*;

pub use self::NSApplicationActivationPolicy::{
    NSApplicationActivationPolicyRegular,
    NSApplicationActivationPolicyAccessory,
    NSApplicationActivationPolicyERROR,
};
pub use self::NSApplicationActivationOptions::{
    NSApplicationActivateAllWindows,
    NSApplicationActivateIgnoringOtherApps,
};
pub use self::NSWindowMask::{
    NSBorderlessWindowMask,
    NSTitledWindowMask,
    NSClosableWindowMask,
    NSMiniaturizableWindowMask,
    NSResizableWindowMask,
    NSTexturedBackgroundWindowMask,
    NSUnifiedTitleAndToolbarWindowMask,
    NSFullScreenWindowMask,
    NSFullSizeContentViewWindowMask,
};
pub use self::NSBackingStoreType::{
    NSBackingStoreRetained,
    NSBackingStoreNonretained,
    NSBackingStoreBuffered,
};
pub use self::NSOpenGLPixelFormatAttribute::{
    NSOpenGLPFAAllRenderers,
    NSOpenGLPFATripleBuffer,
    NSOpenGLPFADoubleBuffer,
    NSOpenGLPFAStereo,
    NSOpenGLPFAAuxBuffers,
    NSOpenGLPFAColorSize,
    NSOpenGLPFAAlphaSize,
    NSOpenGLPFADepthSize,
    NSOpenGLPFAStencilSize,
    NSOpenGLPFAAccumSize,
    NSOpenGLPFAMinimumPolicy,
    NSOpenGLPFAMaximumPolicy,
    NSOpenGLPFAOffScreen,
    NSOpenGLPFAFullScreen,
    NSOpenGLPFASampleBuffers,
    NSOpenGLPFASamples,
    NSOpenGLPFAAuxDepthStencil,
    NSOpenGLPFAColorFloat,
    NSOpenGLPFAMultisample,
    NSOpenGLPFASupersample,
    NSOpenGLPFASampleAlpha,
    NSOpenGLPFARendererID,
    NSOpenGLPFASingleRenderer,
    NSOpenGLPFANoRecovery,
    NSOpenGLPFAAccelerated,
    NSOpenGLPFAClosestPolicy,
    NSOpenGLPFARobust,
    NSOpenGLPFABackingStore,
    NSOpenGLPFAMPSafe,
    NSOpenGLPFAWindow,
    NSOpenGLPFAMultiScreen,
    NSOpenGLPFACompliant,
    NSOpenGLPFAScreenMask,
    NSOpenGLPFAPixelBuffer,
    NSOpenGLPFARemotePixelBuffer,
    NSOpenGLPFAAllowOfflineRenderers,
    NSOpenGLPFAAcceleratedCompute,
    NSOpenGLPFAOpenGLProfile,
    NSOpenGLPFAVirtualScreenCount,
};
pub use self::NSOpenGLPFAOpenGLProfiles::{
    NSOpenGLProfileVersionLegacy,
    NSOpenGLProfileVersion3_2Core,
    NSOpenGLProfileVersion4_1Core,
};
pub use self::NSEventType::{
    NSLeftMouseDown,
    NSLeftMouseUp,
    NSRightMouseDown,
    NSRightMouseUp,
    NSMouseMoved,
    NSLeftMouseDragged,
    NSRightMouseDragged,
    NSMouseEntered,
    NSMouseExited,
    NSKeyDown,
    NSKeyUp,
    NSFlagsChanged,
    NSAppKitDefined,
    NSSystemDefined,
    NSApplicationDefined,
    NSPeriodic,
    NSCursorUpdate,
    NSScrollWheel,
    NSTabletPoint,
    NSTabletProximity,
    NSOtherMouseDown,
    NSOtherMouseUp,
    NSOtherMouseDragged,
    NSEventTypeGesture,
    NSEventTypeMagnify,
    NSEventTypeSwipe,
    NSEventTypeRotate,
    NSEventTypeBeginGesture,
    NSEventTypeEndGesture,
    NSEventTypePressure,
};

verus! {

pub type GLint = i32;

/// How an application takes part in the user interface.
#[derive(Clone, Copy, PartialEq, Eq, Debug)]
pub enum NSApplicationActivationPolicy {
    NSApplicationActivationPolicyRegular,
    NSApplicationActivationPolicyAccessory,
    NSApplicationActivationPolicyERROR,
}

impl NSApplicationActivationPolicy {
    /// The number that the framework knows the value by.
    pub open spec fn spec_raw(self) -> NSInteger {
        match self {
            NSApplicationActivationPolicy::NSApplicationActivationPolicyRegular => 0,
            NSApplicationActivationPolicy::NSApplicationActivationPolicyAccessory => 1,
            NSApplicationActivationPolicy::NSApplicationActivationPolicyERROR => (-1) as NSInteger,
        }
    }

    #[verifier::when_used_as_spec(spec_raw)]
    pub fn raw(self) -> (raw: NSInteger)
        ensures
            raw == self.spec_raw(),
    {
        match self {
            NSApplicationActivationPolicy::NSApplicationActivationPolicyRegular => 0,
            NSApplicationActivationPolicy::NSApplicationActivationPolicyAccessory => 1,
            NSApplicationActivationPolicy::NSApplicationActivationPolicyERROR => -1,
        }
    }
}

/// What activating a running application brings forward.
#[derive(Clone, Copy, PartialEq, Eq, Debug)]
pub enum NSApplicationActivationOptions {
    NSApplicationActivateAllWindows,
    NSApplicationActivateIgnoringOtherApps,
}

impl NSApplicationActivationOptions {
    /// The number that the framework knows the value by.
    pub open spec fn spec_raw(self) -> NSUInteger {
        match self {
            NSApplicationActivationOptions::NSApplicationActivateAllWindows => 1,
            NSApplicationActivationOptions::NSApplicationActivateIgnoringOtherApps => 2,
        }
    }

    #[verifier::when_used_as_spec(spec_raw)]
    pub fn raw(self) -> (raw: NSUInteger)
        ensures
            raw == self.spec_raw(),
    {
        match self {
            NSApplicationActivationOptions::NSApplicationActivateAllWindows => 1,
            NSApplicationActivationOptions::NSApplicationActivateIgnoringOtherApps => 2,
        }
    }
}

/// The answer of an application that was asked to terminate.
#[derive(Clone, Copy, PartialEq, Eq, Debug)]
pub enum NSApplicationTerminateReply {
    NSTerminateCancel,
    NSTerminateNow,
    NSTerminateLater,
}

impl NSApplicationTerminateReply {
    /// The number that the framework knows the value by.
    pub open spec fn spec_raw(self) -> NSUInteger {
        match self {
            NSApplicationTerminateReply::NSTerminateCancel => 0,
            NSApplicationTerminateReply::NSTerminateNow => 1,
            NSApplicationTerminateReply::NSTerminateLater => 2,
        }
    }

    #[verifier::when_used_as_spec(spec_raw)]
    pub fn raw(self) -> (raw: NSUInteger)
        ensures
            raw == self.spec_raw(),
    {
        match self {
            NSApplicationTerminateReply::NSTerminateCancel => 0,
            NSApplicationTerminateReply::NSTerminateNow => 1,
            NSApplicationTerminateReply::NSTerminateLater => 2,
        }
    }
}

/// One trait of a window's style; a style is the sum of the numbers of its traits.
#[derive(Clone, Copy, PartialEq, Eq, Debug)]
pub enum NSWindowMask {
    NSBorderlessWindowMask,
    NSTitledWindowMask,
    NSClosableWindowMask,
    NSMiniaturizableWindowMask,
    NSResizableWindowMask,
    NSTexturedBackgroundWindowMask,
    NSUnifiedTitleAndToolbarWindowMask,
    NSFullScreenWindowMask,
    NSFullSizeContentViewWindowMask,
}

impl NSWindowMask {
    /// The number that the framework knows the value by.
    pub open spec fn spec_raw(self) -> NSUInteger {
        match self {
            NSWindowMask::NSBorderlessWindowMask => 0,
            NSWindowMask::NSTitledWindowMask => 1,
            NSWindowMask::NSClosableWindowMask => 2,
            NSWindowMask::NSMiniaturizableWindowMask => 4,
            NSWindowMask::NSResizableWindowMask => 8,
            NSWindowMask::NSTexturedBackgroundWindowMask => 256,
            NSWindowMask::NSUnifiedTitleAndToolbarWindowMask => 0x1000,
            NSWindowMask::NSFullScreenWindowMask => 0x4000,
            NSWindowMask::NSFullSizeContentViewWindowMask => 0x8000,
        }
    }

    #[verifier::when_used_as_spec(spec_raw)]
    pub fn raw(self) -> (raw: NSUInteger)
        ensures
            raw == self.spec_raw(),
    {
        match self {
            NSWindowMask::NSBorderlessWindowMask => 0,
            NSWindowMask::NSTitledWindowMask => 1,
            NSWindowMask::NSClosableWindowMask => 2,
            NSWindowMask::NSMiniaturizableWindowMask => 4,
            NSWindowMask::NSResizableWindowMask => 8,
            NSWindowMask::NSTexturedBackgroundWindowMask => 256,
            NSWindowMask::NSUnifiedTitleAndToolbarWindowMask => 0x1000,
            NSWindowMask::NSFullScreenWindowMask => 0x4000,
            NSWindowMask::NSFullSizeContentViewWindowMask => 0x8000,
        }
    }
}

/// Whether a window shows its title.
#[derive(Clone, Copy, PartialEq, Eq, Debug)]
pub enum NSWindowTitleVisibility {
    NSWindowTitleVisible,
    NSWindowTitleHidden,
}

impl NSWindowTitleVisibility {
    /// The number that the framework knows the value by.
    pub open spec fn spec_raw(self) -> NSUInteger {
        match self {
            NSWindowTitleVisibility::NSWindowTitleVisible => 0,
            NSWindowTitleVisibility::NSWindowTitleHidden => 1,
        }
    }

    #[verifier::when_used_as_spec(spec_raw)]
    pub fn raw(self) -> (raw: NSUInteger)
        ensures
            raw == self.spec_raw(),
    {
        match self {
            NSWindowTitleVisibility::NSWindowTitleVisible => 0,
            NSWindowTitleVisibility::NSWindowTitleHidden => 1,
        }
    }
}

/// How the drawing of a window is buffered.
#[derive(Clone, Copy, PartialEq, Eq, Debug)]
pub enum NSBackingStoreType {
    NSBackingStoreRetained,
    NSBackingStoreNonretained,
    NSBackingStoreBuffered,
}

impl NSBackingStoreType {
    /// The number that the framework knows the value by.
    pub open spec fn spec_raw(self) -> NSUInteger {
        match self {
            NSBackingStoreType::NSBackingStoreRetained => 0,
            NSBackingStoreType::NSBackingStoreNonretained => 1,
            NSBackingStoreType::NSBackingStoreBuffered => 2,
        }
    }

    #[verifier::when_used_as_spec(spec_raw)]
    pub fn raw(self) -> (raw: NSUInteger)
        ensures
            raw == self.spec_raw(),
    {
        match self {
            NSBackingStoreType::NSBackingStoreRetained => 0,
            NSBackingStoreType::NSBackingStoreNonretained => 1,
            NSBackingStoreType::NSBackingStoreBuffered => 2,
        }
    }
}

pub const NSWindowAbove: NSInteger = 1;

pub const NSWindowBelow: NSInteger = -1;

pub const NSWindowOut: NSInteger = 0;

/// Where a window goes in the order of the windows on screen, seen from
/// another window: `NSWindowAbove`, `NSWindowBelow` or `NSWindowOut`.
#[derive(Clone, Copy, PartialEq, Eq, Debug)]
pub struct NSWindowOrderingMode {
    pub bits: NSInteger,
}

impl NSWindowOrderingMode {
    /// The number that carries the mode.
    pub fn bits(&self) -> (bits: NSInteger)
        ensures
            bits == self.bits,
    {
        self.bits
    }
}

pub const NSAlignMinXInward: u64 = 0x1;

pub const NSAlignMinYInward: u64 = 0x2;

pub const NSAlignMaxXInward: u64 = 0x4;

pub const NSAlignMaxYInward: u64 = 0x8;

pub const NSAlignWidthInward: u64 = 0x10;

pub const NSAlignHeightInward: u64 = 0x20;

pub const NSAlignMinXOutward: u64 = 0x100;

pub const NSAlignMinYOutward: u64 = 0x200;

pub const NSAlignMaxXOutward: u64 = 0x400;

pub const NSAlignMaxYOutward: u64 = 0x800;

pub const NSAlignWidthOutward: u64 = 0x1000;

pub const NSAlignHeightOutward: u64 = 0x2000;

pub const NSAlignMinXNearest: u64 = 0x10000;

pub const NSAlignMinYNearest: u64 = 0x20000;

pub const NSAlignMaxXNearest: u64 = 0x40000;

pub const NSAlignMaxYNearest: u64 = 0x80000;

pub const NSAlignWidthNearest: u64 = 0x100000;

pub const NSAlignHeightNearest: u64 = 0x200000;

pub const NSAlignRectFlipped: u64 = 0x8000000000000000;

pub const NSAlignAllEdgesInward: u64 = 0xf;

pub const NSAlignAllEdgesOutward: u64 = 0xf00;

pub const NSAlignAllEdgesNearest: u64 = 0xf0000;

/// The family of the flags of [`NSAlignmentOptions`].
#[derive(Clone, Copy, PartialEq, Eq, Debug)]
pub struct NSAlignmentOptionsKind;

impl FlagKind for NSAlignmentOptionsKind {
    open spec fn known() -> u64 {
        NSAlignMinXInward
            | NSAlignMinYInward
            | NSAlignMaxXInward
            | NSAlignMaxYInward
            | NSAlignWidthInward
            | NSAlignHeightInward
            | NSAlignMinXOutward
            | NSAlignMinYOutward
            | NSAlignMaxXOutward
            | NSAlignMaxYOutward
            | NSAlignWidthOutward
            | NSAlignHeightOutward
            | NSAlignMinXNearest
            | NSAlignMinYNearest
            | NSAlignMaxXNearest
            | NSAlignMaxYNearest
            | NSAlignWidthNearest
            | NSAlignHeightNearest
            | NSAlignRectFlipped
            | NSAlignAllEdgesInward
            | NSAlignAllEdgesOutward
            | NSAlignAllEdgesNearest
    }

    fn known_bits() -> (bits: u64) {
        NSAlignMinXInward
            | NSAlignMinYInward
            | NSAlignMaxXInward
            | NSAlignMaxYInward
            | NSAlignWidthInward
            | NSAlignHeightInward
            | NSAlignMinXOutward
            | NSAlignMinYOutward
            | NSAlignMaxXOutward
            | NSAlignMaxYOutward
            | NSAlignWidthOutward
            | NSAlignHeightOutward
            | NSAlignMinXNearest
            | NSAlignMinYNearest
            | NSAlignMaxXNearest
            | NSAlignMaxYNearest
            | NSAlignWidthNearest
            | NSAlignHeightNearest
            | NSAlignRectFlipped
            | NSAlignAllEdgesInward
            | NSAlignAllEdgesOutward
            | NSAlignAllEdgesNearest
    }
}

/// How the edges and the extent of a rectangle are moved onto whole numbers.
pub type NSAlignmentOptions = Flags<NSAlignmentOptionsKind>;

/// One attribute in the description of a pixel format.
#[derive(Clone, Copy, PartialEq, Eq, Debug)]
pub enum NSOpenGLPixelFormatAttribute {
    NSOpenGLPFAAllRenderers,
    NSOpenGLPFATripleBuffer,
    NSOpenGLPFADoubleBuffer,
    NSOpenGLPFAStereo,
    NSOpenGLPFAAuxBuffers,
    NSOpenGLPFAColorSize,
    NSOpenGLPFAAlphaSize,
    NSOpenGLPFADepthSize,
    NSOpenGLPFAStencilSize,
    NSOpenGLPFAAccumSize,
    NSOpenGLPFAMinimumPolicy,
    NSOpenGLPFAMaximumPolicy,
    NSOpenGLPFAOffScreen,
    NSOpenGLPFAFullScreen,
    NSOpenGLPFASampleBuffers,
    NSOpenGLPFASamples,
    NSOpenGLPFAAuxDepthStencil,
    NSOpenGLPFAColorFloat,
    NSOpenGLPFAMultisample,
    NSOpenGLPFASupersample,
    NSOpenGLPFASampleAlpha,
    NSOpenGLPFARendererID,
    NSOpenGLPFASingleRenderer,
    NSOpenGLPFANoRecovery,
    NSOpenGLPFAAccelerated,
    NSOpenGLPFAClosestPolicy,
    NSOpenGLPFARobust,
    NSOpenGLPFABackingStore,
    NSOpenGLPFAMPSafe,
    NSOpenGLPFAWindow,
    NSOpenGLPFAMultiScreen,
    NSOpenGLPFACompliant,
    NSOpenGLPFAScreenMask,
    NSOpenGLPFAPixelBuffer,
    NSOpenGLPFARemotePixelBuffer,
    NSOpenGLPFAAllowOfflineRenderers,
    NSOpenGLPFAAcceleratedCompute,
    NSOpenGLPFAOpenGLProfile,
    NSOpenGLPFAVirtualScreenCount,
}

impl NSOpenGLPixelFormatAttribute {
    /// The number that the framework knows the value by.
    pub open spec fn spec_raw(self) -> NSUInteger {
        match self {
            NSOpenGLPixelFormatAttribute::NSOpenGLPFAAllRenderers => 1,
            NSOpenGLPixelFormatAttribute::NSOpenGLPFATripleBuffer => 3,
            NSOpenGLPixelFormatAttribute::NSOpenGLPFADoubleBuffer => 5,
            NSOpenGLPixelFormatAttribute::NSOpenGLPFAStereo => 6,
            NSOpenGLPixelFormatAttribute::NSOpenGLPFAAuxBuffers => 7,
            NSOpenGLPixelFormatAttribute::NSOpenGLPFAColorSize => 8,
            NSOpenGLPixelFormatAttribute::NSOpenGLPFAAlphaSize => 11,
            NSOpenGLPixelFormatAttribute::NSOpenGLPFADepthSize => 12,
            NSOpenGLPixelFormatAttribute::NSOpenGLPFAStencilSize => 13,
            NSOpenGLPixelFormatAttribute::NSOpenGLPFAAccumSize => 14,
            NSOpenGLPixelFormatAttribute::NSOpenGLPFAMinimumPolicy => 51,
            NSOpenGLPixelFormatAttribute::NSOpenGLPFAMaximumPolicy => 52,
            NSOpenGLPixelFormatAttribute::NSOpenGLPFAOffScreen => 53,
            NSOpenGLPixelFormatAttribute::NSOpenGLPFAFullScreen => 54,
            NSOpenGLPixelFormatAttribute::NSOpenGLPFASampleBuffers => 55,
            NSOpenGLPixelFormatAttribute::NSOpenGLPFASamples => 56,
            NSOpenGLPixelFormatAttribute::NSOpenGLPFAAuxDepthStencil => 57,
            NSOpenGLPixelFormatAttribute::NSOpenGLPFAColorFloat => 58,
            NSOpenGLPixelFormatAttribute::NSOpenGLPFAMultisample => 59,
            NSOpenGLPixelFormatAttribute::NSOpenGLPFASupersample => 60,
            NSOpenGLPixelFormatAttribute::NSOpenGLPFASampleAlpha => 61,
            NSOpenGLPixelFormatAttribute::NSOpenGLPFARendererID => 70,
            NSOpenGLPixelFormatAttribute::NSOpenGLPFASingleRenderer => 71,
            NSOpenGLPixelFormatAttribute::NSOpenGLPFANoRecovery => 72,
            NSOpenGLPixelFormatAttribute::NSOpenGLPFAAccelerated => 73,
            NSOpenGLPixelFormatAttribute::NSOpenGLPFAClosestPolicy => 74,
            NSOpenGLPixelFormatAttribute::NSOpenGLPFARobust => 75,
            NSOpenGLPixelFormatAttribute::NSOpenGLPFABackingStore => 76,
            NSOpenGLPixelFormatAttribute::NSOpenGLPFAMPSafe => 78,
            NSOpenGLPixelFormatAttribute::NSOpenGLPFAWindow => 80,
            NSOpenGLPixelFormatAttribute::NSOpenGLPFAMultiScreen => 81,
            NSOpenGLPixelFormatAttribute::NSOpenGLPFACompliant => 83,
            NSOpenGLPixelFormatAttribute::NSOpenGLPFAScreenMask => 84,
            NSOpenGLPixelFormatAttribute::NSOpenGLPFAPixelBuffer => 90,
            NSOpenGLPixelFormatAttribute::NSOpenGLPFARemotePixelBuffer => 91,
            NSOpenGLPixelFormatAttribute::NSOpenGLPFAAllowOfflineRenderers => 96,
            NSOpenGLPixelFormatAttribute::NSOpenGLPFAAcceleratedCompute => 97,
            NSOpenGLPixelFormatAttribute::NSOpenGLPFAOpenGLProfile => 99,
            NSOpenGLPixelFormatAttribute::NSOpenGLPFAVirtualScreenCount => 128,
        }
    }

    #[verifier::when_used_as_spec(spec_raw)]
    pub fn raw(self) -> (raw: NSUInteger)
        ensures
            raw == self.spec_raw(),
    {
        match self {
            NSOpenGLPixelFormatAttribute::NSOpenGLPFAAllRenderers => 1,
            NSOpenGLPixelFormatAttribute::NSOpenGLPFATripleBuffer => 3,
            NSOpenGLPixelFormatAttribute::NSOpenGLPFADoubleBuffer => 5,
            NSOpenGLPixelFormatAttribute::NSOpenGLPFAStereo => 6,
            NSOpenGLPixelFormatAttribute::NSOpenGLPFAAuxBuffers => 7,
            NSOpenGLPixelFormatAttribute::NSOpenGLPFAColorSize => 8,
            NSOpenGLPixelFormatAttribute::NSOpenGLPFAAlphaSize => 11,
            NSOpenGLPixelFormatAttribute::NSOpenGLPFADepthSize => 12,
            NSOpenGLPixelFormatAttribute::NSOpenGLPFAStencilSize => 13,
            NSOpenGLPixelFormatAttribute::NSOpenGLPFAAccumSize => 14,
            NSOpenGLPixelFormatAttribute::NSOpenGLPFAMinimumPolicy => 51,
            NSOpenGLPixelFormatAttribute::NSOpenGLPFAMaximumPolicy => 52,
            NSOpenGLPixelFormatAttribute::NSOpenGLPFAOffScreen => 53,
            NSOpenGLPixelFormatAttribute::NSOpenGLPFAFullScreen => 54,
            NSOpenGLPixelFormatAttribute::NSOpenGLPFASampleBuffers => 55,
            NSOpenGLPixelFormatAttribute::NSOpenGLPFASamples => 56,
            NSOpenGLPixelFormatAttribute::NSOpenGLPFAAuxDepthStencil => 57,
            NSOpenGLPixelFormatAttribute::NSOpenGLPFAColorFloat => 58,
            NSOpenGLPixelFormatAttribute::NSOpenGLPFAMultisample => 59,
            NSOpenGLPixelFormatAttribute::NSOpenGLPFASupersample => 60,
            NSOpenGLPixelFormatAttribute::NSOpenGLPFASampleAlpha => 61,
            NSOpenGLPixelFormatAttribute::NSOpenGLPFARendererID => 70,
            NSOpenGLPixelFormatAttribute::NSOpenGLPFASingleRenderer => 71,
            NSOpenGLPixelFormatAttribute::NSOpenGLPFANoRecovery => 72,
            NSOpenGLPixelFormatAttribute::NSOpenGLPFAAccelerated => 73,
            NSOpenGLPixelFormatAttribute::NSOpenGLPFAClosestPolicy => 74,
            NSOpenGLPixelFormatAttribute::NSOpenGLPFARobust => 75,
            NSOpenGLPixelFormatAttribute::NSOpenGLPFABackingStore => 76,
            NSOpenGLPixelFormatAttribute::NSOpenGLPFAMPSafe => 78,
            NSOpenGLPixelFormatAttribute::NSOpenGLPFAWindow => 80,
            NSOpenGLPixelFormatAttribute::NSOpenGLPFAMultiScreen => 81,
            NSOpenGLPixelFormatAttribute::NSOpenGLPFACompliant => 83,
            NSOpenGLPixelFormatAttribute::NSOpenGLPFAScreenMask => 84,
            NSOpenGLPixelFormatAttribute::NSOpenGLPFAPixelBuffer => 90,
            NSOpenGLPixelFormatAttribute::NSOpenGLPFARemotePixelBuffer => 91,
            NSOpenGLPixelFormatAttribute::NSOpenGLPFAAllowOfflineRenderers => 96,
            NSOpenGLPixelFormatAttribute::NSOpenGLPFAAcceleratedCompute => 97,
            NSOpenGLPixelFormatAttribute::NSOpenGLPFAOpenGLProfile => 99,
            NSOpenGLPixelFormatAttribute::NSOpenGLPFAVirtualScreenCount => 128,
        }
    }
}

/// The OpenGL profile that a pixel format asks for.
#[derive(Clone, Copy, PartialEq, Eq, Debug)]
pub enum NSOpenGLPFAOpenGLProfiles {
    NSOpenGLProfileVersionLegacy,
    NSOpenGLProfileVersion3_2Core,
    NSOpenGLProfileVersion4_1Core,
}

impl NSOpenGLPFAOpenGLProfiles {
    /// The number that the framework knows the value by.
    pub open spec fn spec_raw(self) -> NSUInteger {
        match self {
            NSOpenGLPFAOpenGLProfiles::NSOpenGLProfileVersionLegacy => 0x1000,
            NSOpenGLPFAOpenGLProfiles::NSOpenGLProfileVersion3_2Core => 0x3200,
            NSOpenGLPFAOpenGLProfiles::NSOpenGLProfileVersion4_1Core => 0x4100,
        }
    }

    #[verifier::when_used_as_spec(spec_raw)]
    pub fn raw(self) -> (raw: NSUInteger)
        ensures
            raw == self.spec_raw(),
    {
        match self {
            NSOpenGLPFAOpenGLProfiles::NSOpenGLProfileVersionLegacy => 0x1000,
            NSOpenGLPFAOpenGLProfiles::NSOpenGLProfileVersion3_2Core => 0x3200,
            NSOpenGLPFAOpenGLProfiles::NSOpenGLProfileVersion4_1Core => 0x4100,
        }
    }
}

/// One parameter of an OpenGL context.
#[derive(Clone, Copy, PartialEq, Eq, Debug)]
pub enum NSOpenGLContextParameter {
    NSOpenGLCPSwapInterval,
    NSOpenGLCPSurfaceOrder,
    NSOpenGLCPSurfaceOpacity,
    NSOpenGLCPSurfaceBackingSize,
    NSOpenGLCPReclaimResources,
    NSOpenGLCPCurrentRendererID,
    NSOpenGLCPGPUVertexProcessing,
    NSOpenGLCPGPUFragmentProcessing,
    NSOpenGLCPHasDrawable,
    NSOpenGLCPMPSwapsInFlight,
}

impl NSOpenGLContextParameter {
    /// The number that the framework knows the value by.
    pub open spec fn spec_raw(self) -> NSUInteger {
        match self {
            NSOpenGLContextParameter::NSOpenGLCPSwapInterval => 222,
            NSOpenGLContextParameter::NSOpenGLCPSurfaceOrder => 235,
            NSOpenGLContextParameter::NSOpenGLCPSurfaceOpacity => 236,
            NSOpenGLContextParameter::NSOpenGLCPSurfaceBackingSize => 304,
            NSOpenGLContextParameter::NSOpenGLCPReclaimResources => 308,
            NSOpenGLContextParameter::NSOpenGLCPCurrentRendererID => 309,
            NSOpenGLContextParameter::NSOpenGLCPGPUVertexProcessing => 310,
            NSOpenGLContextParameter::NSOpenGLCPGPUFragmentProcessing => 311,
            NSOpenGLContextParameter::NSOpenGLCPHasDrawable => 314,
            NSOpenGLContextParameter::NSOpenGLCPMPSwapsInFlight => 315,
        }
    }

    #[verifier::when_used_as_spec(spec_raw)]
    pub fn raw(self) -> (raw: NSUInteger)
        ensures
            raw == self.spec_raw(),
    {
        match self {
            NSOpenGLContextParameter::NSOpenGLCPSwapInterval => 222,
            NSOpenGLContextParameter::NSOpenGLCPSurfaceOrder => 235,
            NSOpenGLContextParameter::NSOpenGLCPSurfaceOpacity => 236,
            NSOpenGLContextParameter::NSOpenGLCPSurfaceBackingSize => 304,
            NSOpenGLContextParameter::NSOpenGLCPReclaimResources => 308,
            NSOpenGLContextParameter::NSOpenGLCPCurrentRendererID => 309,
            NSOpenGLContextParameter::NSOpenGLCPGPUVertexProcessing => 310,
            NSOpenGLContextParameter::NSOpenGLCPGPUFragmentProcessing => 311,
            NSOpenGLContextParameter::NSOpenGLCPHasDrawable => 314,
            NSOpenGLContextParameter::NSOpenGLCPMPSwapsInFlight => 315,
        }
    }
}

/// One of the standard buttons in the frame of a window.
#[derive(Clone, Copy, PartialEq, Eq, Debug)]
pub enum NSWindowButton {
    NSWindowCloseButton,
    NSWindowMiniaturizeButton,
    NSWindowZoomButton,
    NSWindowToolbarButton,
    NSWindowDocumentIconButton,
    NSWindowDocumentVersionsButton,
    NSWindowFullScreenButton,
}

impl NSWindowButton {
    /// The number that the framework knows the value by.
    pub open spec fn spec_raw(self) -> NSUInteger {
        match self {
            NSWindowButton::NSWindowCloseButton => 0,
            NSWindowButton::NSWindowMiniaturizeButton => 1,
            NSWindowButton::NSWindowZoomButton => 2,
            NSWindowButton::NSWindowToolbarButton => 3,
            NSWindowButton::NSWindowDocumentIconButton => 4,
            NSWindowButton::NSWindowDocumentVersionsButton => 6,
            NSWindowButton::NSWindowFullScreenButton => 7,
        }
    }

    #[verifier::when_used_as_spec(spec_raw)]
    pub fn raw(self) -> (raw: NSUInteger)
        ensures
            raw == self.spec_raw(),
    {
        match self {
            NSWindowButton::NSWindowCloseButton => 0,
            NSWindowButton::NSWindowMiniaturizeButton => 1,
            NSWindowButton::NSWindowZoomButton => 2,
            NSWindowButton::NSWindowToolbarButton => 3,
            NSWindowButton::NSWindowDocumentIconButton => 4,
            NSWindowButton::NSWindowDocumentVersionsButton => 6,
            NSWindowButton::NSWindowFullScreenButton => 7,
        }
    }

    /// The value that the framework knows by `raw`, if there is one.
    pub fn from_raw(raw: NSUInteger) -> (r: Option<NSWindowButton>)
        ensures
            r matches Some(value) ==> value.spec_raw() == raw,
            r is None ==> forall|value: NSWindowButton| value.spec_raw() != raw,
    {
        if raw == 0 {
            Some(NSWindowButton::NSWindowCloseButton)
        } else if raw == 1 {
            Some(NSWindowButton::NSWindowMiniaturizeButton)
        } else if raw == 2 {
            Some(NSWindowButton::NSWindowZoomButton)
        } else if raw == 3 {
            Some(NSWindowButton::NSWindowToolbarButton)
        } else if raw == 4 {
            Some(NSWindowButton::NSWindowDocumentIconButton)
        } else if raw == 6 {
            Some(NSWindowButton::NSWindowDocumentVersionsButton)
        } else if raw == 7 {
            Some(NSWindowButton::NSWindowFullScreenButton)
        } else {
            None
        }
    }

    /// No two values share a number.
    pub proof fn lemma_raw_injective(a: NSWindowButton, b: NSWindowButton)
        requires
            a.spec_raw() == b.spec_raw(),
        ensures
            a == b,
    {
    }
}

pub const NSMainMenuWindowLevel: i32 = 24;

/// The tag of the class `NSApplication`.
pub enum NSApplicationPrototype {
    NSApplication,
}

pub type NSApplication = id<(NSApplicationPrototype, (NSObjectPrototype, ()))>;

/// The tag of the class `NSRunningApplication`.
pub enum NSRunningApplicationPrototype {
    NSRunningApplication,
}

pub type NSRunningApplication = id<(NSRunningApplicationPrototype, (NSObjectPrototype, ()))>;

/// The tag of the class `NSMenu`.
pub enum NSMenuPrototype {
    NSMenu,
}

pub type NSMenu = id<(NSMenuPrototype, (NSObjectPrototype, ()))>;

/// The tag of the class `NSMenuItem`.
pub enum NSMenuItemPrototype {
    NSMenuItem,
}

pub type NSMenuItem = id<(NSMenuItemPrototype, (NSObjectPrototype, ()))>;

pub type NSWindowDepth = libc::c_int;

pub const NSWindowCollectionBehaviorDefault: u64 = 0x0;

pub const NSWindowCollectionBehaviorCanJoinAllSpaces: u64 = 0x1;

pub const NSWindowCollectionBehaviorMoveToActiveSpace: u64 = 0x2;

pub const NSWindowCollectionBehaviorManaged: u64 = 0x4;

pub const NSWindowCollectionBehaviorTransient: u64 = 0x8;

pub const NSWindowCollectionBehaviorStationary: u64 = 0x10;

pub const NSWindowCollectionBehaviorParticipatesInCycle: u64 = 0x20;

pub const NSWindowCollectionBehaviorIgnoresCycle: u64 = 0x40;

pub const NSWindowCollectionBehaviorFullScreenPrimary: u64 = 0x80;

pub const NSWindowCollectionBehaviorFullScreenAuxiliary: u64 = 0x100;

/// The family of the flags of [`NSWindowCollectionBehavior`].
#[derive(Clone, Copy, PartialEq, Eq, Debug)]
pub struct NSWindowCollectionBehaviorKind;

impl FlagKind for NSWindowCollectionBehaviorKind {
    open spec fn known() -> u64 {
        NSWindowCollectionBehaviorDefault
            | NSWindowCollectionBehaviorCanJoinAllSpaces
            | NSWindowCollectionBehaviorMoveToActiveSpace
            | NSWindowCollectionBehaviorManaged
            | NSWindowCollectionBehaviorTransient
            | NSWindowCollectionBehaviorStationary
            | NSWindowCollectionBehaviorParticipatesInCycle
            | NSWindowCollectionBehaviorIgnoresCycle
            | NSWindowCollectionBehaviorFullScreenPrimary
            | NSWindowCollectionBehaviorFullScreenAuxiliary
    }

    fn known_bits() -> (bits: u64) {
        NSWindowCollectionBehaviorDefault
            | NSWindowCollectionBehaviorCanJoinAllSpaces
            | NSWindowCollectionBehaviorMoveToActiveSpace
            | NSWindowCollectionBehaviorManaged
            | NSWindowCollectionBehaviorTransient
            | NSWindowCollectionBehaviorStationary
            | NSWindowCollectionBehaviorParticipatesInCycle
            | NSWindowCollectionBehaviorIgnoresCycle
            | NSWindowCollectionBehaviorFullScreenPrimary
            | NSWindowCollectionBehaviorFullScreenAuxiliary
    }
}

/// How a window takes part in spaces and in full-screen mode.
pub type NSWindowCollectionBehavior = Flags<NSWindowCollectionBehaviorKind>;

pub const NSWindowOcclusionStateVisible: u64 = 0x2;

/// The family of the flags of [`NSWindowOcclusionState`].
#[derive(Clone, Copy, PartialEq, Eq, Debug)]
pub struct NSWindowOcclusionStateKind;

impl FlagKind for NSWindowOcclusionStateKind {
    open spec fn known() -> u64 {
        NSWindowOcclusionStateVisible
    }

    fn known_bits() -> (bits: u64) {
        NSWindowOcclusionStateVisible
    }
}

/// Which part of a window can be seen.
pub type NSWindowOcclusionState = Flags<NSWindowOcclusionStateKind>;

/// The tag of the class `NSWindow`.
pub enum NSWindowPrototype {
    NSWindow,
}

pub type NSWindow = id<(NSWindowPrototype, (NSObjectPrototype, ()))>;

/// The tag of the class `NSView`.
pub enum NSViewPrototype {
    NSView,
}

pub type NSView = id<(NSViewPrototype, (NSObjectPrototype, ()))>;

/// The tag of the class `NSOpenGLView`.
pub enum NSOpenGLViewPrototype {
    NSOpenGLView,
}

pub type NSOpenGLView = id<(NSOpenGLViewPrototype, (NSViewPrototype, (NSObjectPrototype, ())))>;

/// The tag of the class `NSOpenGLPixelFormat`.
pub enum NSOpenGLPixelFormatPrototype {
    NSOpenGLPixelFormat,
}

pub type NSOpenGLPixelFormat = id<(NSOpenGLPixelFormatPrototype, (NSObjectPrototype, ()))>;

/// The tag of the class `NSOpenGLContext`.
pub enum NSOpenGLContextPrototype {
    NSOpenGLContext,
}

pub type NSOpenGLContext = id<(NSOpenGLContextPrototype, (NSObjectPrototype, ()))>;

pub const NSEventSwipeTrackingLockDirection: u64 = 0x1;

pub const NSEventSwipeTrackingClampGestureAmount: u64 = 0x2;

/// The family of the flags of [`NSEventSwipeTrackingOptions`].
#[derive(Clone, Copy, PartialEq, Eq, Debug)]
pub struct NSEventSwipeTrackingOptionsKind;

impl FlagKind for NSEventSwipeTrackingOptionsKind {
    open spec fn known() -> u64 {
        NSEventSwipeTrackingLockDirection
            | NSEventSwipeTrackingClampGestureAmount
    }

    fn known_bits() -> (bits: u64) {
        NSEventSwipeTrackingLockDirection
            | NSEventSwipeTrackingClampGestureAmount
    }
}

/// How a swipe is tracked.
pub type NSEventSwipeTrackingOptions = Flags<NSEventSwipeTrackingOptionsKind>;

/// The axis along which a gesture is tracked.
#[derive(Clone, Copy, PartialEq, Eq, Debug)]
pub enum NSEventGestureAxis {
    NSEventGestureAxisNone,
    NSEventGestureAxisHorizontal,
    NSEventGestureAxisVertical,
}

impl NSEventGestureAxis {
    /// The number that the framework knows the value by.
    pub open spec fn spec_raw(self) -> NSInteger {
        match self {
            NSEventGestureAxis::NSEventGestureAxisNone => 0,
            NSEventGestureAxis::NSEventGestureAxisHorizontal => 1,
            NSEventGestureAxis::NSEventGestureAxisVertical => 2,
        }
    }

    #[verifier::when_used_as_spec(spec_raw)]
    pub fn raw(self) -> (raw: NSInteger)
        ensures
            raw == self.spec_raw(),
    {
        match self {
            NSEventGestureAxis::NSEventGestureAxisNone => 0,
            NSEventGestureAxis::NSEventGestureAxisHorizontal => 1,
            NSEventGestureAxis::NSEventGestureAxisVertical => 2,
        }
    }
}

pub const NSEventPhaseNone: u64 = 0x0;

pub const NSEventPhaseBegan: u64 = 0x1;

pub const NSEventPhaseStationary: u64 = 0x2;

pub const NSEventPhaseChanged: u64 = 0x4;

pub const NSEventPhaseEnded: u64 = 0x8;

pub const NSEventPhaseCancelled: u64 = 0x10;

pub const NSEventPhaseMayBegin: u64 = 0x20;

/// The family of the flags of [`NSEventPhase`].
#[derive(Clone, Copy, PartialEq, Eq, Debug)]
pub struct NSEventPhaseKind;

impl FlagKind for NSEventPhaseKind {
    open spec fn known() -> u64 {
        NSEventPhaseNone
            | NSEventPhaseBegan
            | NSEventPhaseStationary
            | NSEventPhaseChanged
            | NSEventPhaseEnded
            | NSEventPhaseCancelled
            | NSEventPhaseMayBegin
    }

    fn known_bits() -> (bits: u64) {
        NSEventPhaseNone
            | NSEventPhaseBegan
            | NSEventPhaseStationary
            | NSEventPhaseChanged
            | NSEventPhaseEnded
            | NSEventPhaseCancelled
            | NSEventPhaseMayBegin
    }
}

/// The phases of a gesture that an event belongs to.
pub type NSEventPhase = Flags<NSEventPhaseKind>;

pub const NSTouchPhaseBegan: u64 = 0x1;

pub const NSTouchPhaseMoved: u64 = 0x2;

pub const NSTouchPhaseStationary: u64 = 0x4;

pub const NSTouchPhaseEnded: u64 = 0x8;

pub const NSTouchPhaseCancelled: u64 = 0x10;

pub const NSTouchPhaseTouching: u64 = 0x7;

pub const NSTouchPhaseAny: u64 = 0xffffffffffffffff;

/// The family of the flags of [`NSTouchPhase`].
#[derive(Clone, Copy, PartialEq, Eq, Debug)]
pub struct NSTouchPhaseKind;

impl FlagKind for NSTouchPhaseKind {
    open spec fn known() -> u64 {
        NSTouchPhaseBegan
            | NSTouchPhaseMoved
            | NSTouchPhaseStationary
            | NSTouchPhaseEnded
            | NSTouchPhaseCancelled
            | NSTouchPhaseTouching
            | NSTouchPhaseAny
    }

    fn known_bits() -> (bits: u64) {
        NSTouchPhaseBegan
            | NSTouchPhaseMoved
            | NSTouchPhaseStationary
            | NSTouchPhaseEnded
            | NSTouchPhaseCancelled
            | NSTouchPhaseTouching
            | NSTouchPhaseAny
    }
}

/// The phases of a touch.
pub type NSTouchPhase = Flags<NSTouchPhaseKind>;

/// The kind of an event.
#[derive(Clone, Copy, PartialEq, Eq, Debug)]
pub enum NSEventType {
    NSLeftMouseDown,
    NSLeftMouseUp,
    NSRightMouseDown,
    NSRightMouseUp,
    NSMouseMoved,
    NSLeftMouseDragged,
    NSRightMouseDragged,
    NSMouseEntered,
    NSMouseExited,
    NSKeyDown,
    NSKeyUp,
    NSFlagsChanged,
    NSAppKitDefined,
    NSSystemDefined,
    NSApplicationDefined,
    NSPeriodic,
    NSCursorUpdate,
    NSScrollWheel,
    NSTabletPoint,
    NSTabletProximity,
    NSOtherMouseDown,
    NSOtherMouseUp,
    NSOtherMouseDragged,
    NSEventTypeGesture,
    NSEventTypeMagnify,
    NSEventTypeSwipe,
    NSEventTypeRotate,
    NSEventTypeBeginGesture,
    NSEventTypeEndGesture,
    NSEventTypePressure,
}

impl NSEventType {
    /// The number that the framework knows the value by.
    pub open spec fn spec_raw(self) -> NSUInteger {
        match self {
            NSEventType::NSLeftMouseDown => 1,
            NSEventType::NSLeftMouseUp => 2,
            NSEventType::NSRightMouseDown => 3,
            NSEventType::NSRightMouseUp => 4,
            NSEventType::NSMouseMoved => 5,
            NSEventType::NSLeftMouseDragged => 6,
            NSEventType::NSRightMouseDragged => 7,
            NSEventType::NSMouseEntered => 8,
            NSEventType::NSMouseExited => 9,
            NSEventType::NSKeyDown => 10,
            NSEventType::NSKeyUp => 11,
            NSEventType::NSFlagsChanged => 12,
            NSEventType::NSAppKitDefined => 13,
            NSEventType::NSSystemDefined => 14,
            NSEventType::NSApplicationDefined => 15,
            NSEventType::NSPeriodic => 16,
            NSEventType::NSCursorUpdate => 17,
            NSEventType::NSScrollWheel => 22,
            NSEventType::NSTabletPoint => 23,
            NSEventType::NSTabletProximity => 24,
            NSEventType::NSOtherMouseDown => 25,
            NSEventType::NSOtherMouseUp => 26,
            NSEventType::NSOtherMouseDragged => 27,
            NSEventType::NSEventTypeGesture => 29,
            NSEventType::NSEventTypeMagnify => 30,
            NSEventType::NSEventTypeSwipe => 31,
            NSEventType::NSEventTypeRotate => 18,
            NSEventType::NSEventTypeBeginGesture => 19,
            NSEventType::NSEventTypeEndGesture => 20,
            NSEventType::NSEventTypePressure => 34,
        }
    }

    #[verifier::when_used_as_spec(spec_raw)]
    pub fn raw(self) -> (raw: NSUInteger)
        ensures
            raw == self.spec_raw(),
    {
        match self {
            NSEventType::NSLeftMouseDown => 1,
            NSEventType::NSLeftMouseUp => 2,
            NSEventType::NSRightMouseDown => 3,
            NSEventType::NSRightMouseUp => 4,
            NSEventType::NSMouseMoved => 5,
            NSEventType::NSLeftMouseDragged => 6,
            NSEventType::NSRightMouseDragged => 7,
            NSEventType::NSMouseEntered => 8,
            NSEventType::NSMouseExited => 9,
            NSEventType::NSKeyDown => 10,
            NSEventType::NSKeyUp => 11,
            NSEventType::NSFlagsChanged => 12,
            NSEventType::NSAppKitDefined => 13,
            NSEventType::NSSystemDefined => 14,
            NSEventType::NSApplicationDefined => 15,
            NSEventType::NSPeriodic => 16,
            NSEventType::NSCursorUpdate => 17,
            NSEventType::NSScrollWheel => 22,
            NSEventType::NSTabletPoint => 23,
            NSEventType::NSTabletProximity => 24,
            NSEventType::NSOtherMouseDown => 25,
            NSEventType::NSOtherMouseUp => 26,
            NSEventType::NSOtherMouseDragged => 27,
            NSEventType::NSEventTypeGesture => 29,
            NSEventType::NSEventTypeMagnify => 30,
            NSEventType::NSEventTypeSwipe => 31,
            NSEventType::NSEventTypeRotate => 18,
            NSEventType::NSEventTypeBeginGesture => 19,
            NSEventType::NSEventTypeEndGesture => 20,
            NSEventType::NSEventTypePressure => 34,
        }
    }

    /// The value that the framework knows by `raw`, if there is one.
    pub fn from_raw(raw: NSUInteger) -> (r: Option<NSEventType>)
        ensures
            r matches Some(value) ==> value.spec_raw() == raw,
            r is None ==> forall|value: NSEventType| value.spec_raw() != raw,
    {
        if raw == 1 {
            Some(NSEventType::NSLeftMouseDown)
        } else if raw == 2 {
            Some(NSEventType::NSLeftMouseUp)
        } else if raw == 3 {
            Some(NSEventType::NSRightMouseDown)
        } else if raw == 4 {
            Some(NSEventType::NSRightMouseUp)
        } else if raw == 5 {
            Some(NSEventType::NSMouseMoved)
        } else if raw == 6 {
            Some(NSEventType::NSLeftMouseDragged)
        } else if raw == 7 {
            Some(NSEventType::NSRightMouseDragged)
        } else if raw == 8 {
            Some(NSEventType::NSMouseEntered)
        } else if raw == 9 {
            Some(NSEventType::NSMouseExited)
        } else if raw == 10 {
            Some(NSEventType::NSKeyDown)
        } else if raw == 11 {
            Some(NSEventType::NSKeyUp)
        } else if raw == 12 {
            Some(NSEventType::NSFlagsChanged)
        } else if raw == 13 {
            Some(NSEventType::NSAppKitDefined)
        } else if raw == 14 {
            Some(NSEventType::NSSystemDefined)
        } else if raw == 15 {
            Some(NSEventType::NSApplicationDefined)
        } else if raw == 16 {
            Some(NSEventType::NSPeriodic)
        } else if raw == 17 {
            Some(NSEventType::NSCursorUpdate)
        } else if raw == 22 {
            Some(NSEventType::NSScrollWheel)
        } else if raw == 23 {
            Some(NSEventType::NSTabletPoint)
        } else if raw == 24 {
            Some(NSEventType::NSTabletProximity)
        } else if raw == 25 {
            Some(NSEventType::NSOtherMouseDown)
        } else if raw == 26 {
            Some(NSEventType::NSOtherMouseUp)
        } else if raw == 27 {
            Some(NSEventType::NSOtherMouseDragged)
        } else if raw == 29 {
            Some(NSEventType::NSEventTypeGesture)
        } else if raw == 30 {
            Some(NSEventType::NSEventTypeMagnify)
        } else if raw == 31 {
            Some(NSEventType::NSEventTypeSwipe)
        } else if raw == 18 {
            Some(NSEventType::NSEventTypeRotate)
        } else if raw == 19 {
            Some(NSEventType::NSEventTypeBeginGesture)
        } else if raw == 20 {
            Some(NSEventType::NSEventTypeEndGesture)
        } else if raw == 34 {
            Some(NSEventType::NSEventTypePressure)
        } else {
            None
        }
    }

    /// No two values share a number.
    pub proof fn lemma_raw_injective(a: NSEventType, b: NSEventType)
        requires
            a.spec_raw() == b.spec_raw(),
        ensures
            a == b,
    {
    }
}

pub const NSLeftMouseDownMask: u64 = 0x2;

pub const NSLeftMouseUpMask: u64 = 0x4;

pub const NSRightMouseDownMask: u64 = 0x8;

pub const NSRightMouseUpMask: u64 = 0x10;

pub const NSMouseMovedMask: u64 = 0x20;

pub const NSLeftMouseDraggedMask: u64 = 0x40;

pub const NSRightMouseDraggedMask: u64 = 0x80;

pub const NSMouseEnteredMask: u64 = 0x100;

pub const NSMouseExitedMask: u64 = 0x200;

pub const NSKeyDownMask: u64 = 0x400;

pub const NSKeyUpMask: u64 = 0x800;

pub const NSFlagsChangedMask: u64 = 0x1000;

pub const NSAppKitDefinedMask: u64 = 0x2000;

pub const NSSystemDefinedMask: u64 = 0x4000;

pub const NSApplicationDefinedMask: u64 = 0x8000;

pub const NSPeriodicMask: u64 = 0x10000;

pub const NSCursorUpdateMask: u64 = 0x20000;

pub const NSScrollWheelMask: u64 = 0x400000;

pub const NSTabletPointMask: u64 = 0x800000;

pub const NSTabletProximityMask: u64 = 0x1000000;

pub const NSOtherMouseDownMask: u64 = 0x2000000;

pub const NSOtherMouseUpMask: u64 = 0x4000000;

pub const NSOtherMouseDraggedMask: u64 = 0x8000000;

pub const NSEventMaskGesture: u64 = 0x20000000;

pub const NSEventMaskSwipe: u64 = 0x80000000;

pub const NSEventMaskRotate: u64 = 0x40000;

pub const NSEventMaskBeginGesture: u64 = 0x80000;

pub const NSEventMaskEndGesture: u64 = 0x100000;

pub const NSEventMaskPressure: u64 = 0x400000000;

pub const NSAnyEventMask: u64 = 0xffffffff;

/// The family of the flags of [`NSEventMask`].
#[derive(Clone, Copy, PartialEq, Eq, Debug)]
pub struct NSEventMaskKind;

impl FlagKind for NSEventMaskKind {
    open spec fn known() -> u64 {
        NSLeftMouseDownMask
            | NSLeftMouseUpMask
            | NSRightMouseDownMask
            | NSRightMouseUpMask
            | NSMouseMovedMask
            | NSLeftMouseDraggedMask
            | NSRightMouseDraggedMask
            | NSMouseEnteredMask
            | NSMouseExitedMask
            | NSKeyDownMask
            | NSKeyUpMask
            | NSFlagsChangedMask
            | NSAppKitDefinedMask
            | NSSystemDefinedMask
            | NSApplicationDefinedMask
            | NSPeriodicMask
            | NSCursorUpdateMask
            | NSScrollWheelMask
            | NSTabletPointMask
            | NSTabletProximityMask
            | NSOtherMouseDownMask
            | NSOtherMouseUpMask
            | NSOtherMouseDraggedMask
            | NSEventMaskGesture
            | NSEventMaskSwipe
            | NSEventMaskRotate
            | NSEventMaskBeginGesture
            | NSEventMaskEndGesture
            | NSEventMaskPressure
            | NSAnyEventMask
    }

    fn known_bits() -> (bits: u64) {
        NSLeftMouseDownMask
            | NSLeftMouseUpMask
            | NSRightMouseDownMask
            | NSRightMouseUpMask
            | NSMouseMovedMask
            | NSLeftMouseDraggedMask
            | NSRightMouseDraggedMask
            | NSMouseEnteredMask
            | NSMouseExitedMask
            | NSKeyDownMask
            | NSKeyUpMask
            | NSFlagsChangedMask
            | NSAppKitDefinedMask
            | NSSystemDefinedMask
            | NSApplicationDefinedMask
            | NSPeriodicMask
            | NSCursorUpdateMask
            | NSScrollWheelMask
            | NSTabletPointMask
            | NSTabletProximityMask
            | NSOtherMouseDownMask
            | NSOtherMouseUpMask
            | NSOtherMouseDraggedMask
            | NSEventMaskGesture
            | NSEventMaskSwipe
            | NSEventMaskRotate
            | NSEventMaskBeginGesture
            | NSEventMaskEndGesture
            | NSEventMaskPressure
            | NSAnyEventMask
    }
}

/// A set of kinds of events: the kind with the number `n` is bit `n`.
pub type NSEventMask = Flags<NSEventMaskKind>;

proof fn lemma_kind_bit_is_named(n: u64)
    by (bit_vector)
    requires
        1 <= n <= 34,
        n != 21,
        n != 28,
        n != 32,
        n != 33,
    ensures
        (1u64 << n) & 0x4_ffff_ffffu64 == 1u64 << n,
{
}

impl NSEventMask {
    /// The set that holds the one kind `ty`. Its one flag has a name.
    pub fn from_type(ty: NSEventType) -> (mask: NSEventMask)
        ensures
            mask.bits == 1u64 << ty.spec_raw(),
            mask@ == set![ty.spec_raw() as nat],
            mask@.subset_of(Self::named()),
    {
        proof {
            let bits = 1u64 << ty.spec_raw();
            lemma_members_one_bit(ty.spec_raw());
            lemma_kind_bit_is_named(ty.spec_raw());
            assert(NSEventMaskKind::known() == 0x4_ffff_ffffu64) by (bit_vector);
            lemma_members_subset(NSEventMaskKind::known(), bits);
            assert(NSEventMaskKind::known() & bits == bits & NSEventMaskKind::known()) by (bit_vector);
        }
        Flags { bits: 1u64 << ty.raw(), kind: PhantomData }
    }
}

pub const NSAlphaShiftKeyMask: u64 = 0x10000;

pub const NSShiftKeyMask: u64 = 0x20000;

pub const NSControlKeyMask: u64 = 0x40000;

pub const NSAlternateKeyMask: u64 = 0x80000;

pub const NSCommandKeyMask: u64 = 0x100000;

pub const NSNumericPadKeyMask: u64 = 0x200000;

pub const NSHelpKeyMask: u64 = 0x400000;

pub const NSFunctionKeyMask: u64 = 0x800000;

pub const NSDeviceIndependentModifierFlagsMask: u64 = 0xffff0000;

/// The family of the flags of [`NSEventModifierFlags`].
#[derive(Clone, Copy, PartialEq, Eq, Debug)]
pub struct NSEventModifierFlagsKind;

impl FlagKind for NSEventModifierFlagsKind {
    open spec fn known() -> u64 {
        NSAlphaShiftKeyMask
            | NSShiftKeyMask
            | NSControlKeyMask
            | NSAlternateKeyMask
            | NSCommandKeyMask
            | NSNumericPadKeyMask
            | NSHelpKeyMask
            | NSFunctionKeyMask
            | NSDeviceIndependentModifierFlagsMask
    }

    fn known_bits() -> (bits: u64) {
        NSAlphaShiftKeyMask
            | NSShiftKeyMask
            | NSControlKeyMask
            | NSAlternateKeyMask
            | NSCommandKeyMask
            | NSNumericPadKeyMask
            | NSHelpKeyMask
            | NSFunctionKeyMask
            | NSDeviceIndependentModifierFlagsMask
    }
}

/// The modifier keys that are down.
pub type NSEventModifierFlags = Flags<NSEventModifierFlagsKind>;

/// The subkind of an event that the application kit or the system defines.
#[derive(Clone, Copy, PartialEq, Eq, Debug)]
pub enum NSEventSubtype {
    NSWindowExposedEventType,
    NSApplicationActivatedEventType,
    NSApplicationDeactivatedEventType,
    NSWindowMovedEventType,
    NSScreenChangedEventType,
    NSAWTEventType,
}

impl NSEventSubtype {
    /// The number that the framework knows the value by.
    pub open spec fn spec_raw(self) -> libc::c_short {
        match self {
            NSEventSubtype::NSWindowExposedEventType => 0,
            NSEventSubtype::NSApplicationActivatedEventType => 1,
            NSEventSubtype::NSApplicationDeactivatedEventType => 2,
            NSEventSubtype::NSWindowMovedEventType => 4,
            NSEventSubtype::NSScreenChangedEventType => 8,
            NSEventSubtype::NSAWTEventType => 16,
        }
    }

    #[verifier::when_used_as_spec(spec_raw)]
    pub fn raw(self) -> (raw: libc::c_short)
        ensures
            raw == self.spec_raw(),
    {
        match self {
            NSEventSubtype::NSWindowExposedEventType => 0,
            NSEventSubtype::NSApplicationActivatedEventType => 1,
            NSEventSubtype::NSApplicationDeactivatedEventType => 2,
            NSEventSubtype::NSWindowMovedEventType => 4,
            NSEventSubtype::NSScreenChangedEventType => 8,
            NSEventSubtype::NSAWTEventType => 16,
        }
    }

    /// The value that the framework knows by `raw`, if there is one.
    pub fn from_raw(raw: libc::c_short) -> (r: Option<NSEventSubtype>)
        ensures
            r matches Some(value) ==> value.spec_raw() == raw,
            r is None ==> forall|value: NSEventSubtype| value.spec_raw() != raw,
    {
        if raw == 0 {
            Some(NSEventSubtype::NSWindowExposedEventType)
        } else if raw == 1 {
            Some(NSEventSubtype::NSApplicationActivatedEventType)
        } else if raw == 2 {
            Some(NSEventSubtype::NSApplicationDeactivatedEventType)
        } else if raw == 4 {
            Some(NSEventSubtype::NSWindowMovedEventType)
        } else if raw == 8 {
            Some(NSEventSubtype::NSScreenChangedEventType)
        } else if raw == 16 {
            Some(NSEventSubtype::NSAWTEventType)
        } else {
            None
        }
    }

    /// No two values share a number.
    pub proof fn lemma_raw_injective(a: NSEventSubtype, b: NSEventSubtype)
        requires
            a.spec_raw() == b.spec_raw(),
        ensures
            a == b,
    {
    }
}

pub const NSUpArrowFunctionKey: libc::c_ushort = 0xF700;

pub const NSDownArrowFunctionKey: libc::c_ushort = 0xF701;

pub const NSLeftArrowFunctionKey: libc::c_ushort = 0xF702;

pub const NSRightArrowFunctionKey: libc::c_ushort = 0xF703;

pub const NSF1FunctionKey: libc::c_ushort = 0xF704;

pub const NSF2FunctionKey: libc::c_ushort = 0xF705;

pub const NSF3FunctionKey: libc::c_ushort = 0xF706;

pub const NSF4FunctionKey: libc::c_ushort = 0xF707;

pub const NSF5FunctionKey: libc::c_ushort = 0xF708;

pub const NSF6FunctionKey: libc::c_ushort = 0xF709;

pub const NSF7FunctionKey: libc::c_ushort = 0xF70A;

pub const NSF8FunctionKey: libc::c_ushort = 0xF70B;

pub const NSF9FunctionKey: libc::c_ushort = 0xF70C;

pub const NSF10FunctionKey: libc::c_ushort = 0xF70D;

pub const NSF11FunctionKey: libc::c_ushort = 0xF70E;

pub const NSF12FunctionKey: libc::c_ushort = 0xF70F;

pub const NSF13FunctionKey: libc::c_ushort = 0xF710;

pub const NSF14FunctionKey: libc::c_ushort = 0xF711;

pub const NSF15FunctionKey: libc::c_ushort = 0xF712;

pub const NSF16FunctionKey: libc::c_ushort = 0xF713;

pub const NSF17FunctionKey: libc::c_ushort = 0xF714;

pub const NSF18FunctionKey: libc::c_ushort = 0xF715;

pub const NSF19FunctionKey: libc::c_ushort = 0xF716;

pub const NSF20FunctionKey: libc::c_ushort = 0xF717;

pub const NSF21FunctionKey: libc::c_ushort = 0xF718;

pub const NSF22FunctionKey: libc::c_ushort = 0xF719;

pub const NSF23FunctionKey: libc::c_ushort = 0xF71A;

pub const NSF24FunctionKey: libc::c_ushort = 0xF71B;

pub const NSF25FunctionKey: libc::c_ushort = 0xF71C;

pub const NSF26FunctionKey: libc::c_ushort = 0xF71D;

pub const NSF27FunctionKey: libc::c_ushort = 0xF71E;

pub const NSF28FunctionKey: libc::c_ushort = 0xF71F;

pub const NSF29FunctionKey: libc::c_ushort = 0xF720;

pub const NSF30FunctionKey: libc::c_ushort = 0xF721;

pub const NSF31FunctionKey: libc::c_ushort = 0xF722;

pub const NSF32FunctionKey: libc::c_ushort = 0xF723;

pub const NSF33FunctionKey: libc::c_ushort = 0xF724;

pub const NSF34FunctionKey: libc::c_ushort = 0xF725;

pub const NSF35FunctionKey: libc::c_ushort = 0xF726;

pub const NSInsertFunctionKey: libc::c_ushort = 0xF727;

pub const NSDeleteFunctionKey: libc::c_ushort = 0xF728;

pub const NSHomeFunctionKey: libc::c_ushort = 0xF729;

pub const NSBeginFunctionKey: libc::c_ushort = 0xF72A;

pub const NSEndFunctionKey: libc::c_ushort = 0xF72B;

pub const NSPageUpFunctionKey: libc::c_ushort = 0xF72C;

pub const NSPageDownFunctionKey: libc::c_ushort = 0xF72D;

pub const NSPrintScreenFunctionKey: libc::c_ushort = 0xF72E;

pub const NSScrollLockFunctionKey: libc::c_ushort = 0xF72F;

pub const NSPauseFunctionKey: libc::c_ushort = 0xF730;

pub const NSSysReqFunctionKey: libc::c_ushort = 0xF731;

pub const NSBreakFunctionKey: libc::c_ushort = 0xF732;

pub const NSResetFunctionKey: libc::c_ushort = 0xF733;

pub const NSStopFunctionKey: libc::c_ushort = 0xF734;

pub const NSMenuFunctionKey: libc::c_ushort = 0xF735;

pub const NSUserFunctionKey: libc::c_ushort = 0xF736;

pub const NSSystemFunctionKey: libc::c_ushort = 0xF737;

pub const NSPrintFunctionKey: libc::c_ushort = 0xF738;

pub const NSClearLineFunctionKey: libc::c_ushort = 0xF739;

pub const NSClearDisplayFunctionKey: libc::c_ushort = 0xF73A;

pub const NSInsertLineFunctionKey: libc::c_ushort = 0xF73B;

pub const NSDeleteLineFunctionKey: libc::c_ushort = 0xF73C;

pub const NSInsertCharFunctionKey: libc::c_ushort = 0xF73D;

pub const NSDeleteCharFunctionKey: libc::c_ushort = 0xF73E;

pub const NSPrevFunctionKey: libc::c_ushort = 0xF73F;

pub const NSNextFunctionKey: libc::c_ushort = 0xF740;

pub const NSSelectFunctionKey: libc::c_ushort = 0xF741;

pub const NSExecuteFunctionKey: libc::c_ushort = 0xF742;

pub const NSUndoFunctionKey: libc::c_ushort = 0xF743;

pub const NSRedoFunctionKey: libc::c_ushort = 0xF744;

pub const NSFindFunctionKey: libc::c_ushort = 0xF745;

pub const NSHelpFunctionKey: libc::c_ushort = 0xF746;

pub const NSModeSwitchFunctionKey: libc::c_ushort = 0xF747;

/// The tag of the class `NSEvent`.
pub enum NSEventPrototype {
    NSEvent,
}

pub type NSEvent = id<(NSEventPrototype, (NSObjectPrototype, ()))>;

/// The tag of the class `NSScreen`.
pub enum NSScreenPrototype {
    NSScreen,
}

pub type NSScreen = id<(NSScreenPrototype, (NSObjectPrototype, ()))>;

/// The tag of the class `NSButton`.
pub enum NSButtonPrototype {
    NSButton,
}

pub type NSButton = id<(NSButtonPrototype, (NSObjectPrototype, ()))>;

/// The tag of the class `NSImage`.
pub enum NSImagePrototype {
    NSImage,
}

pub type NSImage = id<(NSImagePrototype, (NSObjectPrototype, ()))>;

/// The tag of the class `NSStatusItem`.
pub enum NSStatusItemPrototype {
    NSStatusItem,
}

pub type NSStatusItem = id<(NSStatusItemPrototype, (NSObjectPrototype, ()))>;

/// The tag of the class `NSStatusBar`.
pub enum NSStatusBarPrototype {
    NSStatusBar,
}

pub type NSStatusBar = id<(NSStatusBarPrototype, (NSObjectPrototype, ()))>;

/// The tag of the class `NSColor`.
pub enum NSColorPrototype {
    NSColor,
}

pub type NSColor = id<(NSColorPrototype, (NSObjectPrototype, ()))>;

/// The tag of the class `NSColorSpace`.
pub enum NSColorSpacePrototype {
    NSColorSpace,
}

pub type NSColorSpace = id<(NSColorSpacePrototype, (NSObjectPrototype, ()))>;

/// The tag of the class `NSGraphicsContext`.
pub enum NSGraphicsContextPrototype {
    NSGraphicsContext,
}

pub type NSGraphicsContext = id<(NSGraphicsContextPrototype, (NSObjectPrototype, ()))>;

/// The tag of the class `NSDrawer`.
pub enum NSDrawerPrototype {
    NSDrawer,
}

pub type NSDrawer = id<(NSDrawerPrototype, (NSObjectPrototype, ()))>;

/// The tag of the class `NSStatusBarButton`.
pub enum NSStatusBarButtonPrototype {
    NSStatusBarButton,
}

pub type NSStatusBarButton = id<(NSStatusBarButtonPrototype, (NSViewPrototype, (NSObjectPrototype, ())))>;

/// The tag of the class `NSURL`.
pub enum NSURLPrototype {
    NSURL,
}

pub type NSURL = id<(NSURLPrototype, (NSObjectPrototype, ()))>;

/// The tag of the class `NSTrackingArea`.
pub enum NSTrackingAreaPrototype {
    NSTrackingArea,
}

pub type NSTrackingArea = id<(NSTrackingAreaPrototype, (NSObjectPrototype, ()))>;

/// The tag of the class `NSTouch`.
pub enum NSTouchPrototype {
    NSTouch,
}

pub type NSTouch = id<(NSTouchPrototype, (NSObjectPrototype, ()))>;

} // verus!
