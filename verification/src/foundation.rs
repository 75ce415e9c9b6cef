use crate::base::id;
use std::marker::PhantomData;
use vstd::bytes::{
    lemma_auto_spec_u64_to_from_le_bytes, spec_u64_from_le_bytes, spec_u64_to_le_bytes,
    u64_from_le_bytes, u64_to_le_bytes,
};
use vstd::prelude::*;
use vstd::slice::slice_subrange;
use vstd::string::StringExecFns;

verus! {

pub type NSInteger = libc::c_long;

pub type NSUInteger = libc::c_ulong;

/// A point of the plane.
///
/// Each coordinate is the bit pattern of a 64-bit IEEE 754 number: the
/// library carries coordinates and never computes with them.
#[derive(Clone, Copy, PartialEq, Eq, Debug)]
pub struct NSPoint {
    pub x: u64,
    pub y: u64,
}

impl NSPoint {
    #[inline]
    pub fn new(x: u64, y: u64) -> (p: NSPoint)
        ensures
            p.x == x,
            p.y == y,
    {
        NSPoint { x: x, y: y }
    }

    /// The type code of a point whose coordinates have the type code `field`.
    pub open spec fn spec_encode(field: Seq<char>) -> Seq<char> {
        "{CGPoint="@ + field + field + "}"@
    }

    /// The type code of a point whose coordinates have the type code `field`:
    /// the framework's name of the structure, then the code of each field.
    pub fn encode(field: &str) -> (code: String)
        ensures
            code@ == Self::spec_encode(field@),
    {
        let mut code = String::from_str("{CGPoint=");
        code.append(field);
        code.append(field);
        code.append("}");
        code
    }

    /// The 16 bytes of the point as the framework lays it out: `x`, then `y`,
    /// each with its least significant byte first.
    pub open spec fn layout(self) -> Seq<u8> {
        spec_u64_to_le_bytes(self.x) + spec_u64_to_le_bytes(self.y)
    }

    /// The point that the bytes lay out, if they are 16.
    pub open spec fn parse(bytes: Seq<u8>) -> Option<NSPoint> {
        if bytes.len() == 16 {
            Some(
                NSPoint {
                    x: spec_u64_from_le_bytes(bytes.subrange(0, 8)),
                    y: spec_u64_from_le_bytes(bytes.subrange(8, 16)),
                },
            )
        } else {
            None
        }
    }

    pub fn to_bytes(&self) -> (bytes: Vec<u8>)
        ensures
            bytes@ == self.layout(),
    {
        let mut bytes = u64_to_le_bytes(self.x);
        let mut rest = u64_to_le_bytes(self.y);
        bytes.append(&mut rest);
        bytes
    }

    pub fn from_bytes(bytes: &[u8]) -> (r: Option<NSPoint>)
        ensures
            r == Self::parse(bytes@),
    {
        if bytes.len() != 16 {
            return None;
        }
        let x = u64_from_le_bytes(slice_subrange(bytes, 0, 8));
        let y = u64_from_le_bytes(slice_subrange(bytes, 8, 16));
        Some(NSPoint { x, y })
    }

    /// Laying a point out and reading the bytes back gives the point, bit for bit.
    pub proof fn lemma_layout_round_trip(self)
        ensures
            self.layout().len() == 16,
            Self::parse(self.layout()) == Some(self),
    {
        lemma_auto_spec_u64_to_from_le_bytes();
        let bytes = self.layout();
        assert(bytes.subrange(0, 8) =~= spec_u64_to_le_bytes(self.x));
        assert(bytes.subrange(8, 16) =~= spec_u64_to_le_bytes(self.y));
    }

    /// Any 16 bytes are the layout of the point that they are read as.
    pub proof fn lemma_parse_layout(bytes: Seq<u8>)
        requires
            bytes.len() == 16,
        ensures
            Self::parse(bytes) matches Some(p) && p.layout() == bytes,
    {
        lemma_auto_spec_u64_to_from_le_bytes();
        let p = Self::parse(bytes)->Some_0;
        assert(p.layout() =~= bytes.subrange(0, 8) + bytes.subrange(8, 16));
        assert(bytes.subrange(0, 8) + bytes.subrange(8, 16) =~= bytes);
    }
}

/// An extent in the plane; `width` and `height` are bit patterns as in
/// [`NSPoint`].
#[derive(Clone, Copy, PartialEq, Eq, Debug)]
pub struct NSSize {
    pub width: u64,
    pub height: u64,
}

impl NSSize {
    #[inline]
    pub fn new(width: u64, height: u64) -> (s: NSSize)
        ensures
            s.width == width,
            s.height == height,
    {
        NSSize { width: width, height: height }
    }

    /// The type code of a size whose fields have the type code `field`.
    pub open spec fn spec_encode(field: Seq<char>) -> Seq<char> {
        "{CGSize="@ + field + field + "}"@
    }

    /// The type code of a size whose fields have the type code `field`.
    pub fn encode(field: &str) -> (code: String)
        ensures
            code@ == Self::spec_encode(field@),
    {
        let mut code = String::from_str("{CGSize=");
        code.append(field);
        code.append(field);
        code.append("}");
        code
    }

    /// The 16 bytes of the size as the framework lays it out: `width`, then
    /// `height`, each with its least significant byte first.
    pub open spec fn layout(self) -> Seq<u8> {
        spec_u64_to_le_bytes(self.width) + spec_u64_to_le_bytes(self.height)
    }

    /// The size that the bytes lay out, if they are 16.
    pub open spec fn parse(bytes: Seq<u8>) -> Option<NSSize> {
        if bytes.len() == 16 {
            Some(
                NSSize {
                    width: spec_u64_from_le_bytes(bytes.subrange(0, 8)),
                    height: spec_u64_from_le_bytes(bytes.subrange(8, 16)),
                },
            )
        } else {
            None
        }
    }

    pub fn to_bytes(&self) -> (bytes: Vec<u8>)
        ensures
            bytes@ == self.layout(),
    {
        let mut bytes = u64_to_le_bytes(self.width);
        let mut rest = u64_to_le_bytes(self.height);
        bytes.append(&mut rest);
        bytes
    }

    pub fn from_bytes(bytes: &[u8]) -> (r: Option<NSSize>)
        ensures
            r == Self::parse(bytes@),
    {
        if bytes.len() != 16 {
            return None;
        }
        let width = u64_from_le_bytes(slice_subrange(bytes, 0, 8));
        let height = u64_from_le_bytes(slice_subrange(bytes, 8, 16));
        Some(NSSize { width, height })
    }

    /// Laying a size out and reading the bytes back gives the size, bit for bit.
    pub proof fn lemma_layout_round_trip(self)
        ensures
            self.layout().len() == 16,
            Self::parse(self.layout()) == Some(self),
    {
        lemma_auto_spec_u64_to_from_le_bytes();
        let bytes = self.layout();
        assert(bytes.subrange(0, 8) =~= spec_u64_to_le_bytes(self.width));
        assert(bytes.subrange(8, 16) =~= spec_u64_to_le_bytes(self.height));
    }

    /// Any 16 bytes are the layout of the size that they are read as.
    pub proof fn lemma_parse_layout(bytes: Seq<u8>)
        requires
            bytes.len() == 16,
        ensures
            Self::parse(bytes) matches Some(s) && s.layout() == bytes,
    {
        lemma_auto_spec_u64_to_from_le_bytes();
        let s = Self::parse(bytes)->Some_0;
        assert(s.layout() =~= bytes.subrange(0, 8) + bytes.subrange(8, 16));
        assert(bytes.subrange(0, 8) + bytes.subrange(8, 16) =~= bytes);
    }
}

/// A rectangle: its origin and its extent.
#[derive(Clone, Copy, PartialEq, Eq, Debug)]
pub struct NSRect {
    pub origin: NSPoint,
    pub size: NSSize,
}

impl NSRect {
    #[inline]
    pub fn new(origin: NSPoint, size: NSSize) -> (r: NSRect)
        ensures
            r.origin == origin,
            r.size == size,
    {
        NSRect { origin: origin, size: size }
    }

    /// The type code of a rectangle whose numbers have the type code `field`.
    pub open spec fn spec_encode(field: Seq<char>) -> Seq<char> {
        "{CGRect="@ + NSPoint::spec_encode(field) + NSSize::spec_encode(field) + "}"@
    }

    /// The type code of a rectangle whose numbers have the type code `field`:
    /// the framework's name of the structure, then the codes of the origin
    /// and of the size.
    pub fn encode(field: &str) -> (code: String)
        ensures
            code@ == Self::spec_encode(field@),
    {
        let origin = NSPoint::encode(field);
        let size = NSSize::encode(field);
        let mut code = String::from_str("{CGRect=");
        code.append(origin.as_str());
        code.append(size.as_str());
        code.append("}");
        code
    }

    /// The 32 bytes of the rectangle as the framework lays it out: the
    /// origin, then the size.
    pub open spec fn layout(self) -> Seq<u8> {
        self.origin.layout() + self.size.layout()
    }

    /// The rectangle that the bytes lay out, if they are 32.
    pub open spec fn parse(bytes: Seq<u8>) -> Option<NSRect> {
        if bytes.len() == 32 {
            Some(
                NSRect {
                    origin: NSPoint::parse(bytes.subrange(0, 16))->Some_0,
                    size: NSSize::parse(bytes.subrange(16, 32))->Some_0,
                },
            )
        } else {
            None
        }
    }

    pub fn to_bytes(&self) -> (bytes: Vec<u8>)
        ensures
            bytes@ == self.layout(),
    {
        let mut bytes = self.origin.to_bytes();
        let mut rest = self.size.to_bytes();
        bytes.append(&mut rest);
        bytes
    }

    pub fn from_bytes(bytes: &[u8]) -> (r: Option<NSRect>)
        ensures
            r == Self::parse(bytes@),
    {
        if bytes.len() != 32 {
            return None;
        }
        let origin = NSPoint::from_bytes(slice_subrange(bytes, 0, 16));
        let size = NSSize::from_bytes(slice_subrange(bytes, 16, 32));
        match (origin, size) {
            (Some(origin), Some(size)) => Some(NSRect { origin, size }),
            _ => None,
        }
    }

    /// Laying a rectangle out and reading the bytes back gives the rectangle,
    /// bit for bit.
    pub proof fn lemma_layout_round_trip(self)
        ensures
            self.layout().len() == 32,
            Self::parse(self.layout()) == Some(self),
    {
        self.origin.lemma_layout_round_trip();
        self.size.lemma_layout_round_trip();
        let bytes = self.layout();
        assert(bytes.subrange(0, 16) =~= self.origin.layout());
        assert(bytes.subrange(16, 32) =~= self.size.layout());
    }

    /// Any 32 bytes are the layout of the rectangle that they are read as.
    pub proof fn lemma_parse_layout(bytes: Seq<u8>)
        requires
            bytes.len() == 32,
        ensures
            Self::parse(bytes) matches Some(r) && r.layout() == bytes,
    {
        NSPoint::lemma_parse_layout(bytes.subrange(0, 16));
        NSSize::lemma_parse_layout(bytes.subrange(16, 32));
        assert(bytes.subrange(0, 16) + bytes.subrange(16, 32) =~= bytes);
    }
}

/// A run of `length` items that starts at `location`.
#[derive(Clone, Copy, PartialEq, Eq, Debug)]
pub struct NSRange {
    pub location: NSUInteger,
    pub length: NSUInteger,
}

impl NSRange {
    #[inline]
    pub fn new(location: NSUInteger, length: NSUInteger) -> (r: NSRange)
        ensures
            r.location == location,
            r.length == length,
    {
        NSRange { location: location, length: length }
    }
}

/// A side of a rectangle.
#[derive(Clone, Copy, PartialEq, Eq, Debug)]
pub enum NSRectEdge {
    NSRectMinXEdge,
    NSRectMinYEdge,
    NSRectMaxXEdge,
    NSRectMaxYEdge,
}

impl NSRectEdge {
    /// The number that the framework knows the side by.
    pub open spec fn spec_raw(self) -> u32 {
        match self {
            NSRectEdge::NSRectMinXEdge => 0,
            NSRectEdge::NSRectMinYEdge => 1,
            NSRectEdge::NSRectMaxXEdge => 2,
            NSRectEdge::NSRectMaxYEdge => 3,
        }
    }

    #[verifier::when_used_as_spec(spec_raw)]
    pub fn raw(self) -> (raw: u32)
        ensures
            raw == self.spec_raw(),
    {
        match self {
            NSRectEdge::NSRectMinXEdge => 0,
            NSRectEdge::NSRectMinYEdge => 1,
            NSRectEdge::NSRectMaxXEdge => 2,
            NSRectEdge::NSRectMaxYEdge => 3,
        }
    }
}

pub enum NSObjectPrototype {
    NSObject,
}

pub type NSObject = id<(NSObjectPrototype, ())>;

pub enum NSAutoreleasePoolPrototype {
    NSAutoreleasePool,
}

pub type NSAutoreleasePool = id<(NSAutoreleasePoolPrototype, (NSObjectPrototype, ()))>;

/// Runs `body` inside a scoped release region.
///
/// `enter` opens the region and hands back its pool, `exit` drains and
/// releases that pool. Whatever way `body` returns, `exit` then runs on the
/// pool that `enter` gave, and it cannot run a second time: it is consumed by
/// the call.
pub fn autorelease<P, R, E: FnOnce() -> P, B: FnOnce() -> R, X: FnOnce(P)>(
    enter: E,
    body: B,
    exit: X,
) -> (r: R)
    requires
        enter.requires(()),
        body.requires(()),
        forall|pool: P| enter.ensures((), pool) ==> exit.requires((pool,)),
    ensures
        body.ensures((), r),
        exists|pool: P| enter.ensures((), pool) && exit.ensures((pool,), ()),
{
    let pool = enter();
    let r = body();
    exit(pool);
    r
}

pub enum NSProcessInfoPrototype {
    NSProcessInfo,
}

pub type NSProcessInfo = id<(NSProcessInfoPrototype, (NSObjectPrototype, ()))>;

pub enum NSValuePrototype {
    NSValue,
}

pub type NSValue = id<(NSValuePrototype, (NSObjectPrototype, ()))>;

pub struct NSArrayPrototype<T> {
    _phantom: PhantomData<T>,
}

pub type NSArray<T> = id<(NSArrayPrototype<T>, (NSObjectPrototype, ()))>;

pub struct NSDictionaryPrototype<K, V> {
    _phantom: PhantomData<(K, V)>,
}

pub type NSDictionary<K, V> = id<(NSDictionaryPrototype<K, V>, (NSObjectPrototype, ()))>;

pub struct NSSetPrototype<T> {
    _phantom: PhantomData<T>,
}

pub type NSSet<T> = id<(NSSetPrototype<T>, (NSObjectPrototype, ()))>;

pub enum NSStringPrototype {
    NSString,
}

pub type NSString = id<(NSStringPrototype, (NSObjectPrototype, ()))>;

pub enum NSDatePrototype {
    NSDate,
}

pub type NSDate = id<(NSDatePrototype, (NSObjectPrototype, ()))>;

} // verus!
