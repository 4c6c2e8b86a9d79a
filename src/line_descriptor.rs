//! Owning wrappers of the line-descriptor module's native objects, and its plain types.
//!
//! Lines are detected and their binary descriptors computed and matched on the native side;
//! what this module holds is the ownership of those native objects and how they cross the
//! boundary.
use vstd::prelude::*;

use crate::boxed::{Boxed, RawHandle};
use crate::error::Error;
use crate::opencv_type::{OpenCVType, OpenCVTypeArg, OpenCVTypeExternContainer};

verus! {

/// Output image matrix will be created, i.e. existing memory of the output image may be
/// reused. Two source images, matches, and single keylines will be drawn.
pub const DrawLinesMatchesFlags_DEFAULT: i32 = 0;

/// Output image matrix will not be created. Matches will be drawn on the existing content of
/// the output image.
pub const DrawLinesMatchesFlags_DRAW_OVER_OUTIMG: i32 = 1;

/// Single keylines will not be drawn.
pub const DrawLinesMatchesFlags_NOT_DRAW_SINGLE_LINES: i32 = 2;

pub type uint16 = u16;

pub type uint32 = u32;

pub type uint64 = u64;

pub type uint8 = u8;

/// Detects lines in an image and computes their binary descriptors.
#[derive(Debug)]
pub struct BinaryDescriptor {
    ptr: RawHandle,
}

impl Boxed for BinaryDescriptor {
    closed spec fn handle(&self) -> RawHandle {
        self.ptr
    }

    fn from_raw(h: RawHandle) -> (r: BinaryDescriptor) {
        BinaryDescriptor { ptr: h }
    }

    fn into_raw(self) -> (r: RawHandle) {
        self.ptr
    }

    fn as_raw(&self) -> (r: RawHandle) {
        self.ptr
    }

    fn as_raw_mut(&mut self) -> (r: RawHandle) {
        self.ptr
    }
}

impl BinaryDescriptor {
    pub fn as_raw_BinaryDescriptor(&self) -> (r: RawHandle)
        ensures
            r == self.handle(),
    {
        self.as_raw()
    }

    pub fn as_raw_mut_BinaryDescriptor(&mut self) -> (r: RawHandle)
        ensures
            r == old(self).handle(),
            final(self).handle() == old(self).handle(),
    {
        self.as_raw_mut()
    }
}

/// What every owner of a native `BinaryDescriptor` lends to the calls that use it.
pub trait BinaryDescriptorTrait: Boxed {
    fn as_raw_BinaryDescriptor(&self) -> (r: RawHandle)
        ensures
            r == self.handle(),
    ;

    fn as_raw_mut_BinaryDescriptor(&mut self) -> (r: RawHandle)
        ensures
            r == old(self).handle(),
            final(self).handle() == old(self).handle(),
    ;
}

impl BinaryDescriptorTrait for BinaryDescriptor {
    fn as_raw_BinaryDescriptor(&self) -> (r: RawHandle) {
        self.as_raw()
    }

    fn as_raw_mut_BinaryDescriptor(&mut self) -> (r: RawHandle) {
        self.as_raw_mut()
    }
}

/// A native factory returns the handle of a new `BinaryDescriptor`, whose ownership it hands over.
impl<'a> OpenCVType<'a> for BinaryDescriptor {
    type Arg = BinaryDescriptor;
    type ExternReceive = RawHandle;

    open spec fn extern_valid(s: RawHandle) -> bool {
        true
    }

    open spec fn received_from(v: BinaryDescriptor, s: RawHandle) -> bool {
        v.handle() == s
    }

    fn opencv_from_extern(s: RawHandle) -> (r: BinaryDescriptor) {
        BinaryDescriptor::from_raw(s)
    }
}

impl<'a> OpenCVTypeArg<'a> for BinaryDescriptor {
    type ExternContainer = BinaryDescriptor;

    open spec fn representable(self) -> bool {
        true
    }

    open spec fn contained_in(self, c: BinaryDescriptor) -> bool {
        c.handle() == self.handle()
    }

    fn opencv_into_extern_container(self) -> (r: Result<BinaryDescriptor, Error>) {
        Ok(self)
    }

    fn opencv_into_extern_container_nofail(self) -> (r: BinaryDescriptor) {
        self
    }
}

/// Calls are shown the handle; one that takes the object over takes the handle with it.
impl<'a> OpenCVTypeExternContainer<'a> for BinaryDescriptor {
    type ExternSend = RawHandle;
    type ExternSendMut = RawHandle;

    open spec fn sends(&self, s: RawHandle) -> bool {
        s == self.handle()
    }

    open spec fn sends_mut(&self, s: RawHandle) -> bool {
        s == self.handle()
    }

    open spec fn transferable(&self) -> bool {
        true
    }

    fn opencv_as_extern(&'a self) -> (r: RawHandle) {
        self.as_raw()
    }

    fn opencv_as_extern_mut(&'a mut self) -> (r: RawHandle) {
        self.as_raw_mut()
    }

    fn opencv_into_extern(self) -> (r: RawHandle) {
        self.into_raw()
    }
}

/// Parameters of a `BinaryDescriptor`: octaves, band width, reduction ratio, kernel size.
#[derive(Debug)]
pub struct BinaryDescriptor_Params {
    ptr: RawHandle,
}

impl Boxed for BinaryDescriptor_Params {
    closed spec fn handle(&self) -> RawHandle {
        self.ptr
    }

    fn from_raw(h: RawHandle) -> (r: BinaryDescriptor_Params) {
        BinaryDescriptor_Params { ptr: h }
    }

    fn into_raw(self) -> (r: RawHandle) {
        self.ptr
    }

    fn as_raw(&self) -> (r: RawHandle) {
        self.ptr
    }

    fn as_raw_mut(&mut self) -> (r: RawHandle) {
        self.ptr
    }
}

impl BinaryDescriptor_Params {
    pub fn as_raw_BinaryDescriptor_Params(&self) -> (r: RawHandle)
        ensures
            r == self.handle(),
    {
        self.as_raw()
    }

    pub fn as_raw_mut_BinaryDescriptor_Params(&mut self) -> (r: RawHandle)
        ensures
            r == old(self).handle(),
            final(self).handle() == old(self).handle(),
    {
        self.as_raw_mut()
    }
}

/// What every owner of a native `BinaryDescriptor_Params` lends to the calls that use it.
pub trait BinaryDescriptor_ParamsTrait: Boxed {
    fn as_raw_BinaryDescriptor_Params(&self) -> (r: RawHandle)
        ensures
            r == self.handle(),
    ;

    fn as_raw_mut_BinaryDescriptor_Params(&mut self) -> (r: RawHandle)
        ensures
            r == old(self).handle(),
            final(self).handle() == old(self).handle(),
    ;
}

impl BinaryDescriptor_ParamsTrait for BinaryDescriptor_Params {
    fn as_raw_BinaryDescriptor_Params(&self) -> (r: RawHandle) {
        self.as_raw()
    }

    fn as_raw_mut_BinaryDescriptor_Params(&mut self) -> (r: RawHandle) {
        self.as_raw_mut()
    }
}

/// A native factory returns the handle of a new `BinaryDescriptor_Params`, whose ownership it hands over.
impl<'a> OpenCVType<'a> for BinaryDescriptor_Params {
    type Arg = BinaryDescriptor_Params;
    type ExternReceive = RawHandle;

    open spec fn extern_valid(s: RawHandle) -> bool {
        true
    }

    open spec fn received_from(v: BinaryDescriptor_Params, s: RawHandle) -> bool {
        v.handle() == s
    }

    fn opencv_from_extern(s: RawHandle) -> (r: BinaryDescriptor_Params) {
        BinaryDescriptor_Params::from_raw(s)
    }
}

impl<'a> OpenCVTypeArg<'a> for BinaryDescriptor_Params {
    type ExternContainer = BinaryDescriptor_Params;

    open spec fn representable(self) -> bool {
        true
    }

    open spec fn contained_in(self, c: BinaryDescriptor_Params) -> bool {
        c.handle() == self.handle()
    }

    fn opencv_into_extern_container(self) -> (r: Result<BinaryDescriptor_Params, Error>) {
        Ok(self)
    }

    fn opencv_into_extern_container_nofail(self) -> (r: BinaryDescriptor_Params) {
        self
    }
}

/// Calls are shown the handle; one that takes the object over takes the handle with it.
impl<'a> OpenCVTypeExternContainer<'a> for BinaryDescriptor_Params {
    type ExternSend = RawHandle;
    type ExternSendMut = RawHandle;

    open spec fn sends(&self, s: RawHandle) -> bool {
        s == self.handle()
    }

    open spec fn sends_mut(&self, s: RawHandle) -> bool {
        s == self.handle()
    }

    open spec fn transferable(&self) -> bool {
        true
    }

    fn opencv_as_extern(&'a self) -> (r: RawHandle) {
        self.as_raw()
    }

    fn opencv_as_extern_mut(&'a mut self) -> (r: RawHandle) {
        self.as_raw_mut()
    }

    fn opencv_into_extern(self) -> (r: RawHandle) {
        self.into_raw()
    }
}

/// Matches binary line descriptors by a multi-index hash over their Hamming distance.
#[derive(Debug)]
pub struct BinaryDescriptorMatcher {
    ptr: RawHandle,
}

impl Boxed for BinaryDescriptorMatcher {
    closed spec fn handle(&self) -> RawHandle {
        self.ptr
    }

    fn from_raw(h: RawHandle) -> (r: BinaryDescriptorMatcher) {
        BinaryDescriptorMatcher { ptr: h }
    }

    fn into_raw(self) -> (r: RawHandle) {
        self.ptr
    }

    fn as_raw(&self) -> (r: RawHandle) {
        self.ptr
    }

    fn as_raw_mut(&mut self) -> (r: RawHandle) {
        self.ptr
    }
}

impl BinaryDescriptorMatcher {
    pub fn as_raw_BinaryDescriptorMatcher(&self) -> (r: RawHandle)
        ensures
            r == self.handle(),
    {
        self.as_raw()
    }

    pub fn as_raw_mut_BinaryDescriptorMatcher(&mut self) -> (r: RawHandle)
        ensures
            r == old(self).handle(),
            final(self).handle() == old(self).handle(),
    {
        self.as_raw_mut()
    }
}

/// What every owner of a native `BinaryDescriptorMatcher` lends to the calls that use it.
pub trait BinaryDescriptorMatcherTrait: Boxed {
    fn as_raw_BinaryDescriptorMatcher(&self) -> (r: RawHandle)
        ensures
            r == self.handle(),
    ;

    fn as_raw_mut_BinaryDescriptorMatcher(&mut self) -> (r: RawHandle)
        ensures
            r == old(self).handle(),
            final(self).handle() == old(self).handle(),
    ;
}

impl BinaryDescriptorMatcherTrait for BinaryDescriptorMatcher {
    fn as_raw_BinaryDescriptorMatcher(&self) -> (r: RawHandle) {
        self.as_raw()
    }

    fn as_raw_mut_BinaryDescriptorMatcher(&mut self) -> (r: RawHandle) {
        self.as_raw_mut()
    }
}

/// A native factory returns the handle of a new `BinaryDescriptorMatcher`, whose ownership it hands over.
impl<'a> OpenCVType<'a> for BinaryDescriptorMatcher {
    type Arg = BinaryDescriptorMatcher;
    type ExternReceive = RawHandle;

    open spec fn extern_valid(s: RawHandle) -> bool {
        true
    }

    open spec fn received_from(v: BinaryDescriptorMatcher, s: RawHandle) -> bool {
        v.handle() == s
    }

    fn opencv_from_extern(s: RawHandle) -> (r: BinaryDescriptorMatcher) {
        BinaryDescriptorMatcher::from_raw(s)
    }
}

impl<'a> OpenCVTypeArg<'a> for BinaryDescriptorMatcher {
    type ExternContainer = BinaryDescriptorMatcher;

    open spec fn representable(self) -> bool {
        true
    }

    open spec fn contained_in(self, c: BinaryDescriptorMatcher) -> bool {
        c.handle() == self.handle()
    }

    fn opencv_into_extern_container(self) -> (r: Result<BinaryDescriptorMatcher, Error>) {
        Ok(self)
    }

    fn opencv_into_extern_container_nofail(self) -> (r: BinaryDescriptorMatcher) {
        self
    }
}

/// Calls are shown the handle; one that takes the object over takes the handle with it.
impl<'a> OpenCVTypeExternContainer<'a> for BinaryDescriptorMatcher {
    type ExternSend = RawHandle;
    type ExternSendMut = RawHandle;

    open spec fn sends(&self, s: RawHandle) -> bool {
        s == self.handle()
    }

    open spec fn sends_mut(&self, s: RawHandle) -> bool {
        s == self.handle()
    }

    open spec fn transferable(&self) -> bool {
        true
    }

    fn opencv_as_extern(&'a self) -> (r: RawHandle) {
        self.as_raw()
    }

    fn opencv_as_extern_mut(&'a mut self) -> (r: RawHandle) {
        self.as_raw_mut()
    }

    fn opencv_into_extern(self) -> (r: RawHandle) {
        self.into_raw()
    }
}

/// Detects lines with the LSD extractor, at several scales.
#[derive(Debug)]
pub struct LSDDetector {
    ptr: RawHandle,
}

impl Boxed for LSDDetector {
    closed spec fn handle(&self) -> RawHandle {
        self.ptr
    }

    fn from_raw(h: RawHandle) -> (r: LSDDetector) {
        LSDDetector { ptr: h }
    }

    fn into_raw(self) -> (r: RawHandle) {
        self.ptr
    }

    fn as_raw(&self) -> (r: RawHandle) {
        self.ptr
    }

    fn as_raw_mut(&mut self) -> (r: RawHandle) {
        self.ptr
    }
}

impl LSDDetector {
    pub fn as_raw_LSDDetector(&self) -> (r: RawHandle)
        ensures
            r == self.handle(),
    {
        self.as_raw()
    }

    pub fn as_raw_mut_LSDDetector(&mut self) -> (r: RawHandle)
        ensures
            r == old(self).handle(),
            final(self).handle() == old(self).handle(),
    {
        self.as_raw_mut()
    }
}

/// What every owner of a native `LSDDetector` lends to the calls that use it.
pub trait LSDDetectorTrait: Boxed {
    fn as_raw_LSDDetector(&self) -> (r: RawHandle)
        ensures
            r == self.handle(),
    ;

    fn as_raw_mut_LSDDetector(&mut self) -> (r: RawHandle)
        ensures
            r == old(self).handle(),
            final(self).handle() == old(self).handle(),
    ;
}

impl LSDDetectorTrait for LSDDetector {
    fn as_raw_LSDDetector(&self) -> (r: RawHandle) {
        self.as_raw()
    }

    fn as_raw_mut_LSDDetector(&mut self) -> (r: RawHandle) {
        self.as_raw_mut()
    }
}

/// A native factory returns the handle of a new `LSDDetector`, whose ownership it hands over.
impl<'a> OpenCVType<'a> for LSDDetector {
    type Arg = LSDDetector;
    type ExternReceive = RawHandle;

    open spec fn extern_valid(s: RawHandle) -> bool {
        true
    }

    open spec fn received_from(v: LSDDetector, s: RawHandle) -> bool {
        v.handle() == s
    }

    fn opencv_from_extern(s: RawHandle) -> (r: LSDDetector) {
        LSDDetector::from_raw(s)
    }
}

impl<'a> OpenCVTypeArg<'a> for LSDDetector {
    type ExternContainer = LSDDetector;

    open spec fn representable(self) -> bool {
        true
    }

    open spec fn contained_in(self, c: LSDDetector) -> bool {
        c.handle() == self.handle()
    }

    fn opencv_into_extern_container(self) -> (r: Result<LSDDetector, Error>) {
        Ok(self)
    }

    fn opencv_into_extern_container_nofail(self) -> (r: LSDDetector) {
        self
    }
}

/// Calls are shown the handle; one that takes the object over takes the handle with it.
impl<'a> OpenCVTypeExternContainer<'a> for LSDDetector {
    type ExternSend = RawHandle;
    type ExternSendMut = RawHandle;

    open spec fn sends(&self, s: RawHandle) -> bool {
        s == self.handle()
    }

    open spec fn sends_mut(&self, s: RawHandle) -> bool {
        s == self.handle()
    }

    open spec fn transferable(&self) -> bool {
        true
    }

    fn opencv_as_extern(&'a self) -> (r: RawHandle) {
        self.as_raw()
    }

    fn opencv_as_extern_mut(&'a mut self) -> (r: RawHandle) {
        self.as_raw_mut()
    }

    fn opencv_into_extern(self) -> (r: RawHandle) {
        self.into_raw()
    }
}

/// Flags for drawing keylines and their matches; the values are the `DrawLinesMatchesFlags_`
/// constants. A fixed-layout value, shown to native calls in place.
#[derive(Clone, Copy, Debug, PartialEq, Eq, Structural)]
pub struct DrawLinesMatchesFlags {}

impl<'a> OpenCVType<'a> for DrawLinesMatchesFlags {
    type Arg = DrawLinesMatchesFlags;
    type ExternReceive = DrawLinesMatchesFlags;

    open spec fn extern_valid(s: DrawLinesMatchesFlags) -> bool {
        true
    }

    open spec fn received_from(v: DrawLinesMatchesFlags, s: DrawLinesMatchesFlags) -> bool {
        v == s
    }

    fn opencv_from_extern(s: DrawLinesMatchesFlags) -> (r: DrawLinesMatchesFlags) {
        s
    }
}

impl<'a> OpenCVTypeArg<'a> for DrawLinesMatchesFlags {
    type ExternContainer = DrawLinesMatchesFlags;

    open spec fn representable(self) -> bool {
        true
    }

    open spec fn contained_in(self, c: DrawLinesMatchesFlags) -> bool {
        c == self
    }

    fn opencv_into_extern_container(self) -> (r: Result<DrawLinesMatchesFlags, Error>) {
        Ok(self)
    }

    fn opencv_into_extern_container_nofail(self) -> (r: DrawLinesMatchesFlags) {
        self
    }
}

/// Calls are shown the value where it stands; one that takes it over gets it moved to a
/// place that is never freed on this side.
impl<'a> OpenCVTypeExternContainer<'a> for DrawLinesMatchesFlags {
    type ExternSend = &'a DrawLinesMatchesFlags;
    type ExternSendMut = &'a mut DrawLinesMatchesFlags;

    open spec fn sends(&self, s: &'a DrawLinesMatchesFlags) -> bool {
        *s == *self
    }

    open spec fn sends_mut(&self, s: &'a mut DrawLinesMatchesFlags) -> bool {
        *s == *self
    }

    open spec fn transferable(&self) -> bool {
        true
    }

    fn opencv_as_extern(&'a self) -> (r: &'a DrawLinesMatchesFlags) {
        self
    }

    fn opencv_as_extern_mut(&'a mut self) -> (r: &'a mut DrawLinesMatchesFlags)
        ensures
            *final(self) == *final(r),
    {
        self
    }

    fn opencv_into_extern(self) -> (r: &'a mut DrawLinesMatchesFlags) {
        crate::opencv_type::leak_box(Box::new(self))
    }
}

} // verus!
