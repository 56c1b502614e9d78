use vstd::prelude::*;
use crate::session::Event;

verus! {

/// One planar 4:2:0 image: a luma plane and two chroma planes, each row-major
/// with no row padding.
#[derive(Debug, Clone)]
pub struct Frame {
    width: u32,
    height: u32,
    y: Vec<u8>,
    u: Vec<u8>,
    v: Vec<u8>,
}

impl Frame {
    pub closed spec fn spec_width(&self) -> u32 {
        self.width
    }

    pub closed spec fn spec_height(&self) -> u32 {
        self.height
    }

    pub closed spec fn spec_y(&self) -> Seq<u8> {
        self.y@
    }

    pub closed spec fn spec_u(&self) -> Seq<u8> {
        self.u@
    }

    pub closed spec fn spec_v(&self) -> Seq<u8> {
        self.v@
    }

    /// A frame of the given geometry made of the given planes.
    pub fn new(width: u32, height: u32, y: Vec<u8>, u: Vec<u8>, v: Vec<u8>) -> (r: Frame)
        ensures
            r.spec_width() == width,
            r.spec_height() == height,
            r.spec_y() == y@,
            r.spec_u() == u@,
            r.spec_v() == v@,
    {
        Frame { width, height, y, u, v }
    }

    pub fn width(&self) -> (r: u32)
        ensures
            r == self.spec_width(),
    {
        self.width
    }

    pub fn height(&self) -> (r: u32)
        ensures
            r == self.spec_height(),
    {
        self.height
    }

    /// The luma plane.
    pub fn y(&self) -> (r: &[u8])
        ensures
            r@ == self.spec_y(),
    {
        self.y.as_slice()
    }

    /// The first chroma plane.
    pub fn u(&self) -> (r: &[u8])
        ensures
            r@ == self.spec_u(),
    {
        self.u.as_slice()
    }

    /// The second chroma plane.
    pub fn v(&self) -> (r: &[u8])
        ensures
            r@ == self.spec_v(),
    {
        self.v.as_slice()
    }

    /// The event that hands this frame to a session waiting for one.
    pub fn to_event(&self) -> (r: Event)
        ensures
            r == (Event::Frame {
                luma: self.spec_y().len() as usize,
                chroma_u: self.spec_u().len() as usize,
                chroma_v: self.spec_v().len() as usize,
            }),
    {
        Event::Frame { luma: self.y.len(), chroma_u: self.u.len(), chroma_v: self.v.len() }
    }
}

} // verus!
