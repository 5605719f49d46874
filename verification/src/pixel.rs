//! Pixel buffers handed from a capture backend to the video encoder.

use vstd::prelude::*;
use vstd::slice::slice_to_vec;

verus! {

/// Provides pixel data from a capture source in various formats.
pub enum PixelProvider<'a> {
    RGB(usize, usize, &'a [u8]),
    RGB0(usize, usize, &'a [u8]),
    BGR0(usize, usize, &'a [u8]),
    /// width, height, stride
    BGR0S(usize, usize, usize, &'a [u8]),
}

/// Owned version of [`PixelProvider`] that can be sent across threads.
pub enum OwnedPixelData {
    RGB(usize, usize, Vec<u8>),
    RGB0(usize, usize, Vec<u8>),
    BGR0(usize, usize, Vec<u8>),
    BGR0S(usize, usize, usize, Vec<u8>),
}

/// The pixel layout of a frame, without its data.
#[derive(Clone, Copy, Debug, PartialEq, Eq, Structural)]
pub enum PixelLayout {
    RGB,
    RGB0,
    BGR0,
    BGR0S,
}

impl<'a> PixelProvider<'a> {
    pub open spec fn spec_width(&self) -> usize {
        match self {
            PixelProvider::RGB(w, _, _) => *w,
            PixelProvider::RGB0(w, _, _) => *w,
            PixelProvider::BGR0(w, _, _) => *w,
            PixelProvider::BGR0S(w, _, _, _) => *w,
        }
    }

    pub open spec fn spec_height(&self) -> usize {
        match self {
            PixelProvider::RGB(_, h, _) => *h,
            PixelProvider::RGB0(_, h, _) => *h,
            PixelProvider::BGR0(_, h, _) => *h,
            PixelProvider::BGR0S(_, h, _, _) => *h,
        }
    }

    pub open spec fn spec_data(&self) -> Seq<u8> {
        match self {
            PixelProvider::RGB(_, _, d) => d@,
            PixelProvider::RGB0(_, _, d) => d@,
            PixelProvider::BGR0(_, _, d) => d@,
            PixelProvider::BGR0S(_, _, _, d) => d@,
        }
    }

    pub open spec fn spec_layout(&self) -> PixelLayout {
        match self {
            PixelProvider::RGB(..) => PixelLayout::RGB,
            PixelProvider::RGB0(..) => PixelLayout::RGB0,
            PixelProvider::BGR0(..) => PixelLayout::BGR0,
            PixelProvider::BGR0S(..) => PixelLayout::BGR0S,
        }
    }

    /// The stride of a `BGR0S` frame; other layouts carry none and give 0.
    pub open spec fn spec_stride(&self) -> usize {
        match self {
            PixelProvider::BGR0S(_, _, s, _) => *s,
            _ => 0,
        }
    }

    /// Returns `(width, height)` of the pixel data.
    pub fn size(&self) -> (r: (usize, usize))
        ensures
            r == (self.spec_width(), self.spec_height()),
    {
        match self {
            PixelProvider::RGB(w, h, _) => (*w, *h),
            PixelProvider::RGB0(w, h, _) => (*w, *h),
            PixelProvider::BGR0(w, h, _) => (*w, *h),
            PixelProvider::BGR0S(w, h, _, _) => (*w, *h),
        }
    }

    /// Create an owned copy of the pixel data that can be sent across threads.
    pub fn to_owned(&self) -> (r: OwnedPixelData)
        ensures
            r.spec_layout() == self.spec_layout(),
            r.spec_width() == self.spec_width(),
            r.spec_height() == self.spec_height(),
            r.spec_stride() == self.spec_stride(),
            r.spec_data() == self.spec_data(),
    {
        match self {
            PixelProvider::RGB(w, h, d) => OwnedPixelData::RGB(*w, *h, slice_to_vec(d)),
            PixelProvider::RGB0(w, h, d) => OwnedPixelData::RGB0(*w, *h, slice_to_vec(d)),
            PixelProvider::BGR0(w, h, d) => OwnedPixelData::BGR0(*w, *h, slice_to_vec(d)),
            PixelProvider::BGR0S(w, h, s, d) => OwnedPixelData::BGR0S(*w, *h, *s, slice_to_vec(d)),
        }
    }
}

impl OwnedPixelData {
    pub open spec fn spec_width(&self) -> usize {
        match self {
            OwnedPixelData::RGB(w, _, _) => *w,
            OwnedPixelData::RGB0(w, _, _) => *w,
            OwnedPixelData::BGR0(w, _, _) => *w,
            OwnedPixelData::BGR0S(w, _, _, _) => *w,
        }
    }

    pub open spec fn spec_height(&self) -> usize {
        match self {
            OwnedPixelData::RGB(_, h, _) => *h,
            OwnedPixelData::RGB0(_, h, _) => *h,
            OwnedPixelData::BGR0(_, h, _) => *h,
            OwnedPixelData::BGR0S(_, h, _, _) => *h,
        }
    }

    pub open spec fn spec_data(&self) -> Seq<u8> {
        match self {
            OwnedPixelData::RGB(_, _, d) => d@,
            OwnedPixelData::RGB0(_, _, d) => d@,
            OwnedPixelData::BGR0(_, _, d) => d@,
            OwnedPixelData::BGR0S(_, _, _, d) => d@,
        }
    }

    pub open spec fn spec_layout(&self) -> PixelLayout {
        match self {
            OwnedPixelData::RGB(..) => PixelLayout::RGB,
            OwnedPixelData::RGB0(..) => PixelLayout::RGB0,
            OwnedPixelData::BGR0(..) => PixelLayout::BGR0,
            OwnedPixelData::BGR0S(..) => PixelLayout::BGR0S,
        }
    }

    pub open spec fn spec_stride(&self) -> usize {
        match self {
            OwnedPixelData::BGR0S(_, _, s, _) => *s,
            _ => 0,
        }
    }

    /// Returns `(width, height)` of the pixel data.
    pub fn size(&self) -> (r: (usize, usize))
        ensures
            r == (self.spec_width(), self.spec_height()),
    {
        match self {
            OwnedPixelData::RGB(w, h, _) => (*w, *h),
            OwnedPixelData::RGB0(w, h, _) => (*w, *h),
            OwnedPixelData::BGR0(w, h, _) => (*w, *h),
            OwnedPixelData::BGR0S(w, h, _, _) => (*w, *h),
        }
    }

    /// Borrow as a [`PixelProvider`].
    pub fn as_provider(&self) -> (r: PixelProvider<'_>)
        ensures
            r.spec_layout() == self.spec_layout(),
            r.spec_width() == self.spec_width(),
            r.spec_height() == self.spec_height(),
            r.spec_stride() == self.spec_stride(),
            r.spec_data() == self.spec_data(),
    {
        match self {
            OwnedPixelData::RGB(w, h, d) => PixelProvider::RGB(*w, *h, d.as_slice()),
            OwnedPixelData::RGB0(w, h, d) => PixelProvider::RGB0(*w, *h, d.as_slice()),
            OwnedPixelData::BGR0(w, h, d) => PixelProvider::BGR0(*w, *h, d.as_slice()),
            OwnedPixelData::BGR0S(w, h, s, d) => PixelProvider::BGR0S(*w, *h, *s, d.as_slice()),
        }
    }
}

/// Law: copying a borrowed frame into an owned one and borrowing it back gives a
/// frame with the same layout, size, stride and bytes.
pub proof fn lemma_owned_roundtrip(p: PixelProvider, o: OwnedPixelData, q: PixelProvider)
    requires
        o.spec_layout() == p.spec_layout(),
        o.spec_width() == p.spec_width(),
        o.spec_height() == p.spec_height(),
        o.spec_stride() == p.spec_stride(),
        o.spec_data() == p.spec_data(),
        q.spec_layout() == o.spec_layout(),
        q.spec_width() == o.spec_width(),
        q.spec_height() == o.spec_height(),
        q.spec_stride() == o.spec_stride(),
        q.spec_data() == o.spec_data(),
    ensures
        q.spec_layout() == p.spec_layout(),
        q.spec_width() == p.spec_width(),
        q.spec_height() == p.spec_height(),
        q.spec_stride() == p.spec_stride(),
        q.spec_data() == p.spec_data(),
{
}

} // verus!
