//! Pixel formats and the pixel buffer shared by all stages of the pipeline.

use vstd::prelude::*;

verus! {

/// Arrangement of the colour filter over a 2x2 tile of sensor pixels.
#[derive(Clone, Copy, Debug, PartialEq, Eq, Structural)]
pub enum BayerPattern {
    RGGB,
    BGGR,
}

/// Layout of one pixel in a [`PixelData`] buffer.
#[derive(Clone, Copy, Debug, PartialEq, Eq, Structural)]
pub enum PixelFormat {
    Bayer8(BayerPattern),
    RGBA8,
    RGB8,
}

impl PixelFormat {
    /// Number of bytes that one pixel occupies.
    pub open spec fn spec_bytes_per_pixel(&self) -> usize {
        match self {
            PixelFormat::RGB8 => 3,
            PixelFormat::RGBA8 => 4,
            PixelFormat::Bayer8(_) => 1,
        }
    }

    #[verifier::when_used_as_spec(spec_bytes_per_pixel)]
    pub fn bytes_per_pixel(&self) -> (bpp: usize)
        ensures
            bpp == self.spec_bytes_per_pixel(),
    {
        match self {
            PixelFormat::RGB8 => 3,
            PixelFormat::RGBA8 => 4,
            PixelFormat::Bayer8(_) => 1,
        }
    }
}

/// Number of bytes in an image of the given format and dimensions.
pub open spec fn image_len(format: PixelFormat, width: int, height: int) -> int {
    width * height * format.spec_bytes_per_pixel()
}

/// The text of the error returned when a source slice has the wrong length.
pub open spec fn size_mismatch_text() -> Seq<char> {
    "Source slice doesn't match PixelData size"@
}

/// Copies `src` over `dst` element by element; both have the same length.
/// `copy_from_slice` of std panics when the lengths differ, so that case is
/// excluded.
pub assume_specification<T: Copy>[ <[T]>::copy_from_slice ](dst: &mut [T], src: &[T])
    requires
        old(dst)@.len() == src@.len(),
    ensures
        final(dst)@ == src@,
;

/// Container for image data.
///
/// A buffer is made with exactly `width * height * bytes_per_pixel` bytes
/// ([`PixelData::sized`]), and no operation changes its length, dimensions or
/// format afterwards. The frame id counts the frames that were committed to
/// the buffer; it is only ever raised by [`PixelData::increment_frame_id`],
/// after the bytes of the frame are in place.
pub struct PixelData {
    data: Vec<u8>,
    width: usize,
    height: usize,
    format: PixelFormat,
    id: usize,
}

impl View for PixelData {
    type V = Seq<u8>;

    /// The bytes of the image.
    closed spec fn view(&self) -> Seq<u8> {
        self.data@
    }
}

impl PixelData {
    pub closed spec fn spec_width(&self) -> usize {
        self.width
    }

    pub closed spec fn spec_height(&self) -> usize {
        self.height
    }

    pub closed spec fn spec_format(&self) -> PixelFormat {
        self.format
    }

    pub closed spec fn spec_frame_id(&self) -> usize {
        self.id
    }

    /// The length that the format and dimensions call for.
    pub open spec fn spec_size_bytes(&self) -> int {
        image_len(self.spec_format(), self.spec_width() as int, self.spec_height() as int)
    }

    /// The buffer holds exactly as many bytes as its format and dimensions
    /// call for.
    pub open spec fn sized(&self) -> bool {
        self@.len() == self.spec_size_bytes()
    }

    /// A zero-filled image with frame id 0.
    pub fn new(fmt: PixelFormat, width: usize, height: usize) -> (res: Self)
        requires
            image_len(fmt, width as int, height as int) <= usize::MAX,
        ensures
            res.spec_format() == fmt,
            res.spec_width() == width,
            res.spec_height() == height,
            res.spec_frame_id() == 0,
            res.sized(),
            forall|i: int| 0 <= i < res@.len() ==> res@[i] == 0,
    {
        let bpp = fmt.bytes_per_pixel();
        proof {
            lemma_image_len_bounds(fmt, width as int, height as int);
        }
        let data = vec![0u8; width * height * bpp];
        Self { width, height, data, format: fmt, id: 0 }
    }

    /// Marks one more frame as committed.
    pub fn increment_frame_id(&mut self)
        requires
            old(self).spec_frame_id() < usize::MAX,
        ensures
            final(self).spec_frame_id() == old(self).spec_frame_id() + 1,
            final(self)@ == old(self)@,
            final(self).spec_width() == old(self).spec_width(),
            final(self).spec_height() == old(self).spec_height(),
            final(self).spec_format() == old(self).spec_format(),
    {
        self.id = self.id + 1;
    }

    #[verifier::when_used_as_spec(spec_frame_id)]
    pub fn frame_id(&self) -> (id: usize)
        ensures
            id == self.spec_frame_id(),
    {
        self.id
    }

    /// An image with frame id 0 that holds a copy of `src`, which must have
    /// exactly the length that the format and dimensions call for.
    pub fn new_from_slice(fmt: PixelFormat, width: usize, height: usize, src: &[u8]) -> (res:
        Result<Self, &'static str>)
        requires
            image_len(fmt, width as int, height as int) <= usize::MAX,
        ensures
            res is Ok <==> src@.len() == image_len(fmt, width as int, height as int),
            res matches Ok(p) ==> {
                &&& p@ == src@
                &&& p.spec_format() == fmt
                &&& p.spec_width() == width
                &&& p.spec_height() == height
                &&& p.spec_frame_id() == 0
                &&& p.sized()
            },
            res matches Err(e) ==> e@ == size_mismatch_text(),
    {
        let mut res = Self::new(fmt, width, height);
        match res.fill_from_slice(src) {
            Ok(()) => Ok(res),
            Err(e) => Err(e),
        }
    }

    /// Replaces the bytes of the image by a copy of `src`. A source of any
    /// other length than the buffer's is rejected and the image is left as it
    /// was. The frame id is not touched: the caller raises it once the frame
    /// counts as committed.
    pub fn fill_from_slice(&mut self, src: &[u8]) -> (res: Result<(), &'static str>)
        ensures
            res is Ok <==> src@.len() == old(self)@.len(),
            res is Ok ==> final(self)@ == src@,
            res is Err ==> *final(self) == *old(self),
            res matches Err(e) ==> e@ == size_mismatch_text(),
            old(self).sized() ==> final(self).sized(),
            final(self).spec_width() == old(self).spec_width(),
            final(self).spec_height() == old(self).spec_height(),
            final(self).spec_format() == old(self).spec_format(),
            final(self).spec_frame_id() == old(self).spec_frame_id(),
    {
        if src.len() != self.size_bytes() {
            return Err("Source slice doesn't match PixelData size");
        }
        self.data.as_mut_slice().copy_from_slice(src);
        Ok(())
    }

    #[verifier::when_used_as_spec(spec_width)]
    pub fn width(&self) -> (w: usize)
        ensures
            w == self.spec_width(),
    {
        self.width
    }

    #[verifier::when_used_as_spec(spec_height)]
    pub fn height(&self) -> (h: usize)
        ensures
            h == self.spec_height(),
    {
        self.height
    }

    #[verifier::when_used_as_spec(spec_format)]
    pub fn format(&self) -> (f: PixelFormat)
        ensures
            f == self.spec_format(),
    {
        self.format
    }

    /// Length of the buffer in bytes.
    pub fn size_bytes(&self) -> (n: usize)
        ensures
            n == self@.len(),
            self.sized() ==> n == self.spec_size_bytes(),
    {
        self.data.len()
    }

    pub fn as_slice(&self) -> (s: &[u8])
        ensures
            s@ == self@,
    {
        self.data.as_slice()
    }

    /// The bytes of the image, open for writing in place: what the slice
    /// holds when the borrow ends is what the image holds from then on.
    pub fn as_mut_slice(&mut self) -> (s: &mut [u8])
        ensures
            s@ == old(self)@,
            final(self)@ == final(s)@,
            final(self).spec_width() == old(self).spec_width(),
            final(self).spec_height() == old(self).spec_height(),
            final(self).spec_format() == old(self).spec_format(),
            final(self).spec_frame_id() == old(self).spec_frame_id(),
    {
        self.data.as_mut_slice()
    }
}

/// A product of three factors that fits in `usize` has a product of its first
/// two factors that fits too, as long as the third is not zero.
proof fn lemma_image_len_bounds(format: PixelFormat, width: int, height: int)
    requires
        0 <= width,
        0 <= height,
        image_len(format, width, height) <= usize::MAX,
    ensures
        width * height <= usize::MAX,
        0 <= width * height,
{
    let bpp = format.spec_bytes_per_pixel() as int;
    assert(1 <= bpp <= 4);
    assert(0 <= width * height) by (nonlinear_arith)
        requires
            0 <= width,
            0 <= height,
    ;
    assert(width * height <= width * height * bpp) by (nonlinear_arith)
        requires
            0 <= width * height,
            1 <= bpp,
    ;
}

} // verus!
