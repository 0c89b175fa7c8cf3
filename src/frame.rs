use vstd::prelude::*;
use crate::color::Color565;
use crate::color::lemma_unpack_pack;
use crate::color::pack;
use crate::color::packed;
use crate::color::unpacked;

verus! {

/// A fixed-size grid of colors in row-major order.
pub struct FrameBuffer {
    width: usize,
    height: usize,
    pixels: Vec<Color565>,
}

/// `bytes` holds, for each pixel of `pixels` in order, its two packed bytes.
pub open spec fn encodes(pixels: Seq<Color565>, bytes: Seq<u8>) -> bool {
    &&& bytes.len() == 2 * pixels.len()
    &&& forall|i: int|
        0 <= i < pixels.len() ==> #[trigger] bytes[2 * i] == packed(pixels[i]).0 && bytes[2 * i
            + 1] == packed(pixels[i]).1
}

/// Every color of `pixels` is well formed.
pub open spec fn all_wf(pixels: Seq<Color565>) -> bool {
    forall|i: int| 0 <= i < pixels.len() ==> (#[trigger] pixels[i]).wf()
}

impl View for FrameBuffer {
    type V = Seq<Color565>;

    closed spec fn view(&self) -> Seq<Color565> {
        self.pixels@
    }
}

impl FrameBuffer {
    pub closed spec fn spec_width(&self) -> nat {
        self.width as nat
    }

    pub closed spec fn spec_height(&self) -> nat {
        self.height as nat
    }

    /// The grid holds exactly `width * height` well-formed colors, and twice that
    /// count, as well as twice the width, fits a `usize`, so that the packed bytes and
    /// their rows can be indexed.
    pub closed spec fn wf(&self) -> bool {
        &&& self.pixels@.len() == self.width * self.height
        &&& 2 * (self.width * self.height) <= usize::MAX
        &&& 2 * self.width <= usize::MAX
        &&& all_wf(self.pixels@)
    }

    /// A `width` by `height` grid with every pixel set to `fill`.
    pub fn new(width: usize, height: usize, fill: Color565) -> (f: FrameBuffer)
        requires
            2 * (width * height) <= usize::MAX,
            2 * width <= usize::MAX,
            fill.wf(),
        ensures
            f.wf(),
            f.spec_width() == width,
            f.spec_height() == height,
            f@ == Seq::new((width * height) as nat, |i: int| fill),
    {
                let n: usize = width * height;
        let mut pixels: Vec<Color565> = Vec::with_capacity(n);
        let mut i: usize = 0;
        while i < n
            invariant
                i <= n,
                pixels@ == Seq::new(i as nat, |j: int| fill),
            decreases n - i,
        {
            pixels.push(fill);
            i = i + 1;
            assert(pixels@ =~= Seq::new(i as nat, |j: int| fill));
        }
        FrameBuffer { width, height, pixels }
    }

    pub fn width(&self) -> (w: usize)
        ensures
            w == self.spec_width(),
            self.wf() ==> 2 * w <= usize::MAX,
    {
        self.width
    }

    pub fn height(&self) -> (h: usize)
        ensures
            h == self.spec_height(),
    {
        self.height
    }

    /// The number of pixels, `width * height`.
    pub fn len(&self) -> (n: usize)
        requires
            self.wf(),
        ensures
            n == self@.len(),
            n == self.spec_width() * self.spec_height(),
            2 * n <= usize::MAX,
    {
        self.pixels.len()
    }

    /// The color at row-major index `i`.
    pub fn pixel(&self, i: usize) -> (c: Color565)
        requires
            self.wf(),
            i < self@.len(),
        ensures
            c == self@[i as int],
            c.wf(),
    {
        self.pixels[i]
    }

    /// Sets the color at row-major index `i`, leaving every other pixel as it was.
    pub fn set_pixel(&mut self, i: usize, c: Color565)
        requires
            old(self).wf(),
            i < old(self)@.len(),
            c.wf(),
        ensures
            final(self).wf(),
            final(self).spec_width() == old(self).spec_width(),
            final(self).spec_height() == old(self).spec_height(),
            final(self)@ == old(self)@.update(i as int, c),
    {
        self.pixels.set(i, c);
    }

    /// Paints every pixel with `c`.
    pub fn clear(&mut self, c: Color565)
        requires
            old(self).wf(),
            c.wf(),
        ensures
            final(self).wf(),
            final(self).spec_width() == old(self).spec_width(),
            final(self).spec_height() == old(self).spec_height(),
            final(self)@ == Seq::new(old(self)@.len(), |i: int| c),
    {
        let n: usize = self.pixels.len();
        let mut i: usize = 0;
        while i < n
            invariant
                i <= n,
                n == self.pixels@.len(),
                self.width == old(self).width,
                self.height == old(self).height,
                n == self.width * self.height,
                2 * (self.width * self.height) <= usize::MAX,
                2 * self.width <= usize::MAX,
                c.wf(),
                all_wf(self.pixels@),
                forall|j: int| 0 <= j < i ==> self.pixels@[j] == c,
            decreases n - i,
        {
            self.pixels.set(i, c);
            i = i + 1;
        }
        assert(self.pixels@ =~= Seq::new(n as nat, |i: int| c));
    }
}

/// Packs every pixel of `frame` into `pixels`, two bytes per pixel at offsets `2i` and
/// `2i + 1`, in row-major order. The byte buffer is written in place.
pub fn apply_buffer(pixels: &mut Vec<u8>, frame: &FrameBuffer)
    requires
        frame.wf(),
        old(pixels)@.len() == 2 * frame@.len(),
    ensures
        encodes(frame@, final(pixels)@),
{
    let n: usize = frame.len();
    let mut i: usize = 0;
    while i < n
        invariant
            frame.wf(),
            n == frame@.len(),
            2 * n <= usize::MAX,
            i <= n,
            pixels@.len() == 2 * n,
            forall|j: int|
                0 <= j < i ==> #[trigger] pixels@[2 * j] == packed(frame@[j]).0 && pixels@[2 * j
                    + 1] == packed(frame@[j]).1,
        decreases n - i,
    {
        let ghost before = pixels@;
        let bytes = pack(frame.pixel(i));
        pixels.set(2 * i, bytes[0]);
        pixels.set(2 * i + 1, bytes[1]);
        assert forall|j: int| 0 <= j < i + 1 implies #[trigger] pixels@[2 * j] == packed(
            frame@[j],
        ).0 && pixels@[2 * j + 1] == packed(frame@[j]).1 by {
            if j < i {
                assert(before[2 * j] == packed(frame@[j]).0);
            }
        }
        i = i + 1;
    }
}

/// The converter's output can be read back: it holds two bytes per pixel, and the pair at
/// offsets `2i`, `2i + 1` decodes to the color of pixel `i`.
pub proof fn lemma_encoded_round_trip(pixels: Seq<Color565>, bytes: Seq<u8>)
    requires
        all_wf(pixels),
        encodes(pixels, bytes),
    ensures
        bytes.len() == 2 * pixels.len(),
        forall|i: int|
            0 <= i < pixels.len() ==> #[trigger] unpacked(bytes[2 * i], bytes[2 * i + 1])
                == pixels[i],
{
    assert forall|i: int| 0 <= i < pixels.len() implies #[trigger] unpacked(
        bytes[2 * i],
        bytes[2 * i + 1],
    ) == pixels[i] by {
        assert(bytes[2 * i] == packed(pixels[i]).0);
        lemma_unpack_pack(pixels[i]);
    }
}

} // verus!
