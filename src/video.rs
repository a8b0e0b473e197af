use vstd::prelude::*;
use crate::palette::Palette;

verus! {

/// Widest row, in pixels, that the accelerator takes as one texture row.
pub const TEXTURE_PITCH: usize = 512;
/// Most rows the accelerator takes in one texture.
pub const TEXTURE_MAX_HEIGHT: usize = 512;

/// The smallest power of two, starting from `m` and doubling, that is at
/// least `n`.
pub open spec fn pow2_cover(n: nat, m: nat) -> nat
    decreases (if m >= n { 0 } else { n - m }),
{
    if m == 0 || m >= n {
        m
    } else {
        pow2_cover(n, 2 * m)
    }
}

/// The side of the texture map that covers `n` texels: the smallest power of
/// two at or above `n` (1 for 0).
pub open spec fn texture_map_side(n: nat) -> nat {
    pow2_cover(n, 1)
}

/// The side of the texture map that covers `n` texels.
pub fn texture_map_size(n: u32) -> (r: u32)
    requires
        n <= TEXTURE_MAX_HEIGHT,
    ensures
        r == texture_map_side(n as nat),
        n <= r <= TEXTURE_MAX_HEIGHT,
{
    let mut m: u32 = 1;
    while m < n
        invariant
            n <= 512,
            m == 1 || m == 2 || m == 4 || m == 8 || m == 16 || m == 32 || m == 64 || m == 128
                || m == 256 || m == 512,
            pow2_cover(n as nat, m as nat) == pow2_cover(n as nat, 1),
        decreases (if m >= n { 0 } else { n - m }),
    {
        m = m * 2;
    }
    m
}

/// A frame of all-background pixels.
pub open spec fn background<T>(len: nat, zero: T) -> Seq<T> {
    Seq::new(len, |i: int| zero)
}

/// Pixel sink in indexed mode: each stored byte is a machine colour index,
/// resolved to a display colour only when the frame is shown. Rows are
/// stored back to back, so the pitch equals the width.
pub struct VideoBuffer {
    size: (usize, usize),
    pixels: Vec<u8>,
}

impl View for VideoBuffer {
    type V = Seq<u8>;

    closed spec fn view(&self) -> Seq<u8> {
        self.pixels@
    }
}

impl VideoBuffer {
    pub closed spec fn width(&self) -> nat {
        self.size.0 as nat
    }

    pub closed spec fn height(&self) -> nat {
        self.size.1 as nat
    }

    /// The sink's rows fit a texture row and its contents cover exactly its
    /// rows.
    pub closed spec fn wf(&self) -> bool {
        &&& self.size.0 <= TEXTURE_PITCH
        &&& self.size.1 <= TEXTURE_MAX_HEIGHT
        &&& self.pixels@.len() == self.size.0 * self.size.1
    }

    /// What a well-formed sink is, in terms of its dimensions and contents.
    pub proof fn lemma_wf(&self)
        requires
            self.wf(),
        ensures
            self@.len() == self.width() * self.height(),
            self.width() <= TEXTURE_PITCH,
            self.height() <= TEXTURE_MAX_HEIGHT,
    {
    }

    /// A zero-filled sink `width` pixels wide and `height` rows high.
    pub fn new(width: u32, height: u32) -> (r: VideoBuffer)
        requires
            width <= TEXTURE_PITCH,
            height <= TEXTURE_MAX_HEIGHT,
        ensures
            r.wf(),
            r.width() == width,
            r.height() == height,
            r@.len() == width * height,
            r@ == background((width * height) as nat, 0u8),
    {
        assert(width as usize * height as usize <= 512 * 512) by (nonlinear_arith)
            requires
                width <= 512,
                height <= 512,
        ;
        let len: usize = width as usize * height as usize;
        let pixels: Vec<u8> = vec![0u8; len];
        proof {
            assert(pixels@ =~= background(len as nat, 0u8));
        }
        VideoBuffer { size: (width as usize, height as usize), pixels }
    }

    /// Read-only view of the whole frame, row-major.
    pub fn get_data(&self) -> (r: &[u8])
        ensures
            r@ == self@,
            self.wf() ==> r@.len() == self.width() * self.height(),
    {
        self.pixels.as_slice()
    }

    /// Row stride in bytes (one byte per pixel, no padding).
    pub fn get_pitch(&self) -> (r: usize)
        requires
            self.wf(),
        ensures
            r == self.width(),
            r <= TEXTURE_PITCH,
            r * self.height() == self@.len(),
    {
        self.size.0
    }

    /// Width and height as the emulation core sees them; the core addresses
    /// pixel (x, y) as `y * width + x`.
    pub fn get_dimension(&self) -> (r: (usize, usize))
        ensures
            r.0 == self.width(),
            r.1 == self.height(),
    {
        self.size
    }

    /// Sets every pixel to the background colour index 0.
    pub fn reset(&mut self)
        requires
            old(self).wf(),
        ensures
            final(self).wf(),
            final(self).width() == old(self).width(),
            final(self).height() == old(self).height(),
            old(self)@.len() == old(self).width() * old(self).height(),
            final(self)@.len() == final(self).width() * final(self).height(),
            final(self)@ == background(old(self)@.len(), 0u8),
    {
        let n = self.pixels.len();
        let mut i: usize = 0;
        while i < n
            invariant
                self.wf(),
                self.size == old(self).size,
                n == self.pixels@.len(),
                i <= n,
                forall|j: int| 0 <= j < i ==> self.pixels@[j] == 0u8,
            decreases n - i,
        {
            self.pixels.set(i, 0u8);
            i = i + 1;
        }
        proof {
            assert(self.pixels@ =~= background(n as nat, 0u8));
        }
    }

    /// Stores colour index `color` at pixel `index`, as given.
    pub fn write(&mut self, index: usize, color: u8)
        requires
            old(self).wf(),
            index < old(self).width() * old(self).height(),
        ensures
            final(self).wf(),
            final(self)@ == old(self)@.update(index as int, color),
            old(self)@.len() == old(self).width() * old(self).height(),
            final(self)@.len() == final(self).width() * final(self).height(),
            final(self).width() == old(self).width(),
            final(self).height() == old(self).height(),
    {
        self.pixels.set(index, color);
    }
}

/// Pixel sink in direct mode: the palette is applied when a pixel is written,
/// so each stored value is a display-colour word.
pub struct DirectBuffer {
    width: usize,
    height: usize,
    palette: Palette,
    pixels: Vec<u32>,
}

impl View for DirectBuffer {
    type V = Seq<u32>;

    closed spec fn view(&self) -> Seq<u32> {
        self.pixels@
    }
}

impl DirectBuffer {
    pub closed spec fn width(&self) -> nat {
        self.width as nat
    }

    pub closed spec fn height(&self) -> nat {
        self.height as nat
    }

    pub closed spec fn palette(&self) -> Palette {
        self.palette
    }

    pub closed spec fn wf(&self) -> bool {
        &&& self.pixels@.len() == self.width * self.height
        &&& 4 * self.width <= usize::MAX
    }

    /// What a well-formed sink is, in terms of its dimensions and contents.
    pub proof fn lemma_wf(&self)
        requires
            self.wf(),
        ensures
            self@.len() == self.width() * self.height(),
            4 * self.width() <= usize::MAX,
    {
    }

    /// A zero-filled `width` x `height` sink that resolves colours through
    /// `palette`.
    pub fn new(width: usize, height: usize, palette: Palette) -> (r: DirectBuffer)
        requires
            width * height <= usize::MAX,
            4 * width <= usize::MAX,
        ensures
            r.wf(),
            r.width() == width,
            r.height() == height,
            r.palette() == palette,
            r@.len() == width * height,
            r@ == background((width * height) as nat, 0u32),
    {
        let len: usize = width * height;
        let pixels: Vec<u32> = vec![0u32; len];
        proof {
            assert(pixels@ =~= background(len as nat, 0u32));
        }
        DirectBuffer { width, height, palette, pixels }
    }

    /// Read-only view of the whole frame, row-major.
    pub fn get_data(&self) -> (r: &[u32])
        ensures
            r@ == self@,
            self.wf() ==> r@.len() == self.width() * self.height(),
    {
        self.pixels.as_slice()
    }

    /// Row stride in bytes (four bytes per pixel).
    pub fn get_pitch(&self) -> (r: usize)
        requires
            self.wf(),
        ensures
            r == 4 * self.width(),
            r * self.height() == 4 * self@.len(),
    {
        proof {
            assert(4 * self.width * self.height == 4 * (self.width * self.height)) by (nonlinear_arith);
        }
        4 * self.width
    }

    /// Width and height as the emulation core sees them.
    pub fn get_dimension(&self) -> (r: (usize, usize))
        ensures
            r.0 == self.width(),
            r.1 == self.height(),
    {
        (self.width, self.height)
    }

    /// Sets every pixel to the zero word.
    pub fn reset(&mut self)
        requires
            old(self).wf(),
        ensures
            final(self).wf(),
            final(self).width() == old(self).width(),
            final(self).height() == old(self).height(),
            final(self).palette() == old(self).palette(),
            old(self)@.len() == old(self).width() * old(self).height(),
            final(self)@.len() == final(self).width() * final(self).height(),
            final(self)@ == background(old(self)@.len(), 0u32),
    {
        let n = self.pixels.len();
        let mut i: usize = 0;
        while i < n
            invariant
                self.wf(),
                self.width == old(self).width,
                self.height == old(self).height,
                self.palette == old(self).palette,
                n == self.pixels@.len(),
                i <= n,
                forall|j: int| 0 <= j < i ==> self.pixels@[j] == 0u32,
            decreases n - i,
        {
            self.pixels.set(i, 0u32);
            i = i + 1;
        }
        proof {
            assert(self.pixels@ =~= background(n as nat, 0u32));
        }
    }

    /// Resolves colour index `color` through the palette and stores the
    /// resulting word at pixel `index`.
    pub fn write(&mut self, index: usize, color: u8)
        requires
            old(self).wf(),
            index < old(self).width() * old(self).height(),
            color < 16,
        ensures
            final(self).wf(),
            final(self)@ == old(self)@.update(index as int, old(self).palette().color(color as int)),
            old(self)@.len() == old(self).width() * old(self).height(),
            final(self)@.len() == final(self).width() * final(self).height(),
            final(self).width() == old(self).width(),
            final(self).height() == old(self).height(),
            final(self).palette() == old(self).palette(),
    {
        let word = self.palette.lookup(color);
        self.pixels.set(index, word);
    }
}

/// A target rectangle on the display surface.
#[derive(Clone, Copy, Debug, PartialEq, Eq, Structural)]
pub struct Rect {
    pub x: u32,
    pub y: u32,
    pub w: u32,
    pub h: u32,
}

impl Rect {
    pub open spec fn new_spec(origin: (u32, u32), size: (u32, u32)) -> Rect {
        Rect { x: origin.0, y: origin.1, w: size.0, h: size.1 }
    }

    pub fn new(x: u32, y: u32, width: u32, height: u32) -> (r: Self)
        ensures
            r == (Rect { x, y, w: width, h: height }),
    {
        Rect { x, y, w: width, h: height }
    }

    pub fn new_with_origin(origin: (u32, u32), size: (u32, u32)) -> (r: Self)
        ensures
            r == (Rect { x: origin.0, y: origin.1, w: size.0, h: size.1 }),
    {
        Self::new(origin.0, origin.1, size.0, size.1)
    }
}

/// A pixel written into an indexed sink at any index below width x height
/// reads back as written; no other pixel changes and the length stays
/// width x height.
pub proof fn lemma_write_then_read(before: VideoBuffer, after: VideoBuffer, i: int, c: u8)
    requires
        before.wf(),
        0 <= i < before.width() * before.height(),
        after@ == before@.update(i, c),
    ensures
        after@[i] == c,
        after@.len() == before.width() * before.height(),
        forall|j: int| 0 <= j < after@.len() && j != i ==> #[trigger] after@[j] == before@[j],
{
}

/// A pixel written into a direct-mode sink at any index below
/// width x height reads back as the palette's colour for the index written;
/// no other pixel changes.
pub proof fn lemma_direct_write_then_read(before: DirectBuffer, after: DirectBuffer, i: int, c: u8)
    requires
        before.wf(),
        0 <= i < before.width() * before.height(),
        c < 16,
        after@ == before@.update(i, before.palette().color(c as int)),
    ensures
        after@[i] == before.palette().color(c as int),
        after@.len() == before.width() * before.height(),
        forall|j: int| 0 <= j < after@.len() && j != i ==> #[trigger] after@[j] == before@[j],
{
}

/// After a reset every pixel of a sink holds the background value, whatever
/// it held before: index 0 in indexed mode, the zero word in direct mode.
pub proof fn lemma_reset_clears(before: VideoBuffer, after: VideoBuffer, dbefore: DirectBuffer, dafter: DirectBuffer)
    requires
        before.wf(),
        dbefore.wf(),
        after@ == background(before@.len(), 0u8),
        dafter@ == background(dbefore@.len(), 0u32),
    ensures
        after@.len() == before.width() * before.height(),
        forall|j: int| 0 <= j < after@.len() ==> #[trigger] after@[j] == 0u8,
        dafter@.len() == dbefore.width() * dbefore.height(),
        forall|j: int| 0 <= j < dafter@.len() ==> #[trigger] dafter@[j] == 0u32,
{
}

} // verus!
