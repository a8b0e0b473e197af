use vstd::prelude::*;
use crate::palette::Palette;
use crate::renderer::fits_display;
use crate::video::{DirectBuffer, Rect};

verus! {

/// Byte `k` (0, 1 or 2) of a display-colour word, least significant first.
/// The fourth byte (alpha) is dropped.
pub open spec fn color_byte(w: u32, k: int) -> u8 {
    if k == 0 {
        (w & 0xff) as u8
    } else if k == 1 {
        ((w >> 8u32) & 0xff) as u8
    } else {
        ((w >> 16u32) & 0xff) as u8
    }
}

/// `bytes` holds, for each word of `words` in order, its three colour bytes.
pub open spec fn is_triples_of(bytes: Seq<u8>, words: Seq<u32>) -> bool {
    &&& bytes.len() == 3 * words.len()
    &&& forall|k: int| 0 <= k < words.len() ==> {
        &&& #[trigger] bytes[3 * k] == color_byte(words[k], 0)
        &&& bytes[3 * k + 1] == color_byte(words[k], 1)
        &&& bytes[3 * k + 2] == color_byte(words[k], 2)
    }
}

/// The word a colour triple stands for.
pub open spec fn triple_value(b0: u8, b1: u8, b2: u8) -> u32 {
    (b0 as u32) | ((b1 as u32) << 8u32) | ((b2 as u32) << 16u32)
}

/// Splits each display-colour word into its three colour bytes, least
/// significant first, dropping the alpha byte.
pub fn color_triples(words: &[u32]) -> (r: Vec<u8>)
    requires
        3 * words@.len() <= usize::MAX,
    ensures
        is_triples_of(r@, words@),
{
    let n = words.len();
    let mut r: Vec<u8> = Vec::new();
    let mut i: usize = 0;
    while i < n
        invariant
            n == words@.len(),
            3 * n <= usize::MAX,
            i <= n,
            r@.len() == 3 * i,
            forall|k: int| 0 <= k < i ==> {
                &&& #[trigger] r@[3 * k] == color_byte(words@[k], 0)
                &&& r@[3 * k + 1] == color_byte(words@[k], 1)
                &&& r@[3 * k + 2] == color_byte(words@[k], 2)
            },
        decreases n - i,
    {
        let w = words[i];
        let b0: u8 = (w & 0xff) as u8;
        let b1: u8 = ((w >> 8u32) & 0xff) as u8;
        let b2: u8 = ((w >> 16u32) & 0xff) as u8;
        let ghost r0 = r@;
        r.push(b0);
        r.push(b1);
        r.push(b2);
        proof {
            assert(r@ == r0 + seq![b0, b1, b2]);
            assert forall|k: int| 0 <= k < i + 1 implies {
                &&& #[trigger] r@[3 * k] == color_byte(words@[k], 0)
                &&& r@[3 * k + 1] == color_byte(words@[k], 1)
                &&& r@[3 * k + 2] == color_byte(words@[k], 2)
            } by {
                if k < i {
                    assert(r0[3 * k] == color_byte(words@[k], 0));
                    assert(3 * k + 2 < 3 * i);
                } else {
                    assert(k == i);
                }
            }
        }
        i = i + 1;
    }
    r
}

/// The word a colour triple stands for.
pub fn decode_triple(b0: u8, b1: u8, b2: u8) -> (r: u32)
    ensures
        r == triple_value(b0, b1, b2),
{
    (b0 as u32) | ((b1 as u32) << 8u32) | ((b2 as u32) << 16u32)
}

/// A true-colour image to be drawn onto the canvas: `bytes` holds three
/// colour bytes per pixel, rows `stride` pixels apart, placed at (x, y).
pub struct CompositeImage {
    pub x: u32,
    pub y: u32,
    pub stride: usize,
    pub bytes: Vec<u8>,
}

/// Composited renderer: turns a direct-mode sink into a true-colour image at
/// a fixed viewport, for a generic drawing primitive to blit.
pub struct CompositedRenderer {
    viewport_rect: Rect,
}

impl CompositedRenderer {
    pub closed spec fn viewport(&self) -> Rect {
        self.viewport_rect
    }

    /// A renderer for viewport `viewport_size` at `viewport_offset`; fails when
    /// the viewport does not fit on the display.
    pub fn build(viewport_offset: (u32, u32), viewport_size: (u32, u32)) -> (r: Result<CompositedRenderer, ()>)
        ensures
            r is Ok <==> fits_display(Rect::new_spec(viewport_offset, viewport_size)),
            r matches Ok(c) ==> c.viewport() == Rect::new_spec(viewport_offset, viewport_size),
    {
        let viewport_rect = Rect::new_with_origin(viewport_offset, viewport_size);
        if viewport_rect.w > crate::renderer::DISPLAY_WIDTH
            || viewport_rect.x > crate::renderer::DISPLAY_WIDTH - viewport_rect.w {
            return Err(());
        }
        if viewport_rect.h > crate::renderer::DISPLAY_HEIGHT
            || viewport_rect.y > crate::renderer::DISPLAY_HEIGHT - viewport_rect.h {
            return Err(());
        }
        Ok(CompositedRenderer { viewport_rect })
    }

    /// The image of the sink's current contents, whatever they are, placed at
    /// the viewport's offset. The sink must be the viewport's size.
    pub fn render(&self, sink: &DirectBuffer) -> (r: CompositeImage)
        requires
            sink.wf(),
            sink.width() == self.viewport().w,
            sink.height() == self.viewport().h,
            3 * sink@.len() <= usize::MAX,
        ensures
            r.x == self.viewport().x,
            r.y == self.viewport().y,
            r.stride == sink.width(),
            is_triples_of(r.bytes@, sink@),
    {
        let data = sink.get_data();
        let bytes = color_triples(data);
        let stride = sink.get_pitch() / 4;
        CompositeImage { x: self.viewport_rect.x, y: self.viewport_rect.y, stride, bytes }
    }
}

/// Decoding the three colour bytes of a word gives back the word without its
/// alpha byte.
pub proof fn lemma_triple_round_trip(w: u32)
    ensures
        triple_value(color_byte(w, 0), color_byte(w, 1), color_byte(w, 2)) == w & 0xff_ffff,
{
    assert(((w & 0xff) as u8 as u32) | ((((w >> 8u32) & 0xff) as u8 as u32) << 8u32)
        | ((((w >> 16u32) & 0xff) as u8 as u32) << 16u32) == w & 0xff_ffff) by (bit_vector);
}

/// With the identity palette, every pixel of the composited image decodes
/// back to the colour index written into the sink.
pub proof fn lemma_identity_palette_decodes(palette: Palette, words: Seq<u32>, bytes: Seq<u8>, colors: Seq<u8>)
    requires
        forall|i: int| 0 <= i < 16 ==> #[trigger] palette.color(i) == i as u32,
        colors.len() == words.len(),
        forall|k: int| 0 <= k < colors.len() ==> colors[k] < 16,
        forall|k: int| 0 <= k < words.len() ==> words[k] == palette.color(#[trigger] colors[k] as int),
        is_triples_of(bytes, words),
    ensures
        forall|k: int| 0 <= k < words.len() ==>
            triple_value(#[trigger] bytes[3 * k], bytes[3 * k + 1], bytes[3 * k + 2]) == colors[k] as u32,
{
    assert forall|k: int| 0 <= k < words.len() implies
        triple_value(#[trigger] bytes[3 * k], bytes[3 * k + 1], bytes[3 * k + 2]) == colors[k] as u32 by {
        let c = colors[k];
        assert(words[k] == c as u32);
        lemma_triple_round_trip(words[k]);
        let w = words[k];
        assert(w < 16 ==> w & 0xff_ffff == w) by (bit_vector);
    }
}

/// A sink in which every pixel was written with colour index 0 is composited
/// into an image whose every pixel is the palette's colour 0, alpha dropped.
pub proof fn lemma_composite_background(sink: DirectBuffer, bytes: Seq<u8>)
    requires
        sink.wf(),
        forall|k: int| 0 <= k < sink@.len() ==> #[trigger] sink@[k] == sink.palette().color(0),
        is_triples_of(bytes, sink@),
    ensures
        bytes.len() == 3 * sink.width() * sink.height(),
        forall|k: int| 0 <= k < sink.width() * sink.height() ==> {
            &&& #[trigger] bytes[3 * k] == color_byte(sink.palette().color(0), 0)
            &&& bytes[3 * k + 1] == color_byte(sink.palette().color(0), 1)
            &&& bytes[3 * k + 2] == color_byte(sink.palette().color(0), 2)
        },
{
    sink.lemma_wf();
    assert(3 * sink.width() * sink.height() == 3 * (sink.width() * sink.height())) by (nonlinear_arith);
}

} // verus!
