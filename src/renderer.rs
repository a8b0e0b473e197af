use vstd::prelude::*;
use crate::palette::clut_spec;
use crate::video::{background, texture_map_side, texture_map_size, Rect, VideoBuffer, TEXTURE_PITCH};

verus! {

/// Width of the display surface, in pixels.
pub const DISPLAY_WIDTH: u32 = 480;
/// Height of the display surface, in pixels.
pub const DISPLAY_HEIGHT: u32 = 272;
/// Row stride of each display-memory region, in pixels.
pub const DISPLAY_STRIDE: u32 = 512;
/// Centre of the accelerator's virtual coordinate space.
pub const GU_CENTER: u32 = 2048;
/// Number of 8-entry blocks in the colour-lookup table.
pub const CLUT_BLOCKS: u32 = 2;

/// One step of the accelerator's command protocol. The platform layer carries
/// each one out, in order, against the hardware.
#[derive(Clone, Copy, Debug, PartialEq, Eq, Structural)]
pub enum GuCommand {
    /// Allocate the two display-memory regions and bring up the accelerator.
    Init,
    /// Open the command list.
    Start,
    /// Draw into display-memory region `region` (0 or 1).
    DrawBuffer { region: u8, stride: u32 },
    /// Show display-memory region `region`.
    DispBuffer { width: u32, height: u32, region: u8, stride: u32 },
    Offset { x: u32, y: u32 },
    Viewport { cx: u32, cy: u32, width: u32, height: u32 },
    Scissor { x: u32, y: u32, width: u32, height: u32 },
    EnableScissorTest,
    EnableTexture2D,
    /// Sample textures without filtering.
    TexFilterNearest,
    /// Upload the colour-lookup table, `blocks` blocks of 8 entries.
    ClutLoad { blocks: u32 },
    /// Interpret lookup-table entries as 5-6-5 colours.
    ClutMode,
    /// Textures are 8-bit indexed.
    TexModeIndexed,
    /// Use the sink's contents as a texture map `width` x `height` texels
    /// (powers of two), whose rows lie `stride` texels apart.
    TexImage { width: u32, height: u32, stride: u32 },
    /// Texture colours replace the vertex colour.
    TexFuncReplace,
    /// A two-vertex sprite: texture corner (u0, v0) at screen (x0, y0) and
    /// (u1, v1) at (x1, y1).
    DrawSprite { u0: u32, v0: u32, x0: u32, y0: u32, u1: u32, v1: u32, x1: u32, y1: u32 },
    /// Close the command list and submit it.
    Finish,
    /// Block until the hardware reports the submitted list complete.
    SyncWait,
    /// Exchange the draw and shown regions.
    SwapBuffers,
    /// Turn the display on or off.
    Display { on: bool },
}

/// Why a frame was not rendered.
#[derive(Clone, Copy, Debug, PartialEq, Eq, Structural)]
pub enum RenderError {
    /// `render` was called before `init`.
    NotInitialized,
    /// The sink is narrower or lower than the viewport, so a 1:1 mapping
    /// would read past its contents.
    SinkTooSmall,
}

/// A viewport fits on the display surface.
pub open spec fn fits_display(r: Rect) -> bool {
    &&& r.x + r.w <= DISPLAY_WIDTH
    &&& r.y + r.h <= DISPLAY_HEIGHT
}

/// Horizontal centre of viewport `vp` in the accelerator's coordinate space,
/// with the display's corner placed by the offset.
pub open spec fn viewport_cx(vp: Rect) -> u32 {
    (GU_CENTER - DISPLAY_WIDTH / 2 + vp.x + vp.w / 2) as u32
}

/// Vertical centre of viewport `vp` in the accelerator's coordinate space.
pub open spec fn viewport_cy(vp: Rect) -> u32 {
    (GU_CENTER - DISPLAY_HEIGHT / 2 + vp.y + vp.h / 2) as u32
}

/// The commands that set the accelerator up for viewport `vp`. The offset
/// puts the display's top-left corner at the origin, so viewport and scissor
/// are both the rectangle `vp` in display coordinates.
pub open spec fn init_commands(vp: Rect) -> Seq<GuCommand> {
    seq![
        GuCommand::Init,
        GuCommand::Start,
        GuCommand::DrawBuffer { region: 0, stride: DISPLAY_STRIDE },
        GuCommand::DispBuffer { width: DISPLAY_WIDTH, height: DISPLAY_HEIGHT, region: 1, stride: DISPLAY_STRIDE },
        GuCommand::Offset { x: (GU_CENTER - DISPLAY_WIDTH / 2) as u32, y: (GU_CENTER - DISPLAY_HEIGHT / 2) as u32 },
        GuCommand::Viewport { cx: viewport_cx(vp), cy: viewport_cy(vp), width: vp.w, height: vp.h },
        GuCommand::Scissor { x: vp.x, y: vp.y, width: vp.w, height: vp.h },
        GuCommand::EnableScissorTest,
        GuCommand::EnableTexture2D,
        GuCommand::TexFilterNearest,
        GuCommand::ClutLoad { blocks: CLUT_BLOCKS },
        GuCommand::Finish,
        GuCommand::SyncWait,
        GuCommand::Display { on: true },
    ]
}

/// The sprite that maps the texture 1:1 onto viewport `vp`.
pub open spec fn viewport_sprite(vp: Rect) -> GuCommand {
    GuCommand::DrawSprite {
        u0: 0, v0: 0, x0: vp.x, y0: vp.y,
        u1: vp.w, v1: vp.h, x1: (vp.x + vp.w) as u32, y1: (vp.y + vp.h) as u32,
    }
}

/// The commands that draw one frame of a sink with row stride `pitch`, as a
/// texture map `TEXTURE_PITCH` texels wide and `map_height` high. Texel
/// (u, v) is then pixel (u, v) of the sink.
pub open spec fn render_commands(vp: Rect, pitch: u32, map_height: u32) -> Seq<GuCommand> {
    seq![
        GuCommand::Start,
        GuCommand::ClutMode,
        GuCommand::TexModeIndexed,
        GuCommand::TexImage { width: TEXTURE_PITCH as u32, height: map_height, stride: pitch },
        GuCommand::TexFuncReplace,
        viewport_sprite(vp),
        GuCommand::Finish,
        GuCommand::SyncWait,
        GuCommand::SwapBuffers,
    ]
}

/// How many sprite draws a command sequence holds.
pub open spec fn count_sprites(cmds: Seq<GuCommand>) -> nat
    decreases cmds.len(),
{
    if cmds.len() == 0 {
        0
    } else {
        count_sprites(cmds.drop_last()) + if cmds.last() is DrawSprite { 1nat } else { 0nat }
    }
}

/// Every buffer swap comes right after a wait for the submitted list, which
/// comes right after the list was closed.
pub open spec fn swaps_after_completion(cmds: Seq<GuCommand>) -> bool {
    forall|i: int| 0 <= i < cmds.len() && (#[trigger] cmds[i]) is SwapBuffers ==>
        i >= 2 && cmds[i - 1] is SyncWait && cmds[i - 2] is Finish
}

/// The sink is at least as wide and as high as the viewport.
pub open spec fn sink_covers(sink: &VideoBuffer, vp: Rect) -> bool {
    vp.w <= sink.width() && vp.h <= sink.height()
}

/// Accelerated renderer: uploads the indexed sink as a texture and draws it
/// as one sprite, double buffered.
pub struct VideoRenderer {
    viewport_rect: Rect,
    initialized: bool,
    draw_region: u8,
}

impl VideoRenderer {
    pub closed spec fn viewport(&self) -> Rect {
        self.viewport_rect
    }

    pub closed spec fn is_initialized(&self) -> bool {
        self.initialized
    }

    /// The display-memory region currently drawn into (the other one is shown).
    pub closed spec fn draw_region(&self) -> u8 {
        self.draw_region
    }

    pub closed spec fn wf(&self) -> bool {
        &&& fits_display(self.viewport_rect)
        &&& self.draw_region < 2
    }

    /// A renderer for viewport `viewport_size` at `viewport_offset`; fails when
    /// the viewport does not fit on the display. Touches no hardware.
    pub fn build(viewport_offset: (u32, u32), viewport_size: (u32, u32)) -> (r: Result<VideoRenderer, ()>)
        ensures
            r is Ok <==> fits_display(Rect::new_spec(viewport_offset, viewport_size)),
            r matches Ok(v) ==> {
                &&& v.wf()
                &&& v.viewport() == Rect::new_spec(viewport_offset, viewport_size)
                &&& !v.is_initialized()
                &&& v.draw_region() == 0
            },
    {
        let viewport_rect = Rect::new_with_origin(viewport_offset, viewport_size);
        if viewport_rect.w > DISPLAY_WIDTH || viewport_rect.x > DISPLAY_WIDTH - viewport_rect.w {
            return Err(());
        }
        if viewport_rect.h > DISPLAY_HEIGHT || viewport_rect.y > DISPLAY_HEIGHT - viewport_rect.h {
            return Err(());
        }
        Ok(VideoRenderer { viewport_rect, initialized: false, draw_region: 0 })
    }

    /// The set-up commands; to be carried out once, before the first frame.
    pub fn init(&mut self) -> (r: Vec<GuCommand>)
        requires
            old(self).wf(),
            !old(self).is_initialized(),
        ensures
            final(self).wf(),
            final(self).is_initialized(),
            final(self).viewport() == old(self).viewport(),
            final(self).draw_region() == old(self).draw_region(),
            r@ == init_commands(old(self).viewport()),
    {
        let vp = self.viewport_rect;
        let mut r: Vec<GuCommand> = Vec::new();
        r.push(GuCommand::Init);
        r.push(GuCommand::Start);
        r.push(GuCommand::DrawBuffer { region: 0, stride: DISPLAY_STRIDE });
        r.push(GuCommand::DispBuffer { width: DISPLAY_WIDTH, height: DISPLAY_HEIGHT, region: 1, stride: DISPLAY_STRIDE });
        r.push(GuCommand::Offset { x: GU_CENTER - DISPLAY_WIDTH / 2, y: GU_CENTER - DISPLAY_HEIGHT / 2 });
        r.push(GuCommand::Viewport {
            cx: GU_CENTER - DISPLAY_WIDTH / 2 + vp.x + vp.w / 2,
            cy: GU_CENTER - DISPLAY_HEIGHT / 2 + vp.y + vp.h / 2,
            width: vp.w,
            height: vp.h,
        });
        r.push(GuCommand::Scissor { x: vp.x, y: vp.y, width: vp.w, height: vp.h });
        r.push(GuCommand::EnableScissorTest);
        r.push(GuCommand::EnableTexture2D);
        r.push(GuCommand::TexFilterNearest);
        r.push(GuCommand::ClutLoad { blocks: CLUT_BLOCKS });
        r.push(GuCommand::Finish);
        r.push(GuCommand::SyncWait);
        r.push(GuCommand::Display { on: true });
        self.initialized = true;
        proof {
            assert(r@ =~= init_commands(vp));
        }
        r
    }

    /// The commands that draw the sink's current contents and then present
    /// them; after them the draw and shown regions have changed roles.
    pub fn render(&mut self, sink: &VideoBuffer) -> (r: Result<Vec<GuCommand>, RenderError>)
        requires
            old(self).wf(),
            sink.wf(),
        ensures
            final(self).wf(),
            final(self).viewport() == old(self).viewport(),
            final(self).is_initialized() == old(self).is_initialized(),
            r is Ok <==> old(self).is_initialized() && sink_covers(sink, old(self).viewport()),
            r == Err::<Vec<GuCommand>, RenderError>(RenderError::NotInitialized) <==> !old(self).is_initialized(),
            r == Err::<Vec<GuCommand>, RenderError>(RenderError::SinkTooSmall) <==> old(self).is_initialized()
                && !sink_covers(sink, old(self).viewport()),
            r is Err ==> final(self).draw_region() == old(self).draw_region(),
            r matches Ok(cmds) ==> {
                &&& cmds@ == render_commands(old(self).viewport(), sink.width() as u32, texture_map_side(sink.height()) as u32)
                &&& final(self).draw_region() == 1 - old(self).draw_region()
            },
    {
        if !self.initialized {
            return Err(RenderError::NotInitialized);
        }
        let vp = self.viewport_rect;
        let (width, height) = sink.get_dimension();
        proof {
            sink.lemma_wf();
        }
        if (vp.w as usize) > width || (vp.h as usize) > height {
            return Err(RenderError::SinkTooSmall);
        }
        let pitch = sink.get_pitch() as u32;
        let rows = texture_map_size(height as u32);
        let mut r: Vec<GuCommand> = Vec::new();
        r.push(GuCommand::Start);
        r.push(GuCommand::ClutMode);
        r.push(GuCommand::TexModeIndexed);
        r.push(GuCommand::TexImage { width: TEXTURE_PITCH as u32, height: rows, stride: pitch });
        r.push(GuCommand::TexFuncReplace);
        r.push(GuCommand::DrawSprite {
            u0: 0, v0: 0, x0: vp.x, y0: vp.y,
            u1: vp.w, v1: vp.h, x1: vp.x + vp.w, y1: vp.y + vp.h,
        });
        r.push(GuCommand::Finish);
        r.push(GuCommand::SyncWait);
        r.push(GuCommand::SwapBuffers);
        self.draw_region = 1 - self.draw_region;
        proof {
            assert(r@ =~= render_commands(vp, pitch, rows));
        }
        Ok(r)
    }
}

/// What the display shows for an indexed frame: each pixel resolved through
/// the hardware colour-lookup table.
pub open spec fn shown_colors(data: Seq<u8>) -> Seq<u16> {
    data.map_values(|p: u8| clut_spec(p as int))
}

/// The accelerated renderer only presents a frame once the list that drew it
/// has been submitted and reported complete; set-up presents nothing.
pub proof fn lemma_swap_waits_for_completion(vp: Rect, pitch: u32, height: u32)
    ensures
        swaps_after_completion(render_commands(vp, pitch, height)),
        swaps_after_completion(init_commands(vp)),
{
    let cmds = render_commands(vp, pitch, height);
    assert forall|i: int| 0 <= i < cmds.len() && (#[trigger] cmds[i]) is SwapBuffers implies
        i >= 2 && cmds[i - 1] is SyncWait && cmds[i - 2] is Finish by {
        assert(i == 8);
    }
    let setup = init_commands(vp);
    assert forall|i: int| 0 <= i < setup.len() implies !((#[trigger] setup[i]) is SwapBuffers) by {
        assert(0 <= i < 14);
    }
}

/// Set-up issues no draw; each frame issues exactly one sprite draw.
pub proof fn lemma_one_sprite_per_frame(vp: Rect, pitch: u32, height: u32)
    ensures
        count_sprites(init_commands(vp)) == 0,
        count_sprites(render_commands(vp, pitch, height)) == 1,
{
    let setup = init_commands(vp);
    let cmds = render_commands(vp, pitch, height);
    reveal_with_fuel(count_sprites, 2);
    assert(count_sprites(setup) == 0) by {
        lemma_no_sprites_prefix(setup, 14);
        assert(setup.subrange(0, 14) =~= setup);
    }
    assert(count_sprites(cmds) == 1) by {
        lemma_no_sprites_prefix(cmds, 5);
        assert(cmds.subrange(0, 6).drop_last() =~= cmds.subrange(0, 5));
        assert(count_sprites(cmds.subrange(0, 6)) == 1);
        assert(cmds.subrange(0, 7).drop_last() =~= cmds.subrange(0, 6));
        assert(count_sprites(cmds.subrange(0, 7)) == 1);
        assert(cmds.subrange(0, 8).drop_last() =~= cmds.subrange(0, 7));
        assert(count_sprites(cmds.subrange(0, 8)) == 1);
        assert(cmds.drop_last() =~= cmds.subrange(0, 8));
    }
}

proof fn lemma_no_sprites_prefix(cmds: Seq<GuCommand>, k: int)
    requires
        0 <= k <= cmds.len(),
        forall|i: int| 0 <= i < k ==> !((#[trigger] cmds[i]) is DrawSprite),
    ensures
        count_sprites(cmds.subrange(0, k)) == 0,
    decreases k,
{
    if k > 0 {
        assert(cmds.subrange(0, k).drop_last() =~= cmds.subrange(0, k - 1));
        lemma_no_sprites_prefix(cmds, k - 1);
    }
}

/// A sink holding only colour index 0 is shown as a frame of the lookup
/// table's colour 0 throughout.
pub proof fn lemma_background_shown(sink: VideoBuffer)
    requires
        sink.wf(),
        forall|k: int| 0 <= k < sink@.len() ==> #[trigger] sink@[k] == 0u8,
    ensures
        shown_colors(sink@) == background(sink.width() * sink.height(), clut_spec(0)),
{
    sink.lemma_wf();
    assert(shown_colors(sink@) =~= background(sink.width() * sink.height(), clut_spec(0)));
}

/// The commands of a renderer's whole life: set-up, then `n` frames.
pub open spec fn frame_stream(vp: Rect, pitch: u32, height: u32, n: nat) -> Seq<GuCommand>
    decreases n,
{
    if n == 0 {
        init_commands(vp)
    } else {
        frame_stream(vp, pitch, height, (n - 1) as nat) + render_commands(vp, pitch, height)
    }
}

proof fn lemma_swaps_after_completion_concat(a: Seq<GuCommand>, b: Seq<GuCommand>)
    requires
        swaps_after_completion(a),
        swaps_after_completion(b),
        b.len() >= 2,
        !(b[0] is SwapBuffers),
        !(b[1] is SwapBuffers),
    ensures
        swaps_after_completion(a + b),
{
    let c = a + b;
    assert forall|i: int| 0 <= i < c.len() && (#[trigger] c[i]) is SwapBuffers implies
        i >= 2 && c[i - 1] is SyncWait && c[i - 2] is Finish by {
        if i < a.len() {
            assert(a[i] is SwapBuffers);
        } else {
            let j = i - a.len();
            assert(b[j] is SwapBuffers);
            assert(c[i - 1] == b[j - 1]);
            assert(c[i - 2] == b[j - 2]);
        }
    }
}

/// Over set-up and any number of frames, no buffer is ever presented before
/// the list that drew it was submitted and reported complete.
pub proof fn lemma_stream_swaps_wait_for_completion(vp: Rect, pitch: u32, height: u32, n: nat)
    ensures
        swaps_after_completion(frame_stream(vp, pitch, height, n)),
    decreases n,
{
    lemma_swap_waits_for_completion(vp, pitch, height);
    if n > 0 {
        lemma_stream_swaps_wait_for_completion(vp, pitch, height, (n - 1) as nat);
        lemma_swaps_after_completion_concat(
            frame_stream(vp, pitch, height, (n - 1) as nat),
            render_commands(vp, pitch, height),
        );
    }
}

} // verus!
