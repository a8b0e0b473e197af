use c64_display::composite::{color_triples, decode_triple, CompositedRenderer};
use c64_display::palette::{clut_entry, clut_table, Palette};
use c64_display::renderer::{GuCommand, RenderError, VideoRenderer};
use c64_display::video::{texture_map_size, DirectBuffer, VideoBuffer};

#[test]
fn color_triples_split_words_and_drop_alpha() {
    let t = color_triples(&[0x1122_3344, 0xff00_00ff]);
    assert_eq!(t, vec![0x44, 0x33, 0x22, 0xff, 0x00, 0x00]);
    assert!(color_triples(&[]).is_empty());
}

#[test]
fn decode_triple_reassembles_word() {
    assert_eq!(decode_triple(0x44, 0x33, 0x22), 0x0022_3344);
    assert_eq!(decode_triple(5, 0, 0), 5);
}

#[test]
fn composited_identity_palette_decodes_back() {
    let mut sink = DirectBuffer::new(16, 16, Palette::identity());
    for i in 0..256 {
        sink.write(i, 5);
    }
    let r = CompositedRenderer::build((0, 0), (16, 16)).unwrap();
    let img = r.render(&sink);
    assert_eq!(img.stride, 16);
    assert_eq!(img.bytes.len(), 16 * 16 * 3);
    for k in 0..256 {
        let b = &img.bytes[3 * k..3 * k + 3];
        assert_eq!(decode_triple(b[0], b[1], b[2]), 5);
    }
}

#[test]
fn composited_background_is_palette_zero() {
    let mut p = Palette::identity();
    p.colors[0] = 0x0012_3456;
    let mut sink = DirectBuffer::new(8, 2, p);
    for i in 0..16 {
        sink.write(i, 0);
    }
    let r = CompositedRenderer::build((10, 20), (8, 2)).unwrap();
    let img = r.render(&sink);
    assert_eq!((img.x, img.y), (10, 20));
    for k in 0..16 {
        assert_eq!(&img.bytes[3 * k..3 * k + 3], &[0x56, 0x34, 0x12]);
    }
}

#[test]
fn accelerated_background_uploads_zero_sink_with_clut() {
    let sink = VideoBuffer::new(480, 272);
    let mut r = VideoRenderer::build((0, 0), (480, 272)).unwrap();
    let setup = r.init();
    assert!(setup.contains(&GuCommand::ClutLoad { blocks: 2 }));
    let cmds = r.render(&sink).unwrap();
    assert!(cmds.contains(&GuCommand::ClutMode));
    assert!(cmds.contains(&GuCommand::TexModeIndexed));
    assert!(cmds.contains(&GuCommand::TexImage { width: 512, height: 512, stride: 480 }));
    assert!(sink.get_data().iter().all(|&p| p == 0));
    assert_eq!(clut_table()[0], clut_entry(0));
}

#[test]
fn render_rejects_sink_smaller_than_viewport() {
    let sink = VideoBuffer::new(320, 200);
    let mut r = VideoRenderer::build((0, 0), (480, 272)).unwrap();
    r.init();
    assert_eq!(r.render(&sink), Err(RenderError::SinkTooSmall));
    let fits = VideoBuffer::new(480, 272);
    assert!(r.render(&fits).is_ok());
}

#[test]
fn init_sets_viewport_from_rectangle() {
    let mut r = VideoRenderer::build((10, 20), (100, 50)).unwrap();
    let setup = r.init();
    assert!(setup.contains(&GuCommand::Viewport { cx: 1868, cy: 1957, width: 100, height: 50 }));
    assert!(setup.contains(&GuCommand::Scissor { x: 10, y: 20, width: 100, height: 50 }));
    assert!(setup.contains(&GuCommand::TexFilterNearest));
    assert!(setup.contains(&GuCommand::Offset { x: 1808, y: 1912 }));
}

#[test]
fn build_rejects_viewport_off_display() {
    assert!(VideoRenderer::build((0, 0), (481, 272)).is_err());
    assert!(VideoRenderer::build((1, 0), (480, 272)).is_err());
    assert!(VideoRenderer::build((0, 1), (480, 272)).is_err());
    assert!(VideoRenderer::build((0, 0), (480, 272)).is_ok());
    assert!(CompositedRenderer::build((0, 0), (480, 273)).is_err());
    assert!(CompositedRenderer::build((100, 0), (380, 272)).is_ok());
}

#[test]
fn render_before_init_submits_nothing() {
    let sink = VideoBuffer::new(480, 272);
    let mut r = VideoRenderer::build((0, 0), (480, 272)).unwrap();
    assert_eq!(r.render(&sink), Err(RenderError::NotInitialized));
}

#[test]
fn init_then_render_draws_one_sprite() {
    let sink = VideoBuffer::new(480, 272);
    let mut r = VideoRenderer::build((0, 0), (480, 272)).unwrap();
    let setup = r.init();
    assert_eq!(setup[0], GuCommand::Init);
    assert!(setup.contains(&GuCommand::Scissor { x: 0, y: 0, width: 480, height: 272 }));
    assert!(setup.contains(&GuCommand::Viewport { cx: 2048, cy: 2048, width: 480, height: 272 }));
    assert!(setup.contains(&GuCommand::ClutLoad { blocks: 2 }));
    assert!(!setup.iter().any(|c| matches!(c, GuCommand::DrawSprite { .. })));
    let cmds = r.render(&sink).unwrap();
    let sprites: Vec<&GuCommand> = cmds.iter().filter(|c| matches!(c, GuCommand::DrawSprite { .. })).collect();
    assert_eq!(sprites.len(), 1);
    assert_eq!(
        *sprites[0],
        GuCommand::DrawSprite { u0: 0, v0: 0, x0: 0, y0: 0, u1: 480, v1: 272, x1: 480, y1: 272 }
    );
    assert!(cmds.contains(&GuCommand::TexImage { width: 512, height: 512, stride: 480 }));
}

#[test]
fn swap_follows_completed_submission() {
    let sink = VideoBuffer::new(400, 272);
    let mut r = VideoRenderer::build((40, 0), (400, 272)).unwrap();
    r.init();
    for _ in 0..3 {
        let cmds = r.render(&sink).unwrap();
        let swaps: Vec<usize> = (0..cmds.len()).filter(|&i| cmds[i] == GuCommand::SwapBuffers).collect();
        assert_eq!(swaps.len(), 1);
        let s = swaps[0];
        assert!(s >= 2);
        assert_eq!(cmds[s - 1], GuCommand::SyncWait);
        assert_eq!(cmds[s - 2], GuCommand::Finish);
        assert_eq!(cmds[0], GuCommand::Start);
    }
}

#[test]
fn pal_frame_maps_into_power_of_two_texture() {
    let sink = VideoBuffer::new(504, 312);
    let mut r = VideoRenderer::build((0, 0), (480, 272)).unwrap();
    r.init();
    let cmds = r.render(&sink).unwrap();
    assert!(cmds.contains(&GuCommand::TexImage { width: 512, height: 512, stride: 504 }));
    let small = VideoBuffer::new(480, 250);
    let mut r2 = VideoRenderer::build((0, 0), (480, 250)).unwrap();
    r2.init();
    let cmds2 = r2.render(&small).unwrap();
    assert!(cmds2.contains(&GuCommand::TexImage { width: 512, height: 256, stride: 480 }));
}

#[test]
fn texture_map_size_is_next_power_of_two() {
    assert_eq!(texture_map_size(0), 1);
    assert_eq!(texture_map_size(1), 1);
    assert_eq!(texture_map_size(3), 4);
    assert_eq!(texture_map_size(200), 256);
    assert_eq!(texture_map_size(256), 256);
    assert_eq!(texture_map_size(263), 512);
    assert_eq!(texture_map_size(312), 512);
    assert_eq!(texture_map_size(512), 512);
}
