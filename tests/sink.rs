use c64_display::palette::{clut_entry, clut_table, Palette};
use c64_display::video::{DirectBuffer, Rect, VideoBuffer, TEXTURE_PITCH};

#[test]
fn indexed_sink_has_given_dimensions() {
    let b = VideoBuffer::new(403, 284);
    assert_eq!(b.get_dimension(), (403, 284));
    assert_eq!(b.get_pitch(), 403);
    assert_eq!(b.get_data().len(), 403 * 284);
    let w = VideoBuffer::new(TEXTURE_PITCH as u32, 2);
    assert_eq!(w.get_pitch() * 2, w.get_data().len());
    assert!(b.get_data().iter().all(|&p| p == 0));
}

#[test]
fn indexed_write_reads_back_verbatim() {
    let mut b = VideoBuffer::new(16, 16);
    b.write(0, 7);
    b.write(17, 15);
    b.write(16 * 16 - 1, 3);
    let d = b.get_data();
    assert_eq!(d.len(), 256);
    assert_eq!(d[0], 7);
    assert_eq!(d[17], 15);
    assert_eq!(d[16 * 16 - 1], 3);
    assert_eq!(d[1], 0);
}

#[test]
fn indexed_reset_clears_everything() {
    let mut b = VideoBuffer::new(16, 4);
    for i in 0..16 * 4 {
        b.write(i, (i % 16) as u8);
    }
    b.reset();
    assert_eq!(b.get_data().len(), 16 * 4);
    assert!(b.get_data().iter().all(|&p| p == 0));
}

#[test]
fn direct_write_resolves_through_palette() {
    let mut p = Palette::identity();
    p.colors[2] = 0x00aa_bbcc;
    let mut b = DirectBuffer::new(4, 3, p);
    assert_eq!(b.get_dimension(), (4, 3));
    assert_eq!(b.get_pitch(), 16);
    b.write(5, 2);
    b.write(6, 9);
    let d = b.get_data();
    assert_eq!(d.len(), 12);
    assert_eq!(d[5], 0x00aa_bbcc);
    assert_eq!(d[6], 9);
    assert_eq!(d[0], 0);
}

#[test]
fn direct_reset_gives_zero_words() {
    let mut p = Palette::identity();
    p.colors[0] = 0xffff_ffff;
    let mut b = DirectBuffer::new(3, 3, p);
    for i in 0..9 {
        b.write(i, 0);
    }
    assert!(b.get_data().iter().all(|&w| w == 0xffff_ffff));
    b.reset();
    assert!(b.get_data().iter().all(|&w| w == 0));
}

#[test]
fn palette_lookup_and_identity() {
    let p = Palette::identity();
    for i in 0..16u8 {
        assert_eq!(p.lookup(i), i as u32);
    }
}

#[test]
fn clut_entries_match_the_machine_colours() {
    assert_eq!(clut_entry(0), 0x0000);
    assert_eq!(clut_entry(1), 0xffff);
    assert_eq!(clut_entry(5), 0x446b);
    assert_eq!(clut_entry(15), 0x94b2);
    let t = clut_table();
    assert_eq!(t.len(), 16);
    assert_eq!(t[2], 0x29ad);
    assert_eq!(t[14], 0xb2ed);
}

#[test]
fn rect_constructors() {
    let a = Rect::new(1, 2, 3, 4);
    assert_eq!((a.x, a.y, a.w, a.h), (1, 2, 3, 4));
    let b = Rect::new_with_origin((1, 2), (3, 4));
    assert_eq!(a, b);
}
