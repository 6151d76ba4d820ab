use ni_display::Color;
use ni_display::FrameBuffer;
use ni_display::NiDisplay;
use ni_display::PayloadVariant;
use ni_display::encode;
use ni_display::pack;
use ni_display::DISPLAY_HEIGHT;
use ni_display::DISPLAY_WIDTH;
use ni_display::FRAME_LEN;
use ni_display::PAYLOAD_LEN;
use ni_display::PIXEL_COUNT;

const HEADER: [u8; 16] = [
    0x84, 0x00, 0x00, 0x60, 0x00, 0x00, 0x00, 0x00, 0x00, 0x00, 0x00, 0x00, 0x01, 0xe0, 0x01,
    0x10,
];
const COMMAND: [u8; 4] = [0x00, 0x00, 0xff, 0x00];
const FOOTER: [u8; 8] = [0x03, 0x00, 0x00, 0x00, 0x40, 0x00, 0x00, 0x00];

fn plain() -> PayloadVariant {
    // A zero key means the little-endian bytes go out unchanged.
    PayloadVariant::Masked { key: [0, 0, 0, 0] }
}

#[test]
fn pack_known_values() {
    // Layout: blue bits 11..=15, green bits 5..=10, red bits 0..=4.
    assert_eq!(pack(Color::new(0, 0, 0)), 0x0000);
    assert_eq!(pack(Color::new(255, 0, 0)), 0x001f);
    assert_eq!(pack(Color::new(0, 255, 0)), 0x07e0);
    assert_eq!(pack(Color::new(0, 0, 255)), 0xf800);
    assert_eq!(pack(Color::new(255, 255, 255)), 0xffff);
    // Source channels are truncated to their top bits.
    assert_eq!(pack(Color::new(7, 3, 7)), 0x0000);
    assert_eq!(pack(Color::new(8, 4, 8)), (1 << 11) | (1 << 5) | 1);
}

#[test]
fn pack_is_deterministic() {
    let c = Color::new(123, 45, 67);
    assert_eq!(pack(c), pack(c));
    assert_eq!(pack(Color::new(123, 45, 67)), pack(Color::new(123, 45, 67)));
}

#[test]
fn set_pixel_read_back() {
    let mut fb = FrameBuffer::new();
    fb.set_pixel(0, 0, 0xabcd);
    fb.set_pixel(479, 271, 0x1234);
    fb.set_pixel(17, 200, 0x5678);
    assert_eq!(fb.get_pixel(0, 0), 0xabcd);
    assert_eq!(fb.get_pixel(479, 271), 0x1234);
    assert_eq!(fb.get_pixel(17, 200), 0x5678);
    // Row-major addressing.
    assert_eq!(fb.raw_view()[200 * DISPLAY_WIDTH + 17], 0x5678);
}

#[test]
fn set_pixel_out_of_range_is_a_no_op() {
    let mut fb = FrameBuffer::new();
    fb.set_pixel(3, 4, 0x9999);
    let before = fb.raw_view().clone();
    fb.set_pixel(DISPLAY_WIDTH, 0, 0xffff);
    fb.set_pixel(0, DISPLAY_HEIGHT, 0xffff);
    fb.set_pixel(usize::MAX, usize::MAX, 0xffff);
    assert_eq!(fb.raw_view(), &before);
}

#[test]
fn clear_fills_every_cell() {
    let mut fb = FrameBuffer::new();
    fb.set_pixel(40, 40, 0x0f0f);
    fb.clear(0x2a2a);
    let view = fb.raw_view();
    assert_eq!(view.len(), PIXEL_COUNT);
    assert!(view.iter().all(|&p| p == 0x2a2a));
}

#[test]
fn driver_clear_packs_the_color() {
    let mut d = NiDisplay::new(plain());
    let c = Color::new(200, 100, 50);
    d.clear(c);
    let view = d.raw_view();
    assert_eq!(view.len(), PIXEL_COUNT);
    let expected = pack(c);
    assert!(view.iter().all(|&p| p == expected));
}

#[test]
fn encode_length_is_fixed() {
    let mut fb = FrameBuffer::new();
    assert_eq!(FRAME_LEN, 16 + 4 + 480 * 272 * 2 + 8);
    let f = encode(&fb, 0, plain());
    assert_eq!(f.len(), FRAME_LEN);
    // Length does not depend on the contents.
    fb.set_pixel(5, 5, 0xffff);
    fb.set_pixel(100, 100, 0x1234);
    let f2 = encode(&fb, 1, plain());
    assert_eq!(f2.len(), FRAME_LEN);
}

#[test]
fn encode_header_command_footer() {
    let mut fb = FrameBuffer::new();
    fb.set_pixel(0, 0, 0xffff);
    for screen_id in [0u8, 1u8] {
        let f = encode(&fb, screen_id, plain());
        let mut expected_header = HEADER;
        expected_header[2] = screen_id;
        assert_eq!(&f[0..16], &expected_header);
        assert_eq!(&f[16..20], &COMMAND);
        assert_eq!(&f[FRAME_LEN - 8..], &FOOTER);
    }
}

#[test]
fn encode_payload_little_endian_with_zero_key() {
    let mut fb = FrameBuffer::new();
    fb.set_pixel(0, 0, 0xabcd);
    fb.set_pixel(1, 0, 0x0102);
    let f = encode(&fb, 0, plain());
    let payload = &f[20..20 + PAYLOAD_LEN];
    assert_eq!(payload[0], 0xcd); // low byte first
    assert_eq!(payload[1], 0xab);
    assert_eq!(payload[2], 0x02);
    assert_eq!(payload[3], 0x01);
    assert!(payload[4..].iter().all(|&b| b == 0));
}

#[test]
fn encode_payload_masked_key_repeats() {
    let key = [0x11u8, 0x22, 0x33, 0x44];
    let mut fb = FrameBuffer::new();
    fb.set_pixel(0, 0, 0xabcd);
    let f = encode(&fb, 0, PayloadVariant::Masked { key });
    let payload = &f[20..20 + PAYLOAD_LEN];
    assert_eq!(payload[0], 0xcd ^ 0x11);
    assert_eq!(payload[1], 0xab ^ 0x22);
    assert_eq!(payload[2], 0x00 ^ 0x33);
    assert_eq!(payload[3], 0x00 ^ 0x44);
    assert_eq!(payload[4], 0x00 ^ 0x11);
    assert_eq!(payload[5], 0x00 ^ 0x22);
    // The key repeats over the whole payload.
    for (j, &b) in payload.iter().enumerate().skip(6) {
        assert_eq!(b, key[j % 4]);
    }
}

#[test]
fn encode_payload_swapped_is_big_endian_unmasked() {
    let mut fb = FrameBuffer::new();
    fb.set_pixel(0, 0, 0xabcd);
    let f = encode(&fb, 0, PayloadVariant::Swapped);
    let payload = &f[20..20 + PAYLOAD_LEN];
    assert_eq!(payload[0], 0xab); // high byte first
    assert_eq!(payload[1], 0xcd);
    assert!(payload[2..].iter().all(|&b| b == 0));
}

#[test]
fn select_display_clamps_and_keeps_buffer() {
    let mut d = NiDisplay::new(plain());
    d.draw_pixel(2, 3, Color::red());
    let before = d.raw_view().clone();
    d.select_display(0);
    assert_eq!(d.selected_screen(), 0);
    d.select_display(1);
    assert_eq!(d.selected_screen(), 1);
    d.select_display(200);
    assert_eq!(d.selected_screen(), 1);
    assert_eq!(d.raw_view(), &before);
}

#[test]
fn size_is_fixed() {
    let d = NiDisplay::new(plain());
    assert_eq!(d.size(), (480, 272));
}

#[test]
fn draw_iter_draws_in_order_and_drops_out_of_range() {
    let mut d = NiDisplay::new(plain());
    let pixels = vec![
        (0i32, 0i32, Color::red()),
        (-1, 0, Color::white()),        // dropped
        (0, -7, Color::white()),        // dropped
        (480, 0, Color::white()),       // dropped
        (0, 272, Color::white()),       // dropped
        (10, 2, Color::new(0, 255, 0)),
        (0, 0, Color::white()),         // overwrites the first write
    ];
    d.draw_iter(&pixels);
    let view = d.raw_view();
    assert_eq!(view[0], pack(Color::white()));
    assert_eq!(view[2 * 480 + 10], pack(Color::new(0, 255, 0)));
    let drawn = [0usize, 2 * 480 + 10];
    for (i, &p) in view.iter().enumerate() {
        if !drawn.contains(&i) {
            assert_eq!(p, 0);
        }
    }
}

#[test]
fn construction_resets_both_screens_to_black() {
    // Scenario: a fresh driver hands the session two reset frames, screen 0
    // then screen 1, each carrying an all-black payload.
    let mut d = NiDisplay::new(plain());
    let (f0, f1) = d.reset_frames();
    assert_eq!(f0.len(), FRAME_LEN);
    assert_eq!(f1.len(), FRAME_LEN);
    assert_eq!(f0[2], 0);
    assert_eq!(f1[2], 1);
    assert!(f0[20..20 + PAYLOAD_LEN].iter().all(|&b| b == 0));
    assert!(f1[20..20 + PAYLOAD_LEN].iter().all(|&b| b == 0));
}

#[test]
fn select_draw_flush_scenario() {
    // Scenario: select screen 1, draw red at the origin, flush.
    let mut d = NiDisplay::new(plain());
    d.reset_frames();
    d.select_display(1);
    d.draw_pixel(0, 0, Color::red());
    let f = d.frame();
    assert_eq!(f[2], 1);
    let red = pack(Color::red());
    assert_eq!(f[20], (red & 0xff) as u8);
    assert_eq!(f[21], (red >> 8) as u8);
    assert!(f[22..20 + PAYLOAD_LEN].iter().all(|&b| b == 0));
}

#[test]
fn out_of_range_draw_leaves_the_frame_identical() {
    // Scenario: a write at x == 480 changes neither the buffer nor the
    // next flush, bit for bit.
    let mut d = NiDisplay::new(plain());
    d.select_display(0);
    d.draw_pixel(12, 34, Color::new(50, 60, 70));
    let before_buffer = d.raw_view().clone();
    let before_frame = d.frame();
    d.draw_pixel(480, 0, Color::red());
    assert_eq!(d.raw_view(), &before_buffer);
    assert_eq!(d.frame(), before_frame);
}

#[test]
fn teardown_resets_both_screens_to_black() {
    // Scenario: after drawing non-black content, teardown hands the session
    // two black frames again, screen 0 then screen 1.
    let mut d = NiDisplay::new(plain());
    d.reset_frames();
    d.select_display(0);
    d.draw_pixel(100, 100, Color::white());
    d.clear(Color::new(255, 0, 0));
    let (f0, f1) = d.reset_frames();
    assert_eq!(f0[2], 0);
    assert_eq!(f1[2], 1);
    assert!(f0[20..20 + PAYLOAD_LEN].iter().all(|&b| b == 0));
    assert!(f1[20..20 + PAYLOAD_LEN].iter().all(|&b| b == 0));
    // The driver's own buffer is black afterwards.
    assert!(d.raw_view().iter().all(|&p| p == 0));
}
