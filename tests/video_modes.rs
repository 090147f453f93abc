use desktop_bios::{BiosError, Format, Timing, VideoMode, VideoState};

#[test]
fn starts_in_640x480_text_8x16() {
    let vs = VideoState::new();
    let m = vs.get_mode();
    assert_eq!(m.as_u8(), 0);
    assert_eq!(m.timing(), Some(Timing::T640x480));
    assert_eq!(m.format(), Format::Text8x16);
    assert_eq!(m.text_width(), Some(80));
    assert_eq!(m.text_height(), Some(30));
}

#[test]
fn each_supported_combination_is_accepted_and_read_back() {
    let timings = [Timing::T640x480, Timing::T640x400];
    let formats = [Format::Text8x16, Format::Text8x8];
    for t in timings {
        for f in formats {
            let mut vs = VideoState::new();
            let m = VideoMode::new(t, f);
            assert_eq!(vs.set_mode(m), Ok(()));
            assert_eq!(vs.get_mode(), m);
        }
    }
}

#[test]
fn unsupported_combinations_are_refused_and_mode_kept() {
    let mut vs = VideoState::new();
    let kept = VideoMode::new(Timing::T640x400, Format::Text8x8);
    assert_eq!(vs.set_mode(kept), Ok(()));
    let refused = [
        VideoMode::new(Timing::T800x600, Format::Text8x16),
        VideoMode::new(Timing::T640x480, Format::Chunky8),
        VideoMode::new(Timing::T640x400, Format::Chunky1),
        VideoMode(0x70),
    ];
    for m in refused {
        assert_eq!(
            vs.set_mode(m),
            Err(BiosError::UnsupportedConfiguration(m.as_u8() as u16))
        );
        assert_eq!(vs.get_mode(), kept);
    }
}

#[test]
fn mode_byte_layout() {
    let m = VideoMode::new(Timing::T640x400, Format::Text8x8);
    assert_eq!(m.as_u8(), 0x11);
    assert_eq!(VideoMode::new(Timing::T800x600, Format::Chunky1).as_u8(), 0x27);
    assert_eq!(VideoMode(0x30).timing(), None);
    assert!(!VideoMode(0x30).is_valid());
}

#[test]
fn scaled_modes_keep_their_combination() {
    let mut vs = VideoState::new();
    let doubled = VideoMode(0x88);
    assert!(doubled.is_valid());
    assert_eq!(vs.set_mode(doubled), Ok(()));
    assert_eq!(doubled.horizontal_pixels(), Some(320));
    assert_eq!(doubled.vertical_lines(), Some(240));
    assert_eq!(doubled.text_width(), Some(40));
    assert_eq!(doubled.text_height(), Some(15));
}

#[test]
fn text_geometry_of_each_mode() {
    let m = VideoMode::new(Timing::T640x480, Format::Text8x8);
    assert_eq!((m.text_width(), m.text_height()), (Some(80), Some(60)));
    let m = VideoMode::new(Timing::T640x400, Format::Text8x16);
    assert_eq!((m.text_width(), m.text_height()), (Some(80), Some(25)));
    let m = VideoMode::new(Timing::T800x600, Format::Text8x8);
    assert_eq!((m.horizontal_pixels(), m.vertical_lines()), (Some(800), Some(600)));
    assert_eq!((m.text_width(), m.text_height()), (Some(100), Some(75)));
    let m = VideoMode::new(Timing::T640x480, Format::Chunky32);
    assert_eq!((m.text_width(), m.text_height()), (None, None));
}
