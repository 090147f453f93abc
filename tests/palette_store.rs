use desktop_bios::{blue, default_colour_at, from_rgb, green, red, Palette, PALETTE_LEN};

#[test]
fn set_then_get_returns_the_colour_for_every_slot() {
    let mut p = Palette::new();
    for i in 0..PALETTE_LEN {
        let c = from_rgb(i as u8, 255 - i as u8, 0x42);
        p.set(i as u8, c);
        assert_eq!(p.get(i as u8), Some(c));
    }
}

#[test]
fn set_leaves_other_slots_alone() {
    let mut p = Palette::new();
    p.set(3, 0x123456);
    assert_eq!(p.get(3), Some(0x123456));
    assert_eq!(p.get(2), Some(0x008000));
    assert_eq!(p.get(4), Some(0x000080));
}

#[test]
fn default_palette_values() {
    assert_eq!(default_colour_at(0), 0x000000);
    assert_eq!(default_colour_at(7), 0xc0c0c0);
    assert_eq!(default_colour_at(9), 0xff0000);
    assert_eq!(default_colour_at(15), 0xffffff);
    assert_eq!(default_colour_at(16), 0x000000);
    assert_eq!(default_colour_at(17), 0x00005f);
    assert_eq!(default_colour_at(85), 0x5fffaf);
    assert_eq!(default_colour_at(196), 0xff0000);
    assert_eq!(default_colour_at(231), 0xffffff);
    assert_eq!(default_colour_at(232), 0x080808);
    assert_eq!(default_colour_at(240), 0x585858);
    assert_eq!(default_colour_at(255), 0xeeeeee);
    let p = Palette::new();
    assert_eq!(p.get(85), Some(0x5fffaf));
}

#[test]
fn whole_palette_short_list_keeps_the_rest() {
    let mut p = Palette::new();
    p.set_whole(&[0x111111, 0x222222]);
    assert_eq!(p.get(0), Some(0x111111));
    assert_eq!(p.get(1), Some(0x222222));
    assert_eq!(p.get(2), Some(0x008000));
    assert_eq!(p.get(255), Some(0xeeeeee));
}

#[test]
fn whole_palette_long_list_stops_at_256() {
    let mut p = Palette::new();
    let colours: Vec<u32> = (0..300u32).map(|i| i * 3).collect();
    p.set_whole(&colours);
    assert_eq!(p.get(0), Some(0));
    assert_eq!(p.get(255), Some(765));
}

#[test]
fn whole_palette_empty_list_changes_nothing() {
    let mut p = Palette::new();
    p.set_whole(&[]);
    assert_eq!(p.get(1), Some(0x800000));
}

#[test]
fn channels_pack_and_unpack() {
    let c = from_rgb(0x12, 0x34, 0x56);
    assert_eq!(c, 0x123456);
    assert_eq!((red(c), green(c), blue(c)), (0x12, 0x34, 0x56));
}
