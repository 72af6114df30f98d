use langs::color::Color;

#[test]
fn packed_construction_splits_channels() {
    let red = Color::from(0xff0000usize);
    assert_eq!((red.r, red.g, red.b), (255, 0, 0));
    let green = Color::from(0x00ff00usize);
    assert_eq!((green.r, green.g, green.b), (0, 255, 0));
    let blue = Color::from(0x0000ffusize);
    assert_eq!((blue.r, blue.g, blue.b), (0, 0, 255));
    let mixed = Color::from(0x123456usize);
    assert_eq!((mixed.r, mixed.g, mixed.b), (0x12, 0x34, 0x56));
}

#[test]
fn packed_construction_masks_to_24_bits() {
    let c = Color::from(0xff000000usize);
    assert_eq!((c.r, c.g, c.b), (0, 0, 0));
}

#[test]
fn triple_construction_keeps_channels() {
    let c = Color::from([10u8, 20u8, 30u8]);
    assert_eq!((c.r, c.g, c.b), (10, 20, 30));
}

#[test]
fn default_color_is_black() {
    let c = Color::default();
    assert_eq!((c.r, c.g, c.b), (0, 0, 0));
}

#[test]
fn styling_wraps_but_never_rewrites_the_text() {
    let c = Color::from([200u8, 100u8, 50u8]);

    colored::control::set_override(true);
    let fg = c.color("lines");
    assert_ne!(fg, "lines");
    assert!(fg.starts_with("\x1b["));
    assert!(fg.ends_with("\x1b[0m"));
    assert!(fg.contains("lines"));
    let bg = c.on_color("lines");
    assert_ne!(bg, "lines");
    assert!(bg.starts_with("\x1b["));
    assert!(bg.ends_with("\x1b[0m"));
    assert!(bg.contains("lines"));

    colored::control::set_override(false);
    assert_eq!(c.color("lines"), "lines");
    assert_eq!(c.on_color("lines"), "lines");

    colored::control::unset_override();
}
