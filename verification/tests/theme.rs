use story_workspace::color::Color;
use story_workspace::theme::{ColorPickerEvent, Palette, Theme, PRIMARY_SHIFT};

#[test]
fn lighten_moves_each_channel_toward_white() {
    let c = Color::rgb(100, 150, 200).lighten(10);
    assert_eq!(c, Color { r: 115, g: 160, b: 205, a: 255 });
}

#[test]
fn darken_moves_each_channel_toward_black() {
    let c = Color::rgb(100, 150, 200).darken(10);
    assert_eq!(c, Color { r: 90, g: 135, b: 180, a: 255 });
}

#[test]
fn blend_keeps_opacity() {
    let c = Color { r: 10, g: 20, b: 30, a: 77 };
    assert_eq!(c.lighten(50).a, 77);
    assert_eq!(c.darken(50).a, 77);
}

#[test]
fn blend_by_nothing_is_identity() {
    let c = Color { r: 1, g: 128, b: 254, a: 9 };
    assert_eq!(c.lighten(0), c);
    assert_eq!(c.darken(0), c);
}

#[test]
fn blend_by_the_whole_reaches_the_target() {
    let c = Color { r: 1, g: 128, b: 254, a: 9 };
    assert_eq!(c.lighten(100), Color { r: 255, g: 255, b: 255, a: 9 });
    assert_eq!(c.darken(100), Color { r: 0, g: 0, b: 0, a: 9 });
}

#[test]
fn blend_beyond_the_whole_counts_as_the_whole() {
    let c = Color::rgb(12, 34, 56);
    assert_eq!(c.lighten(101), c.lighten(100));
    assert_eq!(c.darken(255), c.darken(100));
}

#[test]
fn blend_rounds_down() {
    // (7 * 90 + 255 * 10) / 100 = 31.8, (7 * 90) / 100 = 6.3
    let c = Color::rgb(7, 7, 7);
    assert_eq!(c.lighten(10).r, 31);
    assert_eq!(c.darken(10).r, 6);
}

#[test]
fn lighten_after_darken_is_lossy() {
    let c = Color::rgb(100, 150, 200);
    let back = c.darken(10).lighten(10);
    assert_eq!(back, Color { r: 106, g: 147, b: 187, a: 255 });
    assert_ne!(back, c);
}

#[test]
fn extreme_channels_stay_in_range() {
    assert_eq!(Color::rgb(255, 255, 255).lighten(10), Color::rgb(255, 255, 255));
    assert_eq!(Color::rgb(0, 0, 0).darken(10), Color::rgb(0, 0, 0));
    assert_eq!(Color::rgb(0, 0, 0).lighten(10), Color::rgb(25, 25, 25));
    assert_eq!(Color::rgb(255, 255, 255).darken(10), Color::rgb(229, 229, 229));
}

#[test]
fn shift_is_a_tenth() {
    assert_eq!(PRIMARY_SHIFT, 10);
}

#[test]
fn new_theme_derives_variants() {
    let primary = Color::rgb(100, 150, 200);
    let t = Theme::new(Color::rgb(255, 255, 255), Color::rgb(0, 0, 0), primary);
    assert_eq!(t.background(), Color::rgb(255, 255, 255));
    assert_eq!(t.foreground(), Color::rgb(0, 0, 0));
    assert_eq!(t.primary(), primary);
    assert_eq!(t.primary_hover(), Color::rgb(115, 160, 205));
    assert_eq!(t.primary_active(), Color::rgb(90, 135, 180));
}

#[test]
fn default_theme_is_light() {
    let t = Theme::default();
    assert_eq!(
        t.palette(),
        Palette {
            background: Color::rgb(255, 255, 255),
            foreground: Color::rgb(9, 9, 11),
            primary: Color::rgb(24, 24, 27),
            primary_hover: Color::rgb(47, 47, 49),
            primary_active: Color::rgb(21, 21, 24),
        }
    );
}

#[test]
fn set_primary_sets_all_three() {
    let mut t = Theme::default();
    let c = Color::rgb(200, 100, 0);
    t.set_primary(c);
    assert_eq!(t.primary(), c);
    assert_eq!(t.primary_hover(), c.lighten(10));
    assert_eq!(t.primary_active(), c.darken(10));
    assert_eq!(t.primary_hover(), Color::rgb(205, 115, 25));
    assert_eq!(t.primary_active(), Color::rgb(180, 90, 0));
    assert_eq!(t.background(), Color::rgb(255, 255, 255));
    assert_eq!(t.foreground(), Color::rgb(9, 9, 11));
}

#[test]
fn set_primary_twice_is_idempotent() {
    let mut t = Theme::default();
    let c = Color { r: 3, g: 141, b: 59, a: 200 };
    t.set_primary(c);
    let once = t.palette();
    t.set_primary(c);
    assert_eq!(t.palette(), once);
}

#[test]
fn variants_depend_on_the_primary_alone() {
    let c = Color::rgb(40, 80, 120);
    let mut a = Theme::new(Color::rgb(1, 2, 3), Color::rgb(4, 5, 6), Color::rgb(7, 8, 9));
    let mut b = Theme::default();
    a.set_primary(c);
    b.set_primary(c);
    assert_eq!(a.primary_hover(), b.primary_hover());
    assert_eq!(a.primary_active(), b.primary_active());
}

#[test]
fn picked_color_becomes_primary() {
    let mut t = Theme::default();
    let c = Color::rgb(10, 20, 30);
    let refresh = t.on_color_picker_event(ColorPickerEvent::Change(Some(c)));
    assert!(refresh);
    assert_eq!(t.primary(), c);
    assert_eq!(t.primary_hover(), Color::rgb(34, 43, 52));
    assert_eq!(t.primary_active(), Color::rgb(9, 18, 27));
}

#[test]
fn no_picked_color_changes_nothing() {
    let mut t = Theme::default();
    let before = t.palette();
    let refresh = t.on_color_picker_event(ColorPickerEvent::Change(None));
    assert!(!refresh);
    assert_eq!(t.palette(), before);
}
