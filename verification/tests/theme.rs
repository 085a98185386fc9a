use ivylace::theme::{
    about_link, about_overlay_bg, about_panel_bg, accent, band_color, band_colors, page_bg_bottom,
    page_bg_top, panel_bg, panel_border, solo_color, text_dim, text_on_active, text_primary,
    text_secondary, Rgba, ThemeMode,
};

fn rgb(r: u8, g: u8, b: u8) -> Rgba {
    Rgba::new(r, g, b, 255)
}

#[test]
fn band_colors_table() {
    assert_eq!(
        band_colors(ThemeMode::Dark),
        [rgb(0xFF, 0x6B, 0x6B), rgb(0xFF, 0xA9, 0x4D), rgb(0x69, 0xDB, 0x7C), rgb(0x74, 0xC0, 0xFC)]
    );
    assert_eq!(
        band_colors(ThemeMode::Glass),
        [rgb(0xE0, 0x45, 0x45), rgb(0xE0, 0x8A, 0x30), rgb(0x38, 0xA8, 0x52), rgb(0x3A, 0x8F, 0xD4)]
    );
}

#[test]
fn band_color_clamps_index() {
    for mode in [ThemeMode::Dark, ThemeMode::Glass] {
        let all = band_colors(mode);
        for i in 0..4 {
            assert_eq!(band_color(i, mode), all[i]);
        }
        assert_eq!(band_color(4, mode), all[3]);
        assert_eq!(band_color(usize::MAX, mode), all[3]);
    }
}

#[test]
fn dark_theme_colors() {
    let m = ThemeMode::Dark;
    assert_eq!(page_bg_top(m), rgb(0x2B, 0x26, 0x52));
    assert_eq!(page_bg_bottom(m), rgb(0x1E, 0x1A, 0x40));
    assert_eq!(panel_bg(m), Rgba::new(204, 126, 177, 22));
    assert_eq!(panel_border(m), Rgba::new(204, 126, 177, 40));
    assert_eq!(text_primary(m), Rgba::new(255, 255, 255, 230));
    assert_eq!(text_secondary(m), Rgba::new(255, 255, 255, 150));
    assert_eq!(text_dim(m), Rgba::new(255, 255, 255, 170));
    assert_eq!(about_link(m), Rgba::new(160, 200, 255, 200));
    assert_eq!(about_overlay_bg(m), Rgba::new(40, 35, 80, 200));
    assert_eq!(about_panel_bg(m), Rgba::new(60, 52, 120, 240));
}

#[test]
fn glass_theme_colors() {
    let m = ThemeMode::Glass;
    assert_eq!(page_bg_top(m), rgb(0xF2, 0xF6, 0xFB));
    assert_eq!(page_bg_bottom(m), rgb(0xFA, 0xFB, 0xFD));
    assert_eq!(panel_bg(m), Rgba::new(137, 195, 235, 30));
    assert_eq!(panel_border(m), Rgba::new(137, 195, 235, 50));
    assert_eq!(text_primary(m), Rgba::new(30, 40, 60, 230));
    assert_eq!(text_secondary(m), Rgba::new(50, 60, 85, 160));
    assert_eq!(text_dim(m), Rgba::new(40, 55, 80, 190));
    assert_eq!(about_link(m), Rgba::new(40, 120, 200, 200));
    assert_eq!(about_overlay_bg(m), Rgba::new(0, 0, 0, 100));
    assert_eq!(about_panel_bg(m), Rgba::new(230, 242, 252, 240));
}

#[test]
fn special_colors() {
    assert_eq!(accent(), rgb(0xE8, 0xA8, 0x38));
    assert_eq!(solo_color(), rgb(0xFF, 0xD4, 0x3B));
    assert_eq!(text_on_active(ThemeMode::Dark), text_on_active(ThemeMode::Glass));
    assert_eq!(Rgba::rgb(1, 2, 3), Rgba::new(1, 2, 3, 255));
}
