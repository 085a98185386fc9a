//! Colour palette of the editor in its two theme modes.
//!
//! Dark is the purple glassy look (#cc7eb1 / #663f58 tints on a deep purple
//! page); Glass is the light look with a #89c3eb tint. Colours are 8-bit
//! RGBA; the editor converts them to its drawing library's colour type.

use vstd::prelude::*;

verus! {

/// Theme mode of the editor.
#[derive(Clone, Copy, PartialEq, Eq, Debug, Structural)]
pub enum ThemeMode {
    Dark,
    Glass,
}

/// An 8-bit RGBA colour (alpha 255 is opaque).
#[derive(Clone, Copy, PartialEq, Eq, Debug, Structural)]
pub struct Rgba {
    pub r: u8,
    pub g: u8,
    pub b: u8,
    pub a: u8,
}

/// The colour with the given channels.
pub open spec fn spec_rgba(r: u8, g: u8, b: u8, a: u8) -> Rgba {
    Rgba { r, g, b, a }
}

/// The colour for `mode`: `dark` in Dark mode, `glass` in Glass mode.
pub open spec fn by_mode(mode: ThemeMode, dark: Rgba, glass: Rgba) -> Rgba {
    match mode {
        ThemeMode::Dark => dark,
        ThemeMode::Glass => glass,
    }
}

impl Rgba {
    /// The colour with the given channels.
    pub fn new(r: u8, g: u8, b: u8, a: u8) -> (c: Rgba)
        ensures
            c == spec_rgba(r, g, b, a),
    {
        Rgba { r, g, b, a }
    }

    /// The opaque colour with the given channels.
    pub fn rgb(r: u8, g: u8, b: u8) -> (c: Rgba)
        ensures
            c == spec_rgba(r, g, b, 255),
    {
        Rgba { r, g, b, a: 255 }
    }
}

/// The four band colours (Low, LowMid, HighMid, High) in each mode.
pub open spec fn spec_band_colors(mode: ThemeMode) -> [Rgba; 4] {
    match mode {
        ThemeMode::Dark => [
            spec_rgba(255, 107, 107, 255),
            spec_rgba(255, 169, 77, 255),
            spec_rgba(105, 219, 124, 255),
            spec_rgba(116, 192, 252, 255),
        ],
        ThemeMode::Glass => [
            spec_rgba(224, 69, 69, 255),
            spec_rgba(224, 138, 48, 255),
            spec_rgba(56, 168, 82, 255),
            spec_rgba(58, 143, 212, 255),
        ],
    }
}

/// Band colours: red, orange, green, blue from the lowest band up; deeper
/// shades in Glass mode.
pub fn band_colors(mode: ThemeMode) -> (c: [Rgba; 4])
    ensures
        c@ == spec_band_colors(mode)@,
{
    match mode {
        ThemeMode::Dark => [
            Rgba::rgb(0xFF, 0x6B, 0x6B),
            Rgba::rgb(0xFF, 0xA9, 0x4D),
            Rgba::rgb(0x69, 0xDB, 0x7C),
            Rgba::rgb(0x74, 0xC0, 0xFC),
        ],
        ThemeMode::Glass => [
            Rgba::rgb(0xE0, 0x45, 0x45),
            Rgba::rgb(0xE0, 0x8A, 0x30),
            Rgba::rgb(0x38, 0xA8, 0x52),
            Rgba::rgb(0x3A, 0x8F, 0xD4),
        ],
    }
}

/// The colour of band `band_idx`; indices past the last band get the colour
/// of the last band.
pub fn band_color(band_idx: usize, mode: ThemeMode) -> (c: Rgba)
    ensures
        c == spec_band_colors(mode)@[if band_idx < 3 { band_idx as int } else { 3 }],
{
    let colors = band_colors(mode);
    let i = if band_idx < 3 { band_idx } else { 3 };
    colors[i]
}

/// Accent gold (the same in both modes).
pub fn accent() -> (c: Rgba)
    ensures
        c == spec_rgba(232, 168, 56, 255),
{
    Rgba::rgb(0xE8, 0xA8, 0x38)
}

/// Solo yellow (the same in both modes).
pub fn solo_color() -> (c: Rgba)
    ensures
        c == spec_rgba(255, 212, 59, 255),
{
    Rgba::rgb(0xFF, 0xD4, 0x3B)
}

/// Every band colour is opaque, in both modes.
pub proof fn lemma_band_colors_opaque(mode: ThemeMode, i: int)
    requires
        0 <= i < 4,
    ensures
        spec_band_colors(mode)@[i].a == 255,
{
}

/// Colour of page bg.
pub fn page_bg(mode: ThemeMode) -> (c: Rgba)
    ensures
        c == by_mode(mode, spec_rgba(77, 67, 152, 255), spec_rgba(232, 240, 250, 255)),
{
    match mode {
        ThemeMode::Dark => Rgba::new(77, 67, 152, 255),
        ThemeMode::Glass => Rgba::new(232, 240, 250, 255),
    }
}

/// Colour of page bg top.
pub fn page_bg_top(mode: ThemeMode) -> (c: Rgba)
    ensures
        c == by_mode(mode, spec_rgba(43, 38, 82, 255), spec_rgba(242, 246, 251, 255)),
{
    match mode {
        ThemeMode::Dark => Rgba::new(43, 38, 82, 255),
        ThemeMode::Glass => Rgba::new(242, 246, 251, 255),
    }
}

/// Colour of page bg bottom.
pub fn page_bg_bottom(mode: ThemeMode) -> (c: Rgba)
    ensures
        c == by_mode(mode, spec_rgba(30, 26, 64, 255), spec_rgba(250, 251, 253, 255)),
{
    match mode {
        ThemeMode::Dark => Rgba::new(30, 26, 64, 255),
        ThemeMode::Glass => Rgba::new(250, 251, 253, 255),
    }
}

/// Colour of glass bg.
pub fn glass_bg(mode: ThemeMode) -> (c: Rgba)
    ensures
        c == by_mode(mode, spec_rgba(204, 126, 177, 30), spec_rgba(137, 195, 235, 40)),
{
    match mode {
        ThemeMode::Dark => Rgba::new(204, 126, 177, 30),
        ThemeMode::Glass => Rgba::new(137, 195, 235, 40),
    }
}

/// Colour of glass border.
pub fn glass_border(mode: ThemeMode) -> (c: Rgba)
    ensures
        c == by_mode(mode, spec_rgba(204, 126, 177, 50), spec_rgba(137, 195, 235, 60)),
{
    match mode {
        ThemeMode::Dark => Rgba::new(204, 126, 177, 50),
        ThemeMode::Glass => Rgba::new(137, 195, 235, 60),
    }
}

/// Colour of title bar bg.
pub fn title_bar_bg(mode: ThemeMode) -> (c: Rgba)
    ensures
        c == by_mode(mode, spec_rgba(204, 126, 177, 22), spec_rgba(137, 195, 235, 30)),
{
    match mode {
        ThemeMode::Dark => Rgba::new(204, 126, 177, 22),
        ThemeMode::Glass => Rgba::new(137, 195, 235, 30),
    }
}

/// Colour of title bar border.
pub fn title_bar_border(mode: ThemeMode) -> (c: Rgba)
    ensures
        c == by_mode(mode, spec_rgba(204, 126, 177, 30), spec_rgba(137, 195, 235, 45)),
{
    match mode {
        ThemeMode::Dark => Rgba::new(204, 126, 177, 30),
        ThemeMode::Glass => Rgba::new(137, 195, 235, 45),
    }
}

/// Colour of title bar text.
pub fn title_bar_text(mode: ThemeMode) -> (c: Rgba)
    ensures
        c == by_mode(mode, spec_rgba(255, 255, 255, 140), spec_rgba(40, 50, 70, 160)),
{
    match mode {
        ThemeMode::Dark => Rgba::new(255, 255, 255, 140),
        ThemeMode::Glass => Rgba::new(40, 50, 70, 160),
    }
}

/// Colour of header bg.
pub fn header_bg(mode: ThemeMode) -> (c: Rgba)
    ensures
        c == by_mode(mode, spec_rgba(204, 126, 177, 28), spec_rgba(137, 195, 235, 35)),
{
    match mode {
        ThemeMode::Dark => Rgba::new(204, 126, 177, 28),
        ThemeMode::Glass => Rgba::new(137, 195, 235, 35),
    }
}

/// Colour of header border.
pub fn header_border(mode: ThemeMode) -> (c: Rgba)
    ensures
        c == by_mode(mode, spec_rgba(204, 126, 177, 35), spec_rgba(137, 195, 235, 50)),
{
    match mode {
        ThemeMode::Dark => Rgba::new(204, 126, 177, 35),
        ThemeMode::Glass => Rgba::new(137, 195, 235, 50),
    }
}

/// Colour of panel bg.
pub fn panel_bg(mode: ThemeMode) -> (c: Rgba)
    ensures
        c == by_mode(mode, spec_rgba(204, 126, 177, 22), spec_rgba(137, 195, 235, 30)),
{
    match mode {
        ThemeMode::Dark => Rgba::new(204, 126, 177, 22),
        ThemeMode::Glass => Rgba::new(137, 195, 235, 30),
    }
}

/// Colour of panel border.
pub fn panel_border(mode: ThemeMode) -> (c: Rgba)
    ensures
        c == by_mode(mode, spec_rgba(204, 126, 177, 40), spec_rgba(137, 195, 235, 50)),
{
    match mode {
        ThemeMode::Dark => Rgba::new(204, 126, 177, 40),
        ThemeMode::Glass => Rgba::new(137, 195, 235, 50),
    }
}

/// Colour of divider.
pub fn divider(mode: ThemeMode) -> (c: Rgba)
    ensures
        c == by_mode(mode, spec_rgba(204, 126, 177, 22), spec_rgba(137, 195, 235, 50)),
{
    match mode {
        ThemeMode::Dark => Rgba::new(204, 126, 177, 22),
        ThemeMode::Glass => Rgba::new(137, 195, 235, 50),
    }
}

/// Colour of knob track.
pub fn knob_track(mode: ThemeMode) -> (c: Rgba)
    ensures
        c == by_mode(mode, spec_rgba(204, 126, 177, 22), spec_rgba(137, 195, 235, 50)),
{
    match mode {
        ThemeMode::Dark => Rgba::new(204, 126, 177, 22),
        ThemeMode::Glass => Rgba::new(137, 195, 235, 50),
    }
}

/// Colour of knob body light.
pub fn knob_body_light(mode: ThemeMode) -> (c: Rgba)
    ensures
        c == by_mode(mode, spec_rgba(204, 126, 177, 65), spec_rgba(255, 255, 255, 160)),
{
    match mode {
        ThemeMode::Dark => Rgba::new(204, 126, 177, 65),
        ThemeMode::Glass => Rgba::new(255, 255, 255, 160),
    }
}

/// Colour of knob body dark.
pub fn knob_body_dark(mode: ThemeMode) -> (c: Rgba)
    ensures
        c == by_mode(mode, spec_rgba(102, 63, 88, 80), spec_rgba(110, 165, 210, 120)),
{
    match mode {
        ThemeMode::Dark => Rgba::new(102, 63, 88, 80),
        ThemeMode::Glass => Rgba::new(110, 165, 210, 120),
    }
}

/// Colour of knob border.
pub fn knob_border(mode: ThemeMode) -> (c: Rgba)
    ensures
        c == by_mode(mode, spec_rgba(204, 126, 177, 55), spec_rgba(137, 195, 235, 70)),
{
    match mode {
        ThemeMode::Dark => Rgba::new(204, 126, 177, 55),
        ThemeMode::Glass => Rgba::new(137, 195, 235, 70),
    }
}

/// Colour of text primary.
pub fn text_primary(mode: ThemeMode) -> (c: Rgba)
    ensures
        c == by_mode(mode, spec_rgba(255, 255, 255, 230), spec_rgba(30, 40, 60, 230)),
{
    match mode {
        ThemeMode::Dark => Rgba::new(255, 255, 255, 230),
        ThemeMode::Glass => Rgba::new(30, 40, 60, 230),
    }
}

/// Colour of text secondary.
pub fn text_secondary(mode: ThemeMode) -> (c: Rgba)
    ensures
        c == by_mode(mode, spec_rgba(255, 255, 255, 150), spec_rgba(50, 60, 85, 160)),
{
    match mode {
        ThemeMode::Dark => Rgba::new(255, 255, 255, 150),
        ThemeMode::Glass => Rgba::new(50, 60, 85, 160),
    }
}

/// Colour of text dim.
pub fn text_dim(mode: ThemeMode) -> (c: Rgba)
    ensures
        c == by_mode(mode, spec_rgba(255, 255, 255, 170), spec_rgba(40, 55, 80, 190)),
{
    match mode {
        ThemeMode::Dark => Rgba::new(255, 255, 255, 170),
        ThemeMode::Glass => Rgba::new(40, 55, 80, 190),
    }
}

/// Colour of text on active.
pub fn text_on_active(mode: ThemeMode) -> (c: Rgba)
    ensures
        c == by_mode(mode, spec_rgba(0, 0, 0, 216), spec_rgba(0, 0, 0, 216)),
{
    match mode {
        ThemeMode::Dark => Rgba::new(0, 0, 0, 216),
        ThemeMode::Glass => Rgba::new(0, 0, 0, 216),
    }
}

/// Colour of seg bg.
pub fn seg_bg(mode: ThemeMode) -> (c: Rgba)
    ensures
        c == by_mode(mode, spec_rgba(204, 126, 177, 30), spec_rgba(137, 195, 235, 25)),
{
    match mode {
        ThemeMode::Dark => Rgba::new(204, 126, 177, 30),
        ThemeMode::Glass => Rgba::new(137, 195, 235, 25),
    }
}

/// Colour of seg border.
pub fn seg_border(mode: ThemeMode) -> (c: Rgba)
    ensures
        c == by_mode(mode, spec_rgba(204, 126, 177, 40), spec_rgba(137, 195, 235, 50)),
{
    match mode {
        ThemeMode::Dark => Rgba::new(204, 126, 177, 40),
        ThemeMode::Glass => Rgba::new(137, 195, 235, 50),
    }
}

/// Colour of seg active bg.
pub fn seg_active_bg(mode: ThemeMode) -> (c: Rgba)
    ensures
        c == by_mode(mode, spec_rgba(204, 126, 177, 75), spec_rgba(137, 195, 235, 70)),
{
    match mode {
        ThemeMode::Dark => Rgba::new(204, 126, 177, 75),
        ThemeMode::Glass => Rgba::new(137, 195, 235, 70),
    }
}

/// Colour of seg active text.
pub fn seg_active_text(mode: ThemeMode) -> (c: Rgba)
    ensures
        c == by_mode(mode, spec_rgba(255, 255, 255, 242), spec_rgba(20, 30, 50, 240)),
{
    match mode {
        ThemeMode::Dark => Rgba::new(255, 255, 255, 242),
        ThemeMode::Glass => Rgba::new(20, 30, 50, 240),
    }
}

/// Colour of seg inactive text.
pub fn seg_inactive_text(mode: ThemeMode) -> (c: Rgba)
    ensures
        c == by_mode(mode, spec_rgba(255, 255, 255, 110), spec_rgba(60, 70, 90, 140)),
{
    match mode {
        ThemeMode::Dark => Rgba::new(255, 255, 255, 110),
        ThemeMode::Glass => Rgba::new(60, 70, 90, 140),
    }
}

/// Colour of toggle off bg.
pub fn toggle_off_bg(mode: ThemeMode) -> (c: Rgba)
    ensures
        c == by_mode(mode, spec_rgba(204, 126, 177, 30), spec_rgba(137, 195, 235, 25)),
{
    match mode {
        ThemeMode::Dark => Rgba::new(204, 126, 177, 30),
        ThemeMode::Glass => Rgba::new(137, 195, 235, 25),
    }
}

/// Colour of toggle off border.
pub fn toggle_off_border(mode: ThemeMode) -> (c: Rgba)
    ensures
        c == by_mode(mode, spec_rgba(204, 126, 177, 45), spec_rgba(137, 195, 235, 55)),
{
    match mode {
        ThemeMode::Dark => Rgba::new(204, 126, 177, 45),
        ThemeMode::Glass => Rgba::new(137, 195, 235, 55),
    }
}

/// Colour of toggle off text.
pub fn toggle_off_text(mode: ThemeMode) -> (c: Rgba)
    ensures
        c == by_mode(mode, spec_rgba(255, 255, 255, 180), spec_rgba(60, 70, 90, 180)),
{
    match mode {
        ThemeMode::Dark => Rgba::new(255, 255, 255, 180),
        ThemeMode::Glass => Rgba::new(60, 70, 90, 180),
    }
}

/// Colour of toggle power active.
pub fn toggle_power_active(mode: ThemeMode) -> (c: Rgba)
    ensures
        c == by_mode(mode, spec_rgba(255, 255, 255, 240), spec_rgba(20, 30, 50, 230)),
{
    match mode {
        ThemeMode::Dark => Rgba::new(255, 255, 255, 240),
        ThemeMode::Glass => Rgba::new(20, 30, 50, 230),
    }
}

/// Colour of toggle power inactive.
pub fn toggle_power_inactive(mode: ThemeMode) -> (c: Rgba)
    ensures
        c == by_mode(mode, spec_rgba(255, 255, 255, 160), spec_rgba(80, 90, 110, 120)),
{
    match mode {
        ThemeMode::Dark => Rgba::new(255, 255, 255, 160),
        ThemeMode::Glass => Rgba::new(80, 90, 110, 120),
    }
}

/// Colour of meter bg.
pub fn meter_bg(mode: ThemeMode) -> (c: Rgba)
    ensures
        c == by_mode(mode, spec_rgba(102, 63, 88, 80), spec_rgba(137, 195, 235, 30)),
{
    match mode {
        ThemeMode::Dark => Rgba::new(102, 63, 88, 80),
        ThemeMode::Glass => Rgba::new(137, 195, 235, 30),
    }
}

/// Colour of meter border.
pub fn meter_border(mode: ThemeMode) -> (c: Rgba)
    ensures
        c == by_mode(mode, spec_rgba(204, 126, 177, 25), spec_rgba(137, 195, 235, 60)),
{
    match mode {
        ThemeMode::Dark => Rgba::new(204, 126, 177, 25),
        ThemeMode::Glass => Rgba::new(137, 195, 235, 60),
    }
}

/// Colour of meter seg line.
pub fn meter_seg_line(mode: ThemeMode) -> (c: Rgba)
    ensures
        c == by_mode(mode, spec_rgba(102, 63, 88, 100), spec_rgba(137, 195, 235, 50)),
{
    match mode {
        ThemeMode::Dark => Rgba::new(102, 63, 88, 100),
        ThemeMode::Glass => Rgba::new(137, 195, 235, 50),
    }
}

/// Colour of meter fill blue.
pub fn meter_fill_blue(mode: ThemeMode) -> (c: Rgba)
    ensures
        c == by_mode(mode, spec_rgba(74, 158, 255, 255), spec_rgba(58, 128, 224, 255)),
{
    match mode {
        ThemeMode::Dark => Rgba::new(74, 158, 255, 255),
        ThemeMode::Glass => Rgba::new(58, 128, 224, 255),
    }
}

/// Colour of meter fill red.
pub fn meter_fill_red(mode: ThemeMode) -> (c: Rgba)
    ensures
        c == by_mode(mode, spec_rgba(255, 68, 102, 255), spec_rgba(224, 48, 80, 255)),
{
    match mode {
        ThemeMode::Dark => Rgba::new(255, 68, 102, 255),
        ThemeMode::Glass => Rgba::new(224, 48, 80, 255),
    }
}

/// Colour of meter fill blue light.
pub fn meter_fill_blue_light(mode: ThemeMode) -> (c: Rgba)
    ensures
        c == by_mode(mode, spec_rgba(102, 187, 255, 255), spec_rgba(80, 160, 232, 255)),
{
    match mode {
        ThemeMode::Dark => Rgba::new(102, 187, 255, 255),
        ThemeMode::Glass => Rgba::new(80, 160, 232, 255),
    }
}

/// Colour of meter peak.
pub fn meter_peak(mode: ThemeMode) -> (c: Rgba)
    ensures
        c == by_mode(mode, spec_rgba(255, 107, 107, 255), spec_rgba(224, 69, 69, 255)),
{
    match mode {
        ThemeMode::Dark => Rgba::new(255, 107, 107, 255),
        ThemeMode::Glass => Rgba::new(224, 69, 69, 255),
    }
}

/// Colour of meter scale.
pub fn meter_scale(mode: ThemeMode) -> (c: Rgba)
    ensures
        c == by_mode(mode, spec_rgba(255, 255, 255, 65), spec_rgba(40, 60, 90, 50)),
{
    match mode {
        ThemeMode::Dark => Rgba::new(255, 255, 255, 65),
        ThemeMode::Glass => Rgba::new(40, 60, 90, 50),
    }
}

/// Colour of meter readout text.
pub fn meter_readout_text(mode: ThemeMode) -> (c: Rgba)
    ensures
        c == by_mode(mode, spec_rgba(255, 255, 255, 204), spec_rgba(30, 40, 60, 200)),
{
    match mode {
        ThemeMode::Dark => Rgba::new(255, 255, 255, 204),
        ThemeMode::Glass => Rgba::new(30, 40, 60, 200),
    }
}

/// Colour of meter readout bg.
pub fn meter_readout_bg(mode: ThemeMode) -> (c: Rgba)
    ensures
        c == by_mode(mode, spec_rgba(102, 63, 88, 50), spec_rgba(137, 195, 235, 25)),
{
    match mode {
        ThemeMode::Dark => Rgba::new(102, 63, 88, 50),
        ThemeMode::Glass => Rgba::new(137, 195, 235, 25),
    }
}

/// Colour of meter gr label.
pub fn meter_gr_label(mode: ThemeMode) -> (c: Rgba)
    ensures
        c == by_mode(mode, spec_rgba(255, 255, 255, 100), spec_rgba(60, 70, 90, 130)),
{
    match mode {
        ThemeMode::Dark => Rgba::new(255, 255, 255, 100),
        ThemeMode::Glass => Rgba::new(60, 70, 90, 130),
    }
}

/// Colour of meter shadow.
pub fn meter_shadow(mode: ThemeMode) -> (c: Rgba)
    ensures
        c == by_mode(mode, spec_rgba(40, 35, 80, 120), spec_rgba(137, 195, 235, 30)),
{
    match mode {
        ThemeMode::Dark => Rgba::new(40, 35, 80, 120),
        ThemeMode::Glass => Rgba::new(137, 195, 235, 30),
    }
}

/// Colour of analog meter arc.
pub fn analog_meter_arc(mode: ThemeMode) -> (c: Rgba)
    ensures
        c == by_mode(mode, spec_rgba(204, 126, 177, 40), spec_rgba(137, 195, 235, 50)),
{
    match mode {
        ThemeMode::Dark => Rgba::new(204, 126, 177, 40),
        ThemeMode::Glass => Rgba::new(137, 195, 235, 50),
    }
}

/// Colour of analog meter tick.
pub fn analog_meter_tick(mode: ThemeMode) -> (c: Rgba)
    ensures
        c == by_mode(mode, spec_rgba(255, 255, 255, 80), spec_rgba(40, 60, 90, 70)),
{
    match mode {
        ThemeMode::Dark => Rgba::new(255, 255, 255, 80),
        ThemeMode::Glass => Rgba::new(40, 60, 90, 70),
    }
}

/// Colour of analog meter tick label.
pub fn analog_meter_tick_label(mode: ThemeMode) -> (c: Rgba)
    ensures
        c == by_mode(mode, spec_rgba(255, 255, 255, 55), spec_rgba(40, 60, 90, 50)),
{
    match mode {
        ThemeMode::Dark => Rgba::new(255, 255, 255, 55),
        ThemeMode::Glass => Rgba::new(40, 60, 90, 50),
    }
}

/// Colour of analog meter pivot.
pub fn analog_meter_pivot(mode: ThemeMode) -> (c: Rgba)
    ensures
        c == by_mode(mode, spec_rgba(204, 126, 177, 140), spec_rgba(137, 195, 235, 120)),
{
    match mode {
        ThemeMode::Dark => Rgba::new(204, 126, 177, 140),
        ThemeMode::Glass => Rgba::new(137, 195, 235, 120),
    }
}

/// Colour of xover bg.
pub fn xover_bg(mode: ThemeMode) -> (c: Rgba)
    ensures
        c == by_mode(mode, spec_rgba(102, 63, 88, 50), spec_rgba(137, 195, 235, 25)),
{
    match mode {
        ThemeMode::Dark => Rgba::new(102, 63, 88, 50),
        ThemeMode::Glass => Rgba::new(137, 195, 235, 25),
    }
}

/// Colour of xover border.
pub fn xover_border(mode: ThemeMode) -> (c: Rgba)
    ensures
        c == by_mode(mode, spec_rgba(204, 126, 177, 18), spec_rgba(137, 195, 235, 50)),
{
    match mode {
        ThemeMode::Dark => Rgba::new(204, 126, 177, 18),
        ThemeMode::Glass => Rgba::new(137, 195, 235, 50),
    }
}

/// Colour of xover grid.
pub fn xover_grid(mode: ThemeMode) -> (c: Rgba)
    ensures
        c == by_mode(mode, spec_rgba(204, 126, 177, 12), spec_rgba(137, 195, 235, 30)),
{
    match mode {
        ThemeMode::Dark => Rgba::new(204, 126, 177, 12),
        ThemeMode::Glass => Rgba::new(137, 195, 235, 30),
    }
}

/// Colour of xover grid text.
pub fn xover_grid_text(mode: ThemeMode) -> (c: Rgba)
    ensures
        c == by_mode(mode, spec_rgba(255, 255, 255, 65), spec_rgba(40, 50, 70, 120)),
{
    match mode {
        ThemeMode::Dark => Rgba::new(255, 255, 255, 65),
        ThemeMode::Glass => Rgba::new(40, 50, 70, 120),
    }
}

/// Colour of xover handle label bg.
pub fn xover_handle_label_bg(mode: ThemeMode) -> (c: Rgba)
    ensures
        c == by_mode(mode, spec_rgba(55, 48, 110, 220), spec_rgba(200, 230, 250, 220)),
{
    match mode {
        ThemeMode::Dark => Rgba::new(55, 48, 110, 220),
        ThemeMode::Glass => Rgba::new(200, 230, 250, 220),
    }
}

/// Colour of sat section bg.
pub fn sat_section_bg(mode: ThemeMode) -> (c: Rgba)
    ensures
        c == by_mode(mode, spec_rgba(204, 126, 177, 20), spec_rgba(137, 195, 235, 18)),
{
    match mode {
        ThemeMode::Dark => Rgba::new(204, 126, 177, 20),
        ThemeMode::Glass => Rgba::new(137, 195, 235, 18),
    }
}

/// Colour of sat section border.
pub fn sat_section_border(mode: ThemeMode) -> (c: Rgba)
    ensures
        c == by_mode(mode, spec_rgba(204, 126, 177, 32), spec_rgba(137, 195, 235, 45)),
{
    match mode {
        ThemeMode::Dark => Rgba::new(204, 126, 177, 32),
        ThemeMode::Glass => Rgba::new(137, 195, 235, 45),
    }
}

/// Colour of sat label.
pub fn sat_label(mode: ThemeMode) -> (c: Rgba)
    ensures
        c == by_mode(mode, spec_rgba(255, 255, 255, 100), spec_rgba(60, 70, 90, 130)),
{
    match mode {
        ThemeMode::Dark => Rgba::new(255, 255, 255, 100),
        ThemeMode::Glass => Rgba::new(60, 70, 90, 130),
    }
}

/// Colour of spectrum bg.
pub fn spectrum_bg(mode: ThemeMode) -> (c: Rgba)
    ensures
        c == by_mode(mode, spec_rgba(102, 63, 88, 40), spec_rgba(137, 195, 235, 20)),
{
    match mode {
        ThemeMode::Dark => Rgba::new(102, 63, 88, 40),
        ThemeMode::Glass => Rgba::new(137, 195, 235, 20),
    }
}

/// Colour of spectrum fill top.
pub fn spectrum_fill_top(mode: ThemeMode) -> (c: Rgba)
    ensures
        c == by_mode(mode, spec_rgba(204, 140, 200, 30), spec_rgba(60, 130, 220, 40)),
{
    match mode {
        ThemeMode::Dark => Rgba::new(204, 140, 200, 30),
        ThemeMode::Glass => Rgba::new(60, 130, 220, 40),
    }
}

/// Colour of spectrum fill bottom.
pub fn spectrum_fill_bottom(mode: ThemeMode) -> (c: Rgba)
    ensures
        c == by_mode(mode, spec_rgba(204, 140, 200, 6), spec_rgba(60, 130, 220, 8)),
{
    match mode {
        ThemeMode::Dark => Rgba::new(204, 140, 200, 6),
        ThemeMode::Glass => Rgba::new(60, 130, 220, 8),
    }
}

/// Colour of spectrum stroke.
pub fn spectrum_stroke(mode: ThemeMode) -> (c: Rgba)
    ensures
        c == by_mode(mode, spec_rgba(220, 160, 210, 110), spec_rgba(40, 120, 200, 120)),
{
    match mode {
        ThemeMode::Dark => Rgba::new(220, 160, 210, 110),
        ThemeMode::Glass => Rgba::new(40, 120, 200, 120),
    }
}

/// Colour of spectrum top border.
pub fn spectrum_top_border(mode: ThemeMode) -> (c: Rgba)
    ensures
        c == by_mode(mode, spec_rgba(204, 126, 177, 14), spec_rgba(137, 195, 235, 40)),
{
    match mode {
        ThemeMode::Dark => Rgba::new(204, 126, 177, 14),
        ThemeMode::Glass => Rgba::new(137, 195, 235, 40),
    }
}

/// Delta cut fill (gain reduction, below 0dB line) — top of gradient
pub fn spectrum_delta_cut_top(mode: ThemeMode) -> (c: Rgba)
    ensures
        c == by_mode(mode, spec_rgba(100, 160, 255, 50), spec_rgba(40, 120, 200, 55)),
{
    match mode {
        ThemeMode::Dark => Rgba::new(100, 160, 255, 50),
        ThemeMode::Glass => Rgba::new(40, 120, 200, 55),
    }
}

/// Delta cut fill — bottom of gradient
pub fn spectrum_delta_cut_bottom(mode: ThemeMode) -> (c: Rgba)
    ensures
        c == by_mode(mode, spec_rgba(100, 160, 255, 10), spec_rgba(40, 120, 200, 10)),
{
    match mode {
        ThemeMode::Dark => Rgba::new(100, 160, 255, 10),
        ThemeMode::Glass => Rgba::new(40, 120, 200, 10),
    }
}

/// Delta cut stroke
pub fn spectrum_delta_cut_stroke(mode: ThemeMode) -> (c: Rgba)
    ensures
        c == by_mode(mode, spec_rgba(120, 180, 255, 140), spec_rgba(40, 120, 200, 150)),
{
    match mode {
        ThemeMode::Dark => Rgba::new(120, 180, 255, 140),
        ThemeMode::Glass => Rgba::new(40, 120, 200, 150),
    }
}

/// Delta boost fill (makeup gain, above 0dB line) — top of gradient
pub fn spectrum_delta_boost_top(mode: ThemeMode) -> (c: Rgba)
    ensures
        c == by_mode(mode, spec_rgba(255, 130, 80, 50), spec_rgba(220, 100, 50, 55)),
{
    match mode {
        ThemeMode::Dark => Rgba::new(255, 130, 80, 50),
        ThemeMode::Glass => Rgba::new(220, 100, 50, 55),
    }
}

/// Delta boost fill — bottom of gradient
pub fn spectrum_delta_boost_bottom(mode: ThemeMode) -> (c: Rgba)
    ensures
        c == by_mode(mode, spec_rgba(255, 130, 80, 10), spec_rgba(220, 100, 50, 10)),
{
    match mode {
        ThemeMode::Dark => Rgba::new(255, 130, 80, 10),
        ThemeMode::Glass => Rgba::new(220, 100, 50, 10),
    }
}

/// Delta boost stroke
pub fn spectrum_delta_boost_stroke(mode: ThemeMode) -> (c: Rgba)
    ensures
        c == by_mode(mode, spec_rgba(255, 150, 100, 140), spec_rgba(220, 100, 50, 150)),
{
    match mode {
        ThemeMode::Dark => Rgba::new(255, 150, 100, 140),
        ThemeMode::Glass => Rgba::new(220, 100, 50, 150),
    }
}

/// 0dB reference line
pub fn spectrum_zero_line(mode: ThemeMode) -> (c: Rgba)
    ensures
        c == by_mode(mode, spec_rgba(255, 255, 255, 30), spec_rgba(40, 50, 70, 35)),
{
    match mode {
        ThemeMode::Dark => Rgba::new(255, 255, 255, 30),
        ThemeMode::Glass => Rgba::new(40, 50, 70, 35),
    }
}

/// Active color for the delta monitor toggle (cyan/teal to stand out)
pub fn delta_monitor_active(mode: ThemeMode) -> (c: Rgba)
    ensures
        c == by_mode(mode, spec_rgba(0, 204, 204, 255), spec_rgba(0, 160, 160, 255)),
{
    match mode {
        ThemeMode::Dark => Rgba::new(0, 204, 204, 255),
        ThemeMode::Glass => Rgba::new(0, 160, 160, 255),
    }
}

/// Colour of about overlay bg.
pub fn about_overlay_bg(mode: ThemeMode) -> (c: Rgba)
    ensures
        c == by_mode(mode, spec_rgba(40, 35, 80, 200), spec_rgba(0, 0, 0, 100)),
{
    match mode {
        ThemeMode::Dark => Rgba::new(40, 35, 80, 200),
        ThemeMode::Glass => Rgba::new(0, 0, 0, 100),
    }
}

/// Colour of about panel bg.
pub fn about_panel_bg(mode: ThemeMode) -> (c: Rgba)
    ensures
        c == by_mode(mode, spec_rgba(60, 52, 120, 240), spec_rgba(230, 242, 252, 240)),
{
    match mode {
        ThemeMode::Dark => Rgba::new(60, 52, 120, 240),
        ThemeMode::Glass => Rgba::new(230, 242, 252, 240),
    }
}

/// Colour of about link.
pub fn about_link(mode: ThemeMode) -> (c: Rgba)
    ensures
        c == by_mode(mode, spec_rgba(160, 200, 255, 200), spec_rgba(40, 120, 200, 200)),
{
    match mode {
        ThemeMode::Dark => Rgba::new(160, 200, 255, 200),
        ThemeMode::Glass => Rgba::new(40, 120, 200, 200),
    }
}

/// Colour of theme toggle sun.
pub fn theme_toggle_sun(mode: ThemeMode) -> (c: Rgba)
    ensures
        c == by_mode(mode, spec_rgba(255, 220, 100, 220), spec_rgba(255, 220, 100, 220)),
{
    match mode {
        ThemeMode::Dark => Rgba::new(255, 220, 100, 220),
        ThemeMode::Glass => Rgba::new(255, 220, 100, 220),
    }
}

/// Colour of theme toggle sun ray.
pub fn theme_toggle_sun_ray(mode: ThemeMode) -> (c: Rgba)
    ensures
        c == by_mode(mode, spec_rgba(255, 220, 100, 160), spec_rgba(255, 220, 100, 160)),
{
    match mode {
        ThemeMode::Dark => Rgba::new(255, 220, 100, 160),
        ThemeMode::Glass => Rgba::new(255, 220, 100, 160),
    }
}

/// Colour of theme toggle moon.
pub fn theme_toggle_moon(mode: ThemeMode) -> (c: Rgba)
    ensures
        c == by_mode(mode, spec_rgba(255, 255, 255, 200), spec_rgba(30, 40, 60, 200)),
{
    match mode {
        ThemeMode::Dark => Rgba::new(255, 255, 255, 200),
        ThemeMode::Glass => Rgba::new(30, 40, 60, 200),
    }
}
} // verus!
