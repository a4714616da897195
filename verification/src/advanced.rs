//! Extension methods on an already-built [`ColorFmt`]: each one
//! returns a value whose descriptor lists are the old ones with the
//! new descriptors appended at the end, in order. Nothing is
//! deduplicated or reordered, and the text is carried over unchanged.

use vstd::prelude::*;

use crate::color_desc::{ColorDesc, ColorType};
use crate::effect::Effect;
use crate::ColorFmt;

verus! {

impl ColorFmt {
    /// Appends whole descriptor lists at once: every given color after
    /// the existing colors and every given effect after the existing
    /// effects, both in the order given. Either list may be empty.
    pub fn custom(self, colors: Vec<ColorDesc>, effects: Vec<Effect>) -> (r: ColorFmt)
        ensures
            r.fmt@ == self.fmt@,
            r.color@ == self.color@ + colors@,
            r.effect@ == self.effect@ + effects@,
    {
        let mut new_colors = colors;
        let mut new_effects = effects;
        let mut color = self.color;
        let mut effect = self.effect;
        color.append(&mut new_colors);
        effect.append(&mut new_effects);
        ColorFmt { fmt: self.fmt, color, effect }
    }

    /// Appends one color descriptor; the effect list is unchanged.
    pub fn color(self, color: ColorDesc) -> (r: ColorFmt)
        ensures
            r.fmt@ == self.fmt@,
            r.color@ == self.color@.push(color),
            r.effect@ == self.effect@,
    {
        let ghost cs = self.color@;
        let ghost es = self.effect@;
        let mut colors: Vec<ColorDesc> = Vec::new();
        colors.push(color);
        let effects: Vec<Effect> = Vec::new();
        let r = self.custom(colors, effects);
        assert(r.color@ =~= cs.push(color));
        assert(r.effect@ =~= es);
        r
    }

    /// Appends one effect descriptor; the color list is unchanged.
    pub fn style(self, effect: Effect) -> (r: ColorFmt)
        ensures
            r.fmt@ == self.fmt@,
            r.color@ == self.color@,
            r.effect@ == self.effect@.push(effect),
    {
        let ghost cs = self.color@;
        let ghost es = self.effect@;
        let colors: Vec<ColorDesc> = Vec::new();
        let mut effects: Vec<Effect> = Vec::new();
        effects.push(effect);
        let r = self.custom(colors, effects);
        assert(r.color@ =~= cs);
        assert(r.effect@ =~= es.push(effect));
        r
    }

    /// Appends a foreground color with the given RGB components.
    pub fn rgb(self, r: u8, g: u8, b: u8) -> (res: ColorFmt)
        ensures
            res.fmt@ == self.fmt@,
            res.color@ == self.color@.push(ColorDesc { r, g, b, color_type: ColorType::Fg }),
            res.effect@ == self.effect@,
    {
        self.color(ColorDesc::rgb(r, g, b))
    }

    /// Appends a background color with the given RGB components.
    pub fn rgb_bg(self, r: u8, g: u8, b: u8) -> (res: ColorFmt)
        ensures
            res.fmt@ == self.fmt@,
            res.color@ == self.color@.push(ColorDesc { r, g, b, color_type: ColorType::Bg }),
            res.effect@ == self.effect@,
    {
        self.color(ColorDesc::rgb_bg(r, g, b))
    }

    /// Appends foreground red, the same descriptor as `rgb(255, 0, 0)`.
    pub fn red(self) -> (res: ColorFmt)
        ensures
            res.fmt@ == self.fmt@,
            res.color@ == self.color@.push(
                ColorDesc { r: 255u8, g: 0u8, b: 0u8, color_type: ColorType::Fg },
            ),
            res.effect@ == self.effect@,
    {
        self.rgb(255, 0, 0)
    }

    /// Appends background red, the same descriptor as `rgb_bg(255, 0, 0)`.
    pub fn red_bg(self) -> (res: ColorFmt)
        ensures
            res.fmt@ == self.fmt@,
            res.color@ == self.color@.push(
                ColorDesc { r: 255u8, g: 0u8, b: 0u8, color_type: ColorType::Bg },
            ),
            res.effect@ == self.effect@,
    {
        self.rgb_bg(255, 0, 0)
    }

    /// Appends foreground green, the same descriptor as `rgb(0, 255, 0)`.
    pub fn green(self) -> (res: ColorFmt)
        ensures
            res.fmt@ == self.fmt@,
            res.color@ == self.color@.push(
                ColorDesc { r: 0u8, g: 255u8, b: 0u8, color_type: ColorType::Fg },
            ),
            res.effect@ == self.effect@,
    {
        self.rgb(0, 255, 0)
    }

    /// Appends background green, the same descriptor as `rgb_bg(0, 255, 0)`.
    pub fn green_bg(self) -> (res: ColorFmt)
        ensures
            res.fmt@ == self.fmt@,
            res.color@ == self.color@.push(
                ColorDesc { r: 0u8, g: 255u8, b: 0u8, color_type: ColorType::Bg },
            ),
            res.effect@ == self.effect@,
    {
        self.rgb_bg(0, 255, 0)
    }

    /// Appends foreground yellow, the same descriptor as `rgb(255, 255, 0)`.
    pub fn yellow(self) -> (res: ColorFmt)
        ensures
            res.fmt@ == self.fmt@,
            res.color@ == self.color@.push(
                ColorDesc { r: 255u8, g: 255u8, b: 0u8, color_type: ColorType::Fg },
            ),
            res.effect@ == self.effect@,
    {
        self.rgb(255, 255, 0)
    }

    /// Appends background yellow, the same descriptor as `rgb_bg(255, 255, 0)`.
    pub fn yellow_bg(self) -> (res: ColorFmt)
        ensures
            res.fmt@ == self.fmt@,
            res.color@ == self.color@.push(
                ColorDesc { r: 255u8, g: 255u8, b: 0u8, color_type: ColorType::Bg },
            ),
            res.effect@ == self.effect@,
    {
        self.rgb_bg(255, 255, 0)
    }

    /// Appends foreground blue, the same descriptor as `rgb(0, 0, 255)`.
    pub fn blue(self) -> (res: ColorFmt)
        ensures
            res.fmt@ == self.fmt@,
            res.color@ == self.color@.push(
                ColorDesc { r: 0u8, g: 0u8, b: 255u8, color_type: ColorType::Fg },
            ),
            res.effect@ == self.effect@,
    {
        self.rgb(0, 0, 255)
    }

    /// Appends background blue, the same descriptor as `rgb_bg(0, 0, 255)`.
    pub fn blue_bg(self) -> (res: ColorFmt)
        ensures
            res.fmt@ == self.fmt@,
            res.color@ == self.color@.push(
                ColorDesc { r: 0u8, g: 0u8, b: 255u8, color_type: ColorType::Bg },
            ),
            res.effect@ == self.effect@,
    {
        self.rgb_bg(0, 0, 255)
    }

    /// Appends foreground light blue, the same descriptor as `rgb(0, 150, 255)`.
    pub fn light_blue(self) -> (res: ColorFmt)
        ensures
            res.fmt@ == self.fmt@,
            res.color@ == self.color@.push(
                ColorDesc { r: 0u8, g: 150u8, b: 255u8, color_type: ColorType::Fg },
            ),
            res.effect@ == self.effect@,
    {
        self.rgb(0, 150, 255)
    }

    /// Appends background light blue, the same descriptor as `rgb_bg(0, 150, 255)`.
    pub fn light_blue_bg(self) -> (res: ColorFmt)
        ensures
            res.fmt@ == self.fmt@,
            res.color@ == self.color@.push(
                ColorDesc { r: 0u8, g: 150u8, b: 255u8, color_type: ColorType::Bg },
            ),
            res.effect@ == self.effect@,
    {
        self.rgb_bg(0, 150, 255)
    }

    /// Appends the Italic effect.
    pub fn italic(self) -> (res: ColorFmt)
        ensures
            res.fmt@ == self.fmt@,
            res.color@ == self.color@,
            res.effect@ == self.effect@.push(Effect::Italic),
    {
        self.style(Effect::Italic)
    }

    /// Appends the Bold effect.
    pub fn bold(self) -> (res: ColorFmt)
        ensures
            res.fmt@ == self.fmt@,
            res.color@ == self.color@,
            res.effect@ == self.effect@.push(Effect::Bold),
    {
        self.style(Effect::Bold)
    }

    /// Appends the Underline effect.
    pub fn underline(self) -> (res: ColorFmt)
        ensures
            res.fmt@ == self.fmt@,
            res.color@ == self.color@,
            res.effect@ == self.effect@.push(Effect::Underline),
    {
        self.style(Effect::Underline)
    }

    /// Appends the CrossedOut effect.
    pub fn crossed_out(self) -> (res: ColorFmt)
        ensures
            res.fmt@ == self.fmt@,
            res.color@ == self.color@,
            res.effect@ == self.effect@.push(Effect::CrossedOut),
    {
        self.style(Effect::CrossedOut)
    }
}

} // verus!
