//! Free-function spelling of the builder surface: each function takes
//! the text to style and hands back a [`ColorFmt`] with the matching
//! initial descriptors. The text is copied into the result.

use vstd::prelude::*;

use crate::color_desc::{ColorDesc, ColorType};
use crate::effect::Effect;
use crate::ColorFmt;

verus! {

/// A styled value over `this` that starts with exactly the given
/// descriptor lists, in their given order.
pub fn custom(this: &str, colors: Vec<ColorDesc>, effects: Vec<Effect>) -> (r: ColorFmt)
    ensures
        r.fmt@ == this@,
        r.color@ == colors@,
        r.effect@ == effects@,
{
    ColorFmt { fmt: String::from_str(this), color: colors, effect: effects }
}

/// A styled value over `this` with one color and no effects.
pub fn color(this: &str, c: ColorDesc) -> (r: ColorFmt)
    ensures
        r.fmt@ == this@,
        r.color@ == seq![c],
        r.effect@ == Seq::<Effect>::empty(),
{
    let mut colors: Vec<ColorDesc> = Vec::new();
    colors.push(c);
    let r = custom(this, colors, Vec::new());
    assert(r.color@ =~= seq![c]);
    r
}

/// A styled value over `this` with one effect and no colors.
pub fn style(this: &str, e: Effect) -> (r: ColorFmt)
    ensures
        r.fmt@ == this@,
        r.color@ == Seq::<ColorDesc>::empty(),
        r.effect@ == seq![e],
{
    let mut effects: Vec<Effect> = Vec::new();
    effects.push(e);
    let r = custom(this, Vec::new(), effects);
    assert(r.effect@ =~= seq![e]);
    r
}

/// A styled value over `this` with one foreground color built from the
/// given RGB components.
pub fn rgb(this: &str, r: u8, g: u8, b: u8) -> (res: ColorFmt)
    ensures
        res.fmt@ == this@,
        res.color@ == seq![(ColorDesc { r, g, b, color_type: ColorType::Fg })],
        res.effect@ == Seq::<Effect>::empty(),
{
    color(this, ColorDesc::rgb(r, g, b))
}

/// A styled value over `this` with one background color built from the
/// given RGB components.
pub fn rgb_bg(this: &str, r: u8, g: u8, b: u8) -> (res: ColorFmt)
    ensures
        res.fmt@ == this@,
        res.color@ == seq![(ColorDesc { r, g, b, color_type: ColorType::Bg })],
        res.effect@ == Seq::<Effect>::empty(),
{
    color(this, ColorDesc::rgb_bg(r, g, b))
}

/// A styled value over `this` with foreground red, as `rgb(this, 255, 0, 0)`.
pub fn red(this: &str) -> (res: ColorFmt)
    ensures
        res.fmt@ == this@,
        res.color@ == seq![(ColorDesc { r: 255u8, g: 0u8, b: 0u8, color_type: ColorType::Fg })],
        res.effect@ == Seq::<Effect>::empty(),
{
    rgb(this, 255, 0, 0)
}

/// A styled value over `this` with background red, as `rgb_bg(this, 255, 0, 0)`.
pub fn red_bg(this: &str) -> (res: ColorFmt)
    ensures
        res.fmt@ == this@,
        res.color@ == seq![(ColorDesc { r: 255u8, g: 0u8, b: 0u8, color_type: ColorType::Bg })],
        res.effect@ == Seq::<Effect>::empty(),
{
    rgb_bg(this, 255, 0, 0)
}

/// A styled value over `this` with foreground green, as `rgb(this, 0, 255, 0)`.
pub fn green(this: &str) -> (res: ColorFmt)
    ensures
        res.fmt@ == this@,
        res.color@ == seq![(ColorDesc { r: 0u8, g: 255u8, b: 0u8, color_type: ColorType::Fg })],
        res.effect@ == Seq::<Effect>::empty(),
{
    rgb(this, 0, 255, 0)
}

/// A styled value over `this` with background green, as `rgb_bg(this, 0, 255, 0)`.
pub fn green_bg(this: &str) -> (res: ColorFmt)
    ensures
        res.fmt@ == this@,
        res.color@ == seq![(ColorDesc { r: 0u8, g: 255u8, b: 0u8, color_type: ColorType::Bg })],
        res.effect@ == Seq::<Effect>::empty(),
{
    rgb_bg(this, 0, 255, 0)
}

/// A styled value over `this` with foreground yellow, as `rgb(this, 255, 255, 0)`.
pub fn yellow(this: &str) -> (res: ColorFmt)
    ensures
        res.fmt@ == this@,
        res.color@ == seq![(ColorDesc { r: 255u8, g: 255u8, b: 0u8, color_type: ColorType::Fg })],
        res.effect@ == Seq::<Effect>::empty(),
{
    rgb(this, 255, 255, 0)
}

/// A styled value over `this` with background yellow, as `rgb_bg(this, 255, 255, 0)`.
pub fn yellow_bg(this: &str) -> (res: ColorFmt)
    ensures
        res.fmt@ == this@,
        res.color@ == seq![(ColorDesc { r: 255u8, g: 255u8, b: 0u8, color_type: ColorType::Bg })],
        res.effect@ == Seq::<Effect>::empty(),
{
    rgb_bg(this, 255, 255, 0)
}

/// A styled value over `this` with foreground blue, as `rgb(this, 0, 0, 255)`.
pub fn blue(this: &str) -> (res: ColorFmt)
    ensures
        res.fmt@ == this@,
        res.color@ == seq![(ColorDesc { r: 0u8, g: 0u8, b: 255u8, color_type: ColorType::Fg })],
        res.effect@ == Seq::<Effect>::empty(),
{
    rgb(this, 0, 0, 255)
}

/// A styled value over `this` with background blue, as `rgb_bg(this, 0, 0, 255)`.
pub fn blue_bg(this: &str) -> (res: ColorFmt)
    ensures
        res.fmt@ == this@,
        res.color@ == seq![(ColorDesc { r: 0u8, g: 0u8, b: 255u8, color_type: ColorType::Bg })],
        res.effect@ == Seq::<Effect>::empty(),
{
    rgb_bg(this, 0, 0, 255)
}

/// A styled value over `this` with foreground light blue, as `rgb(this, 0, 150, 255)`.
pub fn light_blue(this: &str) -> (res: ColorFmt)
    ensures
        res.fmt@ == this@,
        res.color@ == seq![(ColorDesc { r: 0u8, g: 150u8, b: 255u8, color_type: ColorType::Fg })],
        res.effect@ == Seq::<Effect>::empty(),
{
    rgb(this, 0, 150, 255)
}

/// A styled value over `this` with background light blue, as `rgb_bg(this, 0, 150, 255)`.
pub fn light_blue_bg(this: &str) -> (res: ColorFmt)
    ensures
        res.fmt@ == this@,
        res.color@ == seq![(ColorDesc { r: 0u8, g: 150u8, b: 255u8, color_type: ColorType::Bg })],
        res.effect@ == Seq::<Effect>::empty(),
{
    rgb_bg(this, 0, 150, 255)
}

/// A styled value over `this` with the single Italic effect.
pub fn italic(this: &str) -> (res: ColorFmt)
    ensures
        res.fmt@ == this@,
        res.color@ == Seq::<ColorDesc>::empty(),
        res.effect@ == seq![Effect::Italic],
{
    style(this, Effect::Italic)
}

/// A styled value over `this` with the single Bold effect.
pub fn bold(this: &str) -> (res: ColorFmt)
    ensures
        res.fmt@ == this@,
        res.color@ == Seq::<ColorDesc>::empty(),
        res.effect@ == seq![Effect::Bold],
{
    style(this, Effect::Bold)
}

/// A styled value over `this` with the single Underline effect.
pub fn underline(this: &str) -> (res: ColorFmt)
    ensures
        res.fmt@ == this@,
        res.color@ == Seq::<ColorDesc>::empty(),
        res.effect@ == seq![Effect::Underline],
{
    style(this, Effect::Underline)
}

/// A styled value over `this` with the single CrossedOut effect.
pub fn crossed_out(this: &str) -> (res: ColorFmt)
    ensures
        res.fmt@ == this@,
        res.color@ == Seq::<ColorDesc>::empty(),
        res.effect@ == seq![Effect::CrossedOut],
{
    style(this, Effect::CrossedOut)
}

} // verus!
