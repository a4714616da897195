//! The color descriptor: one 24-bit RGB color together with the role
//! (foreground or background) it applies to.

use vstd::prelude::*;

use crate::sgr::{color_code, push_color_code};

verus! {

/// Describes one color application: an RGB triple plus a foreground /
/// background selector. Immutable once created.
#[derive(Clone, Copy, Debug, PartialEq, Eq, Structural)]
pub struct ColorDesc {
    pub r: u8,
    pub g: u8,
    pub b: u8,
    pub color_type: ColorType,
}

/// Whether a color descriptor colors the text itself (`Fg`) or the
/// area behind it (`Bg`).
#[derive(Clone, Copy, Debug, PartialEq, Eq, Structural)]
pub enum ColorType {
    Fg,
    Bg,
}

impl ColorDesc {
    /// A foreground color with the given RGB components.
    pub fn rgb(r: u8, g: u8, b: u8) -> (c: ColorDesc)
        ensures
            c == (ColorDesc { r, g, b, color_type: ColorType::Fg }),
    {
        ColorDesc { r, g, b, color_type: ColorType::Fg }
    }

    /// A background color with the given RGB components.
    pub fn rgb_bg(r: u8, g: u8, b: u8) -> (c: ColorDesc)
        ensures
            c == (ColorDesc { r, g, b, color_type: ColorType::Bg }),
    {
        ColorDesc { r, g, b, color_type: ColorType::Bg }
    }

    /// Foreground red: the same value as `rgb(255, 0, 0)`.
    pub fn red() -> (c: ColorDesc)
        ensures
            c == (ColorDesc { r: 255u8, g: 0u8, b: 0u8, color_type: ColorType::Fg }),
    {
        Self::rgb(255, 0, 0)
    }

    /// Background red: the same value as `rgb_bg(255, 0, 0)`.
    pub fn red_bg() -> (c: ColorDesc)
        ensures
            c == (ColorDesc { r: 255u8, g: 0u8, b: 0u8, color_type: ColorType::Bg }),
    {
        Self::rgb_bg(255, 0, 0)
    }

    /// Foreground green: the same value as `rgb(0, 255, 0)`.
    pub fn green() -> (c: ColorDesc)
        ensures
            c == (ColorDesc { r: 0u8, g: 255u8, b: 0u8, color_type: ColorType::Fg }),
    {
        Self::rgb(0, 255, 0)
    }

    /// Background green: the same value as `rgb_bg(0, 255, 0)`.
    pub fn green_bg() -> (c: ColorDesc)
        ensures
            c == (ColorDesc { r: 0u8, g: 255u8, b: 0u8, color_type: ColorType::Bg }),
    {
        Self::rgb_bg(0, 255, 0)
    }

    /// Foreground yellow: the same value as `rgb(255, 255, 0)`.
    pub fn yellow() -> (c: ColorDesc)
        ensures
            c == (ColorDesc { r: 255u8, g: 255u8, b: 0u8, color_type: ColorType::Fg }),
    {
        Self::rgb(255, 255, 0)
    }

    /// Background yellow: the same value as `rgb_bg(255, 255, 0)`.
    pub fn yellow_bg() -> (c: ColorDesc)
        ensures
            c == (ColorDesc { r: 255u8, g: 255u8, b: 0u8, color_type: ColorType::Bg }),
    {
        Self::rgb_bg(255, 255, 0)
    }

    /// Foreground blue: the same value as `rgb(0, 0, 255)`.
    pub fn blue() -> (c: ColorDesc)
        ensures
            c == (ColorDesc { r: 0u8, g: 0u8, b: 255u8, color_type: ColorType::Fg }),
    {
        Self::rgb(0, 0, 255)
    }

    /// Background blue: the same value as `rgb_bg(0, 0, 255)`.
    pub fn blue_bg() -> (c: ColorDesc)
        ensures
            c == (ColorDesc { r: 0u8, g: 0u8, b: 255u8, color_type: ColorType::Bg }),
    {
        Self::rgb_bg(0, 0, 255)
    }

    /// Foreground light blue: the same value as `rgb(0, 150, 255)`.
    pub fn light_blue() -> (c: ColorDesc)
        ensures
            c == (ColorDesc { r: 0u8, g: 150u8, b: 255u8, color_type: ColorType::Fg }),
    {
        Self::rgb(0, 150, 255)
    }

    /// Background light blue: the same value as `rgb_bg(0, 150, 255)`.
    pub fn light_blue_bg() -> (c: ColorDesc)
        ensures
            c == (ColorDesc { r: 0u8, g: 150u8, b: 255u8, color_type: ColorType::Bg }),
    {
        Self::rgb_bg(0, 150, 255)
    }

    /// The code this descriptor contributes to an SGR sequence:
    /// `38;2;R;G;B` for a foreground color, `48;2;R;G;B` for a
    /// background color, with decimal components.
    pub fn render(&self) -> (s: String)
        ensures
            s@ == color_code(*self),
    {
        let mut s = String::new();
        push_color_code(&mut s, self);
        assert(s@ =~= color_code(*self));
        s
    }
}

} // verus!
