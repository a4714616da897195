//! Terminal text styling with ANSI SGR escape sequences.
//!
//! A [`ColorFmt`] value pairs a piece of text with an ordered list of
//! [`ColorDesc`] color descriptors and an ordered list of [`Effect`]
//! text attributes, and renders the whole as a single well-formed SGR
//! sequence: `ESC [ codes m text ESC [ 0 m`.

use vstd::prelude::*;

mod advanced;
mod color_desc;
mod effect;
pub mod konst;
mod sgr;

pub use color_desc::{ColorDesc, ColorType};
pub use effect::Effect;
pub use sgr::{boundary_sep, color_code, color_list, dec_digit, dec_of, effect_code, effect_list,
    role_prefix, sgr_render};
pub use sgr::{lemma_attach_in_stages, lemma_attach_nothing_is_no_op, lemma_single_bg_render,
    lemma_single_fg_render};

use sgr::{push_color_code, push_effect_code};

verus! {

/// Anything that can hand out its textual representation and so be
/// styled: the entry point of the builder surface. Each method copies
/// that representation into a fresh [`ColorFmt`] carrying the given
/// initial descriptors.
pub trait Color {
    /// The textual representation a styled value built from `self`
    /// will wrap.
    spec fn text_rep(&self) -> Seq<char>;

    /// A styled value over `self` that starts with exactly the given
    /// descriptor lists, in their given order.
    fn custom(&self, colors: Vec<ColorDesc>, effects: Vec<Effect>) -> (r: ColorFmt)
        ensures
            r.fmt@ == self.text_rep(),
            r.color@ == colors@,
            r.effect@ == effects@,
    ;

    /// A styled value over `self` with one color and no effects.
    fn color(&self, c: ColorDesc) -> (r: ColorFmt)
        ensures
            r.fmt@ == self.text_rep(),
            r.color@ == seq![c],
            r.effect@ == Seq::<Effect>::empty(),
    ;

    /// A styled value over `self` with one effect and no colors.
    fn style(&self, e: Effect) -> (r: ColorFmt)
        ensures
            r.fmt@ == self.text_rep(),
            r.color@ == Seq::<ColorDesc>::empty(),
            r.effect@ == seq![e],
    ;
}

impl Color for str {
    open spec fn text_rep(&self) -> Seq<char> {
        self@
    }

    fn custom(&self, colors: Vec<ColorDesc>, effects: Vec<Effect>) -> (r: ColorFmt) {
        konst::custom(self, colors, effects)
    }

    fn color(&self, c: ColorDesc) -> (r: ColorFmt) {
        konst::color(self, c)
    }

    fn style(&self, e: Effect) -> (r: ColorFmt) {
        konst::style(self, e)
    }
}

impl Color for String {
    open spec fn text_rep(&self) -> Seq<char> {
        self@
    }

    fn custom(&self, colors: Vec<ColorDesc>, effects: Vec<Effect>) -> (r: ColorFmt) {
        konst::custom(self.as_str(), colors, effects)
    }

    fn color(&self, c: ColorDesc) -> (r: ColorFmt) {
        konst::color(self.as_str(), c)
    }

    fn style(&self, e: Effect) -> (r: ColorFmt) {
        konst::style(self.as_str(), e)
    }
}

/// The named shorthands over [`Color`]: fixed colors and effects,
/// each delegating to [`Color::color`] or [`Color::style`] with the
/// matching fixed descriptor. Implemented once for every styleable
/// value.
pub trait ColorExt: Color {
    /// A styled value over `self` with one foreground color built
    /// from the given RGB components.
    fn rgb(&self, r: u8, g: u8, b: u8) -> (res: ColorFmt)
        ensures
            res.fmt@ == self.text_rep(),
            res.color@ == seq![(ColorDesc { r, g, b, color_type: ColorType::Fg })],
            res.effect@ == Seq::<Effect>::empty(),
    ;

    /// A styled value over `self` with one background color built
    /// from the given RGB components.
    fn rgb_bg(&self, r: u8, g: u8, b: u8) -> (res: ColorFmt)
        ensures
            res.fmt@ == self.text_rep(),
            res.color@ == seq![(ColorDesc { r, g, b, color_type: ColorType::Bg })],
            res.effect@ == Seq::<Effect>::empty(),
    ;

    /// A styled value over `self` with foreground red, as `rgb(255, 0, 0)`.
    fn red(&self) -> (res: ColorFmt)
        ensures
            res.fmt@ == self.text_rep(),
            res.color@ == seq![
                (ColorDesc { r: 255u8, g: 0u8, b: 0u8, color_type: ColorType::Fg }),
            ],
            res.effect@ == Seq::<Effect>::empty(),
    ;

    /// A styled value over `self` with background red, as `rgb_bg(255, 0, 0)`.
    fn red_bg(&self) -> (res: ColorFmt)
        ensures
            res.fmt@ == self.text_rep(),
            res.color@ == seq![
                (ColorDesc { r: 255u8, g: 0u8, b: 0u8, color_type: ColorType::Bg }),
            ],
            res.effect@ == Seq::<Effect>::empty(),
    ;

    /// A styled value over `self` with foreground green, as `rgb(0, 255, 0)`.
    fn green(&self) -> (res: ColorFmt)
        ensures
            res.fmt@ == self.text_rep(),
            res.color@ == seq![
                (ColorDesc { r: 0u8, g: 255u8, b: 0u8, color_type: ColorType::Fg }),
            ],
            res.effect@ == Seq::<Effect>::empty(),
    ;

    /// A styled value over `self` with background green, as `rgb_bg(0, 255, 0)`.
    fn green_bg(&self) -> (res: ColorFmt)
        ensures
            res.fmt@ == self.text_rep(),
            res.color@ == seq![
                (ColorDesc { r: 0u8, g: 255u8, b: 0u8, color_type: ColorType::Bg }),
            ],
            res.effect@ == Seq::<Effect>::empty(),
    ;

    /// A styled value over `self` with foreground yellow, as `rgb(255, 255, 0)`.
    fn yellow(&self) -> (res: ColorFmt)
        ensures
            res.fmt@ == self.text_rep(),
            res.color@ == seq![
                (ColorDesc { r: 255u8, g: 255u8, b: 0u8, color_type: ColorType::Fg }),
            ],
            res.effect@ == Seq::<Effect>::empty(),
    ;

    /// A styled value over `self` with background yellow, as `rgb_bg(255, 255, 0)`.
    fn yellow_bg(&self) -> (res: ColorFmt)
        ensures
            res.fmt@ == self.text_rep(),
            res.color@ == seq![
                (ColorDesc { r: 255u8, g: 255u8, b: 0u8, color_type: ColorType::Bg }),
            ],
            res.effect@ == Seq::<Effect>::empty(),
    ;

    /// A styled value over `self` with foreground blue, as `rgb(0, 0, 255)`.
    fn blue(&self) -> (res: ColorFmt)
        ensures
            res.fmt@ == self.text_rep(),
            res.color@ == seq![
                (ColorDesc { r: 0u8, g: 0u8, b: 255u8, color_type: ColorType::Fg }),
            ],
            res.effect@ == Seq::<Effect>::empty(),
    ;

    /// A styled value over `self` with background blue, as `rgb_bg(0, 0, 255)`.
    fn blue_bg(&self) -> (res: ColorFmt)
        ensures
            res.fmt@ == self.text_rep(),
            res.color@ == seq![
                (ColorDesc { r: 0u8, g: 0u8, b: 255u8, color_type: ColorType::Bg }),
            ],
            res.effect@ == Seq::<Effect>::empty(),
    ;

    /// A styled value over `self` with foreground light blue, as `rgb(0, 150, 255)`.
    fn light_blue(&self) -> (res: ColorFmt)
        ensures
            res.fmt@ == self.text_rep(),
            res.color@ == seq![
                (ColorDesc { r: 0u8, g: 150u8, b: 255u8, color_type: ColorType::Fg }),
            ],
            res.effect@ == Seq::<Effect>::empty(),
    ;

    /// A styled value over `self` with background light blue, as `rgb_bg(0, 150, 255)`.
    fn light_blue_bg(&self) -> (res: ColorFmt)
        ensures
            res.fmt@ == self.text_rep(),
            res.color@ == seq![
                (ColorDesc { r: 0u8, g: 150u8, b: 255u8, color_type: ColorType::Bg }),
            ],
            res.effect@ == Seq::<Effect>::empty(),
    ;

    /// A styled value over `self` with the single Italic effect.
    fn italic(&self) -> (res: ColorFmt)
        ensures
            res.fmt@ == self.text_rep(),
            res.color@ == Seq::<ColorDesc>::empty(),
            res.effect@ == seq![Effect::Italic],
    ;

    /// A styled value over `self` with the single Bold effect.
    fn bold(&self) -> (res: ColorFmt)
        ensures
            res.fmt@ == self.text_rep(),
            res.color@ == Seq::<ColorDesc>::empty(),
            res.effect@ == seq![Effect::Bold],
    ;

    /// A styled value over `self` with the single Underline effect.
    fn underline(&self) -> (res: ColorFmt)
        ensures
            res.fmt@ == self.text_rep(),
            res.color@ == Seq::<ColorDesc>::empty(),
            res.effect@ == seq![Effect::Underline],
    ;

    /// A styled value over `self` with the single CrossedOut effect.
    fn crossed_out(&self) -> (res: ColorFmt)
        ensures
            res.fmt@ == self.text_rep(),
            res.color@ == Seq::<ColorDesc>::empty(),
            res.effect@ == seq![Effect::CrossedOut],
    ;
}

impl<T: Color + ?Sized> ColorExt for T {
    fn rgb(&self, r: u8, g: u8, b: u8) -> (res: ColorFmt) {
        self.color(ColorDesc::rgb(r, g, b))
    }

    fn rgb_bg(&self, r: u8, g: u8, b: u8) -> (res: ColorFmt) {
        self.color(ColorDesc::rgb_bg(r, g, b))
    }

    fn red(&self) -> (res: ColorFmt) {
        self.rgb(255, 0, 0)
    }

    fn red_bg(&self) -> (res: ColorFmt) {
        self.rgb_bg(255, 0, 0)
    }

    fn green(&self) -> (res: ColorFmt) {
        self.rgb(0, 255, 0)
    }

    fn green_bg(&self) -> (res: ColorFmt) {
        self.rgb_bg(0, 255, 0)
    }

    fn yellow(&self) -> (res: ColorFmt) {
        self.rgb(255, 255, 0)
    }

    fn yellow_bg(&self) -> (res: ColorFmt) {
        self.rgb_bg(255, 255, 0)
    }

    fn blue(&self) -> (res: ColorFmt) {
        self.rgb(0, 0, 255)
    }

    fn blue_bg(&self) -> (res: ColorFmt) {
        self.rgb_bg(0, 0, 255)
    }

    fn light_blue(&self) -> (res: ColorFmt) {
        self.rgb(0, 150, 255)
    }

    fn light_blue_bg(&self) -> (res: ColorFmt) {
        self.rgb_bg(0, 150, 255)
    }

    fn italic(&self) -> (res: ColorFmt) {
        self.style(Effect::Italic)
    }

    fn bold(&self) -> (res: ColorFmt) {
        self.style(Effect::Bold)
    }

    fn underline(&self) -> (res: ColorFmt) {
        self.style(Effect::Underline)
    }

    fn crossed_out(&self) -> (res: ColorFmt) {
        self.style(Effect::CrossedOut)
    }
}

/// A piece of text together with the ordered color descriptors and
/// ordered effect descriptors attached to it. The text is owned as its
/// textual representation; the descriptor lists may both be empty.
#[derive(Debug)]
pub struct ColorFmt {
    pub fmt: String,
    pub color: Vec<ColorDesc>,
    pub effect: Vec<Effect>,
}

impl ColorFmt {
    /// Serializes the accumulated descriptors into one SGR sequence
    /// wrapping the text: escape prefix, the color codes then the
    /// effect codes joined by single `;` separators, `m`, the text,
    /// and the reset sequence. With no descriptors at all the result
    /// is the degenerate but well-formed `ESC [ m text ESC [ 0 m`.
    pub fn render(&self) -> (r: String)
        ensures
            r@ == sgr_render(self.fmt@, self.color@, self.effect@),
    {
        let mut s = String::new();
        s.append("\x1b[");
        proof {
            reveal_strlit("\x1b[");
        }
        assert(s@ =~= seq!['\x1b', '[']);
        let ghost head: Seq<char> = s@;
        let mut i: usize = 0;
        while i < self.color.len()
            invariant
                i <= self.color.len(),
                head == seq!['\x1b', '['],
                s@ == head + color_list(self.color@.take(i as int)),
            decreases self.color.len() - i,
        {
            if i > 0 {
                s.append(";");
                proof {
                    reveal_strlit(";");
                }
            }
            push_color_code(&mut s, &self.color[i]);
            proof {
                let cs = self.color@;
                assert(cs.take(i as int + 1).drop_last() =~= cs.take(i as int));
                assert(cs.take(i as int + 1).last() == cs[i as int]);
                assert(s@ =~= head + color_list(cs.take(i as int + 1)));
            }
            i = i + 1;
        }
        assert(self.color@.take(self.color.len() as int) =~= self.color@);
        if self.color.len() > 0 && self.effect.len() > 0 {
            s.append(";");
            proof {
                reveal_strlit(";");
            }
        }
        assert(s@ =~= head + color_list(self.color@) + boundary_sep(self.color@, self.effect@));
        let ghost mid: Seq<char> = s@;
        let mut j: usize = 0;
        while j < self.effect.len()
            invariant
                j <= self.effect.len(),
                mid == head + color_list(self.color@) + boundary_sep(self.color@, self.effect@),
                s@ == mid + effect_list(self.effect@.take(j as int)),
            decreases self.effect.len() - j,
        {
            if j > 0 {
                s.append(";");
                proof {
                    reveal_strlit(";");
                }
            }
            push_effect_code(&mut s, &self.effect[j]);
            proof {
                let es = self.effect@;
                assert(es.take(j as int + 1).drop_last() =~= es.take(j as int));
                assert(es.take(j as int + 1).last() == es[j as int]);
                assert(s@ =~= mid + effect_list(es.take(j as int + 1)));
            }
            j = j + 1;
        }
        assert(self.effect@.take(self.effect.len() as int) =~= self.effect@);
        s.append("m");
        s.append(self.fmt.as_str());
        s.append("\x1b[0m");
        proof {
            reveal_strlit("m");
            reveal_strlit("\x1b[0m");
        }
        assert(s@ =~= sgr_render(self.fmt@, self.color@, self.effect@));
        s
    }
}

} // verus!
