//! The mathematical model of the SGR output grammar, and the verified
//! string-building helpers the renderers use.
//!
//! The wire format is
//! `ESC '[' [color (';' color)*] [';' effect (';' effect)*] 'm' text ESC '[' '0' 'm'`
//! where a color code is `38;2;R;G;B` (foreground) or `48;2;R;G;B`
//! (background) with decimal byte components, and an effect code is a
//! single digit out of `1 2 3 4 7 9`.

use vstd::prelude::*;

use crate::color_desc::{ColorDesc, ColorType};
use crate::effect::Effect;

verus! {

/// The character for one decimal digit value.
pub open spec fn dec_digit(d: int) -> char {
    if d == 0 {
        '0'
    } else if d == 1 {
        '1'
    } else if d == 2 {
        '2'
    } else if d == 3 {
        '3'
    } else if d == 4 {
        '4'
    } else if d == 5 {
        '5'
    } else if d == 6 {
        '6'
    } else if d == 7 {
        '7'
    } else if d == 8 {
        '8'
    } else {
        '9'
    }
}

/// The decimal representation of a nonnegative integer, most
/// significant digit first, with no leading zeros (a lone zero for 0).
pub open spec fn dec_of(n: int) -> Seq<char>
    decreases n,
{
    if n < 10 {
        seq![dec_digit(n)]
    } else {
        dec_of(n / 10).push(dec_digit(n % 10))
    }
}

/// The fixed prefix of a color code: role selector, then the `2` that
/// announces 24-bit color, with separators.
pub open spec fn role_prefix(t: ColorType) -> Seq<char> {
    match t {
        ColorType::Fg => seq!['3', '8', ';', '2', ';'],
        ColorType::Bg => seq!['4', '8', ';', '2', ';'],
    }
}

/// The full code of one color descriptor: `38;2;R;G;B` or `48;2;R;G;B`.
pub open spec fn color_code(c: ColorDesc) -> Seq<char> {
    role_prefix(c.color_type) + dec_of(c.r as int) + seq![';'] + dec_of(c.g as int) + seq![';']
        + dec_of(c.b as int)
}

/// The single-digit code of one effect.
pub open spec fn effect_code(e: Effect) -> char {
    match e {
        Effect::Bold => '1',
        Effect::Faint => '2',
        Effect::Italic => '3',
        Effect::Underline => '4',
        Effect::ReverseVideo => '7',
        Effect::CrossedOut => '9',
    }
}

/// The color codes of a descriptor list in order, joined by `;`, with
/// no separator before the first or after the last.
pub open spec fn color_list(cs: Seq<ColorDesc>) -> Seq<char>
    decreases cs.len(),
{
    if cs.len() == 0 {
        Seq::empty()
    } else if cs.len() == 1 {
        color_code(cs[0])
    } else {
        color_list(cs.drop_last()) + seq![';'] + color_code(cs.last())
    }
}

/// The effect codes of an effect list in order, joined by `;`, with no
/// separator before the first or after the last.
pub open spec fn effect_list(es: Seq<Effect>) -> Seq<char>
    decreases es.len(),
{
    if es.len() == 0 {
        Seq::empty()
    } else if es.len() == 1 {
        seq![effect_code(es[0])]
    } else {
        effect_list(es.drop_last()) + seq![';'] + seq![effect_code(es.last())]
    }
}

/// The one separator between the color block and the effect block,
/// present exactly when both blocks are nonempty.
pub open spec fn boundary_sep(cs: Seq<ColorDesc>, es: Seq<Effect>) -> Seq<char> {
    if cs.len() > 0 && es.len() > 0 {
        seq![';']
    } else {
        Seq::empty()
    }
}

/// The whole rendered string for a payload text and its descriptor
/// lists: escape prefix, joined codes, `m`, the text unmodified, and
/// the universal reset.
pub open spec fn sgr_render(text: Seq<char>, cs: Seq<ColorDesc>, es: Seq<Effect>) -> Seq<char> {
    seq!['\x1b', '['] + color_list(cs) + boundary_sep(cs, es) + effect_list(es) + seq!['m'] + text
        + seq!['\x1b', '[', '0', 'm']
}

/// Law: a single foreground color with no effects renders exactly as
/// escape prefix, `38;2;`, the three decimal components joined by `;`,
/// `m`, the text, and the reset sequence — for every byte triple and
/// every text.
pub proof fn lemma_single_fg_render(text: Seq<char>, r: u8, g: u8, b: u8)
    ensures
        sgr_render(
            text,
            seq![(ColorDesc { r, g, b, color_type: ColorType::Fg })],
            Seq::<Effect>::empty(),
        ) == seq!['\x1b', '['] + seq!['3', '8', ';', '2', ';'] + dec_of(r as int) + seq![';']
            + dec_of(g as int) + seq![';'] + dec_of(b as int) + seq!['m'] + text + seq![
            '\x1b',
            '[',
            '0',
            'm',
        ],
{
    let c = ColorDesc { r, g, b, color_type: ColorType::Fg };
    assert(color_list(seq![c]) == color_code(c));
    assert(sgr_render(text, seq![c], Seq::<Effect>::empty()) =~= seq!['\x1b', '['] + seq![
        '3',
        '8',
        ';',
        '2',
        ';',
    ] + dec_of(r as int) + seq![';'] + dec_of(g as int) + seq![';'] + dec_of(b as int) + seq!['m']
        + text + seq!['\x1b', '[', '0', 'm']);
}

/// Law: the background variant of the same triple renders identically
/// except that the role selector is `48;2;` in place of `38;2;`.
pub proof fn lemma_single_bg_render(text: Seq<char>, r: u8, g: u8, b: u8)
    ensures
        sgr_render(
            text,
            seq![(ColorDesc { r, g, b, color_type: ColorType::Bg })],
            Seq::<Effect>::empty(),
        ) == seq!['\x1b', '['] + seq!['4', '8', ';', '2', ';'] + dec_of(r as int) + seq![';']
            + dec_of(g as int) + seq![';'] + dec_of(b as int) + seq!['m'] + text + seq![
            '\x1b',
            '[',
            '0',
            'm',
        ],
{
    let c = ColorDesc { r, g, b, color_type: ColorType::Bg };
    assert(color_list(seq![c]) == color_code(c));
    assert(sgr_render(text, seq![c], Seq::<Effect>::empty()) =~= seq!['\x1b', '['] + seq![
        '4',
        '8',
        ';',
        '2',
        ';',
    ] + dec_of(r as int) + seq![';'] + dec_of(g as int) + seq![';'] + dec_of(b as int) + seq!['m']
        + text + seq!['\x1b', '[', '0', 'm']);
}

/// Law: attaching empty descriptor lists is a no-op — the extended
/// value renders exactly as the unextended one.
pub proof fn lemma_attach_nothing_is_no_op(text: Seq<char>, cs: Seq<ColorDesc>, es: Seq<Effect>)
    ensures
        sgr_render(text, cs + Seq::<ColorDesc>::empty(), es + Seq::<Effect>::empty())
            == sgr_render(text, cs, es),
{
    assert(cs + Seq::<ColorDesc>::empty() =~= cs);
    assert(es + Seq::<Effect>::empty() =~= es);
}

/// Law: order is preserved across staged attachment — attaching two
/// descriptor lists one after the other renders exactly as attaching
/// their concatenation in one call.
pub proof fn lemma_attach_in_stages(
    text: Seq<char>,
    cs0: Seq<ColorDesc>,
    cs1: Seq<ColorDesc>,
    cs2: Seq<ColorDesc>,
    es0: Seq<Effect>,
    es1: Seq<Effect>,
    es2: Seq<Effect>,
)
    ensures
        sgr_render(text, (cs0 + cs1) + cs2, (es0 + es1) + es2) == sgr_render(
            text,
            cs0 + (cs1 + cs2),
            es0 + (es1 + es2),
        ),
{
    assert((cs0 + cs1) + cs2 =~= cs0 + (cs1 + cs2));
    assert((es0 + es1) + es2 =~= es0 + (es1 + es2));
}

/// Appends the character of one decimal digit.
pub(crate) fn push_digit(s: &mut String, d: u8)
    requires
        d < 10,
    ensures
        final(s)@ == old(s)@.push(dec_digit(d as int)),
{
    if d == 0 {
        s.append("0");
        proof {
            reveal_strlit("0");
        }
    } else if d == 1 {
        s.append("1");
        proof {
            reveal_strlit("1");
        }
    } else if d == 2 {
        s.append("2");
        proof {
            reveal_strlit("2");
        }
    } else if d == 3 {
        s.append("3");
        proof {
            reveal_strlit("3");
        }
    } else if d == 4 {
        s.append("4");
        proof {
            reveal_strlit("4");
        }
    } else if d == 5 {
        s.append("5");
        proof {
            reveal_strlit("5");
        }
    } else if d == 6 {
        s.append("6");
        proof {
            reveal_strlit("6");
        }
    } else if d == 7 {
        s.append("7");
        proof {
            reveal_strlit("7");
        }
    } else if d == 8 {
        s.append("8");
        proof {
            reveal_strlit("8");
        }
    } else {
        s.append("9");
        proof {
            reveal_strlit("9");
        }
    }
    assert(s@ =~= old(s)@.push(dec_digit(d as int)));
}

/// Appends the decimal representation of a byte.
pub(crate) fn push_dec(s: &mut String, n: u8)
    ensures
        final(s)@ == old(s)@ + dec_of(n as int),
    decreases n,
{
    if n < 10 {
        push_digit(s, n);
    } else {
        push_dec(s, n / 10);
        push_digit(s, n % 10);
    }
    assert(s@ =~= old(s)@ + dec_of(n as int));
}

/// Appends the full code of one color descriptor.
pub(crate) fn push_color_code(s: &mut String, c: &ColorDesc)
    ensures
        final(s)@ == old(s)@ + color_code(*c),
{
    match c.color_type {
        ColorType::Fg => {
            s.append("38;2;");
            proof {
                reveal_strlit("38;2;");
            }
        },
        ColorType::Bg => {
            s.append("48;2;");
            proof {
                reveal_strlit("48;2;");
            }
        },
    }
    assert(s@ =~= old(s)@ + role_prefix(c.color_type));
    push_dec(s, c.r);
    s.append(";");
    push_dec(s, c.g);
    s.append(";");
    push_dec(s, c.b);
    proof {
        reveal_strlit(";");
    }
    assert(s@ =~= old(s)@ + color_code(*c));
}

/// Appends the single-digit code of one effect.
pub(crate) fn push_effect_code(s: &mut String, e: &Effect)
    ensures
        final(s)@ == old(s)@.push(effect_code(*e)),
{
    match e {
        Effect::Bold => {
            s.append("1");
            proof {
                reveal_strlit("1");
            }
        },
        Effect::Faint => {
            s.append("2");
            proof {
                reveal_strlit("2");
            }
        },
        Effect::Italic => {
            s.append("3");
            proof {
                reveal_strlit("3");
            }
        },
        Effect::Underline => {
            s.append("4");
            proof {
                reveal_strlit("4");
            }
        },
        Effect::ReverseVideo => {
            s.append("7");
            proof {
                reveal_strlit("7");
            }
        },
        Effect::CrossedOut => {
            s.append("9");
            proof {
                reveal_strlit("9");
            }
        },
    }
    assert(s@ =~= old(s)@.push(effect_code(*e)));
}

} // verus!
