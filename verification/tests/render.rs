//! Rendering scenarios: exact output strings for the SGR engine.

use scolor::konst;
use scolor::{ColorDesc, Effect};

#[test]
fn single_fg_color_exact() {
    assert_eq!(
        konst::rgb("text", 255, 0, 0).render(),
        "\x1b[38;2;255;0;0mtext\x1b[0m"
    );
    assert_eq!(konst::rgb("x", 0, 9, 10).render(), "\x1b[38;2;0;9;10mx\x1b[0m");
    assert_eq!(
        konst::rgb("x", 99, 100, 201).render(),
        "\x1b[38;2;99;100;201mx\x1b[0m"
    );
}

#[test]
fn single_bg_color_exact() {
    assert_eq!(
        konst::rgb_bg("text", 255, 0, 0).render(),
        "\x1b[48;2;255;0;0mtext\x1b[0m"
    );
    assert_eq!(
        konst::rgb_bg("x", 0, 150, 255).render(),
        "\x1b[48;2;0;150;255mx\x1b[0m"
    );
}

#[test]
fn zero_colors_zero_effects() {
    assert_eq!(
        konst::custom("hello", vec![], vec![]).render(),
        "\x1b[mhello\x1b[0m"
    );
}

#[test]
fn zero_colors_zero_effects_empty_payload() {
    assert_eq!(konst::custom("", vec![], vec![]).render(), "\x1b[m\x1b[0m");
}

#[test]
fn two_colors_no_effects() {
    let cf = konst::custom("x", vec![ColorDesc::red(), ColorDesc::blue_bg()], vec![]);
    assert_eq!(cf.render(), "\x1b[38;2;255;0;0;48;2;0;0;255mx\x1b[0m");
}

#[test]
fn one_color_one_effect() {
    assert_eq!(
        konst::red("x").bold().render(),
        "\x1b[38;2;255;0;0;1mx\x1b[0m"
    );
}

#[test]
fn zero_colors_one_effect() {
    assert_eq!(konst::bold("x").render(), "\x1b[1mx\x1b[0m");
}

#[test]
fn three_colors_joined_by_single_separators() {
    let cf = konst::custom(
        "x",
        vec![ColorDesc::red(), ColorDesc::green(), ColorDesc::blue()],
        vec![],
    );
    assert_eq!(
        cf.render(),
        "\x1b[38;2;255;0;0;38;2;0;255;0;38;2;0;0;255mx\x1b[0m"
    );
}

#[test]
fn many_effects_joined_by_single_separators() {
    let cf = konst::custom(
        "x",
        vec![],
        vec![Effect::Bold, Effect::Italic, Effect::CrossedOut],
    );
    assert_eq!(cf.render(), "\x1b[1;3;9mx\x1b[0m");
}

#[test]
fn colors_and_effects_one_boundary_separator() {
    let cf = konst::custom(
        "hi",
        vec![ColorDesc::red(), ColorDesc::blue_bg()],
        vec![Effect::Bold, Effect::Underline],
    );
    assert_eq!(
        cf.render(),
        "\x1b[38;2;255;0;0;48;2;0;0;255;1;4mhi\x1b[0m"
    );
}

#[test]
fn effect_code_table_exact() {
    assert_eq!(konst::style("x", Effect::Bold).render(), "\x1b[1mx\x1b[0m");
    assert_eq!(konst::style("x", Effect::Faint).render(), "\x1b[2mx\x1b[0m");
    assert_eq!(konst::style("x", Effect::Italic).render(), "\x1b[3mx\x1b[0m");
    assert_eq!(
        konst::style("x", Effect::Underline).render(),
        "\x1b[4mx\x1b[0m"
    );
    assert_eq!(
        konst::style("x", Effect::ReverseVideo).render(),
        "\x1b[7mx\x1b[0m"
    );
    assert_eq!(
        konst::style("x", Effect::CrossedOut).render(),
        "\x1b[9mx\x1b[0m"
    );
}

#[test]
fn effect_render_codes() {
    assert_eq!(Effect::Bold.render(), "1");
    assert_eq!(Effect::Faint.render(), "2");
    assert_eq!(Effect::Italic.render(), "3");
    assert_eq!(Effect::Underline.render(), "4");
    assert_eq!(Effect::ReverseVideo.render(), "7");
    assert_eq!(Effect::CrossedOut.render(), "9");
}

#[test]
fn color_desc_render_codes() {
    assert_eq!(ColorDesc::rgb(255, 0, 0).render(), "38;2;255;0;0");
    assert_eq!(ColorDesc::rgb_bg(0, 150, 255).render(), "48;2;0;150;255");
    assert_eq!(ColorDesc::rgb(0, 0, 0).render(), "38;2;0;0;0");
    assert_eq!(ColorDesc::rgb_bg(255, 255, 255).render(), "48;2;255;255;255");
}

#[test]
fn all_decimal_widths() {
    assert_eq!(konst::rgb("x", 7, 42, 137).render(), "\x1b[38;2;7;42;137mx\x1b[0m");
    assert_eq!(konst::rgb("x", 10, 100, 250).render(), "\x1b[38;2;10;100;250mx\x1b[0m");
    assert_eq!(konst::rgb("x", 9, 99, 255).render(), "\x1b[38;2;9;99;255mx\x1b[0m");
}

#[test]
fn payload_passes_through_unmodified() {
    assert_eq!(
        konst::bold("a;b[0m c").render(),
        "\x1b[1ma;b[0m c\x1b[0m"
    );
}
