//! The builder surface: presets as pure aliases, accumulation order,
//! the no-op attachment, and the trait spellings.

use scolor::konst;
use scolor::{Color, ColorDesc, ColorExt, ColorType, Effect};

#[test]
fn preset_descriptors_are_aliases() {
    assert_eq!(ColorDesc::red(), ColorDesc::rgb(255, 0, 0));
    assert_eq!(ColorDesc::red_bg(), ColorDesc::rgb_bg(255, 0, 0));
    assert_eq!(ColorDesc::green(), ColorDesc::rgb(0, 255, 0));
    assert_eq!(ColorDesc::green_bg(), ColorDesc::rgb_bg(0, 255, 0));
    assert_eq!(ColorDesc::yellow(), ColorDesc::rgb(255, 255, 0));
    assert_eq!(ColorDesc::yellow_bg(), ColorDesc::rgb_bg(255, 255, 0));
    assert_eq!(ColorDesc::blue(), ColorDesc::rgb(0, 0, 255));
    assert_eq!(ColorDesc::blue_bg(), ColorDesc::rgb_bg(0, 0, 255));
    assert_eq!(ColorDesc::light_blue(), ColorDesc::rgb(0, 150, 255));
    assert_eq!(ColorDesc::light_blue_bg(), ColorDesc::rgb_bg(0, 150, 255));
}

#[test]
fn preset_output_equals_rgb_output() {
    assert_eq!(konst::red("t").render(), konst::rgb("t", 255, 0, 0).render());
    assert_eq!(
        konst::light_blue_bg("t").render(),
        konst::rgb_bg("t", 0, 150, 255).render()
    );
    assert_eq!(konst::green("t").render(), konst::rgb("t", 0, 255, 0).render());
    assert_eq!(
        konst::yellow_bg("t").render(),
        konst::rgb_bg("t", 255, 255, 0).render()
    );
    assert_eq!(konst::blue("t").render(), konst::rgb("t", 0, 0, 255).render());
}

#[test]
fn rgb_constructor_fields() {
    let c = ColorDesc::rgb(1, 2, 3);
    assert_eq!(c.r, 1);
    assert_eq!(c.g, 2);
    assert_eq!(c.b, 3);
    assert_eq!(c.color_type, ColorType::Fg);
    assert_eq!(ColorDesc::rgb_bg(1, 2, 3).color_type, ColorType::Bg);
}

#[test]
fn attach_nothing_is_no_op() {
    let base = konst::red("x").bold().render();
    let extended = konst::red("x").bold().custom(vec![], vec![]).render();
    assert_eq!(extended, base);
}

#[test]
fn staged_attach_equals_one_attach() {
    let a = ColorDesc::red();
    let b = ColorDesc::blue_bg();
    let c = ColorDesc::green();
    let staged = konst::custom("x", vec![a, b], vec![Effect::Bold])
        .custom(vec![c], vec![Effect::Italic])
        .render();
    let at_once = konst::custom("x", vec![a, b, c], vec![Effect::Bold, Effect::Italic]).render();
    assert_eq!(staged, at_once);
}

#[test]
fn builder_chain_on_str() {
    assert_eq!(
        "hello".red().bold().underline().render(),
        "\x1b[38;2;255;0;0;1;4mhello\x1b[0m"
    );
    assert_eq!(
        "world".green().red_bg().italic().render(),
        "\x1b[38;2;0;255;0;48;2;255;0;0;3mworld\x1b[0m"
    );
}

#[test]
fn builder_chain_on_string() {
    let owned = String::from("hi");
    assert_eq!(owned.light_blue().render(), "\x1b[38;2;0;150;255mhi\x1b[0m");
    assert_eq!(owned.crossed_out().render(), "\x1b[9mhi\x1b[0m");
}

#[test]
fn trait_custom_and_color_and_style() {
    let cf = "x".custom(vec![ColorDesc::yellow()], vec![Effect::Faint]);
    assert_eq!(cf.render(), "\x1b[38;2;255;255;0;2mx\x1b[0m");
    assert_eq!("x".color(ColorDesc::blue()).render(), "\x1b[38;2;0;0;255mx\x1b[0m");
    assert_eq!("x".style(Effect::ReverseVideo).render(), "\x1b[7mx\x1b[0m");
}

#[test]
fn trait_named_shorthands() {
    assert_eq!("t".rgb(5, 6, 7).render(), konst::rgb("t", 5, 6, 7).render());
    assert_eq!("t".rgb_bg(5, 6, 7).render(), konst::rgb_bg("t", 5, 6, 7).render());
    assert_eq!("t".red_bg().render(), konst::red_bg("t").render());
    assert_eq!("t".green_bg().render(), konst::green_bg("t").render());
    assert_eq!("t".yellow().render(), konst::yellow("t").render());
    assert_eq!("t".blue_bg().render(), konst::blue_bg("t").render());
    assert_eq!("t".light_blue_bg().render(), konst::light_blue_bg("t").render());
    assert_eq!("t".italic().render(), konst::italic("t").render());
    assert_eq!("t".bold().render(), konst::bold("t").render());
    assert_eq!("t".underline().render(), konst::underline("t").render());
    assert_eq!("t".crossed_out().render(), konst::crossed_out("t").render());
}

#[test]
fn method_extensions_accumulate_in_order() {
    let cf = konst::custom("s", vec![], vec![])
        .rgb(1, 2, 3)
        .rgb_bg(4, 5, 6)
        .style(Effect::Bold);
    assert_eq!(cf.render(), "\x1b[38;2;1;2;3;48;2;4;5;6;1ms\x1b[0m");
}

#[test]
fn method_presets_match_free_presets() {
    let start = || konst::custom("s", vec![], vec![]);
    assert_eq!(start().red().render(), konst::red("s").render());
    assert_eq!(start().red_bg().render(), konst::red_bg("s").render());
    assert_eq!(start().green().render(), konst::green("s").render());
    assert_eq!(start().green_bg().render(), konst::green_bg("s").render());
    assert_eq!(start().yellow().render(), konst::yellow("s").render());
    assert_eq!(start().yellow_bg().render(), konst::yellow_bg("s").render());
    assert_eq!(start().blue().render(), konst::blue("s").render());
    assert_eq!(start().blue_bg().render(), konst::blue_bg("s").render());
    assert_eq!(start().light_blue().render(), konst::light_blue("s").render());
    assert_eq!(
        start().light_blue_bg().render(),
        konst::light_blue_bg("s").render()
    );
    assert_eq!(start().italic().render(), konst::italic("s").render());
    assert_eq!(start().bold().render(), konst::bold("s").render());
    assert_eq!(start().underline().render(), konst::underline("s").render());
    assert_eq!(start().crossed_out().render(), konst::crossed_out("s").render());
}

#[test]
fn duplicates_are_kept_in_order() {
    let cf = konst::custom("x", vec![ColorDesc::red(), ColorDesc::red()], vec![
        Effect::Bold,
        Effect::Bold,
    ]);
    assert_eq!(cf.render(), "\x1b[38;2;255;0;0;38;2;255;0;0;1;1mx\x1b[0m");
}
