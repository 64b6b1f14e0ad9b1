use text_layout::resources::{Config, Resources};
use text_layout::style::{Class, Style};
use text_layout::util::{font_from_style, scale_from_style};

fn test_config() -> Config<u32> {
    Config {
        default_font: String::from("sans"),
        bold_font: String::from("sans-bold"),
        italic_font: String::from("sans-italic"),
        bold_italic_font: String::from("sans-bold-italic"),
        mono_font: String::from("mono"),
        default_font_size: 12,
        h1_font_size: 24,
        h2_font_size: 20,
        h3_font_size: 16,
        h4_font_size: 14,
    }
}

fn test_resources() -> Resources<&'static str, u32> {
    let mut resources = Resources::new(test_config());
    resources.insert_font(String::from("sans"), "SansRegular.ttf");
    resources.insert_font(String::from("sans-bold"), "SansBold.ttf");
    resources.insert_font(String::from("sans-italic"), "SansItalic.ttf");
    resources.insert_font(String::from("sans-bold-italic"), "SansBoldItalic.ttf");
    resources.insert_font(String::from("mono"), "MonoRegular.ttf");
    resources
}

fn style_of(classes: &[Class]) -> Style {
    let mut style = Style::new();
    for class in classes {
        style.add(*class);
    }
    style
}

#[test]
fn code_selects_mono() {
    let resources = test_resources();
    let style = style_of(&[Class::Code]);
    assert_eq!(*font_from_style(&resources, &style), "MonoRegular.ttf");
}

#[test]
fn code_beats_every_other_tag() {
    let resources = test_resources();
    let style = style_of(&[Class::Strong, Class::Emphasis, Class::Heading(2), Class::Code]);
    assert_eq!(*font_from_style(&resources, &style), "MonoRegular.ttf");
}

#[test]
fn strong_emphasis_selects_bold_italic() {
    let resources = test_resources();
    let style = style_of(&[Class::Strong, Class::Emphasis]);
    let font = *font_from_style(&resources, &style);
    assert_eq!(font, "SansBoldItalic.ttf");
    assert_ne!(font, "SansBold.ttf");
    assert_ne!(font, "SansItalic.ttf");
}

#[test]
fn strong_alone_selects_bold() {
    let resources = test_resources();
    let style = style_of(&[Class::Strong]);
    assert_eq!(*font_from_style(&resources, &style), "SansBold.ttf");
}

#[test]
fn emphasis_alone_selects_italic() {
    let resources = test_resources();
    let style = style_of(&[Class::Emphasis]);
    assert_eq!(*font_from_style(&resources, &style), "SansItalic.ttf");
}

#[test]
fn plain_style_selects_default_font() {
    let resources = test_resources();
    let style = Style::new();
    assert_eq!(*font_from_style(&resources, &style), "SansRegular.ttf");
}

#[test]
fn heading_selects_its_scale() {
    let config = test_config();
    assert_eq!(scale_from_style(&config, &style_of(&[Class::Heading(2)])), 20);
    assert_eq!(scale_from_style(&config, &style_of(&[Class::Heading(3)])), 16);
}

#[test]
fn heading_one_and_plain_scales() {
    let config = test_config();
    let heading_one = style_of(&[Class::Heading(1)]);
    assert_eq!(scale_from_style(&config, &heading_one), 24);
    let plain = Style::new();
    assert_eq!(scale_from_style(&config, &plain), 12);
}

#[test]
fn heading_four_beats_heading_one() {
    let config = test_config();
    let style = style_of(&[Class::Heading(1), Class::Heading(4)]);
    assert_eq!(scale_from_style(&config, &style), 14);
}

#[test]
fn unconfigured_heading_level_falls_back_to_default_scale() {
    let config = test_config();
    let style = style_of(&[Class::Heading(7)]);
    assert_eq!(scale_from_style(&config, &style), 12);
}

#[test]
fn heading_does_not_change_font_variant() {
    let resources = test_resources();
    let style = style_of(&[Class::Heading(1), Class::Strong]);
    assert_eq!(*font_from_style(&resources, &style), "SansBold.ttf");
}

#[test]
fn get_font_misses_unknown_name() {
    let resources = test_resources();
    assert!(resources.get_font(&String::from("serif")).is_none());
}

#[test]
fn insert_font_replaces_same_name() {
    let mut resources: Resources<&'static str, u32> = Resources::new(test_config());
    resources.insert_font(String::from("mono"), "MonoOld.ttf");
    resources.insert_font(String::from("mono"), "MonoNew.ttf");
    assert_eq!(resources.get_font(&String::from("mono")), Some(&"MonoNew.ttf"));
}

#[test]
fn style_membership() {
    let mut style = Style::new();
    assert!(!style.contains(&Class::Strong));
    style.add(Class::Strong);
    style.add(Class::Heading(3));
    assert!(style.contains(&Class::Strong));
    assert!(style.contains(&Class::Heading(3)));
    assert!(!style.contains(&Class::Heading(2)));
    assert!(!style.contains(&Class::Code));
}
