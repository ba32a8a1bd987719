use close_to_light::config::{LevelModifiers, Modifier};
use close_to_light::game::Transition;
use close_to_light::light::{light_visible, Light, Telegraph};
use close_to_light::meta::author_text;
use close_to_light::theme::{Color, Theme, ThemeColor};

#[test]
fn theme_classic_and_test_colors() {
    let t = Theme::classic();
    assert_eq!(t.dark, Color { r: 0, g: 0, b: 0, a: 255 });
    assert_eq!(t.light, Color { r: 255, g: 255, b: 255, a: 255 });
    assert_eq!(t.danger, Color { r: 255, g: 0, b: 0, a: 255 });
    assert_eq!(t.highlight, Color { r: 0, g: 255, b: 255, a: 255 });
    let t = Theme::test();
    assert_eq!(t.dark, Color { r: 0x2B, g: 0x3A, b: 0x67, a: 255 });
    assert_eq!(t.highlight, Color { r: 0x61, g: 0xC9, b: 0xA8, a: 255 });
    assert_eq!(Theme::default(), Theme::classic());
}

#[test]
fn theme_transparent_only_changes_dark() {
    let t = Theme::test();
    let tr = t.transparent();
    assert_eq!(tr.dark, Color { r: 0, g: 0, b: 0, a: 0 });
    assert_eq!(tr.light, t.light);
    assert_eq!(tr.danger, t.danger);
    assert_eq!(tr.highlight, t.highlight);
}

#[test]
fn theme_get_color() {
    let t = Theme::test();
    assert_eq!(t.get_color(ThemeColor::Dark), t.dark);
    assert_eq!(t.get_color(ThemeColor::Light), t.light);
    assert_eq!(t.get_color(ThemeColor::Danger), t.danger);
    assert_eq!(t.get_color(ThemeColor::Highlight), t.highlight);
}

#[test]
fn modifiers_names_and_toggles() {
    let all = Modifier::all();
    assert_eq!(all, vec![Modifier::NoFail, Modifier::Sudden, Modifier::Hidden]);
    let names: Vec<&str> = all.iter().map(|m| m.name()).collect();
    assert_eq!(names, vec!["Nofail", "Sudden", "Hidden"]);
    let mut mods = LevelModifiers::default();
    assert!(!mods.get(Modifier::Sudden));
    mods.set(Modifier::Sudden, true);
    assert!(mods.get(Modifier::Sudden));
    assert!(!mods.get(Modifier::NoFail));
    assert!(!mods.get(Modifier::Hidden));
    assert!(!mods.clean_auto);
}

#[test]
fn author_text_lines() {
    assert_eq!(author_text("music", "nertsal"), "music by nertsal");
    assert_eq!(author_text("mapped", ""), "mapped by <authors unspecified>");
}

#[test]
fn light_into_telegraph() {
    let light = Light { collider: 1u8, base_collider: 2u8, lifetime: 500, danger: true, event_id: Some(4) };
    let tele = light.into_telegraph(Telegraph { precede_time: 1000, speed: 3u32 });
    assert_eq!(tele.speed, 3);
    assert_eq!(tele.lifetime, 0);
    assert_eq!(tele.light.event_id, Some(4));
    assert!(tele.light.danger);
}

#[test]
fn light_visibility_window() {
    // Telegraph while the movement lasts; light from precede time until the end.
    assert_eq!(light_visible(500, 1000, 3000), (true, false));
    assert_eq!(light_visible(1500, 1000, 3000), (true, true));
    assert_eq!(light_visible(3500, 1000, 3000), (false, true));
    assert_eq!(light_visible(4500, 1000, 3000), (false, false));
    assert_eq!(light_visible(1000, 1000, 3000), (true, false));
}

#[test]
fn transition_variants() {
    assert_ne!(Transition::Exit, Transition::LoadLeaderboard { submit_score: true });
}
