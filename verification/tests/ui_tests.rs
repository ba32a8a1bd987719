use close_to_light::level_state::{EditorLevelState, LevelState, RenderedEvent};
use close_to_light::light::{Light, LightTelegraph};
use close_to_light::menu::{ConfirmAction, MenuSelection};
use close_to_light::theme::{Theme, ThemeColor};
use close_to_light::widgets::{
    HighlightMode, IconButtonWidget, IconWidget, ItemDiffWidget, ItemWidget, PlayLevelWidget,
    TextWidget, WidgetState,
};
use generational_arena::Index;

fn light(event_id: Option<usize>) -> Light<u8> {
    Light { collider: 0, base_collider: 0, lifetime: 0, danger: false, event_id }
}

#[test]
fn level_state_render_events() {
    let mut state: LevelState<u8, u8> = LevelState::start(1000, None);
    state.render_event(2000, RenderedEvent::PaletteSwap);
    assert!(!state.is_finished);
    assert!(!state.swap_palette);
    state.render_event(500, RenderedEvent::PaletteSwap);
    assert!(state.swap_palette);
    let tele = LightTelegraph { light: light(Some(1)), speed: 1u8, lifetime: 0 };
    state.render_event(0, RenderedEvent::Light(Some(tele), Some(light(Some(1)))));
    assert_eq!(state.lights.len(), 1);
    assert_eq!(state.telegraphs.len(), 1);
}

#[test]
fn level_state_finished_when_nothing_shown() {
    let mut state: LevelState<u8, u8> = LevelState::start(1000, Some(200));
    state.render_event(100, RenderedEvent::Light(None, None));
    assert!(state.is_finished);
    // Ignored: starts after the ignore time.
    state.render_event(500, RenderedEvent::Light(None, Some(light(None))));
    assert!(state.is_finished);
    assert!(state.lights.is_empty());
    let empty: LevelState<u8, u8> = LevelState::empty();
    assert!(!empty.is_finished);
}

#[test]
fn editor_level_state_queries() {
    let mut stat: LevelState<u8, u8> = LevelState::start(0, None);
    stat.lights.push(light(Some(7)));
    stat.lights.push(light(None));
    let dynamic: LevelState<u8, u8> = LevelState::start(5, None);
    let s = EditorLevelState { static_level: Some(stat), dynamic_level: Some(dynamic), hovered_light: Some(0) };
    assert_eq!(s.relevant().beat_time, 0);
    assert_eq!(s.hovered_event(), Some(7));
    let s2 = EditorLevelState { hovered_light: Some(1), ..s };
    assert_eq!(s2.hovered_event(), None);
    let s3 = EditorLevelState { static_level: None, hovered_light: Some(0), ..s2 };
    assert_eq!(s3.relevant().beat_time, 5);
    assert_eq!(s3.hovered_event(), None);
}

#[test]
fn menu_select_group_and_level() {
    let a = Index::from_raw_parts(0, 0);
    let b = Index::from_raw_parts(1, 0);
    let mut m = MenuSelection::new();
    m.selected_group = Some(a);
    m.select_level(2);
    m.select_group(a);
    assert_eq!(m.switch_group, Some(a));
    assert_eq!(m.switch_level, Some(2));
    m.select_group(b);
    assert_eq!(m.switch_group, Some(b));
    assert_eq!(m.switch_level, None);
    m.edit_level(b, Some(1));
    assert_eq!(m.edit_level, Some((b, Some(1))));
}

#[test]
fn menu_confirm_popup() {
    let mut m = MenuSelection::new();
    assert!(m.confirm_action().is_none());
    m.popup_confirm(ConfirmAction::SyncUpload, "Upload?".to_string());
    let popup = m.confirm_popup.as_ref().unwrap();
    assert_eq!(popup.title, "Are you sure?");
    assert!(matches!(m.confirm_action(), Some(ConfirmAction::SyncUpload)));
    assert!(m.confirm_popup.is_none());
    m.popup_confirm_custom(ConfirmAction::DownloadRecommended, "Download recommended levels?".to_string(), String::new());
    assert_eq!(m.confirm_popup.as_ref().unwrap().title, "Download recommended levels?");
}

#[test]
fn widgets_constructors() {
    let icon = IconWidget::new("star");
    assert_eq!(icon.color, ThemeColor::Light);
    assert!(icon.state.visible);
    let p = PlayLevelWidget::new();
    assert_eq!(p.music_original.text, "original");
    assert!(!p.music_original.state.visible);
    assert!(p.music.state.visible);
    let item = ItemWidget::new("Level 1", 3u32);
    assert_eq!(item.text.text, "Level 1");
    assert_eq!(item.data, 3);
    assert_eq!(TextWidget::new("x").text, "x");
}

#[test]
fn icon_button_colors() {
    let theme = Theme::test();
    let mut b = IconButtonWidget::new(());
    assert_eq!(b.colors(&theme), (theme.light, Some(theme.dark)));
    b.state.hovered = true;
    assert_eq!(b.colors(&theme), (theme.dark, Some(theme.light)));
    let mut h = IconButtonWidget::new(()).highlight(HighlightMode::Color(ThemeColor::Danger));
    assert_eq!(h.colors(&theme), (theme.light, None));
    h.state.hovered = true;
    assert_eq!(h.colors(&theme), (theme.danger, None));
}

#[test]
fn item_diff_widget_sync_marks() {
    let g = Index::from_raw_parts(3, 1);
    let mut w = ItemDiffWidget {
        state: WidgetState::new(),
        edited: IconWidget::new(1u8),
        local: IconWidget::new(2u8),
        text: TextWidget::new(""),
        group: Index::from_raw_parts(0, 0),
        index: 0,
        level: 0u32,
        grade: IconWidget::new(3u8),
    };
    // A local difficulty: local mark, no edited mark, no highscore.
    w.sync(g, 2, 7, 0, String::from("Hard"), true, None);
    assert_eq!(w.group, g);
    assert_eq!(w.index, 2);
    assert_eq!(w.level, 7);
    assert_eq!(w.text.text, "Hard");
    assert!(w.local.state.visible);
    assert!(!w.edited.state.visible);
    assert!(!w.grade.state.visible);
    // A published, edited difficulty with a failing highscore.
    w.sync(g, 1, 8, 42, String::from("Easy"), true, Some((9, true)));
    assert!(!w.local.state.visible);
    assert!(w.edited.state.visible);
    assert!(w.grade.state.visible);
    assert_eq!(w.grade.texture, 9);
    assert_eq!(w.grade.color, ThemeColor::Danger);
    // Not edited, passing grade.
    w.sync(g, 1, 8, 42, String::from("Easy"), false, Some((5, false)));
    assert!(!w.edited.state.visible);
    assert_eq!(w.grade.color, ThemeColor::Highlight);
}

#[test]
fn level_state_render_whole_level() {
    let tele = LightTelegraph { light: light(Some(1)), speed: 1u8, lifetime: 0 };
    let events = vec![
        (0, RenderedEvent::PaletteSwap),
        (100, RenderedEvent::Light(Some(tele), Some(light(Some(1))))),
        (300, RenderedEvent::Light(None, Some(light(Some(2))))),
    ];
    let state: LevelState<u8, u8> = LevelState::render(200, Some(250), events);
    assert!(state.swap_palette);
    assert_eq!(state.lights.len(), 1);
    assert_eq!(state.lights[0].event_id, Some(1));
    assert_eq!(state.telegraphs.len(), 1);
    // The event at 300 is still to come.
    assert!(!state.is_finished);
    let done: LevelState<u8, u8> =
        LevelState::render(1000, None, vec![(0, RenderedEvent::Light(None, None))]);
    assert!(done.is_finished);
}
