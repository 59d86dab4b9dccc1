use story_workspace::color::Color;
use story_workspace::dock::model::{Axis, ContentId, PanelId, StackChild};
use story_workspace::theme::{ColorPickerEvent, Theme};
use story_workspace::controls::{Action, AnchorCorner, ControlSize, Platform, WindowCommand};
use story_workspace::process::{AppContext, Dispatch};
use story_workspace::workspace::{init, StoryWorkspace, LEFT_WIDTH, RIGHT_WIDTH};

#[test]
fn new_workspace_has_three_columns() {
    let theme = Theme::default();
    let ws = StoryWorkspace::new(&theme, ContentId(42));
    let dock = ws.dock_area();
    assert_eq!(dock.id(), "main-dock");
    assert_eq!(dock.len(), 7);
    assert_eq!(dock.axis(dock.root()), Some(Axis::Horizontal));
    assert_eq!(
        dock.children(dock.root()),
        vec![
            StackChild { panel: PanelId(1), size: Some(500) },
            StackChild { panel: PanelId(3), size: None },
            StackChild { panel: PanelId(5), size: Some(350) },
        ]
    );
    for (column, nested) in [(1, 2), (3, 4), (5, 6)] {
        assert!(dock.is_tabs(PanelId(column)));
        assert_eq!(dock.parent(PanelId(column)), Some(dock.root()));
        assert_eq!(dock.nested_stack(PanelId(column)), Some(PanelId(nested)));
        assert_eq!(dock.axis(PanelId(nested)), Some(Axis::Vertical));
        assert_eq!(dock.parent(PanelId(nested)), Some(PanelId(column)));
        assert!(dock.children(PanelId(nested)).is_empty());
        assert!(dock.refers_here(PanelId(column)));
        assert!(dock.refers_here(PanelId(nested)));
        assert!(dock.is_attached(PanelId(nested)));
    }
}

#[test]
fn column_widths() {
    assert_eq!(LEFT_WIDTH, 500);
    assert_eq!(RIGHT_WIDTH, 350);
    let theme = Theme::default();
    let ws = StoryWorkspace::new(&theme, ContentId(42));
    assert_eq!(ws.dock_area().child_extents(PanelId(0), 1600), vec![500, 750, 350]);
}

#[test]
fn list_story_is_the_only_content_and_sits_left() {
    let theme = Theme::default();
    let ws = StoryWorkspace::new(&theme, ContentId(42));
    let dock = ws.dock_area();
    assert_eq!(dock.tab_count(PanelId(1)), 1);
    assert_eq!(dock.tab_count(PanelId(3)), 0);
    assert_eq!(dock.tab_count(PanelId(5)), 0);
    let story = dock.tab(PanelId(1), 0).unwrap();
    assert_eq!(story.title, "List");
    assert_eq!(story.description, "A list displays a series of items.");
    assert_eq!(story.content, ContentId(42));
    assert!(story.closeable);
    assert_eq!(dock.active_tab(PanelId(1)), Some(0));
}

#[test]
fn color_picker_shows_the_primary_colour() {
    let theme = Theme::new(Color::rgb(0, 0, 0), Color::rgb(1, 1, 1), Color::rgb(9, 8, 7));
    let ws = StoryWorkspace::new(&theme, ContentId(0));
    let picker = ws.theme_color_picker();
    assert_eq!(picker.id, "theme-color-picker");
    assert_eq!(picker.label, "Primary Color");
    assert_eq!(picker.size, ControlSize::XSmall);
    assert_eq!(picker.anchor, AnchorCorner::TopRight);
    assert_eq!(picker.value, Some(Color::rgb(9, 8, 7)));
}

#[test]
fn title_bar_closes_the_window() {
    let bar = StoryWorkspace::title_bar(Platform::Mac);
    assert_eq!(bar.id, "main-title");
    assert_eq!(bar.title, "List Demo");
    assert_eq!(bar.close, Action::CloseWindow);
}

#[test]
fn double_click_zooms_except_on_windows() {
    for platform in [Platform::Mac, Platform::Linux] {
        let bar = StoryWorkspace::title_bar(platform);
        assert!(bar.zoom_on_double_click);
        assert_eq!(bar.on_click(2), Some(WindowCommand::Zoom));
        assert_eq!(bar.on_click(1), None);
        assert_eq!(bar.on_click(3), None);
        assert_eq!(bar.on_click(0), None);
    }
    let bar = StoryWorkspace::title_bar(Platform::Windows);
    assert!(!bar.zoom_on_double_click);
    assert_eq!(bar.on_click(2), None);
    assert_eq!(bar.on_click(1), None);
}

#[test]
fn init_installs_the_theme_and_binds_open() {
    let mut cx = AppContext::new();
    assert!(cx.theme().is_none());
    assert_eq!(cx.dispatch(Action::Open), Dispatch::Passed);
    init(&mut cx);
    assert_eq!(cx.theme().unwrap().palette(), Theme::default().palette());
    assert_eq!(cx.dispatch(Action::Open), Dispatch::Handled);
    assert_eq!(cx.dispatch(Action::CloseWindow), Dispatch::Passed);
}

#[test]
fn registered_actions_are_handled() {
    let mut cx = AppContext::new();
    cx.on_action(Action::CloseWindow);
    assert_eq!(cx.dispatch(Action::CloseWindow), Dispatch::Handled);
    assert_eq!(cx.dispatch(Action::Open), Dispatch::Passed);
    init(&mut cx);
    assert_eq!(cx.dispatch(Action::CloseWindow), Dispatch::Handled);
    assert_eq!(cx.dispatch(Action::Open), Dispatch::Handled);
}

#[test]
fn a_theme_can_be_installed() {
    let mut cx = AppContext::new();
    let theme = Theme::new(Color::rgb(1, 2, 3), Color::rgb(4, 5, 6), Color::rgb(7, 8, 9));
    cx.set_theme(theme);
    assert_eq!(cx.theme().unwrap().palette(), theme.palette());
    assert_eq!(cx.dispatch(Action::Open), Dispatch::Passed);
}

#[test]
fn columns_have_their_handles() {
    assert_eq!(StoryWorkspace::left(), PanelId(1));
    assert_eq!(StoryWorkspace::center(), PanelId(3));
    assert_eq!(StoryWorkspace::right(), PanelId(5));
}

#[test]
fn init_replaces_a_changed_theme() {
    let mut cx = AppContext::new();
    init(&mut cx);
    cx.on_color_picker_event(ColorPickerEvent::Change(Some(Color::rgb(1, 2, 3))));
    init(&mut cx);
    assert_eq!(cx.theme().unwrap().palette(), Theme::default().palette());
}

#[test]
fn open_does_nothing() {
    let mut cx = AppContext::new();
    init(&mut cx);
    let before = cx.theme().unwrap().palette();
    assert_eq!(cx.dispatch(Action::Open), Dispatch::Handled);
    assert_eq!(cx.theme().unwrap().palette(), before);
}

#[test]
fn picked_colour_reaches_the_theme_of_the_process() {
    let mut cx = AppContext::new();
    init(&mut cx);
    let c = Color::rgb(100, 150, 200);
    assert!(cx.on_color_picker_event(ColorPickerEvent::Change(Some(c))));
    let theme = cx.theme().unwrap();
    assert_eq!(theme.primary(), c);
    assert_eq!(theme.primary_hover(), Color::rgb(115, 160, 205));
    assert_eq!(theme.primary_active(), Color::rgb(90, 135, 180));
    assert!(!cx.on_color_picker_event(ColorPickerEvent::Change(None)));
    assert_eq!(cx.theme().unwrap().primary(), c);
    assert_eq!(cx.dispatch(Action::Open), Dispatch::Handled);
}

#[test]
fn picked_colour_without_a_theme_changes_nothing() {
    let mut cx = AppContext::new();
    assert!(!cx.on_color_picker_event(ColorPickerEvent::Change(Some(Color::rgb(1, 2, 3)))));
    assert!(cx.theme().is_none());
}

#[test]
fn dock_area_of_a_workspace_can_be_changed() {
    let theme = Theme::default();
    let mut ws = StoryWorkspace::new(&theme, ContentId(42));
    assert_eq!(ws.dock_area_mut().remove_panel(PanelId(3)), Ok(()));
    assert_eq!(
        ws.dock_area().children(PanelId(0)),
        vec![
            StackChild { panel: PanelId(1), size: Some(500) },
            StackChild { panel: PanelId(5), size: Some(350) },
        ]
    );
    assert!(ws.dock_area_mut().move_tab(PanelId(1), 0, PanelId(5)));
    assert_eq!(ws.dock_area().tab_count(PanelId(1)), 0);
    assert_eq!(ws.dock_area().tab(PanelId(5), 0).unwrap().title, "List");
    assert_eq!(ws.theme_color_picker().value, Some(theme.primary()));
}
