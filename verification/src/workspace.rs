//! The workspace: the dock area with its three columns and the list
//! story in the left one, how it is drawn, and how its window comes up.

use crate::color::Color;
use crate::controls::{Action, AnchorCorner, ColorPicker, ControlSize, Platform, TitleBar};
use crate::dock::area::{DockArea, TabItem};
use crate::dock::layout::{extent, fixed_total, flex_count};
use crate::dock::model::{
    panel_wf, Axis, ContentId, DockModel, PanelBodyModel, PanelId, PanelKind, PanelModel,
    StackChild, TabItemModel,
};
use crate::frame::{layers_of, Frame, Layer};
use crate::geometry::Bounds;
use crate::launch::{Launch, Phase};
use crate::overlay::Root;
use crate::process::AppContext;
use crate::theme::{Palette, Theme};
use crate::window::WindowOptions;
use vstd::prelude::*;

verus! {

/// The extent of the left column.
pub const LEFT_WIDTH: u32 = 500;

/// The extent of the right column.
pub const RIGHT_WIDTH: u32 = 350;

fn list_story_item(content: ContentId) -> (res: TabItem)
    ensures
        res@ == StoryWorkspace::list_story(content),
{
    TabItem {
        title: "List".to_owned(),
        description: "A list displays a series of items.".to_owned(),
        content,
        closeable: true,
    }
}

/// The workspace of the window.
pub struct StoryWorkspace {
    dock_area: DockArea,
    theme_color_picker: ColorPicker,
}

impl StoryWorkspace {
    /// The handle of the tab container in the left column.
    pub open spec fn spec_left() -> PanelId {
        PanelId(1)
    }

    /// The handle of the tab container in the middle.
    pub open spec fn spec_center() -> PanelId {
        PanelId(3)
    }

    /// The handle of the tab container in the right column.
    pub open spec fn spec_right() -> PanelId {
        PanelId(5)
    }

    /// The handle of the tab container in the left column.
    #[verifier::when_used_as_spec(spec_left)]
    pub fn left() -> (res: PanelId)
        ensures
            res == Self::spec_left(),
    {
        PanelId(1)
    }

    /// The handle of the tab container in the middle.
    #[verifier::when_used_as_spec(spec_center)]
    pub fn center() -> (res: PanelId)
        ensures
            res == Self::spec_center(),
    {
        PanelId(3)
    }

    /// The handle of the tab container in the right column.
    #[verifier::when_used_as_spec(spec_right)]
    pub fn right() -> (res: PanelId)
        ensures
            res == Self::spec_right(),
    {
        PanelId(5)
    }

    /// The item under which the list story is shown.
    pub open spec fn list_story(content: ContentId) -> TabItemModel {
        TabItemModel {
            title: "List"@,
            description: "A list displays a series of items."@,
            content,
            closeable: true,
        }
    }

    /// One of the three columns: a tab container in the root stack.
    pub open spec fn column(items: Seq<TabItemModel>, nested: PanelId) -> PanelModel {
        PanelModel {
            parent: Some(PanelId(0)),
            dock_area: Some("main-dock"@),
            body: PanelBodyModel::Tabs { items, active: 0, stack: Some(nested) },
        }
    }

    /// The nested stack of a column.
    pub open spec fn column_stack(column: PanelId) -> PanelModel {
        PanelModel {
            parent: Some(column),
            dock_area: Some("main-dock"@),
            body: PanelBodyModel::Stack { axis: Axis::Vertical, children: Seq::empty() },
        }
    }

    /// The dock area of a new workspace: a horizontal root stack with the
    /// left column of fixed width, the middle that takes what is left, and
    /// the right column of fixed width. Each column is a tab container
    /// with a nested vertical stack; the left one shows the list story.
    pub open spec fn initial_dock(list_story: ContentId) -> DockModel {
        DockModel {
            id: "main-dock"@,
            panels: seq![
                PanelModel {
                    parent: None,
                    dock_area: None,
                    body: PanelBodyModel::Stack {
                        axis: Axis::Horizontal,
                        children: seq![
                            StackChild { panel: Self::left(), size: Some(500u32) },
                            StackChild { panel: Self::center(), size: None },
                            StackChild { panel: Self::right(), size: Some(350u32) },
                        ],
                    },
                },
                Self::column(seq![Self::list_story(list_story)], PanelId(2)),
                Self::column_stack(Self::left()),
                Self::column(Seq::empty(), PanelId(4)),
                Self::column_stack(Self::center()),
                Self::column(Seq::empty(), PanelId(6)),
                Self::column_stack(Self::right()),
            ],
        }
    }

    /// The dock area.
    pub closed spec fn dock(&self) -> DockModel {
        self.dock_area@
    }

    /// The colour picker.
    pub closed spec fn picker(&self) -> ColorPicker {
        self.theme_color_picker
    }

    /// The structure that every workspace keeps.
    pub open spec fn wf(&self) -> bool {
        self.dock().wf()
    }

    /// A workspace with its dock area assembled and the list story, whose
    /// content is `list_story`, in the left column. Its colour picker
    /// shows the primary colour of `theme`.
    pub fn new(theme: &Theme, list_story: ContentId) -> (res: StoryWorkspace)
        ensures
            res.wf(),
            res.dock() == Self::initial_dock(list_story),
            res.dock().wf(),
            res.picker().id@ == "theme-color-picker"@,
            res.picker().label@ == "Primary Color"@,
            res.picker().size == ControlSize::XSmall,
            res.picker().anchor == AnchorCorner::TopRight,
            res.picker().value == Some(theme@.primary),
    {
        let mut dock_area = DockArea::new("main-dock", Axis::Horizontal);
        let root = dock_area.root();
        let column = PanelKind::Tabs(Some(Axis::Vertical));
        let weak_dock_area = dock_area.downgrade();
        let left = dock_area.add_panel(column, root, Some(LEFT_WIDTH), weak_dock_area).unwrap();
        let weak_dock_area = dock_area.downgrade();
        let center = dock_area.add_panel(column, root, None, weak_dock_area).unwrap();
        let weak_dock_area = dock_area.downgrade();
        let right = dock_area.add_panel(column, root, Some(RIGHT_WIDTH), weak_dock_area).unwrap();
        dock_area.add_tab(left, list_story_item(list_story)).unwrap();
        let theme_color_picker = ColorPicker {
            id: "theme-color-picker",
            label: "Primary Color",
            size: ControlSize::XSmall,
            anchor: AnchorCorner::TopRight,
            value: Some(theme.primary()),
        };
        proof {
            assert(dock_area@.panels =~~= Self::initial_dock(list_story).panels);
        }
        StoryWorkspace { dock_area, theme_color_picker }
    }

    /// The dock area.
    pub fn dock_area(&self) -> (res: &DockArea)
        requires
            self.wf(),
        ensures
            res@ == self.dock(),
            res.wf(),
    {
        &self.dock_area
    }

    /// The dock area, to change it.
    pub fn dock_area_mut(&mut self) -> (res: &mut DockArea)
        ensures
            res@ == old(self).dock(),
            final(self).dock() == final(res)@,
            final(self).picker() == old(self).picker(),
    {
        &mut self.dock_area
    }

    /// The colour picker.
    pub fn theme_color_picker(&self) -> (res: ColorPicker)
        ensures
            res == self.picker(),
    {
        self.theme_color_picker
    }

    /// The title bar: its close control sends `CloseWindow`, and a double
    /// click zooms the window except on Windows.
    pub fn title_bar(platform: Platform) -> (res: TitleBar)
        ensures
            res.id@ == "main-title"@,
            res.title@ == "List Demo"@,
            res.close == Action::CloseWindow,
            res.zoom_on_double_click == !(platform is Windows),
    {
        let zoom_on_double_click = match platform {
            Platform::Windows => false,
            _ => true,
        };
        TitleBar {
            id: "main-title",
            title: "List Demo",
            close: Action::CloseWindow,
            zoom_on_double_click,
        }
    }

    /// The window body for the overlay slots `root`, in the colours of
    /// `theme`. The order of the layers is that of `layers_of`.
    pub fn render(&self, root: &Root, theme: &Theme) -> (frame: Frame)
        ensures
            frame.background == theme@.background,
            frame.foreground == theme@.foreground,
            frame.layers@ == layers_of(*root),
    {
        let mut layers: Vec<Layer> = Vec::new();
        layers.push(Layer::TitleBar);
        layers.push(Layer::DockArea);
        let has_active_modal = root.active_modal.is_some();
        if !has_active_modal {
            match root.active_drawer {
                Some(drawer) => {
                    layers.push(Layer::Drawer(drawer));
                },
                None => {},
            }
        }
        match root.active_modal {
            Some(modal) => {
                layers.push(Layer::Modal(modal));
            },
            None => {},
        }
        layers.push(Layer::Notification(root.notification));
        Frame { background: theme.background(), foreground: theme.foreground(), layers }
    }

    /// Begins the launch of the workspace window on `display`, the primary
    /// display if there is one: the launch, and the options with which the
    /// application is to open the window. Whoever asked gets the window or
    /// the error.
    pub fn new_local(display: Option<Bounds>) -> (res: (Launch, WindowOptions))
        ensures
            res.0 == (Launch { phase: Phase::Opening, with_initializer: false }),
            res.1 == WindowOptions::spec_for_workspace(display),
    {
        (Launch::start(false), WindowOptions::for_workspace(display))
    }
}

/// In a new workspace the left and the right column have their fixed
/// widths, and the middle has all that they leave of what is available.
pub proof fn lemma_middle_takes_the_rest(list_story: ContentId, available: int)
    ensures
        StoryWorkspace::initial_dock(list_story).wf(),
        ({
            let columns = StoryWorkspace::initial_dock(list_story).panel(PanelId(0)).children();
            &&& columns.len() == 3
            &&& extent(columns, 0, available) == 500
            &&& extent(columns, 1, available) == if available > 850 {
                available - 850
            } else {
                0
            }
            &&& extent(columns, 2, available) == 350
        }),
{
    let columns = StoryWorkspace::initial_dock(list_story).panel(PanelId(0)).children();
    assert(fixed_total(columns) == 850 && flex_count(columns) == 1) by {
        reveal_with_fuel(fixed_total, 4);
        reveal_with_fuel(flex_count, 4);
        assert(columns.drop_last() =~= seq![columns[0], columns[1]]);
        assert(columns.drop_last().drop_last() =~= seq![columns[0]]);
        assert(columns.drop_last().drop_last().drop_last() =~= Seq::<StackChild>::empty());
    }
}

/// The title that the window is given once it is open.
pub fn window_title() -> (res: &'static str)
    ensures
        res@ == "GPUI App"@,
{
    "GPUI App"
}

/// Begins the launch of the workspace window as `new_local` does, for a
/// caller whose initializer is to run on the window once it is up. Such a
/// caller gets no result: if the window cannot be opened, nothing more
/// happens.
pub fn open_new(display: Option<Bounds>) -> (res: (Launch, WindowOptions))
    ensures
        res.0 == (Launch { phase: Phase::Opening, with_initializer: true }),
        res.1 == WindowOptions::spec_for_workspace(display),
{
    (Launch::start(true), WindowOptions::for_workspace(display))
}

/// Sets up the process: registers the handler of `Open`, which does
/// nothing, and installs the default theme in place of any that was there.
pub fn init(cx: &mut AppContext)
    ensures
        final(cx).handles(Action::Open),
        final(cx).handles(Action::CloseWindow) == old(cx).handles(Action::CloseWindow),
        final(cx).palette() == Some(
            Palette::derived_from(
                Color { r: 255, g: 255, b: 255, a: 255 },
                Color { r: 9, g: 9, b: 11, a: 255 },
                Color { r: 24, g: 24, b: 27, a: 255 },
            ),
        ),
{
    cx.on_action(Action::Open);
    cx.set_theme(Theme::default());
}

} // verus!
