use story_workspace::geometry::{Bounds, Point, Size};
use story_workspace::launch::{Fatal, Launch, LaunchAction, LaunchError, LaunchEvent, Phase, WindowId};
use story_workspace::window::{
    WindowKind, WindowOptions, DEFAULT_HEIGHT, DEFAULT_WIDTH, MIN_HEIGHT, MIN_WIDTH,
};
use story_workspace::workspace::{open_new, window_title, StoryWorkspace};

fn display(x: i32, y: i32, width: u32, height: u32) -> Bounds {
    Bounds { origin: Point { x, y }, size: Size { width, height } }
}

#[test]
fn default_window_is_centered_on_the_primary_display() {
    let options = WindowOptions::for_workspace(Some(display(0, 0, 2560, 1440)));
    assert_eq!(
        options.window_bounds,
        Some(Bounds {
            origin: Point { x: 480, y: 120 },
            size: Size { width: 1600, height: 1200 }
        })
    );
    assert_eq!(options.window_min_size, Some(Size { width: 640, height: 480 }));
    assert_eq!(options.kind, WindowKind::Normal);
    let titlebar = options.titlebar.unwrap();
    assert_eq!(titlebar.title, None);
    assert!(titlebar.appears_transparent);
    assert_eq!(titlebar.traffic_light_position, Some(Point { x: 9, y: 9 }));
}

#[test]
fn default_sizes() {
    assert_eq!((DEFAULT_WIDTH, DEFAULT_HEIGHT), (1600, 1200));
    assert_eq!((MIN_WIDTH, MIN_HEIGHT), (640, 480));
}

#[test]
fn window_without_a_display_opens_at_the_origin() {
    let options = WindowOptions::for_workspace(None);
    assert_eq!(
        options.window_bounds,
        Some(Bounds { origin: Point { x: 0, y: 0 }, size: Size { width: 1600, height: 1200 } })
    );
}

#[test]
fn window_larger_than_the_display_overhangs_evenly() {
    let options = WindowOptions::for_workspace(Some(display(0, 0, 1920, 1080)));
    assert_eq!(options.window_bounds.unwrap().origin, Point { x: 160, y: -60 });
}

#[test]
fn centering_follows_the_display_origin() {
    let b = Bounds::centered(Some(display(-1920, 100, 1920, 1080)), Size { width: 800, height: 600 });
    assert_eq!(b.origin, Point { x: -1360, y: 340 });
    assert_eq!(b.size, Size { width: 800, height: 600 });
}

#[test]
fn centering_rounds_halves_down() {
    let b = Bounds::centered(Some(display(0, 0, 101, 11)), Size { width: 50, height: 4 });
    assert_eq!(b.origin, Point { x: 25, y: 3 });
}

#[test]
fn centering_stays_within_coordinates() {
    let b = Bounds::centered(
        Some(display(i32::MAX, i32::MIN, u32::MAX, 0)),
        Size { width: 0, height: u32::MAX },
    );
    assert_eq!(b.origin, Point { x: i32::MAX, y: i32::MIN });
}

#[test]
fn new_local_opens_the_window_and_resolves() {
    let (launch, options) = StoryWorkspace::new_local(Some(display(0, 0, 2560, 1440)));
    assert_eq!(launch, Launch { phase: Phase::Opening, with_initializer: false });
    assert_eq!(options.window_bounds.unwrap().origin, Point { x: 480, y: 120 });
    assert!(!launch.is_done());
    let w = WindowId(4);
    let (launch, action) = launch.step(LaunchEvent::Opened(w));
    assert_eq!(launch.phase, Phase::Configuring(w));
    assert_eq!(action, LaunchAction::Configure(w));
    let (launch, action) = launch.step(LaunchEvent::Configured);
    assert_eq!(launch.phase, Phase::Ready(w));
    assert_eq!(action, LaunchAction::Resolve(w));
    assert!(launch.is_done());
}

#[test]
fn window_creation_failure_is_reported() {
    let (launch, _) = StoryWorkspace::new_local(None);
    let (launch, action) = launch.step(LaunchEvent::OpenFailed);
    assert_eq!(launch.phase, Phase::Failed);
    assert_eq!(action, LaunchAction::Reject(LaunchError::WindowCreation));
    assert!(launch.is_done());
    let (after, action) = launch.step(LaunchEvent::Opened(WindowId(1)));
    assert_eq!(after, launch);
    assert_eq!(action, LaunchAction::Ignore);
}

#[test]
fn configuration_failure_aborts() {
    let (launch, _) = StoryWorkspace::new_local(None);
    let (launch, _) = launch.step(LaunchEvent::Opened(WindowId(1)));
    let (launch, action) = launch.step(LaunchEvent::ConfigureFailed);
    assert_eq!(launch.phase, Phase::Aborted);
    assert_eq!(action, LaunchAction::Abort(Fatal::UpdateWindow));
    assert!(launch.is_done());
}

#[test]
fn open_new_runs_the_initializer() {
    let (launch, options) = open_new(Some(display(0, 0, 2560, 1440)));
    assert_eq!(launch, Launch { phase: Phase::Opening, with_initializer: true });
    assert_eq!(options.window_min_size, Some(Size { width: 640, height: 480 }));
    let w = WindowId(8);
    let (launch, action) = launch.step(LaunchEvent::Opened(w));
    assert_eq!(action, LaunchAction::Configure(w));
    let (launch, action) = launch.step(LaunchEvent::Configured);
    assert_eq!(launch.phase, Phase::Initializing(w));
    assert_eq!(action, LaunchAction::Initialize(w));
    assert!(!launch.is_done());
    let (launch, action) = launch.step(LaunchEvent::Initialized);
    assert_eq!(launch.phase, Phase::Ready(w));
    assert_eq!(action, LaunchAction::Finish);
}

#[test]
fn open_new_ends_quietly_without_a_window() {
    let (launch, _) = open_new(None);
    let (launch, action) = launch.step(LaunchEvent::OpenFailed);
    assert_eq!(launch.phase, Phase::Failed);
    assert_eq!(action, LaunchAction::Finish);
}

#[test]
fn initializer_failure_aborts() {
    let (launch, _) = open_new(None);
    let (launch, _) = launch.step(LaunchEvent::Opened(WindowId(1)));
    let (launch, _) = launch.step(LaunchEvent::Configured);
    let (launch, action) = launch.step(LaunchEvent::InitializeFailed);
    assert_eq!(launch.phase, Phase::Aborted);
    assert_eq!(action, LaunchAction::Abort(Fatal::InitWorkspace));
}

#[test]
fn events_out_of_turn_are_ignored() {
    let start = Launch::start(false);
    for event in [
        LaunchEvent::Configured,
        LaunchEvent::ConfigureFailed,
        LaunchEvent::Initialized,
        LaunchEvent::InitializeFailed,
    ] {
        assert_eq!(start.step(event), (start, LaunchAction::Ignore));
    }
    let (configuring, _) = start.step(LaunchEvent::Opened(WindowId(1)));
    for event in [
        LaunchEvent::Opened(WindowId(2)),
        LaunchEvent::OpenFailed,
        LaunchEvent::Initialized,
        LaunchEvent::InitializeFailed,
    ] {
        assert_eq!(configuring.step(event), (configuring, LaunchAction::Ignore));
    }
    let (ready, _) = configuring.step(LaunchEvent::Configured);
    for event in [
        LaunchEvent::Opened(WindowId(2)),
        LaunchEvent::OpenFailed,
        LaunchEvent::Configured,
        LaunchEvent::ConfigureFailed,
        LaunchEvent::Initialized,
        LaunchEvent::InitializeFailed,
        LaunchEvent::Cancelled,
    ] {
        assert_eq!(ready.step(event), (ready, LaunchAction::Ignore));
    }
}

#[test]
fn window_title_text() {
    assert_eq!(window_title(), "GPUI App");
}

#[test]
fn cancelled_launch_does_nothing_more() {
    let w = WindowId(3);
    let opening = Launch::start(true);
    let (configuring, _) = opening.step(LaunchEvent::Opened(w));
    let (initializing, _) = configuring.step(LaunchEvent::Configured);
    for launch in [opening, configuring, initializing] {
        let (cancelled, action) = launch.step(LaunchEvent::Cancelled);
        assert_eq!(cancelled.phase, Phase::Cancelled);
        assert_eq!(cancelled.with_initializer, launch.with_initializer);
        assert_eq!(action, LaunchAction::Finish);
        assert!(cancelled.is_done());
        assert_eq!(cancelled.step(LaunchEvent::Opened(w)), (cancelled, LaunchAction::Ignore));
        assert_eq!(cancelled.step(LaunchEvent::Configured), (cancelled, LaunchAction::Ignore));
    }
    let (ready, _) = Launch::start(false).step(LaunchEvent::Opened(w));
    let (ready, _) = ready.step(LaunchEvent::Configured);
    assert_eq!(ready.step(LaunchEvent::Cancelled), (ready, LaunchAction::Ignore));
    let (failed, _) = Launch::start(false).step(LaunchEvent::OpenFailed);
    assert_eq!(failed.step(LaunchEvent::Cancelled), (failed, LaunchAction::Ignore));
}
