//! What starting up decides.
use crate::actions::Action;
use crate::app::{open_new_window, window_added, App, AppModel, Routed};
use crate::config::{with_setting, Config};
use crate::files::FileId;
use crate::state::{with_config, Shared, SharedModel};
use crate::time::Instant;
use crate::window::{fresh_window, Coords, Window, WindowModel, Wt};
use crate::window_events::close_persisted;
use vstd::prelude::*;

verus! {

/// What a path turned out to be on disk.
#[derive(Clone, Copy, PartialEq, Eq, Structural, Debug)]
pub enum PathKind {
    File,
    Directory,
    Missing,
}

/// A path given on the command line, and what it is.
#[derive(Clone, Copy, PartialEq, Eq, Structural, Debug)]
pub struct ProbedPath {
    pub path: FileId,
    pub kind: PathKind,
}

/// A probed path, if it exists.
pub open spec fn path_to_open(path: Option<ProbedPath>) -> Option<FileId> {
    match path {
        Some(probed) => if probed.kind is Missing {
            None
        } else {
            Some(probed.path)
        },
        None => None,
    }
}

/// The path to open at startup, if one was given and it is an existing file or
/// directory.
pub fn initial_open_path(path: Option<ProbedPath>) -> (open: Option<FileId>)
    ensures
        open == path_to_open(path),
{
    match path {
        Some(probed) => match probed.kind {
            PathKind::File | PathKind::Directory => Some(probed.path),
            PathKind::Missing => None,
        },
        None => None,
    }
}

/// An empty window at the saved geometry, at the origin while no position is
/// saved.
pub open spec fn seeded_window(id: u64, config: Config) -> WindowModel {
    let pos = match (config.window_x, config.window_y) {
        (Some(x), Some(y)) => Coords { first: x, second: y },
        _ => Coords { first: 0, second: 0 },
    };
    fresh_window(
        id,
        Coords { first: config.window_width, second: config.window_height },
        pos,
        config.window_maximized,
        config.window_fullscreen,
    )
}

/// A fresh empty window, seeded from the saved geometry.
pub fn new_window(id: u64, config: &Config) -> (win: Window)
    ensures
        win@ == seeded_window(id, *config),
{
    let size = Coords { first: config.window_width, second: config.window_height };
    let pos = match (config.window_x, config.window_y) {
        (Some(x), Some(y)) => Coords { first: x, second: y },
        _ => Coords { first: 0, second: 0 },
    };
    Window::new(id, size, pos, config.window_maximized, config.window_fullscreen)
}

/// Startup: housekeeping for the disk thumbnails, if there is a store for them,
/// a sweep of leftover extractions, and the first window, which is not raised.
pub open spec fn booted(
    s: SharedModel,
    window: u64,
    path: Option<ProbedPath>,
    now: Instant,
) -> (AppModel, Seq<Routed>) {
    let sweep = Routed { window: None, action: Action::CleanExtractions };
    let chores = if s.status.value.disk_store {
        seq![Routed { window: None, action: Action::HousekeepDiskThumbs }, sweep]
    } else {
        seq![sweep]
    };
    let empty = AppModel { s, windows: Seq::empty() };
    let (app, acts) = window_added(empty, window, path_to_open(path), false, now);
    (app, chores + acts)
}

/// Start with one window, numbered `window`, opening the path given on the
/// command line.
pub fn boot(shared: Shared, window: u64, path: Option<ProbedPath>, now: Instant) -> (r: (
    App,
    Vec<Routed>,
))
    ensures
        r.0@.wf(),
        (r.0@, r.1@) == booted(shared@, window, path, now),
{
    let ghost s = shared@;
    let mut out: Vec<Routed> = Vec::new();
    if shared.status.value.disk_store {
        out.push(Routed { window: None, action: Action::HousekeepDiskThumbs });
    }
    out.push(Routed { window: None, action: Action::CleanExtractions });
    let ghost chores = out@;
    let mut app = App { shared, windows: Vec::new() };
    assert(app@.windows =~= Seq::<WindowModel>::empty());
    open_new_window(&mut app, window, initial_open_path(path), false, now, &mut out);
    let ghost sweep = Routed { window: None, action: Action::CleanExtractions };
    assert(chores =~= if s.status.value.disk_store {
        seq![Routed { window: None, action: Action::HousekeepDiskThumbs }, sweep]
    } else {
        seq![sweep]
    });
    (app, out)
}

/// The bounds a closing window persists are the ones the next window opens at.
pub proof fn law_next_window_takes_the_closed_ones_bounds(t: Wt, id: u64)
    ensures
        ({
            let saved = close_persisted(t).s.config.value;
            let closed = t.w.state.value;
            let next = seeded_window(id, saved).state.value;
            &&& next.window_size == closed.restored_size
            &&& next.window_pos == closed.restored_pos
            &&& next.restored_size == closed.restored_size
            &&& next.restored_pos == closed.restored_pos
            &&& next.maximized == closed.maximized
            &&& next.fullscreen == closed.fullscreen
        }),
{
    reveal(close_persisted);
    reveal(with_config);
    reveal(with_setting);
}

} // verus!
