//! One viewer: thumbnail picking, what counts as displayable, and shedding.
use scryglass::config::Config;
use scryglass::nav::Nav;
use scryglass::paths::{PathStyle, Source};
use scryglass::state::{DisplayedImage, Shared, Span, Thumb, Viewer};
use scryglass::store::{AnimFrames, RamImage, Texture, Tier};
use scryglass::time::Instant;

const WINDOW: u64 = 1;

struct Scene {
    viewer: Viewer,
    shared: Shared,
}

impl Scene {
    /// The id of the file with this name.
    fn file(&mut self, name: &str) -> u64 {
        self.shared.paths.intern(Source::Fs, name).unwrap()
    }

    fn next(&mut self, center: usize, start: usize, end: usize) -> Option<String> {
        let found = self.viewer.next_unthumbed_in(&self.shared, center, Span { start, end });
        found.map(|f| self.shared.paths.path(f))
    }

    fn in_flight_thumb(&mut self, name: &str) {
        let file = self.file(name);
        self.viewer.in_flight_thumbs.insert(file);
    }

    fn cache_image(&mut self, name: &str) {
        let file = self.file(name);
        let _ = self.shared.store.request(WINDOW, file, Tier::Full);
        let _ = self.shared.store.on_decoded(
            file,
            RamImage { width: 2, height: 2, decode_time: None },
        );
        let _ = self.shared.store.on_minted(
            file,
            Tier::Full,
            Texture { id: file, width: 2, height: 2, tiled: false },
        );
        self.viewer.cache.insert(file, Tier::Full);
    }

    fn holds(&mut self, name: &str) -> bool {
        let file = self.file(name);
        self.viewer.cache.holds(file)
    }

    fn displayable(&mut self, name: &str) -> bool {
        let file = self.file(name);
        self.viewer.displayable(&self.shared, file)
    }

    fn show(&mut self, name: &str) {
        let file = self.file(name);
        self.viewer.displayed_path = Some(file);
    }

    fn shed(&mut self) -> bool {
        self.viewer.drop_prefetch_ring(WINDOW, &mut self.shared)
    }
}

fn test_viewer(names: &[&str], cursor: usize) -> Scene {
    let mut shared = Shared::new(Config::default(), false, false, PathStyle::Unix);
    let files: Vec<u64> =
        names.iter().map(|n| shared.paths.intern(Source::Fs, n).unwrap()).collect();
    let start = files[cursor];
    let nav = match Nav::new(files, start) {
        Ok(nav) => nav,
        Err(_) => unreachable!(),
    };
    Scene { viewer: Viewer::new(nav, Source::Fs, Instant { nanos: 0 }), shared }
}

fn test_thumb() -> Thumb {
    Thumb { id: 1, size: (1, 1), original_size: (1, 1) }
}

#[test]
fn next_unthumbed_fans_outward_from_the_cursor() {
    let mut scene = test_viewer(&["a.png", "b.png", "c.png", "d.png", "e.png"], 2);
    for expected in ["c.png", "d.png", "b.png", "e.png", "a.png"] {
        assert_eq!(scene.next(2, 0, 5).as_deref(), Some(expected));
        scene.in_flight_thumb(expected);
    }
    assert_eq!(scene.next(2, 0, 5), None);
}

#[test]
fn next_unthumbed_in_fans_outward_within_a_subrange() {
    let mut scene = test_viewer(&["0", "1", "2", "3", "4", "5", "6", "7", "8", "9"], 0);
    for expected in ["5", "6", "4", "7", "3"] {
        assert_eq!(scene.next(5, 3, 8).as_deref(), Some(expected));
        scene.in_flight_thumb(expected);
    }
    assert_eq!(scene.next(5, 3, 8), None);
}

#[test]
fn next_unthumbed_in_never_leaves_the_range() {
    let mut scene = test_viewer(&["0", "1", "2", "3", "4"], 0);
    for expected in ["2", "3", "1"] {
        assert_eq!(scene.next(2, 1, 4).as_deref(), Some(expected));
        scene.in_flight_thumb(expected);
    }
    assert_eq!(scene.next(2, 1, 4), None);
}

#[test]
fn next_unthumbed_skips_done_and_failed_but_not_in_flight_fulls() {
    let mut scene = test_viewer(&["a.png", "b.png", "c.png", "d.png"], 0);
    scene.in_flight_thumb("a.png");
    let b = scene.file("b.png");
    scene.viewer.failed_thumbs.insert(b);
    let c = scene.file("c.png");
    scene.viewer.in_flight.insert(c);
    assert_eq!(scene.next(0, 0, 4).as_deref(), Some("c.png"));
}

#[test]
fn next_unthumbed_returns_none_when_exhausted() {
    let mut scene = test_viewer(&["a.png"], 0);
    let a = scene.file("a.png");
    scene.viewer.failed_thumbs.insert(a);
    assert_eq!(scene.next(0, 0, 1), None);
}

#[test]
fn a_thumb_carries_its_data_dimensions() {
    let thumb = Thumb { id: 1, size: (2, 1), original_size: (200, 100) };
    assert_eq!(thumb.size, (2, 1));
    assert_eq!(thumb.original_size, (200, 100));
    assert_eq!(thumb.byte_cost(), 8);
}

#[test]
fn a_thumb_evicted_behind_the_frontier_waits_for_a_focus_move() {
    let mut scene = test_viewer(&["a.png", "b.png", "c.png"], 1);
    for name in ["b.png", "c.png", "a.png"] {
        assert_eq!(scene.next(1, 0, 3).as_deref(), Some(name));
        let file = scene.file(name);
        scene.shared.thumbs.insert(file, test_thumb());
    }
    assert_eq!(scene.next(1, 0, 3), None);

    let b = scene.file("b.png");
    scene.shared.thumbs.remove(b);
    assert_eq!(scene.next(1, 0, 3), None);

    assert_eq!(scene.next(0, 0, 3).as_deref(), Some("b.png"));
}

#[test]
fn a_resort_under_the_cursor_resets_the_scan_frontier() {
    let mut scene = test_viewer(&["a.png", "b.png", "c.png"], 0);
    for name in ["a.png", "b.png", "c.png"] {
        let file = scene.file(name);
        scene.viewer.failed_thumbs.insert(file);
    }
    assert_eq!(scene.next(0, 0, 3), None);

    let others = vec![scene.file("x.png"), scene.file("y.png"), scene.file("z.png")];
    scene.viewer.nav.replace_files(others);
    assert_eq!(scene.next(0, 0, 3).as_deref(), Some("x.png"));
}

#[test]
fn cleared_in_flight_slots_are_repicked_at_the_same_focus() {
    let mut scene = test_viewer(&["a.png", "b.png"], 0);
    assert_eq!(scene.next(0, 0, 2).as_deref(), Some("a.png"));
    scene.in_flight_thumb("a.png");
    assert_eq!(scene.next(0, 0, 2).as_deref(), Some("b.png"));
    scene.in_flight_thumb("b.png");
    assert_eq!(scene.next(0, 0, 2), None);

    scene.viewer.in_flight_thumbs.clear();
    assert_eq!(scene.next(0, 0, 2).as_deref(), Some("a.png"));
}

#[test]
fn fresh_viewer_displays_nothing() {
    let scene = test_viewer(&["a.png", "b.png"], 0);
    assert!(matches!(scene.viewer.displayed, DisplayedImage::Nothing));
    assert_eq!(scene.viewer.displayed_path, None);
}

#[test]
fn a_failed_load_is_displayable_so_the_cursor_can_land() {
    let mut scene = test_viewer(&["a.png", "b.png"], 0);
    assert!(!scene.displayable("b.png"));
    let b = scene.file("b.png");
    scene.viewer.failed_loads.insert(b, "could not decode".to_string());
    assert!(scene.displayable("b.png"));
}

#[test]
fn a_resident_cache_entry_is_displayable() {
    let mut scene = test_viewer(&["a.png", "b.png"], 0);
    assert!(!scene.displayable("a.png"));
    scene.cache_image("a.png");
    assert!(scene.displayable("a.png"));
    let a = scene.file("a.png");
    assert!(scene.viewer.has_full(&scene.shared, a));
}

#[test]
fn prefetch_rings_drop_furthest_first_both_sides_at_once() {
    let mut scene = test_viewer(&["a.png", "b.png", "c.png", "d.png", "e.png"], 2);
    for name in ["a.png", "b.png", "c.png", "d.png", "e.png"] {
        scene.cache_image(name);
    }
    scene.show("c.png");

    assert!(scene.shed());
    assert!(!scene.holds("a.png"));
    assert!(!scene.holds("e.png"));
    assert!(scene.holds("b.png"));
    assert!(scene.holds("d.png"));

    assert!(!scene.shed());
    assert!(scene.holds("c.png"));
    assert_eq!(scene.viewer.cache.list.len(), 1);

    assert!(!scene.shed());
    assert!(scene.holds("c.png"));
}

#[test]
fn prefetched_animations_shed_with_the_still_rings() {
    let mut scene = test_viewer(&["a.gif", "b.png", "c.png", "d.png", "e.png"], 2);
    scene.show("c.png");
    scene.cache_image("b.png");

    let gif = scene.file("a.gif");
    scene.shared.anim_store.request(WINDOW, gif, Tier::InRam);
    scene.shared.anim_store.on_decoded(
        gif,
        AnimFrames { width: 2, height: 2, delays: Vec::new(), decode_time: None },
    );
    scene.viewer.anim_player.insert(gif);

    assert!(scene.shed());
    assert!(!scene.viewer.anim_player.has_cached(gif, &scene.shared.anim_store));
    assert!(scene.holds("b.png"));

    assert!(!scene.shed());
    assert!(!scene.holds("b.png"));
}

#[test]
fn paths_outside_the_listing_shed_before_real_neighbors() {
    let mut scene = test_viewer(&["a.png", "b.png", "c.png"], 1);
    scene.cache_image("b.png");
    scene.cache_image("c.png");
    scene.cache_image("stale.png");
    scene.show("b.png");

    assert!(scene.shed());
    assert!(!scene.holds("stale.png"));
    assert!(scene.holds("c.png"));
}

#[test]
fn shedding_reaches_the_shared_store() {
    let mut scene = test_viewer(&["a.png", "b.png", "c.png"], 1);
    scene.cache_image("a.png");
    scene.cache_image("b.png");
    scene.show("b.png");
    let a = scene.file("a.png");
    let b = scene.file("b.png");
    assert!(!scene.shed());
    let _ = scene.shared.store.pump();
    assert_eq!(scene.shared.store.tier(a), Tier::Evicted);
    assert_eq!(scene.shared.store.tier(b), Tier::Full);
}

#[test]
fn pinned_paths_are_the_current_file_and_its_neighborhood() {
    let scene = test_viewer(&["a.png", "b.png", "c.png", "d.png", "e.png"], 2);
    let mut pinned = scene.viewer.pinned_paths(1);
    pinned.sort();
    let mut expected: Vec<u64> = scene.viewer.nav.files[1..4].to_vec();
    expected.sort();
    assert_eq!(pinned, expected);
}
