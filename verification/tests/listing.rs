//! Listings, paths, names, pixels, and the shared image store.
use scryglass::file_ops::validate_rename;
use scryglass::nav::{Nav, NavError};
use scryglass::paths::{
    file_name, is_archive, is_supported_name, parent, sibling, trim, PathStyle, PathTable, Source,
};
use scryglass::rotate::rotate_pixels;
use scryglass::store::{Job, RamImage, Store, Texture, Tier};
use scryglass::text::{decimal, too_large};

fn reject_bad_names() {
    assert!(validate_rename("").is_err());
    assert!(validate_rename("   ").is_err());
    assert!(validate_rename("a/b.png").is_err());
    assert!(validate_rename("a?.png").is_err());
    assert!(validate_rename("noextension").is_err());
    assert!(validate_rename("file.txt").is_err());
}

fn accept_good_names() {
    assert_eq!(validate_rename(" photo.png ").unwrap(), "photo.png");
    assert_eq!(validate_rename("IMG_1234.JPG").unwrap(), "IMG_1234.JPG");
}

#[test]
fn update_validate_rename_rejects_bad_input() {
    reject_bad_names();
}

#[test]
fn update_validate_rename_accepts_supported_names() {
    accept_good_names();
}

#[test]
fn file_ops_validate_rename_rejects_bad_input() {
    reject_bad_names();
}

#[test]
fn file_ops_validate_rename_accepts_supported_names() {
    accept_good_names();
}

#[test]
fn every_forbidden_character_is_refused() {
    for c in ['/', '\\', ':', '*', '?', '"', '<', '>', '|'] {
        assert!(validate_rename(&format!("a{c}b.png")).is_err());
    }
}

#[test]
fn a_listing_starts_on_the_named_file() {
    let nav = Nav::new(vec![4, 5, 6], 5);
    match nav {
        Ok(nav) => {
            assert_eq!(nav.cursor(), 1);
            assert_eq!(nav.current(), 5);
            assert_eq!(nav.len(), 3);
        }
        Err(_) => unreachable!(),
    }
    assert!(matches!(Nav::new(vec![], 5), Err(NavError::Empty)));
    assert!(matches!(Nav::new(vec![4, 6], 5), Err(NavError::NotListed)));
}

fn nav_of(files: Vec<u64>, start: u64) -> Nav {
    match Nav::new(files, start) {
        Ok(nav) => nav,
        Err(_) => unreachable!(),
    }
}

#[test]
fn steps_wrap_and_cancel() {
    let mut nav = nav_of(vec![1, 2, 3], 3);
    assert_eq!(nav.next_index(), 0);
    assert_eq!(nav.prev_index(), 1);
    let forward = nav.next_index();
    nav.set_cursor(forward);
    assert_eq!(nav.prev_index(), 2);
}

#[test]
fn the_neighborhood_alternates_outward() {
    let nav = nav_of(vec![10, 11, 12, 13, 14], 10);
    assert_eq!(nav.peek_around(1), vec![11, 14]);
    let around = nav.peek_around(2);
    assert_eq!(around.len(), 4);
    for file in around {
        assert!(nav.distance(file).unwrap() <= 2);
    }
    assert_eq!(nav.distance(10), Some(0));
    assert_eq!(nav.distance(14), Some(1));
    assert_eq!(nav.distance(99), None);
}

#[test]
fn removing_files_keeps_the_cursor_listed() {
    let mut nav = nav_of(vec![1, 2, 3], 3);
    assert!(nav.remove(3));
    assert_eq!(nav.current(), 2);
    assert!(nav.remove(1));
    assert_eq!(nav.current(), 2);
    assert!(!nav.remove(2));
}

#[test]
fn a_renamed_file_keeps_its_place() {
    let mut nav = nav_of(vec![1, 2, 3], 2);
    nav.rename(2, 9);
    assert_eq!(nav.current(), 9);
    assert_eq!(nav.cursor(), 1);
}

#[test]
fn paths_are_interned_once_per_source() {
    let mut table = PathTable::new(PathStyle::Unix);
    let a = table.intern(Source::Fs, "a.png").unwrap();
    let again = table.intern(Source::Fs, "a.png").unwrap();
    let inside = table.intern(Source::Archive(a), "a.png").unwrap();
    let clip = table.intern(Source::Fs, "clip.mp4").unwrap();
    assert_eq!(a, again);
    assert_ne!(a, inside);
    assert_eq!(table.path(clip), "clip.mp4");
    assert!(table.is_video(clip));
    assert!(!table.is_video(a));
}

#[test]
fn paths_split_into_directory_and_name() {
    let unix = PathStyle::Unix;
    assert_eq!(file_name("/photos/a.png", unix), "a.png");
    assert_eq!(parent("/photos/a.png", unix), "/photos");
    assert_eq!(parent("/a.png", unix), "/");
    assert_eq!(parent("a.png", unix), "");
    assert_eq!(sibling("/photos/a.png", "b.png", unix), "/photos/b.png");
    // A backslash is a letter like any other here.
    assert_eq!(file_name("dir/a\\b.png", unix), "a\\b.png");
    assert_eq!(sibling("dir/a\\b.png", "c.png", unix), "dir/c.png");
    let windows = PathStyle::Windows;
    assert_eq!(file_name("C:\\photos\\a.png", windows), "a.png");
    assert_eq!(parent("C:\\photos\\a.png", windows), "C:\\photos");
    assert_eq!(parent("C:\\a.png", windows), "C:\\");
    assert_eq!(sibling("C:\\a.png", "b.png", windows), "C:\\b.png");
    assert_eq!(trim("  x y  "), "x y");
}

#[test]
fn extensions_decide_what_a_name_is() {
    assert!(is_supported_name("a.PNG"));
    assert!(is_supported_name("b.jpeg"));
    assert!(!is_supported_name("c.txt"));
    assert!(!is_supported_name("png"));
    assert!(is_archive("photos.zip", PathStyle::Unix));
    assert!(is_archive("comic.CBZ", PathStyle::Unix));
    assert!(!is_archive("photos.png", PathStyle::Unix));
}

#[test]
fn numbers_and_sizes_read_in_decimal() {
    assert_eq!(decimal(0), "0");
    assert_eq!(decimal(1234567890), "1234567890");
    assert_eq!(decimal(u64::MAX), format!("{}", u64::MAX));
    assert!(too_large(70000, 3).contains("70000"));
}

fn ramp(width: u32, height: u32) -> Vec<u8> {
    (0..width * height * 4).map(|i| (i % 251) as u8).collect()
}

#[test]
fn turned_pixels_match_the_image_crate() {
    let (w, h) = (5u32, 3u32);
    let pixels = ramp(w, h);
    let original = image::RgbaImage::from_raw(w, h, pixels.clone()).unwrap();
    let turned = |turns: u8| rotate_pixels(w, h, &pixels, turns).unwrap();
    let quarter = image::imageops::rotate90(&original);
    let half = image::imageops::rotate180(&original);
    let three = image::imageops::rotate270(&original);
    assert_eq!(turned(1), (h, w, quarter.into_raw()));
    assert_eq!(turned(2), (w, h, half.into_raw()));
    assert_eq!(turned(3), (h, w, three.into_raw()));
    assert_eq!(turned(0), (w, h, pixels.clone()));
}

#[test]
fn quarter_turns_add_up_to_a_full_one() {
    let (w, h) = (4u32, 2u32);
    let pixels = ramp(w, h);
    let (w1, h1, p1) = rotate_pixels(w, h, &pixels, 1).unwrap();
    let (w2, h2, p2) = rotate_pixels(w1, h1, &p1, 1).unwrap();
    assert_eq!((w2, h2, p2.clone()), rotate_pixels(w, h, &pixels, 2).unwrap());
    let (w3, h3, p3) = rotate_pixels(w2, h2, &p2, 1).unwrap();
    assert_eq!(rotate_pixels(w3, h3, &p3, 1).unwrap(), (w, h, pixels));
}

#[test]
fn a_buffer_of_the_wrong_length_is_not_turned() {
    assert!(rotate_pixels(2, 2, &vec![0u8; 15], 1).is_none());
}

fn ram() -> RamImage {
    RamImage { width: 2, height: 2, decode_time: None }
}

fn texture(id: u64) -> Texture {
    Texture { id, width: 2, height: 2, tiled: false }
}

#[test]
fn an_image_is_decoded_then_uploaded_once() {
    let mut store = Store::new();
    assert_eq!(store.request(1, 7, Tier::Full), Some(Job::Decode { file: 7 }));
    // A second window asking for the same image starts nothing.
    assert_eq!(store.request(2, 7, Tier::Full), None);
    assert_eq!(store.on_decoded(7, ram()), Some(Job::Upload { file: 7, tier: Tier::Full }));
    assert_eq!(store.on_minted(7, Tier::Full, texture(1)), None);
    assert_eq!(store.tier(7), Tier::Full);
    assert_eq!(store.texture(7), Some(texture(1)));
}

#[test]
fn an_image_another_window_claims_never_blanks() {
    let mut store = Store::new();
    let _ = store.request(1, 7, Tier::Full);
    let _ = store.request(2, 7, Tier::View);
    let _ = store.on_decoded(7, ram());
    let _ = store.on_minted(7, Tier::Full, texture(1));
    let _ = store.request(1, 7, Tier::Evicted);
    assert!(store.texture(7).is_some());
    assert!(store.ram(7).is_some());
    store.release(2, 7);
    let _ = store.pump();
    assert!(store.texture(7).is_none());
    assert!(store.ram(7).is_none());
    assert_eq!(store.tier(7), Tier::Evicted);
}

#[test]
fn a_failed_upload_may_be_asked_for_again() {
    let mut store = Store::new();
    let _ = store.request(1, 7, Tier::Full);
    let _ = store.on_decoded(7, ram());
    store.on_mint_failed(7);
    assert!(!store.entry(7).pending);
    assert_eq!(store.request(1, 7, Tier::Full), Some(Job::Upload { file: 7, tier: Tier::Full }));
}
