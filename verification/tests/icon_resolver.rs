//! Icon resolver behaviour: pixmap selection, byte-order conversion,
//! resolution priority, the probe plan, and the lookup cache.

use clammy::icon::argb32_to_rgba;
use clammy::icon::icon_search_paths;
use clammy::icon::lookup_freedesktop_icon;
use clammy::icon::pixmap_to_handle;
use clammy::icon::resolve_icon;
use clammy::icon::select_pixmap;
use clammy::icon::CacheOutcome;
use clammy::icon::IconCache;
use clammy::icon::IconHandle;
use clammy::icon::IconResolution;
use clammy::icon::IconSource;
use clammy::icon::Pixmap;

fn pixmap(width: i32, height: i32, pixels: Vec<u8>) -> Pixmap {
    Pixmap { width, height, pixels }
}

fn blank(width: i32) -> Pixmap {
    pixmap(width, 1, vec![0u8; (width as usize) * 4])
}

#[test]
fn closest_width_wins() {
    let ps = vec![blank(16), blank(20), blank(24), blank(48)];
    assert_eq!(select_pixmap(&ps), Some(1));
    match pixmap_to_handle(&ps) {
        Some(IconHandle::Rgba { width, height, pixels }) => {
            assert_eq!(width, 20);
            assert_eq!(height, 1);
            assert_eq!(pixels.len(), 80);
        }
        other => panic!("expected a converted bitmap, got {:?}", other),
    }
}

#[test]
fn tie_goes_to_first_in_input_order() {
    let ps = vec![blank(20), blank(24)];
    assert_eq!(select_pixmap(&ps), Some(0));
    let ps2 = vec![blank(24), blank(20)];
    assert_eq!(select_pixmap(&ps2), Some(0));
}

#[test]
fn unusable_pixmaps_are_rejected() {
    // Non-positive dimensions and empty pixel data never become candidates.
    let ps = vec![
        pixmap(0, 22, vec![0u8; 16]),
        pixmap(22, -1, vec![0u8; 16]),
        pixmap(22, 22, Vec::new()),
    ];
    assert_eq!(select_pixmap(&ps), None);
    assert!(pixmap_to_handle(&ps).is_none());
}

#[test]
fn empty_candidate_is_skipped_for_next_closest() {
    // The closest-by-width entry has no pixel data, so the next usable
    // bitmap is chosen instead of failing.
    let ps = vec![pixmap(22, 22, Vec::new()), blank(32)];
    assert_eq!(select_pixmap(&ps), Some(1));
}

#[test]
fn argb_to_rgba_swizzles_one_pixel() {
    let argb = [0xFFu8, 0x10, 0x20, 0x30];
    let rgba = argb32_to_rgba(&argb, 1, 1);
    assert_eq!(rgba, vec![0x10u8, 0x20, 0x30, 0xFF]);
}

#[test]
fn truncated_buffer_yields_transparent_pixels() {
    // Declared 2x2 but only one pixel supplied: 16 zero bytes, no panic.
    let argb = [1u8, 2, 3, 4];
    let rgba = argb32_to_rgba(&argb, 2, 2);
    assert_eq!(rgba, vec![0u8; 16]);
}

#[test]
fn pixmap_is_preferred_over_named_icon() {
    let item = IconSource {
        icon_pixmap: Some(vec![blank(22)]),
        icon_name: Some("app".to_string()),
        icon_theme_path: Some("/theme".to_string()),
    };
    match resolve_icon(&item) {
        IconResolution::Image(IconHandle::Rgba { width, .. }) => assert_eq!(width, 22),
        other => panic!("expected the bitmap to win, got {:?}", other),
    }
}

#[test]
fn named_icon_with_theme_dir_asks_for_lookup() {
    let item = IconSource {
        icon_pixmap: None,
        icon_name: Some("app".to_string()),
        icon_theme_path: Some("/theme".to_string()),
    };
    match resolve_icon(&item) {
        IconResolution::LookupNamed { theme_path, name } => {
            assert_eq!(theme_path, "/theme");
            assert_eq!(name, "app");
        }
        other => panic!("expected a named lookup, got {:?}", other),
    }
}

#[test]
fn name_without_theme_dir_resolves_to_nothing() {
    // The system theme registry fallback is disabled, so a bare name
    // degrades to no icon.
    let item = IconSource {
        icon_pixmap: None,
        icon_name: Some("app".to_string()),
        icon_theme_path: None,
    };
    assert!(matches!(resolve_icon(&item), IconResolution::NoIcon));
    let empty_name = IconSource {
        icon_pixmap: None,
        icon_name: Some(String::new()),
        icon_theme_path: Some("/theme".to_string()),
    };
    assert!(matches!(resolve_icon(&empty_name), IconResolution::NoIcon));
    assert_eq!(lookup_freedesktop_icon("app"), None);
}

#[test]
fn probe_plan_order() {
    let paths = icon_search_paths("/theme", "app");
    assert_eq!(paths.len(), 39);
    assert_eq!(paths[0], "/theme/22x22/app.png");
    assert_eq!(paths[1], "/theme/22x22/app.svg");
    assert_eq!(paths[2], "/theme/22x22/app.xpm");
    assert_eq!(paths[3], "/theme/24x24/app.png");
    assert_eq!(paths[17], "/theme/16x16/app.xpm");
    assert_eq!(paths[18], "/theme/app.png");
    assert_eq!(paths[20], "/theme/app.xpm");
    assert_eq!(paths[21], "/theme/hicolor/22x22/apps/app.png");
    assert_eq!(paths[38], "/theme/hicolor/16x16/apps/app.xpm");
}

#[test]
fn cache_miss_plans_then_hit_repeats() {
    let mut cache = IconCache::new();
    let theme = "/theme".to_string();
    let name = "app".to_string();
    match cache.lookup_or_plan(&theme, &name) {
        CacheOutcome::Probe(paths) => assert_eq!(paths.len(), 39),
        CacheOutcome::Hit(_) => panic!("fresh cache cannot hit"),
    }
    cache.record(&theme, &name, Some("/theme/22x22/app.png".to_string()));
    match cache.lookup_or_plan(&theme, &name) {
        CacheOutcome::Hit(Some(p)) => assert_eq!(p, "/theme/22x22/app.png"),
        other => panic!("expected a hit, got {:?}", other),
    }
}

#[test]
fn cache_is_not_invalidated_by_filesystem_changes() {
    // Two lookups with the same key where the underlying file is deleted
    // between calls: the second answer comes from the cache alone, so it
    // repeats the first (possibly stale) one.
    let mut cache = IconCache::new();
    let theme = "/theme".to_string();
    let name = "app".to_string();
    cache.record(&theme, &name, Some("/theme/app.png".to_string()));
    let first = match cache.lookup_or_plan(&theme, &name) {
        CacheOutcome::Hit(v) => v,
        CacheOutcome::Probe(_) => panic!("recorded key must hit"),
    };
    // The file vanishes from disk here; the cache cannot see that.
    let second = match cache.lookup_or_plan(&theme, &name) {
        CacheOutcome::Hit(v) => v,
        CacheOutcome::Probe(_) => panic!("recorded key must still hit"),
    };
    assert_eq!(first, second);
    // Recording a different key leaves the first untouched.
    cache.record(&theme, &"other".to_string(), None);
    match cache.lookup_or_plan(&theme, &name) {
        CacheOutcome::Hit(Some(p)) => assert_eq!(p, "/theme/app.png"),
        other => panic!("expected the stale hit, got {:?}", other),
    }
    // A remembered miss is an answer too: no new probe happens.
    match cache.lookup_or_plan(&theme, &"other".to_string()) {
        CacheOutcome::Hit(None) => {}
        other => panic!("expected a remembered miss, got {:?}", other),
    }
}
