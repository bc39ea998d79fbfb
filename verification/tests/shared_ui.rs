use navipod::shared_ui::{Area, SharedComponents};
use navipod::ui_cache::UiCache;

fn centered() {
    let area = Area { x: 0, y: 0, width: 100, height: 50 };
    let centered = SharedComponents::centered_rect(50, 40, area);

    assert_eq!(centered.width, 50);
    assert_eq!(centered.height, 20);
    assert_eq!(centered.x, 25);
    assert_eq!(centered.y, 15);
}

fn health_bars() {
    let bar = SharedComponents::render_health_bar(100, 100, 20);
    assert!(bar.contains("100%"));
    assert!(bar.contains("🟩"));

    let bar = SharedComponents::render_health_bar(50, 100, 20);
    assert!(bar.contains("50%"));
    assert!(bar.contains("🟧"));

    let bar = SharedComponents::render_health_bar(0, 100, 20);
    assert!(bar.contains("0%"));
    assert!(bar.contains("🟥"));
}

fn filter_cache() {
    let mut cache = UiCache::default();
    let items = vec!["apple", "banana", "cherry", "date"];

    cache.update_filter_cache("a", &items, |item: &&str, filter: &str| item.contains(filter));
    let indices = cache.get_filtered_indices();
    assert_eq!(indices.len(), 3);
    assert_eq!(cache.last_filter, "a");

    cache.update_filter_cache("ch", &items, |item: &&str, filter: &str| item.contains(filter));
    let indices = cache.get_filtered_indices();
    assert_eq!(indices.len(), 1);
    assert_eq!(cache.last_filter, "ch");

    let old_indices = indices.to_vec();
    cache.update_filter_cache("ch", &items, |item: &&str, filter: &str| item.contains(filter));
    let new_indices = cache.get_filtered_indices();
    assert_eq!(old_indices, new_indices);
}

fn stats_cache() {
    let mut cache = UiCache::default();

    cache.update_stats_cache("Initial stats".to_string(), 1);
    assert_eq!(cache.get_cached_stats(), Some(&"Initial stats".to_string()));
    assert_eq!(cache.stats_generation, 1);

    cache.update_stats_cache("Updated stats".to_string(), 2);
    assert_eq!(cache.get_cached_stats(), Some(&"Updated stats".to_string()));
    assert_eq!(cache.stats_generation, 2);

    cache.update_stats_cache("Should not update".to_string(), 2);
    assert_eq!(cache.get_cached_stats(), Some(&"Updated stats".to_string()));
}

fn empty_filter() {
    let mut cache = UiCache::default();
    let items = vec!["apple", "banana", "cherry"];

    cache.update_filter_cache("", &items, |item: &&str, filter: &str| item.contains(filter));
    let indices = cache.get_filtered_indices();
    assert_eq!(indices.len(), 3);
    assert_eq!(indices, &[0, 1, 2]);
}

#[test]
fn shared_ui_test_centered_rect() {
    centered();
}

#[test]
fn shared_ui_test_health_bar_rendering() {
    health_bars();
}

#[test]
fn shared_ui_test_ui_cache_filter_functionality() {
    filter_cache();
}

#[test]
fn shared_ui_test_ui_cache_stats_functionality() {
    stats_cache();
}

#[test]
fn shared_ui_test_empty_filter_includes_all_items() {
    empty_filter();
}

#[test]
fn shared_ui_tests_test_centered_rect() {
    centered();
}

#[test]
fn shared_ui_tests_test_health_bar_rendering() {
    health_bars();
}

#[test]
fn shared_ui_tests_test_ui_cache_filter_functionality() {
    filter_cache();
}

#[test]
fn shared_ui_tests_test_ui_cache_stats_functionality() {
    stats_cache();
}

#[test]
fn shared_ui_tests_test_empty_filter_includes_all_items() {
    empty_filter();
}

#[test]
fn health_bar_exact_text() {
    assert_eq!(SharedComponents::render_health_bar(50, 100, 20), "🟧🟧🟧🟧🟧⬜⬜⬜⬜⬜  50%");
    assert_eq!(SharedComponents::render_health_bar(0, 100, 14), "🟥⬜⬜⬜⬜   0%");
    assert_eq!(SharedComponents::render_health_bar(85, 100, 5), "🟩⬜  85%");
    assert_eq!(SharedComponents::render_health_bar(7, 0, 12), "🟥⬜⬜   0%");
    assert_eq!(SharedComponents::render_health_bar(-5, 10, 8), "🟥 -50%");
}

#[test]
fn whole_area_popup_is_the_area() {
    let area = Area { x: 3, y: 4, width: 40, height: 10 };
    assert_eq!(SharedComponents::centered_rect(100, 100, area), area);
}

fn near(n: i64, total: i64, pct: i64, slack: i64) -> bool {
    (n * 100 - total * pct).abs() <= slack
}

#[test]
fn popups_are_centred_to_within_a_cell() {
    for (x, y) in [(0u16, 0u16), (7, 3), (100, 40)] {
        for w in (0u16..240).step_by(19) {
            for h in (0u16..90).step_by(13) {
                for p in (0u16..=100).step_by(11) {
                    let q = 100 - p / 2;
                    let r = Area { x, y, width: w, height: h };
                    let a = SharedComponents::centered_rect(p, q, r);
                    let (w, h) = (i64::from(w), i64::from(h));
                    assert!(a.x >= r.x && a.x + a.width <= r.x + r.width, "{r:?} {p} {a:?}");
                    assert!(a.y >= r.y && a.y + a.height <= r.y + r.height, "{r:?} {q} {a:?}");
                    assert!(near(i64::from(a.width), w, i64::from(p), 100), "{r:?} {p} {a:?}");
                    assert!(near(i64::from(a.height), h, i64::from(q), 100), "{r:?} {q} {a:?}");
                    assert!(near(i64::from(a.x - r.x), w, i64::from((100 - p) / 2), 50), "{r:?} {p} {a:?}");
                    assert!(near(i64::from(a.y - r.y), h, i64::from((100 - q) / 2), 50), "{r:?} {q} {a:?}");
                }
            }
        }
    }
}
