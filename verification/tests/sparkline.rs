use navipod::sparkline::{downsample, render_sparkline, render_sparkline_with_trend, resource_line, value_to_char};

#[test]
fn test_value_to_char() {
    assert_eq!(value_to_char(0), '▁');
    assert_eq!(value_to_char(50), '▄');
    assert_eq!(value_to_char(100), '█');
}

#[test]
fn test_render_sparkline_empty() {
    assert_eq!(render_sparkline(&[], None), "");
}

#[test]
fn test_render_sparkline_simple() {
    let values = vec![0, 25, 50, 75, 100];
    let result = render_sparkline(&values, None);
    assert_eq!(result.chars().count(), 5);
    assert!(result.starts_with('▁'));
    assert!(result.ends_with('█'));
}

#[test]
fn test_render_sparkline_with_max_width() {
    let values = vec![0, 10, 20, 30, 40, 50, 60, 70, 80, 90, 100];
    let result = render_sparkline(&values, Some(5));
    assert_eq!(result.chars().count(), 5);
}

#[test]
fn test_downsample() {
    let values = vec![10, 20, 30, 40, 50, 60];
    let result = downsample(&values, 3);
    assert_eq!(result.len(), 3);
    assert_eq!(result[0], 15);
    assert_eq!(result[1], 35);
    assert_eq!(result[2], 55);
}

#[test]
fn test_render_sparkline_with_trend() {
    let values = vec![10, 20, 30, 40, 50];
    let result = render_sparkline_with_trend(&values, "↗️", Some(10));
    assert!(result.contains('▁'));
    assert!(result.contains("↗️"));
}

#[test]
fn sparkline_levels_rise_with_values() {
    let chars: Vec<char> = [0u8, 20, 40, 60, 80, 100].iter().map(|v| value_to_char(*v)).collect();
    for w in chars.windows(2) {
        assert!(w[0] <= w[1]);
    }
    assert_eq!(render_sparkline(&[100, 0], None), "█▁");
}

#[test]
fn downsampling_keeps_short_series() {
    assert_eq!(downsample(&[1, 2, 3], 5), vec![1, 2, 3]);
    assert_eq!(downsample(&[10, 20, 30], 1), vec![20]);
}

#[test]
fn resource_lines() {
    assert_eq!(
        resource_line("250m", "1000m", "25", &[10, 20, 30, 40, 50], "↗️"),
        "250m/1000m [25%] ▁▂▃▃▄ ↗️"
    );
    assert_eq!(resource_line("1Gi", "2Gi", "50", &[], "→"), "1Gi/2Gi [50%]");
}
