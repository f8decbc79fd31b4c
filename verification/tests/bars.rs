use status_line::bars::{bar_graph_flat, bar_graph_from_levels, percent_bar_quarters};

#[test]
fn test_percent_bar_empty_and_full() {
    assert_eq!(percent_bar_quarters(0), "\u{2581}".repeat(10));
    assert_eq!(percent_bar_quarters(400), "\u{2588}".repeat(10));
}

#[test]
fn test_percent_bar_half() {
    // 50 percent: five full buckets, five faint ones
    let mut expected = "\u{2588}".repeat(5);
    expected.push_str(&"\u{2581}".repeat(5));
    assert_eq!(percent_bar_quarters(200), expected);
}

#[test]
fn test_percent_bar_quarter_steps() {
    // 1.25 percent lifts only the first bucket by one eighth
    let mut expected = String::from("\u{2582}");
    expected.push_str(&"\u{2581}".repeat(9));
    assert_eq!(percent_bar_quarters(5), expected);
}

#[test]
fn test_percent_bar_monotone_over_all_inputs() {
    let mut prev: Vec<char> = percent_bar_quarters(0).chars().collect();
    for q in 1..=400u16 {
        let cur: Vec<char> = percent_bar_quarters(q).chars().collect();
        assert_eq!(cur.len(), 10);
        for j in 0..10 {
            assert!(cur[j] as u32 >= prev[j] as u32, "bar shrank at q={} j={}", q, j);
        }
        prev = cur;
    }
}

#[test]
fn test_bar_graph_from_levels() {
    assert_eq!(bar_graph_from_levels(&vec![0, 7, 3]), "\u{2581}\u{2588}\u{2584}");
    // levels past the top clamp to the full block
    assert_eq!(bar_graph_from_levels(&vec![9]), "\u{2588}");
    assert_eq!(bar_graph_from_levels(&vec![]), "");
}

#[test]
fn test_bar_graph_flat_is_one_short() {
    // the degenerate branch renders one glyph fewer than the sample count
    assert_eq!(bar_graph_flat(5), "\u{2581}".repeat(4));
    assert_eq!(bar_graph_flat(1), "");
    assert_eq!(bar_graph_flat(0), "");
}
