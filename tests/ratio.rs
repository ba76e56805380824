use ratio_gang_cli::ratio::{
    create_ratio_gauge, gauge_filled_cells, order_pair, percentage, scaled_round, BAR_LENGTH,
};

fn strip_color(s: &str) -> String {
    s.replace("\u{1b}[32m", "").replace("\u{1b}[0m", "")
}

#[test]
fn plain_line_for_equity_and_gold() {
    let r = order_pair(String::from("AAPL"), 3_387_000_000_000, String::from("gold"), 19_190_000_000_000);
    assert_eq!(r.numerator_asset, "AAPL");
    assert_eq!(r.percentage(), 17);
    assert_eq!(r.plain_line(), "AAPL gold 17");
}

#[test]
fn swapping_assets_keeps_the_outputs() {
    let r1 = order_pair(String::from("AAPL"), 3_387_000_000_000, String::from("gold"), 19_190_000_000_000);
    let r2 = order_pair(String::from("gold"), 19_190_000_000_000, String::from("AAPL"), 3_387_000_000_000);
    assert_eq!(r1.plain_line(), r2.plain_line());
    assert_eq!(strip_color(&r1.gauge()), strip_color(&r2.gauge()));
}

#[test]
fn tie_puts_second_asset_first() {
    let r = order_pair(String::from("a"), 10, String::from("b"), 10);
    assert_eq!(r.plain_line(), "b a 100");
    let s = order_pair(String::from("b"), 10, String::from("a"), 10);
    assert_eq!(s.plain_line(), "a b 100");
}

#[test]
fn truncated_and_rounded_percentages_differ() {
    assert_eq!(percentage(1765, 10000), 17);
    assert_eq!(scaled_round(1765, 10000, 100), 18);
    assert_eq!(scaled_round(1, 2, 1), 1);
    assert_eq!(scaled_round(0, 7, 100), 0);
    assert_eq!(percentage(7, 7), 100);
}

#[test]
fn gauge_cells_stay_within_bar() {
    assert_eq!(gauge_filled_cells(0, 5, BAR_LENGTH), 0);
    assert_eq!(gauge_filled_cells(5, 5, BAR_LENGTH), 40);
    assert_eq!(gauge_filled_cells(1, 80, BAR_LENGTH), 1);
    assert_eq!(gauge_filled_cells(1, 81, BAR_LENGTH), 0);
    assert_eq!(gauge_filled_cells(u64::MAX - 1, u64::MAX, BAR_LENGTH), 40);
}

#[test]
fn gauge_line_layout() {
    let g = strip_color(&create_ratio_gauge(1, 4, 8));
    assert_eq!(g, "[\u{2588}\u{2588}      ] 25%");
    let full = strip_color(&create_ratio_gauge(3, 3, 4));
    assert_eq!(full, "[\u{2588}\u{2588}\u{2588}\u{2588}] 100%");
}

#[test]
fn gauge_block_is_green_or_plain() {
    let g = create_ratio_gauge(1, 2, 2);
    assert!(g == "[\u{2588} ] 50%" || g == "[\u{1b}[32m\u{2588}\u{1b}[0m ] 50%");
}
