use downloader::fmt::fmt_bytes;
use downloader::watcher::{columns, Progress};

fn text(v: Vec<u8>) -> String {
    String::from_utf8(v).unwrap()
}

#[test]
fn bytes_below_a_thousand() {
    assert_eq!(text(fmt_bytes(0)), "0 bytes");
    assert_eq!(text(fmt_bytes(7)), "7 bytes");
    assert_eq!(text(fmt_bytes(999)), "999 bytes");
}

#[test]
fn whole_units_have_no_decimals() {
    assert_eq!(text(fmt_bytes(1000)), "1 kB");
    assert_eq!(text(fmt_bytes(1_000_000_000)), "1 GB");
    assert_eq!(text(fmt_bytes(5_000_000_000_000)), "5 TB");
}

#[test]
fn fractions_have_two_decimals() {
    assert_eq!(text(fmt_bytes(1_500_000)), "1.50 MB");
    assert_eq!(text(fmt_bytes(1234)), "1.23 kB");
    assert_eq!(text(fmt_bytes(1235)), "1.24 kB");
    assert_eq!(text(fmt_bytes(2_345_000_000_000_000)), "2.35 PB");
}

#[test]
fn rounding_up_to_the_next_thousand_keeps_the_unit() {
    assert_eq!(text(fmt_bytes(999_999)), "1000 kB");
}

#[test]
fn largest_amount() {
    assert_eq!(text(fmt_bytes(u64::MAX)), "18.45 EB");
}

#[test]
fn decimal_not_binary_scale() {
    assert_eq!(text(fmt_bytes(1024)), "1.02 kB");
}

#[test]
fn file_size_known_and_unknown() {
    let p = Progress::new(String::from("a.bin"), Some(2_500), 0);
    assert_eq!(text(p.fmt_file_size()), "2.50 kB");
    let q = Progress::new(String::from("b.bin"), None, 0);
    assert_eq!(text(q.fmt_file_size()), "?");
}

#[test]
fn percent_with_two_decimals() {
    let mut p = Progress::new(String::from("a.bin"), Some(200), 0);
    p.progress = 50;
    assert_eq!(text(p.fmt_progress_percent()), "25.00%");
    let mut q = Progress::new(String::from("b.bin"), Some(3), 0);
    q.progress = 1;
    assert_eq!(text(q.fmt_progress_percent()), "33.33%");
}

#[test]
fn percent_blank_without_a_total() {
    let mut p = Progress::new(String::from("a.bin"), None, 0);
    p.progress = 50;
    assert_eq!(text(p.fmt_progress_percent()), "");
    let q = Progress::new(String::from("b.bin"), Some(0), 0);
    assert_eq!(text(q.fmt_progress_percent()), "");
}

#[test]
fn progress_bytes_and_rate() {
    let mut p = Progress::new(String::from("a.bin"), None, 0);
    p.progress = 1_500_000;
    p.download_rate = 2_500;
    assert_eq!(text(p.fmt_progress_bytes()), "1.50 MB");
    assert_eq!(text(p.fmt_download_rate()), "2.50 kB/s");
}

#[test]
fn progress_of_size_joins_both_amounts() {
    let mut p = Progress::new(String::from("a.bin"), Some(2_000_000), 0);
    p.progress = 1_500_000;
    assert_eq!(text(p.fmt_progress_of_size()), "1.50 MB/2 MB");
    let mut q = Progress::new(String::from("b.bin"), None, 0);
    q.progress = 12;
    assert_eq!(text(q.fmt_progress_of_size()), "12 bytes/?");
}

#[test]
fn column_layout() {
    let c = columns(80);
    assert_eq!((c.name_width, c.percent_at, c.bytes_at, c.rate_at), (40, 40, 50, 65));
    let n = columns(10);
    assert_eq!((n.name_width, n.percent_at, n.bytes_at, n.rate_at), (5, 5, 15, 0));
}
