use multiping::layout::{column_width, host_column_width, MIN_HOST_COLUMN};
use multiping::{HostAddress, HostInfo};

fn host(name: &str) -> HostInfo {
    HostInfo::new(name, &[HostAddress::V4 { ip: 1, port: 0 }]).unwrap()
}

#[test]
fn column_is_never_narrower_than_the_least_width() {
    assert_eq!(MIN_HOST_COLUMN, 12);
    assert_eq!(column_width(&[]), 12);
    assert_eq!(column_width(&[0, 3, 11]), 12);
    assert_eq!(column_width(&[12]), 12);
}

#[test]
fn column_takes_the_greatest_width() {
    assert_eq!(column_width(&[13]), 13);
    assert_eq!(column_width(&[5, 40, 13, 40, 2]), 40);
    assert_eq!(column_width(&[usize::MAX, 1]), usize::MAX);
}

#[test]
fn host_column_fits_the_longest_name() {
    assert_eq!(host_column_width(&[]), 12);
    assert_eq!(host_column_width(&[host("127.0.0.1"), host("::1")]), 12);
    assert_eq!(
        host_column_width(&[host("a"), host("a-long-host-name.example.org"), host("b.example")]),
        28
    );
}

#[test]
fn host_column_counts_terminal_columns() {
    // Seven characters of two columns each.
    assert_eq!(host_column_width(&[host("日本語日本語日")]), 14);
    // Escape codes take no column: fourteen visible characters.
    assert_eq!(host_column_width(&[host("\u{1b}[31mfourteen-chars\u{1b}[0m")]), 14);
}
