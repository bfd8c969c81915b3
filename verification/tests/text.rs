use welds_connections::path::local_path;
use welds_connections::text::{i64_to_decimal, u64_to_decimal};

#[test]
fn decimal_text() {
    assert_eq!(u64_to_decimal(0), "0");
    assert_eq!(u64_to_decimal(10), "10");
    assert_eq!(u64_to_decimal(u64::MAX), "18446744073709551615");
    assert_eq!(i64_to_decimal(-1), "-1");
    assert_eq!(i64_to_decimal(i64::MIN), "-9223372036854775808");
    assert_eq!(i64_to_decimal(1234), "1234");
}

#[test]
fn url_paths() {
    assert_eq!(local_path("turso://data.db"), "data.db");
    assert_eq!(local_path("turso://turso://data.db"), "data.db");
    assert_eq!(local_path("turso://"), ":memory:");
    assert_eq!(local_path(""), ":memory:");
    assert_eq!(local_path(":memory:"), ":memory:");
    assert_eq!(local_path("turso://:memory:"), ":memory:");
    assert_eq!(local_path("/tmp/x.db"), "/tmp/x.db");
    assert_eq!(local_path("xturso://a"), "xturso://a");
    assert_eq!(local_path("turso:/a"), "turso:/a");
    assert_eq!(local_path(":memory:x"), ":memory:x");
    assert_eq!(local_path("turso://é.db"), "é.db");
}

#[test]
fn url_path_is_stable() {
    for url in ["turso://a.db", "turso://", "turso://turso://b", ":memory:", "c"] {
        let once = local_path(url);
        assert_eq!(local_path(&once), once);
        let with_scheme = format!("turso://{}", url);
        assert_eq!(local_path(&with_scheme), once);
    }
}
