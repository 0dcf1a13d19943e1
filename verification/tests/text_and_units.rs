use idrac_cli::text::{decimal, joined, remove_all};
use idrac_cli::units::convert;

#[test]
fn decimal_writes_single_digits() {
    assert_eq!(decimal(0), "0");
    assert_eq!(decimal(7), "7");
    assert_eq!(decimal(9), "9");
}

#[test]
fn decimal_writes_longer_numbers() {
    assert_eq!(decimal(10), "10");
    assert_eq!(decimal(255), "255");
    assert_eq!(decimal(1_000_000), "1000000");
    assert_eq!(decimal(u64::MAX), "18446744073709551615");
}

#[test]
fn decimal_agrees_with_std_on_a_range() {
    let mut n: u64 = 0;
    while n < 3000 {
        assert_eq!(decimal(n), n.to_string());
        n += 7;
    }
}

#[test]
fn joined_puts_second_after_first() {
    assert_eq!(joined("ab", "cd"), "abcd");
    assert_eq!(joined("", "x"), "x");
    assert_eq!(joined("x", ""), "x");
}

#[test]
fn remove_all_strips_a_known_prefix() {
    let short = remove_all(
        "/redfish/v1/Systems/System.Embedded.1/Storage/Volumes/Disk.Virtual.0",
        "/redfish/v1/Systems/System.Embedded.1/Storage/Volumes/",
    );
    assert_eq!(short, "Disk.Virtual.0");
    assert!(!short.contains('/'));
}

#[test]
fn remove_all_leaves_text_without_the_pattern() {
    assert_eq!(remove_all("NIC.Integrated.1", "/redfish/v1/"), "NIC.Integrated.1");
    assert_eq!(remove_all("", "/redfish/"), "");
}

#[test]
fn remove_all_takes_out_every_occurrence() {
    assert_eq!(remove_all("abXYcdXYef", "XY"), "abcdef");
    assert_eq!(remove_all("XYXY", "XY"), "");
    assert_eq!(remove_all("aaa", "aa"), "a");
    assert_eq!(remove_all("ababa", "aba"), "ba");
}

#[test]
fn remove_all_with_an_empty_pattern_changes_nothing() {
    assert_eq!(remove_all("abc", ""), "abc");
}

#[test]
fn remove_all_agrees_with_std_replace() {
    let texts = ["", "/", "//", "/a/b/a/b", "/a//a/", "a/a/a", "xyz", "/a/"];
    let patterns = ["/", "/a", "/a/", "a/", "b", "//"];
    for text in texts {
        for pattern in patterns {
            assert_eq!(remove_all(text, pattern), text.replace(pattern, ""));
        }
    }
}

#[test]
fn remove_all_handles_characters_beyond_ascii() {
    assert_eq!(remove_all("/pfad/Größe", "/pfad/"), "Größe");
    assert_eq!(remove_all("äöü", "ö"), "äü");
}

#[test]
fn convert_shows_small_counts_in_bytes() {
    assert_eq!(convert(0), "0 B");
    assert_eq!(convert(1), "1 B");
    assert_eq!(convert(999), "999 B");
}

#[test]
fn convert_selects_larger_units_for_larger_counts() {
    assert_eq!(convert(999), "999 B");
    assert_eq!(convert(1_000_000), "1.00 MB");
    assert_eq!(convert(5_000_000_000), "5.00 GB");
}

#[test]
fn convert_changes_unit_at_each_power_of_a_thousand() {
    assert_eq!(convert(1_000), "1.00 kB");
    assert_eq!(convert(999_999), "999.99 kB");
    assert_eq!(convert(1_000_000), "1.00 MB");
    assert_eq!(convert(999_999_999), "999.99 MB");
    assert_eq!(convert(1_000_000_000), "1.00 GB");
    assert_eq!(convert(1_000_000_000_000), "1.00 TB");
    assert_eq!(convert(1_000_000_000_000_000), "1.00 PB");
    assert_eq!(convert(1_000_000_000_000_000_000), "1.00 EB");
}

#[test]
fn convert_cuts_off_after_two_places() {
    assert_eq!(convert(1_500_000), "1.50 MB");
    assert_eq!(convert(1_234_567), "1.23 MB");
    assert_eq!(convert(1_239_999), "1.23 MB");
    assert_eq!(convert(1_009), "1.00 kB");
    assert_eq!(convert(1_010), "1.01 kB");
    assert_eq!(convert(2_057_000_000_000), "2.05 TB");
}

#[test]
fn convert_reaches_the_largest_count() {
    assert_eq!(convert(u64::MAX), "18.44 EB");
}

#[test]
fn convert_stays_within_a_hundredth_of_the_count() {
    let units: [u64; 4] = [1, 1_000, 1_000_000, 1_000_000_000];
    let names = ["B", "kB", "MB", "GB"];
    let counts: [u64; 6] = [999, 1_000, 123_456, 1_000_000, 987_654_321, 5_000_000_000];
    for count in counts {
        let shown = convert(count);
        let mut parts = shown.split(' ');
        let number = parts.next().unwrap();
        let name = parts.next().unwrap();
        let unit = units[names.iter().position(|n| *n == name).unwrap()];
        let hundredths: u64 = if unit == 1 {
            number.parse::<u64>().unwrap() * 100
        } else {
            number.replace('.', "").parse::<u64>().unwrap()
        };
        assert!((hundredths as u128) * (unit as u128) <= (count as u128) * 100);
        assert!((count as u128) * 100 < ((hundredths + 1) as u128) * (unit as u128));
    }
}
