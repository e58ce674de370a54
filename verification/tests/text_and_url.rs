use stov::fields::{split, trim, trim_text};
use stov::naming::{evidence_file_name, media_file_name, render_decimal, EvidenceKind};
use stov::text::{ends_with, find, includes, same_bytes, starts_with};
use stov::url::{is_video, media_kind, normalize_url, MediaKind};

#[test]
fn find_gives_the_leftmost_position() {
    assert_eq!(find(b"abcabc", b"bc"), Some(1));
    assert_eq!(find(b"abcabc", b"cab"), Some(2));
    assert_eq!(find(b"abcabc", b"abcabc"), Some(0));
    assert_eq!(find(b"abcabc", b""), Some(0));
    assert_eq!(find(b"", b""), Some(0));
}

#[test]
fn find_gives_none_where_the_pattern_is_absent() {
    assert_eq!(find(b"abcabc", b"cb"), None);
    assert_eq!(find(b"ab", b"abc"), None);
    assert_eq!(find(b"", b"a"), None);
}

#[test]
fn has_prefix_and_suffix() {
    assert!(includes(b"https://x/a.mp4?q", b".mp4"));
    assert!(!includes(b"https://x/a.jpg", b".mp4"));
    assert!(starts_with(b"data:image/jpeg;base64,AAAA", b"data:"));
    assert!(!starts_with(b"ERROR", b"data:"));
    assert!(!starts_with(b"dat", b"data:"));
    assert!(ends_with(b"alice_17.mp4", b".mp4"));
    assert!(!ends_with(b"alice_17.mp4x", b".mp4"));
    assert!(same_bytes(b"abc", b"abc"));
    assert!(!same_bytes(b"abc", b"abd"));
    assert!(!same_bytes(b"abc", b"ab"));
}

#[test]
fn video_addresses_lose_their_range_parameters() {
    assert_eq!(
        normalize_url(b"https://cdn.instagram.com/v/1.mp4?a=1&bytestart=0&byteend=99"),
        b"https://cdn.instagram.com/v/1.mp4?a=1".to_vec()
    );
    assert_eq!(
        normalize_url(b"https://cdn.instagram.com/v/1.mp4?bytestart=100&byteend=199"),
        b"https://cdn.instagram.com/v/1.mp4".to_vec()
    );
    assert_eq!(
        normalize_url(b"https://cdn.instagram.com/v/1.mp4?a=1"),
        b"https://cdn.instagram.com/v/1.mp4?a=1".to_vec()
    );
}

#[test]
fn the_cut_is_made_at_the_leftmost_range_parameter() {
    assert_eq!(
        normalize_url(b"https://h/1.mp4?bytestart=0&x=2&bytestart=5"),
        b"https://h/1.mp4".to_vec()
    );
    assert_eq!(
        normalize_url(b"https://h/1.mp4?x=2&bytestart=5?bytestart=7"),
        b"https://h/1.mp4?x=2".to_vec()
    );
}

#[test]
fn image_addresses_lose_their_range_parameters_too() {
    assert_eq!(
        normalize_url(b"https://cdn.instagram.com/i/1.jpg?a=1&bytestart=0"),
        b"https://cdn.instagram.com/i/1.jpg?a=1".to_vec()
    );
    assert_eq!(
        normalize_url(b"https://cdn.instagram.com/i/1.jpg?bytestart=0&byteend=9"),
        b"https://cdn.instagram.com/i/1.jpg".to_vec()
    );
    let plain = b"https://cdn.instagram.com/i/1.jpg?a=1";
    assert_eq!(normalize_url(plain), plain.to_vec());
}

#[test]
fn a_key_holds_no_range_parameter() {
    let urls: Vec<&[u8]> = vec![
        b"https://h/v/9.mp4?k=1&bytestart=0&byteend=999",
        b"https://h/v/9?bytestart=0&bytestart=1",
        b"?bytestart&bytestart",
        b"&bytestart?bytestart",
    ];
    for url in urls {
        let key = normalize_url(url);
        assert_eq!(find(&key, b"&bytestart"), None);
        assert_eq!(find(&key, b"?bytestart"), None);
    }
}

#[test]
fn two_ranges_of_one_video_share_a_key() {
    let a = normalize_url(b"https://h/v/9.mp4?k=1&bytestart=0&byteend=999");
    let b = normalize_url(b"https://h/v/9.mp4?k=1&bytestart=1000&byteend=1999");
    assert_eq!(a, b);
}

#[test]
fn normalizing_twice_is_normalizing_once() {
    let urls: Vec<&[u8]> = vec![
        b"https://h/v/9.mp4?k=1&bytestart=0&byteend=999",
        b"https://h/v/9.mp4?bytestart=0",
        b"https://h/v/9.mp4",
        b"https://h/i/9.jpg?bytestart=0",
        b"&bytestart.mp4",
        b"",
    ];
    for url in urls {
        let once = normalize_url(url);
        let twice = normalize_url(&once);
        assert_eq!(once, twice);
    }
}

#[test]
fn the_kind_goes_by_the_video_marker() {
    assert!(is_video(b"https://h/v/9.mp4?k=1"));
    assert!(!is_video(b"https://h/v/9.jpg"));
    assert_eq!(media_kind(b"https://h/v/9.mp4"), MediaKind::Video);
    assert_eq!(media_kind(b"https://h/v/9.jpg"), MediaKind::Image);
    assert_eq!(media_kind(b"https://h/v/9"), MediaKind::Image);
}

#[test]
fn split_keeps_empty_fields() {
    assert_eq!(split(b"a;b;;c", b';'), vec![b"a".to_vec(), b"b".to_vec(), b"".to_vec(), b"c".to_vec()]);
    assert_eq!(split(b"", b';'), vec![b"".to_vec()]);
    assert_eq!(split(b";", b';'), vec![b"".to_vec(), b"".to_vec()]);
    assert_eq!(split(b"abc", b';'), vec![b"abc".to_vec()]);
}

#[test]
fn trim_takes_blanks_from_both_ends_only() {
    assert_eq!(trim(b"  a b \t\n"), b"a b".to_vec());
    assert_eq!(trim(b"a"), b"a".to_vec());
    assert_eq!(trim(b" \r\n "), b"".to_vec());
    assert_eq!(trim(b""), b"".to_vec());
    assert_eq!(trim("\u{a0}a\u{a0}".as_bytes()), "\u{a0}a\u{a0}".as_bytes().to_vec());
}

#[test]
fn trimming_text_takes_white_space_of_every_kind() {
    assert_eq!(trim_text(b"  a b \t\n"), b"a b".to_vec());
    assert_eq!(trim_text("\u{a0}\u{85} alice\u{3000}\u{2003}\u{2028}".as_bytes()), b"alice".to_vec());
    assert_eq!(trim_text("\u{1680}\u{2000}\u{200a}\u{2029}\u{202f}\u{205f}x".as_bytes()), b"x".to_vec());
    assert_eq!(trim_text("a\u{a0}b".as_bytes()), "a\u{a0}b".as_bytes().to_vec());
    assert_eq!(trim_text("\u{200b}a".as_bytes()), "\u{200b}a".as_bytes().to_vec());
    assert_eq!(trim_text("\u{e9}t\u{e9}".as_bytes()), "\u{e9}t\u{e9}".as_bytes().to_vec());
    assert_eq!(trim_text(" \u{a0} ".as_bytes()), b"".to_vec());
    assert_eq!(trim_text(b""), b"".to_vec());
}

#[test]
fn trimming_text_is_what_the_standard_trim_does() {
    let samples = [
        "  alice  ",
        "\u{a0}bob\u{2003}",
        "\u{85}\u{1680}carol\u{3000}\u{205f}\n",
        "d\u{a0}ave",
        "\u{200b}eve\u{feff}",
        "\u{2028}\u{2029}\u{202f}",
        "",
    ];
    for sample in samples {
        assert_eq!(trim_text(sample.as_bytes()), sample.trim().as_bytes().to_vec());
    }
}

#[test]
fn decimal_rendering() {
    assert_eq!(render_decimal(0), b"0".to_vec());
    assert_eq!(render_decimal(7), b"7".to_vec());
    assert_eq!(render_decimal(10), b"10".to_vec());
    assert_eq!(render_decimal(1700000000), b"1700000000".to_vec());
    assert_eq!(render_decimal(u64::MAX), b"18446744073709551615".to_vec());
}

#[test]
fn media_files_are_named_by_account_time_and_kind() {
    assert_eq!(
        media_file_name(b"alice", 1700000000, MediaKind::Video),
        b"alice_1700000000.mp4".to_vec()
    );
    assert_eq!(media_file_name(b"bob", 5, MediaKind::Image), b"bob_5.jpg".to_vec());
}

#[test]
fn captures_are_named_by_base_number_and_kind() {
    assert_eq!(
        evidence_file_name(b"missing_username", 1234, EvidenceKind::Screenshot),
        b"missing_username1234.png".to_vec()
    );
    assert_eq!(
        evidence_file_name(b"login_success", 9998, EvidenceKind::Markup),
        b"login_success9998.html".to_vec()
    );
}
