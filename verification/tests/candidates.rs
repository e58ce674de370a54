use stov::batch::{BatchAction, BatchController, BatchEvent, FrameOutcome};
use stov::candidates::{extract, DomImage, MediaCandidate, NetworkLog, SourceKind};
use stov::srcset::{best_variant_of, entry_resolution, entry_url_of, leading_number_of};
use stov::history::DownloadHistory;
use stov::plan::fetch_plan;
use stov::url::MediaKind;
use stov::wire::{parse_report, parse_tag, parse_width};

fn cands(raw: &[u8]) -> Vec<MediaCandidate> {
    let mut out = Vec::new();
    for entry in raw.split(|b| *b == b';') {
        let parts: Vec<&[u8]> = entry.split(|b| *b == b'|').collect();
        if parts.len() < 2 {
            continue;
        }
        let source = match parts[0] {
            b"NET" => SourceKind::Network,
            b"DOM_VIDEO" => SourceKind::DomVideo,
            b"DOM_IMAGE" => SourceKind::DomImage,
            _ => continue,
        };
        let rank = out.len();
        out.push(MediaCandidate { source, url: parts[1].to_vec(), rank });
    }
    out
}

fn pairs(list: &Vec<MediaCandidate>) -> Vec<(SourceKind, Vec<u8>)> {
    list.iter().map(|c| (c.source, c.url.clone())).collect()
}

fn image(width: u32, src: &[u8], srcset: &[u8]) -> DomImage {
    DomImage { natural_width: width, src: src.to_vec(), srcset: srcset.to_vec() }
}

#[test]
fn the_log_keeps_media_requests_only() {
    let mut log = NetworkLog::new();
    log.observe(b"https://cdn.instagram.com/v/1.mp4?bytestart=0");
    log.observe(b"https://other.example/v/2.mp4");
    log.observe(b"https://cdn.instagram.com/i/3.jpg");
    log.observe(b"https://other.example/i/4.jpg");
    log.observe(b"https://cdn.instagram.com/app.js");
    assert_eq!(log.len(), 3);
    assert_eq!(log.entry(0), b"https://cdn.instagram.com/v/1.mp4?bytestart=0");
    assert_eq!(log.entry(1), b"https://other.example/v/2.mp4");
    assert_eq!(log.entry(2), b"https://cdn.instagram.com/i/3.jpg");
    log.clear();
    assert_eq!(log.len(), 0);
}

#[test]
fn network_entries_come_newest_first() {
    let mut log = NetworkLog::new();
    log.observe(b"https://h/old.mp4");
    log.observe(b"https://h/new.mp4");
    let out = extract(&log, &None, &vec![]);
    assert_eq!(
        pairs(&out),
        vec![
            (SourceKind::Network, b"https://h/new.mp4".to_vec()),
            (SourceKind::Network, b"https://h/old.mp4".to_vec()),
        ]
    );
}

#[test]
fn the_three_signals_come_in_rank_order() {
    let mut log = NetworkLog::new();
    log.observe(b"https://h/net.mp4");
    let video = Some(b"https://h/dom.mp4".to_vec());
    let images = vec![image(640, b"https://cdn.instagram.com/a.jpg", b"")];
    let out = extract(&log, &video, &images);
    assert_eq!(
        pairs(&out),
        vec![
            (SourceKind::Network, b"https://h/net.mp4".to_vec()),
            (SourceKind::DomVideo, b"https://h/dom.mp4".to_vec()),
            (SourceKind::DomImage, b"https://cdn.instagram.com/a.jpg".to_vec()),
        ]
    );
    for (i, c) in out.iter().enumerate() {
        assert_eq!(c.rank, i);
    }
}

#[test]
fn an_in_memory_video_source_is_no_candidate() {
    let log = NetworkLog::new();
    assert!(extract(&log, &Some(b"blob:https://h/123".to_vec()), &vec![]).is_empty());
    assert!(extract(&log, &Some(b"".to_vec()), &vec![]).is_empty());
    assert!(extract(&log, &None, &vec![]).is_empty());
    let out = extract(&log, &Some(b"https://h/blob:x.mp4".to_vec()), &vec![]);
    assert_eq!(pairs(&out), vec![(SourceKind::DomVideo, b"https://h/blob:x.mp4".to_vec())]);
}

#[test]
fn small_or_foreign_images_are_no_candidates() {
    let log = NetworkLog::new();
    let images = vec![
        image(300, b"https://cdn.instagram.com/small.jpg", b""),
        image(640, b"https://other.example/big.jpg", b""),
        image(301, b"https://cdn.instagram.com/ok.jpg", b""),
    ];
    let out = extract(&log, &None, &images);
    assert_eq!(pairs(&out), vec![(SourceKind::DomImage, b"https://cdn.instagram.com/ok.jpg".to_vec())]);
}

#[test]
fn the_best_variant_ranks_ahead_of_the_plain_source() {
    let log = NetworkLog::new();
    let images = vec![image(
        640,
        b"https://cdn.instagram.com/a_320.jpg",
        b"https://cdn.instagram.com/a_320.jpg 320w, https://cdn.instagram.com/a_1080.jpg 1080w",
    )];
    let out = extract(&log, &None, &images);
    assert_eq!(
        pairs(&out),
        vec![
            (SourceKind::DomImage, b"https://cdn.instagram.com/a_1080.jpg".to_vec()),
            (SourceKind::DomImage, b"https://cdn.instagram.com/a_320.jpg".to_vec()),
        ]
    );
}

#[test]
fn the_variant_of_highest_resolution_is_taken() {
    assert_eq!(best_variant_of(b"a.jpg 1x, b.jpg 2x"), b"b.jpg".to_vec());
    assert_eq!(best_variant_of(b"b.jpg 2x, a.jpg 1x"), b"b.jpg".to_vec());
    assert_eq!(best_variant_of(b"s.jpg 320w, l.jpg 1080w, m.jpg 640w"), b"l.jpg".to_vec());
    assert_eq!(best_variant_of(b"a.jpg 1x,\n   b.jpg   2x  "), b"b.jpg".to_vec());
    assert_eq!(best_variant_of(b"a.jpg\t750w,b.jpg\t640w"), b"a.jpg".to_vec());
    assert_eq!(best_variant_of(b"only.jpg"), b"only.jpg".to_vec());
    assert_eq!(best_variant_of(b"a.jpg 1x,"), b"a.jpg".to_vec());
    assert_eq!(best_variant_of(b""), b"".to_vec());
}

#[test]
fn of_variants_of_one_resolution_the_last_is_taken() {
    assert_eq!(best_variant_of(b"a.jpg 640w, b.jpg 640w"), b"b.jpg".to_vec());
    assert_eq!(best_variant_of(b"a.jpg, b.jpg"), b"b.jpg".to_vec());
    assert_eq!(best_variant_of(b"a.jpg 1x, b.jpg 1.5x"), b"b.jpg".to_vec());
}

#[test]
fn the_resolution_of_an_entry_is_the_number_of_its_descriptor() {
    assert_eq!(entry_resolution(b"  a.jpg   1080w "), 1080);
    assert_eq!(entry_resolution(b"a.jpg 2x"), 2);
    assert_eq!(entry_resolution(b"a.jpg 1.5x"), 1);
    assert_eq!(entry_resolution(b"a.jpg"), 0);
    assert_eq!(entry_resolution(b"a.jpg w640"), 0);
    assert_eq!(entry_resolution(b"640w"), 0);
    assert_eq!(entry_resolution(b""), 0);
    assert_eq!(entry_resolution(b"a.jpg 18446744073709551615w"), u64::MAX);
    assert_eq!(entry_resolution(b"a.jpg 18446744073709551616w"), u64::MAX);
    assert_eq!(entry_resolution(b"a.jpg 99999999999999999999999w"), u64::MAX);
    assert_eq!(entry_url_of(b"  a.jpg   1080w "), b"a.jpg".to_vec());
    assert_eq!(leading_number_of(b"007x"), 7);
    assert_eq!(leading_number_of(b"x7"), 0);
}

#[test]
fn the_highest_variant_is_offered_wherever_it_is_listed() {
    let log = NetworkLog::new();
    let images = vec![image(
        640,
        b"https://cdn.instagram.com/a_320.jpg",
        b"https://cdn.instagram.com/a_1080.jpg 1080w, https://cdn.instagram.com/a_320.jpg 320w",
    )];
    let out = extract(&log, &None, &images);
    assert_eq!(
        pairs(&out),
        vec![
            (SourceKind::DomImage, b"https://cdn.instagram.com/a_1080.jpg".to_vec()),
            (SourceKind::DomImage, b"https://cdn.instagram.com/a_320.jpg".to_vec()),
        ]
    );
}

#[test]
fn of_equal_candidates_the_first_stays() {
    let mut log = NetworkLog::new();
    log.observe(b"https://h/a.mp4");
    log.observe(b"https://h/b.mp4");
    log.observe(b"https://h/a.mp4");
    let out = extract(&log, &Some(b"https://h/a.mp4".to_vec()), &vec![]);
    assert_eq!(
        pairs(&out),
        vec![
            (SourceKind::Network, b"https://h/a.mp4".to_vec()),
            (SourceKind::Network, b"https://h/b.mp4".to_vec()),
            (SourceKind::DomVideo, b"https://h/a.mp4".to_vec()),
        ]
    );
    assert_eq!(out[2].rank, 2);
}

#[test]
fn an_image_whose_variant_is_its_source_is_offered_once() {
    let log = NetworkLog::new();
    let images = vec![image(
        640,
        b"https://cdn.instagram.com/a.jpg",
        b"https://cdn.instagram.com/a.jpg 640w",
    )];
    let out = extract(&log, &None, &images);
    assert_eq!(pairs(&out), vec![(SourceKind::DomImage, b"https://cdn.instagram.com/a.jpg".to_vec())]);
}

#[test]
fn tags_name_their_sources() {
    assert_eq!(parse_tag(b"NET"), Some(SourceKind::Network));
    assert_eq!(parse_tag(b"DOM_VIDEO"), Some(SourceKind::DomVideo));
    assert_eq!(parse_tag(b"DOM_IMAGE"), Some(SourceKind::DomImage));
    assert_eq!(parse_tag(b"net"), None);
    assert_eq!(parse_tag(b""), None);
    assert_eq!(parse_tag(b"DOM_IMAGES"), None);
}

#[test]
fn a_report_is_read_entry_by_entry() {
    let signals = parse_report(
        b"NET|https://h/1.mp4;NET|https://h/app.js;DOM_VIDEO|https://h/2.mp4;DOM_IMAGE|https://h/3.jpg|640|https://h/3.jpg 640w, https://h/3b.jpg 1080w",
    );
    assert_eq!(signals.names, vec![b"https://h/1.mp4".to_vec(), b"https://h/app.js".to_vec()]);
    assert_eq!(signals.video_src, Some(b"https://h/2.mp4".to_vec()));
    assert_eq!(signals.images.len(), 1);
    assert_eq!(signals.images[0].natural_width, 640);
    assert_eq!(signals.images[0].src, b"https://h/3.jpg".to_vec());
    assert_eq!(signals.images[0].srcset, b"https://h/3.jpg 640w, https://h/3b.jpg 1080w".to_vec());
}

#[test]
fn entries_that_report_nothing_are_passed_over() {
    for raw in [&b""[..], b";;", b"NET", b"OTHER|https://h/1.mp4", b"net|https://h/1.mp4"] {
        let signals = parse_report(raw);
        assert!(signals.names.is_empty());
        assert_eq!(signals.video_src, None);
        assert!(signals.images.is_empty());
    }
    let signals = parse_report(b";NET|https://h/1.mp4;junk;NET|");
    assert_eq!(signals.names, vec![b"https://h/1.mp4".to_vec(), b"".to_vec()]);
}

#[test]
fn what_follows_the_fields_of_an_entry_is_passed_over() {
    let signals = parse_report(b"NET|https://h/1.mp4|rest;DOM_VIDEO|v.mp4|x|y;DOM_IMAGE|i.jpg|301|a 1x|more");
    assert_eq!(signals.names, vec![b"https://h/1.mp4".to_vec()]);
    assert_eq!(signals.video_src, Some(b"v.mp4".to_vec()));
    assert_eq!(signals.images[0].natural_width, 301);
    assert_eq!(signals.images[0].srcset, b"a 1x".to_vec());
}

#[test]
fn the_first_video_entry_is_the_video() {
    let signals = parse_report(b"DOM_VIDEO|first.mp4;DOM_VIDEO|second.mp4");
    assert_eq!(signals.video_src, Some(b"first.mp4".to_vec()));
    assert_eq!(parse_report(b"DOM_VIDEO|").video_src, Some(b"".to_vec()));
}

#[test]
fn an_image_entry_may_lack_its_width_and_its_srcset() {
    let signals = parse_report(b"DOM_IMAGE|a.jpg;DOM_IMAGE|b.jpg|x;DOM_IMAGE|c.jpg|99999999999|;DOM_IMAGE|d.jpg|12px");
    assert_eq!(signals.images.len(), 4);
    assert_eq!(signals.images[0].natural_width, 0);
    assert_eq!(signals.images[0].srcset, b"".to_vec());
    assert_eq!(signals.images[1].natural_width, 0);
    assert_eq!(signals.images[2].natural_width, u32::MAX);
    assert_eq!(signals.images[2].srcset, b"".to_vec());
    assert_eq!(signals.images[3].natural_width, 12);
    assert_eq!(parse_width(b"4294967295"), u32::MAX);
    assert_eq!(parse_width(b"4294967294"), 4294967294);
    assert_eq!(parse_width(b""), 0);
}

#[test]
fn a_report_leads_to_the_candidates_of_the_frame() {
    let signals = parse_report(
        b"NET|https://h/old.mp4;NET|https://h/app.js;NET|https://h/new.mp4;DOM_VIDEO|blob:https://h/1;DOM_IMAGE|https://cdn.instagram.com/a.jpg|640|https://cdn.instagram.com/b.jpg 1080w, https://cdn.instagram.com/a.jpg 640w;DOM_IMAGE|https://cdn.instagram.com/icon.jpg|24|",
    );
    let mut log = NetworkLog::new();
    for name in &signals.names {
        log.observe(name);
    }
    let out = extract(&log, &signals.video_src, &signals.images);
    assert_eq!(
        pairs(&out),
        vec![
            (SourceKind::Network, b"https://h/new.mp4".to_vec()),
            (SourceKind::Network, b"https://h/old.mp4".to_vec()),
            (SourceKind::DomImage, b"https://cdn.instagram.com/b.jpg".to_vec()),
            (SourceKind::DomImage, b"https://cdn.instagram.com/a.jpg".to_vec()),
        ]
    );
    for (i, c) in out.iter().enumerate() {
        assert_eq!(c.rank, i);
    }
}

#[test]
fn the_history_holds_each_key_once() {
    let mut h = DownloadHistory::new();
    assert_eq!(h.len(), 0);
    assert!(!h.contains(b"k1"));
    h.record(b"k1".to_vec());
    h.record(b"k2".to_vec());
    h.record(b"k1".to_vec());
    assert_eq!(h.len(), 2);
    assert!(h.contains(b"k1"));
    assert!(h.contains(b"k2"));
    assert!(!h.contains(b"k"));
    h.clear();
    assert_eq!(h.len(), 0);
    assert!(!h.contains(b"k1"));
}

#[test]
fn the_plan_holds_keys_in_rank_order() {
    let h = DownloadHistory::new();
    let cands = cands(
        b"NET|https://h/v/1.mp4?a=1&bytestart=0;DOM_VIDEO|https://h/v/2.mp4;DOM_IMAGE|https://h/i/3.jpg?x=1",
    );
    let plan = fetch_plan(&cands, &h);
    assert_eq!(plan.len(), 3);
    assert_eq!(plan[0].key, b"https://h/v/1.mp4?a=1".to_vec());
    assert_eq!(plan[0].kind, MediaKind::Video);
    assert_eq!(plan[1].key, b"https://h/v/2.mp4".to_vec());
    assert_eq!(plan[1].kind, MediaKind::Video);
    assert_eq!(plan[2].key, b"https://h/i/3.jpg?x=1".to_vec());
    assert_eq!(plan[2].kind, MediaKind::Image);
}

#[test]
fn short_addresses_are_not_fetched() {
    let h = DownloadHistory::new();
    let cands = cands(b"NET|123456789;NET|1234567890;NET|");
    let plan = fetch_plan(&cands, &h);
    assert_eq!(plan.len(), 1);
    assert_eq!(plan[0].key, b"1234567890".to_vec());
}

#[test]
fn the_length_is_held_to_the_address_not_to_its_key() {
    let h = DownloadHistory::new();
    let cands = cands(b"NET|a.mp4?bytestart=7");
    let plan = fetch_plan(&cands, &h);
    assert_eq!(plan.len(), 1);
    assert_eq!(plan[0].key, b"a.mp4".to_vec());
}

#[test]
fn what_was_saved_is_not_fetched_again() {
    let mut h = DownloadHistory::new();
    h.record(b"https://h/v/1.mp4".to_vec());
    let cands = cands(
        b"NET|https://h/v/1.mp4?bytestart=0&byteend=9;NET|https://h/v/1.mp4?bytestart=10;NET|https://h/v/2.mp4",
    );
    let plan = fetch_plan(&cands, &h);
    assert_eq!(plan.len(), 1);
    assert_eq!(plan[0].key, b"https://h/v/2.mp4".to_vec());
    h.record(b"https://h/v/2.mp4".to_vec());
    assert!(fetch_plan(&cands, &h).is_empty());
}

#[test]
fn a_rejected_address_stays_in_the_plan() {
    let h = DownloadHistory::new();
    let cands = cands(b"NET|https://h/v/1.mp4");
    assert_eq!(fetch_plan(&cands, &h).len(), 1);
    assert_eq!(fetch_plan(&cands, &h).len(), 1);
}

#[test]
fn a_cleared_log_does_not_offer_a_saved_address_again() {
    let n1: &[u8] = b"https://cdn.instagram.com/v/n1.mp4";
    let mut log = NetworkLog::new();
    let mut batch = BatchController::new(b"alice", 5);
    batch.step(BatchEvent::Start);
    batch.step(BatchEvent::EntryPoint(true));
    assert_eq!(batch.step(BatchEvent::ViewerOpened), BatchAction::ProbeFirstFrame);
    log.clear();

    log.observe(n1);
    let first = extract(&log, &None, &vec![]);
    assert_eq!(pairs(&first), vec![(SourceKind::Network, n1.to_vec())]);
    let plan = fetch_plan(&first, batch.history());
    assert_eq!(plan.len(), 1);
    assert_eq!(plan[0].key, n1.to_vec());

    let action = batch.step(BatchEvent::Frame(FrameOutcome::Saved(n1.to_vec())));
    assert_eq!(action, BatchAction::ReadLocation { clear_log: true });
    log.clear();

    let second = extract(&log, &None, &vec![]);
    assert!(second.is_empty());

    log.observe(n1);
    let third = extract(&log, &None, &vec![]);
    assert!(fetch_plan(&third, batch.history()).is_empty());
}
