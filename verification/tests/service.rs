use std::io::Cursor;
use std::path::PathBuf;
use std::time::{Duration, Instant};

use meme_catalog::error::AppError;
use meme_catalog::metrics::init_metrics;
use meme_catalog::models::ScannedFile;
use meme_catalog::render::render_resized;
use meme_catalog::service::{rendering_key, unknown_id, Fetched, MemeService, Statistics};
use meme_catalog::window::RequestLog;

const CAT: u32 = 3108986080;
const DOG: u32 = 3700274865;
const FROG: u32 = 2255062111;
const SEC: u128 = 1_000_000_000;

fn file(name: &str, size: u64) -> ScannedFile {
    ScannedFile {
        path: PathBuf::from("/srv/memes").join(name),
        filename: String::from(name),
        size_bytes: size,
    }
}

fn three() -> Vec<ScannedFile> {
    vec![file("cat.png", 10), file("dog.jpg", 20), file("frog.gif", 30)]
}

fn service() -> MemeService {
    MemeService::new("/srv/memes", 100, 300, init_metrics(), &three()).unwrap()
}

fn png(width: u32, height: u32) -> Vec<u8> {
    let picture = image::RgbaImage::from_pixel(width, height, image::Rgba([10, 200, 30, 255]));
    let mut bytes = Vec::new();
    image::DynamicImage::ImageRgba8(picture)
        .write_to(&mut Cursor::new(&mut bytes), image::ImageFormat::Png)
        .unwrap();
    bytes
}

fn wait(span: Duration) {
    let start = Instant::now();
    while start.elapsed() < span {
        std::hint::spin_loop();
    }
}

/// Reads the original of `id` as a server would, with `bytes` standing for the file.
fn fetch(s: &mut MemeService, id: u32, bytes: &[u8]) -> (Vec<u8>, bool) {
    match s.get_by_id(id).unwrap() {
        Fetched::Ready { content, .. } => (content, true),
        Fetched::ReadFile { version, .. } => {
            let read = bytes.to_vec();
            s.content_loaded(id, version, &read);
            (read, false)
        },
        other => panic!("unexpected: {:?}", other),
    }
}

#[test]
fn no_service_without_assets() {
    let r = MemeService::new("/srv/memes", 100, 300, init_metrics(), &Vec::new());
    assert_eq!(r.err(), Some(AppError::Internal(String::from("No memes found"))));
}

#[test]
fn a_new_service_has_the_catalog_of_the_first_scan() {
    let s = service();
    assert_eq!(s.get_total_memes(), 3);
    assert_eq!(s.version(), 1);
    assert_eq!(s.get_request_count(), 0);
    assert_eq!(s.get_cache_stats(), (0, 0));
    assert_eq!(s.memes_dir(), "/srv/memes");
    assert_eq!(s.metrics().total_memes, 3);
    assert!(s.get_last_updated() >= s.get_start_time());
    let ids: Vec<u32> = s.get_all_memes().iter().map(|m| m.id).collect();
    assert_eq!(ids, vec![FROG, CAT, DOG]);
}

#[test]
fn an_unloaded_service_has_nothing_to_pick() {
    let mut s = MemeService::unloaded("/srv/memes", 100, 300, init_metrics());
    assert_eq!(s.get_total_memes(), 0);
    assert_eq!(s.version(), 0);
    let r = s.get_random();
    assert_eq!(r.err(), Some(AppError::NotFound(String::from("No memes available"))));
    assert_eq!(s.get_request_count(), 1);
    assert_eq!(s.get_cache_stats(), (0, 0));
}

#[test]
fn an_unknown_identifier_is_not_found_and_counted() {
    let mut s = service();
    let r = s.get_by_id(5);
    assert_eq!(r.err(), Some(AppError::NotFound(String::from("Meme with id 5 not found"))));
    assert_eq!(s.get_request_count(), 1);
    assert_eq!(s.get_cache_stats(), (0, 0));
    assert_eq!(s.get_requests_last_minute(), 1);
}

#[test]
fn the_error_for_an_unknown_identifier_names_it() {
    assert_eq!(unknown_id(0), AppError::NotFound(String::from("Meme with id 0 not found")));
    assert_eq!(
        unknown_id(u32::MAX),
        AppError::NotFound(String::from("Meme with id 4294967295 not found"))
    );
}

#[test]
fn the_first_query_is_a_miss_and_asks_for_the_file() {
    let mut s = service();
    match s.get_by_id(CAT).unwrap() {
        Fetched::ReadFile { meme, version } => {
            assert_eq!(meme.id, CAT);
            assert_eq!(meme.filename, "cat.png");
            assert_eq!(meme.path, PathBuf::from("/srv/memes/cat.png"));
            assert_eq!(meme.mime_type, "image/png");
            assert_eq!(meme.size_bytes, 10);
            assert_eq!(version, 1);
        },
        other => panic!("unexpected: {:?}", other),
    }
    assert_eq!(s.get_cache_stats(), (0, 1));
    assert_eq!(s.get_request_count(), 1);
    assert_eq!(s.metrics().cache_misses, 1);
    assert_eq!(s.metrics().cache_hits, 0);
}

#[test]
fn a_second_query_is_a_hit_with_the_same_bytes() {
    let mut s = service();
    let (first, hit) = fetch(&mut s, CAT, b"the bytes of the cat");
    assert!(!hit);
    let (hits_before, misses_before) = s.get_cache_stats();
    let (second, hit) = fetch(&mut s, CAT, b"other bytes");
    assert!(hit);
    assert_eq!(second, first);
    assert_eq!(second, b"the bytes of the cat".to_vec());
    assert_eq!(s.get_cache_stats(), (hits_before + 1, misses_before));
    assert_eq!(s.get_request_count(), 2);
    assert_eq!(s.metrics().cache_hits, 1);
}

#[test]
fn the_answer_names_its_asset() {
    let mut s = service();
    let f = s.get_by_id(DOG).unwrap();
    assert_eq!(f.meme().id, DOG);
    assert_eq!(f.meme().mime_type, "image/jpeg");
}

#[test]
fn originals_are_cached_each_under_its_own_identifier() {
    let mut s = service();
    fetch(&mut s, CAT, b"cat");
    fetch(&mut s, DOG, b"dog");
    assert_eq!(fetch(&mut s, CAT, b"x"), (b"cat".to_vec(), true));
    assert_eq!(fetch(&mut s, DOG, b"x"), (b"dog".to_vec(), true));
    assert_eq!(fetch(&mut s, FROG, b"frog"), (b"frog".to_vec(), false));
}

#[test]
fn a_random_pick_is_an_asset_of_the_catalog() {
    let mut s = service();
    let mut seen = [false; 3];
    for _ in 0..200 {
        let f = s.get_random().unwrap();
        let id = f.meme().id;
        let place = [FROG, CAT, DOG].iter().position(|x| *x == id).unwrap();
        seen[place] = true;
    }
    assert_eq!(seen, [true, true, true]);
    assert_eq!(s.get_request_count(), 200);
    let (hits, misses) = s.get_cache_stats();
    assert_eq!((hits, misses), (0, 200));
}

#[test]
fn picking_by_place_follows_the_ascending_list() {
    let mut s = service();
    assert_eq!(s.pick_at(0, 5).unwrap().meme().id, FROG);
    assert_eq!(s.pick_at(1, 5).unwrap().meme().id, CAT);
    assert_eq!(s.pick_at(2, 5).unwrap().meme().id, DOG);
    assert_eq!(s.get_request_count(), 3);
}

#[test]
fn a_sized_query_for_an_unknown_identifier_is_not_counted() {
    let mut s = service();
    let r = s.get_resized_image(7, Some(10), None);
    assert_eq!(r.err(), Some(AppError::NotFound(String::from("Meme with id 7 not found"))));
    let r = s.get_resized_image(7, Some(0), Some(0));
    assert_eq!(r.err(), Some(AppError::NotFound(String::from("Meme with id 7 not found"))));
    assert_eq!(s.get_request_count(), 0);
    assert_eq!(s.get_cache_stats(), (0, 0));
}

#[test]
fn without_a_size_an_unknown_identifier_is_counted_as_by_the_plain_query() {
    let mut plain = service();
    let mut sized = service();
    let a = plain.get_by_id(7);
    let b = sized.get_resized_image(7, None, None);
    assert_eq!(a.err(), Some(AppError::NotFound(String::from("Meme with id 7 not found"))));
    assert_eq!(b.err(), Some(AppError::NotFound(String::from("Meme with id 7 not found"))));
    assert_eq!(plain.get_request_count(), 1);
    assert_eq!(sized.get_request_count(), 1);
    assert_eq!(plain.get_cache_stats(), sized.get_cache_stats());
    assert_eq!(sized.get_requests_last_minute(), 1);
}

#[test]
fn without_a_size_the_resized_query_is_the_plain_one() {
    let mut s = service();
    assert!(matches!(s.get_resized_image(CAT, None, None), Ok(Fetched::ReadFile { .. })));
    s.content_loaded(CAT, 1, &b"cat".to_vec());
    match s.get_resized_image(CAT, None, None).unwrap() {
        Fetched::Ready { content, .. } => assert_eq!(content, b"cat".to_vec()),
        other => panic!("unexpected: {:?}", other),
    }
    assert_eq!(s.get_request_count(), 2);
    assert_eq!(s.get_cache_stats(), (1, 1));
}

#[test]
fn a_resized_query_goes_through_both_stores() {
    let mut s = service();
    let source = png(40, 20);
    let version = match s.get_resized_image(CAT, Some(10), None).unwrap() {
        Fetched::ReadThenRender { meme, version } => {
            assert_eq!(meme.id, CAT);
            version
        },
        other => panic!("unexpected: {:?}", other),
    };
    assert_eq!(s.get_request_count(), 1);
    assert_eq!(s.get_cache_stats(), (0, 1));
    s.content_loaded(CAT, version, &source);
    let rendered = s
        .render_finished(CAT, Some(10), None, version, render_resized(&source, Some(10), None))
        .unwrap();
    assert_eq!(s.get_cache_stats(), (0, 2));
    match s.get_resized_image(CAT, Some(10), None).unwrap() {
        Fetched::Ready { meme, content } => {
            assert_eq!(meme.id, CAT);
            assert_eq!(content, rendered);
        },
        other => panic!("unexpected: {:?}", other),
    }
    assert_eq!(s.get_request_count(), 2);
    assert_eq!(s.get_cache_stats(), (1, 2));
    match s.get_resized_image(CAT, Some(11), None).unwrap() {
        Fetched::Render { original, version, .. } => {
            assert_eq!(original, source);
            assert_eq!(version, 1);
        },
        other => panic!("unexpected: {:?}", other),
    }
    assert_eq!(s.get_request_count(), 3);
    assert_eq!(s.get_cache_stats(), (2, 2));
}

#[test]
fn width_and_height_of_one_number_are_two_entries() {
    let mut s = service();
    s.content_loaded(CAT, 1, &b"cat".to_vec());
    let a = s.render_finished(CAT, Some(100), None, 1, Ok(b"by width".to_vec())).unwrap();
    let b = s.render_finished(CAT, None, Some(100), 1, Ok(b"by height".to_vec())).unwrap();
    assert_eq!(a, b"by width".to_vec());
    assert_eq!(b, b"by height".to_vec());
    assert_ne!(rendering_key(CAT, Some(100), None), rendering_key(CAT, None, Some(100)));
    assert_eq!(rendering_key(CAT, Some(100), None), (CAT, Some(100), None));
    assert_eq!(rendering_key(CAT, None, Some(100)), (CAT, None, Some(100)));
    match s.get_resized_image(CAT, Some(100), None).unwrap() {
        Fetched::Ready { content, .. } => assert_eq!(content, b"by width".to_vec()),
        other => panic!("unexpected: {:?}", other),
    }
    match s.get_resized_image(CAT, None, Some(100)).unwrap() {
        Fetched::Ready { content, .. } => assert_eq!(content, b"by height".to_vec()),
        other => panic!("unexpected: {:?}", other),
    }
    assert_eq!(s.cache_usage().resized_entries, 2);
}

#[test]
fn a_failed_rendering_is_not_cached_and_a_retry_is() {
    let mut s = service();
    let broken = b"no image at all".to_vec();
    s.content_loaded(CAT, 1, &broken);
    let outcome = render_resized(&broken, Some(10), None);
    assert!(matches!(outcome, Err(AppError::Internal(_))));
    let before = s.get_cache_stats();
    let r = s.render_finished(CAT, Some(10), None, 1, outcome.clone());
    assert_eq!(r, outcome);
    assert_eq!(s.get_cache_stats(), before);
    assert_eq!(s.cache_usage().resized_entries, 0);
    assert!(matches!(s.get_resized_image(CAT, Some(10), None), Ok(Fetched::Render { .. })));

    let good = png(40, 20);
    let rendered = render_resized(&good, Some(10), None).unwrap();
    let r = s.render_finished(CAT, Some(10), None, 1, Ok(rendered.clone()));
    assert_eq!(r, Ok(rendered.clone()));
    assert_eq!(s.cache_usage().resized_entries, 1);
    match s.get_resized_image(CAT, Some(10), None).unwrap() {
        Fetched::Ready { content, .. } => assert_eq!(content, rendered),
        other => panic!("unexpected: {:?}", other),
    }
}

#[test]
fn a_refused_rebuild_changes_nothing() {
    let mut s = service();
    fetch(&mut s, CAT, b"cat");
    let updated = s.get_last_updated();
    let r = s.reload_memes(&Vec::new());
    assert_eq!(r, Err(AppError::Internal(String::from("No memes found"))));
    assert_eq!(s.get_total_memes(), 3);
    assert_eq!(s.version(), 1);
    assert_eq!(s.get_last_updated(), updated);
    assert_eq!(s.metrics().total_memes, 3);
    assert_eq!(fetch(&mut s, CAT, b"x"), (b"cat".to_vec(), true));
}

#[test]
fn a_rebuild_installs_the_new_catalog_and_empties_the_stores() {
    let mut s = service();
    fetch(&mut s, CAT, b"cat");
    s.render_finished(CAT, Some(5), None, 1, Ok(b"small cat".to_vec())).unwrap();
    let r = s.reload_memes(&vec![file("cat.png", 11), file("b.png", 5)]);
    assert_eq!(r, Ok(()));
    assert_eq!(s.version(), 2);
    assert_eq!(s.get_total_memes(), 2);
    assert_eq!(s.metrics().total_memes, 2);
    let ids: Vec<u32> = s.get_all_memes().iter().map(|m| m.id).collect();
    assert_eq!(ids, vec![1599723752, CAT]);
    assert_eq!(s.get_all_memes()[1].size_bytes, 11);
    assert!(s.get_by_id(DOG).is_err());
    assert!(matches!(s.get_by_id(CAT), Ok(Fetched::ReadFile { version: 2, .. })));
    assert!(matches!(
        s.get_resized_image(CAT, Some(5), None),
        Ok(Fetched::ReadThenRender { version: 2, .. })
    ));
    assert_eq!(s.cache_usage().content_entries, 0);
    assert_eq!(s.cache_usage().resized_entries, 0);
}

#[test]
fn identifiers_survive_a_rebuild() {
    let mut s = service();
    let before: Vec<u32> = s.get_all_memes().iter().map(|m| m.id).collect();
    s.reload_memes(&vec![file("frog.gif", 1), file("dog.jpg", 2), file("cat.png", 3)]).unwrap();
    s.reload_memes(&three()).unwrap();
    let after: Vec<u32> = s.get_all_memes().iter().map(|m| m.id).collect();
    assert_eq!(before, after);
    assert_eq!(s.version(), 3);
}

#[test]
fn what_was_read_for_an_earlier_catalog_is_not_cached() {
    let mut s = service();
    let version = match s.get_by_id(CAT).unwrap() {
        Fetched::ReadFile { version, .. } => version,
        other => panic!("unexpected: {:?}", other),
    };
    s.reload_memes(&three()).unwrap();
    s.content_loaded(CAT, version, &b"old cat".to_vec());
    assert!(matches!(s.get_by_id(CAT), Ok(Fetched::ReadFile { .. })));
    let r = s.render_finished(CAT, Some(5), None, version, Ok(b"old small cat".to_vec()));
    assert_eq!(r, Ok(b"old small cat".to_vec()));
    s.content_loaded(CAT, 2, &b"new cat".to_vec());
    assert!(matches!(s.get_resized_image(CAT, Some(5), None), Ok(Fetched::Render { .. })));
}

#[test]
fn bytes_for_an_unknown_identifier_are_not_cached() {
    let mut s = service();
    s.content_loaded(5, 1, &b"nothing".to_vec());
    assert_eq!(s.cache_usage().content_entries, 0);
    s.render_finished(5, Some(1), Some(1), 1, Ok(b"nothing".to_vec())).unwrap();
    assert_eq!(s.cache_usage().resized_entries, 0);
}

#[test]
fn the_stores_hold_no_more_than_they_were_made_for() {
    let files: Vec<ScannedFile> = (0..12).map(|i| file(&format!("m{}.png", i), i)).collect();
    let mut s = MemeService::new("/srv/memes", 3, 300, init_metrics(), &files).unwrap();
    let ids: Vec<u32> = s.get_all_memes().iter().map(|m| m.id).collect();
    assert_eq!(ids.len(), 12);
    for id in ids.iter() {
        s.content_loaded(*id, 1, &vec![7u8; 16]);
        s.render_finished(*id, Some(1), None, 1, Ok(vec![1u8; 4])).unwrap();
        s.render_finished(*id, None, Some(1), 1, Ok(vec![2u8; 4])).unwrap();
    }
    let usage = s.cache_usage();
    assert_eq!(usage.content_capacity, 3);
    assert_eq!(usage.resized_capacity, 6);
    assert!(usage.content_entries <= 3);
    assert!(usage.resized_entries <= 6);
    let mut served = 0;
    for id in ids.iter() {
        if let Ok(Fetched::Ready { .. }) = s.get_by_id(*id) {
            served += 1;
        }
    }
    assert!(served <= 3);
    let mut rendered = 0;
    for id in ids.iter() {
        if let Ok(Fetched::Ready { .. }) = s.get_resized_image(*id, Some(1), None) {
            rendered += 1;
        }
        if let Ok(Fetched::Ready { .. }) = s.get_resized_image(*id, None, Some(1)) {
            rendered += 1;
        }
    }
    assert!(rendered <= 6);
}

#[test]
fn an_entry_is_not_served_past_its_lifetime() {
    let mut s = MemeService::new("/srv/memes", 100, 2, init_metrics(), &three()).unwrap();
    s.content_loaded(CAT, 1, &b"cat".to_vec());
    s.render_finished(CAT, Some(3), None, 1, Ok(b"small".to_vec())).unwrap();
    assert!(matches!(s.get_by_id(CAT), Ok(Fetched::Ready { .. })));
    wait(Duration::from_millis(2300));
    assert!(matches!(s.get_by_id(CAT), Ok(Fetched::ReadFile { .. })));
    assert!(matches!(s.get_resized_image(CAT, Some(3), None), Ok(Fetched::Ready { .. })));
    wait(Duration::from_millis(2000));
    assert!(matches!(
        s.get_resized_image(CAT, Some(3), None),
        Ok(Fetched::ReadThenRender { .. })
    ));
}

#[test]
fn requests_are_counted_in_the_windows() {
    let mut s = service();
    let start = 5000 * SEC;
    for i in 0..5u128 {
        s.get_by_id_at(CAT, start + i * SEC).unwrap();
    }
    let now = start + 30 * SEC;
    assert_eq!(s.get_requests_in_window_at(60, now), 5);
    assert_eq!(s.get_requests_in_window_at(300, now), 5);
    assert_eq!(s.get_requests_in_window_at(900, now), 5);
    assert_eq!(s.get_requests_in_window_at(27, now), 2);
    let later = start + 400 * SEC;
    assert_eq!(s.get_requests_in_window_at(60, later), 0);
    assert_eq!(s.get_requests_in_window_at(300, later), 0);
    assert_eq!(s.get_requests_in_window_at(900, later), 5);
    assert_eq!(s.get_requests_in_window_at(900, start + 902 * SEC), 3);
    assert_eq!(s.get_request_count(), 5);
}

#[test]
fn the_clock_of_the_service_counts_recent_requests() {
    let mut s = service();
    for _ in 0..5 {
        s.get_by_id(CAT).unwrap();
    }
    assert_eq!(s.get_requests_last_minute(), 5);
    assert_eq!(s.get_requests_last_5_minutes(), 5);
    assert_eq!(s.get_requests_last_15_minutes(), 5);
    assert_eq!(s.get_requests_in_window(1), 5);
}

#[test]
fn statistics_show_the_counts() {
    let mut s = service();
    s.get_by_id_at(CAT, 10 * SEC).unwrap();
    s.content_loaded(CAT, 1, &b"cat".to_vec());
    s.get_by_id_at(CAT, 100 * SEC).unwrap();
    s.get_by_id_at(9, 350 * SEC).unwrap_err();
    let stats = s.statistics_at(400 * SEC);
    assert_eq!(
        stats,
        Statistics {
            total_requests: 3,
            requests_last_minute: 1,
            requests_last_5min: 2,
            requests_last_15min: 3,
            total_memes: 3,
            cache_hits: 1,
            cache_misses: 1,
            start_time: s.get_start_time(),
            last_updated: s.get_last_updated(),
        }
    );
    assert_eq!(s.metrics().cache_hits, 1);
    assert_eq!(s.metrics().cache_misses, 1);
    assert_eq!(s.metrics().total_memes, 3);
    let live = s.statistics();
    assert_eq!(live.total_requests, 3);
    assert_eq!(live.total_memes, 3);
}

#[test]
fn network_requests_are_counted_in_the_figures() {
    let mut s = service();
    s.count_network_request();
    s.count_network_request();
    assert_eq!(s.metrics().requests_total, 2);
    assert_eq!(s.get_request_count(), 0);
}

#[test]
fn the_figures_follow_the_counters() {
    let mut s = service();
    fetch(&mut s, CAT, b"cat");
    fetch(&mut s, CAT, b"cat");
    fetch(&mut s, DOG, b"dog");
    s.update_cache_metrics();
    assert_eq!(s.metrics().cache_hits, 1);
    assert_eq!(s.metrics().cache_misses, 2);
    assert_eq!(s.cache_usage().content_entries, 2);
    s.update_cache_metrics();
    assert_eq!(s.metrics().cache_size, 2);
}

#[test]
fn no_size_is_not_the_size_zero() {
    let mut s = service();
    s.content_loaded(CAT, 1, &b"cat".to_vec());
    s.render_finished(CAT, None, Some(100), 1, Ok(b"height alone".to_vec())).unwrap();
    assert_ne!(rendering_key(CAT, None, Some(100)), rendering_key(CAT, Some(0), Some(100)));
    match s.get_resized_image(CAT, Some(0), Some(100)).unwrap() {
        Fetched::Render { original, .. } => assert_eq!(original, b"cat".to_vec()),
        other => panic!("unexpected: {:?}", other),
    }
    s.render_finished(CAT, Some(0), Some(100), 1, Ok(b"width zero".to_vec())).unwrap();
    match s.get_resized_image(CAT, None, Some(100)).unwrap() {
        Fetched::Ready { content, .. } => assert_eq!(content, b"height alone".to_vec()),
        other => panic!("unexpected: {:?}", other),
    }
    match s.get_resized_image(CAT, Some(0), Some(100)).unwrap() {
        Fetched::Ready { content, .. } => assert_eq!(content, b"width zero".to_vec()),
        other => panic!("unexpected: {:?}", other),
    }
    match s.get_resized_image(CAT, Some(0), Some(0)).unwrap() {
        Fetched::Render { .. } => {},
        other => panic!("unexpected: {:?}", other),
    }
}

#[test]
fn the_answer_of_the_store_of_originals_decides() {
    let mut s = service();
    match s.answer_by_id(CAT, 5, Some(b"stored".to_vec())).unwrap() {
        Fetched::Ready { meme, content } => {
            assert_eq!(meme.id, CAT);
            assert_eq!(content, b"stored".to_vec());
        },
        other => panic!("unexpected: {:?}", other),
    }
    assert_eq!(s.get_cache_stats(), (1, 0));
    assert!(matches!(s.answer_by_id(CAT, 6, None), Ok(Fetched::ReadFile { version: 1, .. })));
    assert_eq!(s.get_cache_stats(), (1, 1));
    assert_eq!(
        s.answer_by_id(9, 7, Some(b"stored".to_vec())).err(),
        Some(AppError::NotFound(String::from("Meme with id 9 not found")))
    );
    assert_eq!(s.get_cache_stats(), (1, 1));
    assert_eq!(s.get_request_count(), 3);
}

#[test]
fn the_answers_of_both_stores_decide() {
    let mut s = service();
    let rendering = Some(b"small".to_vec());
    let original = Some(b"cat".to_vec());
    match s.answer_resized(CAT, Some(3), None, 5, rendering.clone(), original.clone()).unwrap() {
        Fetched::Ready { content, .. } => assert_eq!(content, b"small".to_vec()),
        other => panic!("unexpected: {:?}", other),
    }
    assert_eq!((s.get_request_count(), s.get_cache_stats()), (1, (1, 0)));
    match s.answer_resized(CAT, Some(3), None, 5, None, original.clone()).unwrap() {
        Fetched::Render { original, version, .. } => {
            assert_eq!(original, b"cat".to_vec());
            assert_eq!(version, 1);
        },
        other => panic!("unexpected: {:?}", other),
    }
    assert_eq!((s.get_request_count(), s.get_cache_stats()), (2, (2, 0)));
    assert!(matches!(
        s.answer_resized(CAT, None, Some(3), 5, None, None),
        Ok(Fetched::ReadThenRender { version: 1, .. })
    ));
    assert_eq!((s.get_request_count(), s.get_cache_stats()), (3, (2, 1)));
    match s.answer_resized(CAT, None, None, 5, rendering.clone(), original).unwrap() {
        Fetched::Ready { content, .. } => assert_eq!(content, b"cat".to_vec()),
        other => panic!("unexpected: {:?}", other),
    }
    assert!(matches!(
        s.answer_resized(CAT, None, None, 5, rendering.clone(), None),
        Ok(Fetched::ReadFile { .. })
    ));
    assert!(s.answer_resized(9, Some(1), None, 5, rendering, None).is_err());
    assert_eq!(s.get_request_count(), 5);
}

#[test]
fn a_rebuild_notes_the_moment_it_is_given() {
    let mut s = service();
    let moment = std::time::SystemTime::UNIX_EPOCH + Duration::from_secs(1_700_000_000);
    assert_eq!(s.reload_memes_at(&three(), moment), Ok(()));
    assert_eq!(s.get_last_updated(), moment);
    assert_eq!(s.version(), 2);
    let later = moment + Duration::from_secs(60);
    assert!(s.reload_memes_at(&Vec::new(), later).is_err());
    assert_eq!(s.get_last_updated(), moment);
    assert_eq!(s.reload_memes_at(&three(), later), Ok(()));
    assert_eq!(s.get_last_updated(), later);
    assert_eq!(s.statistics_at(0).last_updated, later);
}

#[test]
fn the_windows_never_count_more_than_the_total() {
    let mut s = service();
    for i in 0..40u128 {
        s.get_by_id_at(CAT, i * 30 * SEC).unwrap();
    }
    let now = 40 * 30 * SEC;
    let stats = s.statistics_at(now);
    assert_eq!(stats.total_requests, 40);
    assert_eq!(stats.requests_last_minute, 2);
    assert_eq!(stats.requests_last_5min, 10);
    assert_eq!(stats.requests_last_15min, 30);
    assert!(stats.requests_last_minute <= stats.requests_last_5min);
    assert!(stats.requests_last_5min <= stats.requests_last_15min);
    assert!(stats.requests_last_15min <= stats.total_requests);
    assert_eq!(s.get_request_count(), 40);
}

#[test]
fn the_log_counts_in_all_and_in_the_window() {
    let mut log = RequestLog::new();
    assert_eq!(log.total_count(), 0);
    log.note(10 * SEC);
    log.note(20 * SEC);
    log.note(2000 * SEC);
    assert_eq!(log.total_count(), 3);
    assert_eq!(log.count_in(2000 * SEC, 60 * SEC), 1);
    assert_eq!(log.count_in(2000 * SEC, u128::MAX), 1);
    assert_eq!(log.total_count(), 3);
    log.note(2001 * SEC);
    assert_eq!(log.count_in(2001 * SEC, 60 * SEC), 2);
    assert_eq!(log.total_count(), 4);
}
