use std::path::PathBuf;
use std::time::{Duration, SystemTime};

use meme_catalog::error::AppError;
use meme_catalog::handlers::{
    get_meme_by_id, get_meme_count, list_memes, location_of, random_meme, wants_resize, GetMemeQuery, MemeCount, MemeListItem, RandomMemeQuery, RandomPlan, Reply,
};
use meme_catalog::metrics::{bumped, init_metrics, set_service_start_time};
use meme_catalog::models::{Meme, ScannedFile};
use meme_catalog::service::{cache_bounds_fit, Fetched, MemeService};

fn file(name: &str, size: u64) -> ScannedFile {
    ScannedFile {
        path: PathBuf::from("/srv/memes").join(name),
        filename: String::from(name),
        size_bytes: size,
    }
}

fn cat() -> Meme {
    Meme {
        id: 3108986080,
        path: PathBuf::from("/srv/memes/cat.png"),
        mime_type: String::from("image/jpeg"),
        filename: String::from("cat.png"),
        size_bytes: 10,
    }
}

#[test]
fn addresses_of_assets() {
    assert_eq!(location_of(7, None, None), "/memes/get/7");
    assert_eq!(location_of(7, Some(300), None), "/memes/get/7?width=300");
    assert_eq!(location_of(7, None, Some(200)), "/memes/get/7?height=200");
    assert_eq!(location_of(7, Some(300), Some(200)), "/memes/get/7?width=300&height=200");
    assert_eq!(
        location_of(u32::MAX, Some(0), Some(u32::MAX)),
        "/memes/get/4294967295?width=0&height=4294967295"
    );
}

#[test]
fn a_size_is_asked_for_with_a_width_or_a_height() {
    assert!(!wants_resize(None, None));
    assert!(wants_resize(Some(1), None));
    assert!(wants_resize(None, Some(1)));
    assert!(wants_resize(Some(0), Some(0)));
}

#[test]
fn a_redirect_goes_before_everything() {
    let q = RandomMemeQuery { redirect: Some(true), width: Some(30), height: None };
    assert_eq!(
        q.plan(12),
        RandomPlan::Redirect { location: String::from("/memes/get/12?width=30") }
    );
    let q = RandomMemeQuery { redirect: Some(true), width: None, height: None };
    assert_eq!(q.plan(12), RandomPlan::Redirect { location: String::from("/memes/get/12") });
}

#[test]
fn without_a_redirect_the_size_decides() {
    let q = RandomMemeQuery { redirect: Some(false), width: Some(30), height: None };
    assert_eq!(q.plan(12), RandomPlan::Resized);
    let q = RandomMemeQuery { redirect: None, width: None, height: Some(2) };
    assert_eq!(q.plan(12), RandomPlan::Resized);
    let q = RandomMemeQuery { redirect: None, width: None, height: None };
    assert_eq!(q.plan(12), RandomPlan::Original);
    let g = GetMemeQuery { width: None, height: Some(4) };
    assert!(wants_resize(g.width, g.height));
}

#[test]
fn a_redirect_has_a_location_and_no_body() {
    let r = Reply::redirect(String::from("/memes/get/1"));
    assert_eq!(
        r,
        Reply {
            status: 302,
            content_type: None,
            location: Some(String::from("/memes/get/1")),
            body: Vec::new(),
        }
    );
}

#[test]
fn a_rendering_is_served_as_png() {
    let r = Reply::image(&cat(), vec![1, 2, 3], true);
    assert_eq!(
        r,
        Reply {
            status: 200,
            content_type: Some(String::from("image/png")),
            location: None,
            body: vec![1, 2, 3],
        }
    );
}

#[test]
fn an_original_is_served_with_its_own_media_type() {
    let r = Reply::image(&cat(), vec![4, 5], false);
    assert_eq!(r.status, 200);
    assert_eq!(r.content_type, Some(String::from("image/jpeg")));
    assert_eq!(r.body, vec![4, 5]);
}

#[test]
fn failures_by_identifier_tell_not_found_from_the_rest() {
    assert_eq!(Reply::failure_by_id(&AppError::NotFound(String::from("x"))), Reply::empty(404));
    assert_eq!(Reply::failure_by_id(&AppError::Internal(String::from("x"))), Reply::empty(500));
    assert_eq!(Reply::failure_by_id(&AppError::Io(String::from("x"))), Reply::empty(500));
    assert_eq!(Reply::failure_by_id(&AppError::MemeNotFound { id: 1 }), Reply::empty(500));
}

#[test]
fn failures_of_a_random_pick_are_server_errors() {
    assert_eq!(Reply::failure_random(), Reply::empty(500));
    assert_eq!(Reply::empty(204).body, Vec::<u8>::new());
}

#[test]
fn the_list_shows_every_asset_in_ascending_order() {
    let s = MemeService::new(
        "/srv/memes",
        10,
        10,
        init_metrics(),
        &vec![file("dog.jpg", 20), file("cat.png", 10), file("noext", 5)],
    )
    .unwrap();
    assert_eq!(
        list_memes(&s),
        vec![
            MemeListItem {
                id: 3108986080,
                mime_type: String::from("image/png"),
                filename: String::from("cat.png"),
                size_bytes: 10,
            },
            MemeListItem {
                id: 3360157816,
                mime_type: String::from("application/octet-stream"),
                filename: String::from("noext"),
                size_bytes: 5,
            },
            MemeListItem {
                id: 3700274865,
                mime_type: String::from("image/jpeg"),
                filename: String::from("dog.jpg"),
                size_bytes: 20,
            },
        ]
    );
    assert_eq!(get_meme_count(&s), MemeCount { count: 3 });
    assert_eq!(MemeListItem::of(&cat()).filename, "cat.png");
}

#[test]
fn the_figures_start_at_zero() {
    let m = init_metrics();
    assert_eq!(m.requests_total, 0);
    assert_eq!(m.cache_hits, 0);
    assert_eq!(m.cache_misses, 0);
    assert_eq!(m.cache_size, 0);
    assert_eq!(m.total_memes, 0);
    assert_eq!(m.start_time, None);
}

#[test]
fn the_start_is_noted_once() {
    let mut m = init_metrics();
    let first = SystemTime::UNIX_EPOCH + Duration::from_secs(1000);
    let second = SystemTime::UNIX_EPOCH + Duration::from_secs(2000);
    set_service_start_time(&mut m, first);
    assert_eq!(m.start_time, Some(first));
    set_service_start_time(&mut m, second);
    assert_eq!(m.start_time, Some(first));
}

#[test]
fn counters_never_start_again() {
    assert_eq!(bumped(0), 1);
    assert_eq!(bumped(41), 42);
    assert_eq!(bumped(u64::MAX - 1), u64::MAX);
    assert_eq!(bumped(u64::MAX), u64::MAX);
    let mut m = init_metrics();
    m.requests_total = u64::MAX - 1;
    m.count_request();
    assert_eq!(m.requests_total, u64::MAX);
    m.count_request();
    assert_eq!(m.requests_total, u64::MAX);
}

#[test]
fn a_request_by_identifier_is_resized_only_when_a_size_is_asked_for() {
    let mut s =
        MemeService::new("/srv/memes", 10, 10, init_metrics(), &vec![file("cat.png", 1)]).unwrap();
    let plain = GetMemeQuery { width: None, height: None };
    let sized = GetMemeQuery { width: Some(5), height: None };
    assert!(matches!(
        get_meme_by_id(&mut s, 3108986080, &plain),
        Ok(Fetched::ReadFile { .. })
    ));
    assert!(matches!(
        get_meme_by_id(&mut s, 3108986080, &sized),
        Ok(Fetched::ReadThenRender { .. })
    ));
    assert_eq!(s.get_request_count(), 2);
    assert!(matches!(get_meme_by_id(&mut s, 1, &plain), Err(AppError::NotFound(_))));
    assert_eq!(s.get_request_count(), 3);
    assert!(matches!(get_meme_by_id(&mut s, 1, &sized), Err(AppError::NotFound(_))));
    assert_eq!(s.get_request_count(), 3);
    let zero = GetMemeQuery { width: Some(0), height: None };
    assert!(matches!(
        get_meme_by_id(&mut s, 3108986080, &zero),
        Ok(Fetched::ReadThenRender { .. })
    ));
}

#[test]
fn a_random_request_comes_with_its_plan() {
    let mut s =
        MemeService::new("/srv/memes", 10, 10, init_metrics(), &vec![file("cat.png", 1)]).unwrap();
    let q = RandomMemeQuery { redirect: Some(true), width: None, height: Some(9) };
    let (fetched, plan) = random_meme(&mut s, &q).unwrap();
    assert_eq!(fetched.meme().id, 3108986080);
    assert_eq!(
        plan,
        RandomPlan::Redirect { location: String::from("/memes/get/3108986080?height=9") }
    );
    let q = RandomMemeQuery { redirect: None, width: None, height: None };
    assert_eq!(random_meme(&mut s, &q).unwrap().1, RandomPlan::Original);
    let mut empty = MemeService::unloaded("/srv/memes", 10, 10, init_metrics());
    assert_eq!(
        random_meme(&mut empty, &q).err(),
        Some(AppError::NotFound(String::from("No memes available")))
    );
}

#[test]
fn the_bounds_of_the_stores_must_bear_doubling() {
    assert!(cache_bounds_fit(0, 0));
    assert!(cache_bounds_fit(100, 300));
    assert!(cache_bounds_fit(u64::MAX / 2, 15_768_000_000));
    assert!(!cache_bounds_fit(u64::MAX / 2 + 1, 300));
    assert!(!cache_bounds_fit(100, 15_768_000_001));
}
