use yt_playlist_sync::{
    is_video_available, join_path, map_item, page_items_to_videos, record_path,
    thumbnail_file_name, thumbnail_plan, Enumerator, RawItem, RawPage, RawThumbnail,
    RawThumbnails, ResponseField, SyncError, SyncRun, Thumbnail, Thumbnails, Video, PAGE_SIZE,
};

fn raw_thumb(url: &str, size: u32) -> Option<RawThumbnail> {
    Some(RawThumbnail { url: Some(url.to_string()), width: Some(size), height: Some(size) })
}

fn raw_item(id: &str, status: &str) -> RawItem {
    RawItem {
        privacy_status: Some(status.to_string()),
        title: Some(format!("title {}", id)),
        description: Some(format!("about {}", id)),
        published_at: Some("2023-01-02T03:04:05Z".to_string()),
        thumbnails: Some(RawThumbnails {
            default: raw_thumb(&format!("https://i.ytimg.com/vi/{}/default.jpg", id), 120),
            high: raw_thumb(&format!("https://i.ytimg.com/vi/{}/hqdefault.jpg", id), 480),
            medium: raw_thumb(&format!("https://i.ytimg.com/vi/{}/mqdefault.jpg", id), 320),
            standard: None,
            maxres: None,
        }),
        video_id: Some(id.to_string()),
        video_published_at: Some("2022-12-31T00:00:00Z".to_string()),
        start_at: None,
        end_at: None,
    }
}

fn page(items: Vec<RawItem>, next: Option<&str>) -> RawPage {
    RawPage { items: Some(items), next_page_token: next.map(|t| t.to_string()) }
}

fn ids(videos: &[Video]) -> Vec<String> {
    videos.iter().map(|v| v.video_id.clone()).collect()
}

/// Drives an enumerator against canned pages, keyed by the cursor asked for.
fn enumerate(playlist: &str, pages: &[(Option<&str>, RawPage)], calls: &mut Vec<Option<String>>)
    -> Result<Vec<Video>, SyncError> {
    let mut e = Enumerator::new(playlist.to_string());
    while let Some(req) = e.next_request() {
        assert_eq!(req.playlist_id, playlist);
        assert_eq!(req.max_results, 50);
        calls.push(req.page_token.clone());
        let found = pages
            .iter()
            .find(|(tok, _)| tok.map(|t| t.to_string()) == req.page_token)
            .map(|(_, p)| p.clone())
            .expect("unexpected cursor");
        e.on_page(found)?;
    }
    Ok(e.into_videos())
}

#[test]
fn availability_accepts_public_and_unlisted_only() {
    assert!(is_video_available(&Some("public".to_string())));
    assert!(is_video_available(&Some("unlisted".to_string())));
    assert!(!is_video_available(&Some("private".to_string())));
    assert!(!is_video_available(&Some("privacyStatusUnspecified".to_string())));
    assert!(!is_video_available(&Some("Public".to_string())));
    assert!(!is_video_available(&Some(String::new())));
    assert!(!is_video_available(&None));
}

#[test]
fn pagination_follows_cursors_in_order() {
    let mk = |start: usize, n: usize| -> Vec<RawItem> {
        (start..start + n).map(|i| raw_item(&format!("v{}", i), "public")).collect()
    };
    let pages = vec![
        (None, page(mk(0, 50), Some("tok1"))),
        (Some("tok1"), page(mk(50, 50), Some("tok2"))),
        (Some("tok2"), page(mk(100, 7), None)),
    ];
    let mut calls = Vec::new();
    let videos = enumerate("PL", &pages, &mut calls).unwrap();
    assert_eq!(videos.len(), 107);
    let expected: Vec<String> = (0..107).map(|i| format!("v{}", i)).collect();
    assert_eq!(ids(&videos), expected);
    assert_eq!(calls, vec![None, Some("tok1".to_string()), Some("tok2".to_string())]);
    assert_eq!(PAGE_SIZE, 50);
}

#[test]
fn filtering_keeps_available_items_in_order() {
    let items = vec![
        raw_item("a", "public"),
        raw_item("b", "private"),
        raw_item("c", "unlisted"),
        RawItem { privacy_status: None, ..raw_item("d", "public") },
        raw_item("e", "public"),
        raw_item("f", "somethingElse"),
    ];
    let videos = page_items_to_videos(&items).unwrap();
    assert_eq!(ids(&videos), vec!["a", "c", "e"]);
}

#[test]
fn mapping_takes_every_field() {
    let mut item = raw_item("x1", "public");
    item.start_at = Some("PT1S".to_string());
    item.end_at = Some("PT9S".to_string());
    item.thumbnails.as_mut().unwrap().standard = raw_thumb("https://i.ytimg.com/vi/x1/sddefault.jpg", 640);
    let v = map_item(&item).unwrap();
    let expected = Video {
        video_id: "x1".to_string(),
        title: "title x1".to_string(),
        description: "about x1".to_string(),
        published_at: "2023-01-02T03:04:05Z".to_string(),
        video_published_at: Some("2022-12-31T00:00:00Z".to_string()),
        start_at: Some("PT1S".to_string()),
        end_at: Some("PT9S".to_string()),
        thumbnails: Thumbnails {
            default: Thumbnail {
                url: "https://i.ytimg.com/vi/x1/default.jpg".to_string(),
                width: Some(120),
                height: Some(120),
            },
            high: Thumbnail {
                url: "https://i.ytimg.com/vi/x1/hqdefault.jpg".to_string(),
                width: Some(480),
                height: Some(480),
            },
            medium: Thumbnail {
                url: "https://i.ytimg.com/vi/x1/mqdefault.jpg".to_string(),
                width: Some(320),
                height: Some(320),
            },
            standard: Some(Thumbnail {
                url: "https://i.ytimg.com/vi/x1/sddefault.jpg".to_string(),
                width: Some(640),
                height: Some(640),
            }),
            maxres: None,
        },
    };
    assert_eq!(v, expected);
}

#[test]
fn mapping_names_the_missing_field() {
    let no_title = RawItem { title: None, ..raw_item("a", "public") };
    assert_eq!(map_item(&no_title), Err(SyncError::MalformedResponse(ResponseField::Title)));
    let no_id = RawItem { video_id: None, ..raw_item("a", "public") };
    assert_eq!(map_item(&no_id), Err(SyncError::MalformedResponse(ResponseField::VideoId)));
    let no_thumbs = RawItem { thumbnails: None, ..raw_item("a", "public") };
    assert_eq!(map_item(&no_thumbs), Err(SyncError::MalformedResponse(ResponseField::Thumbnails)));
    let mut no_high = raw_item("a", "public");
    no_high.thumbnails.as_mut().unwrap().high = None;
    assert_eq!(map_item(&no_high), Err(SyncError::MalformedResponse(ResponseField::HighThumbnail)));
    let mut no_url = raw_item("a", "public");
    no_url.thumbnails.as_mut().unwrap().maxres =
        Some(RawThumbnail { url: None, width: None, height: None });
    assert_eq!(map_item(&no_url), Err(SyncError::MalformedResponse(ResponseField::ThumbnailUrl)));
}

#[test]
fn unavailable_items_are_not_inspected() {
    let broken_private = RawItem { title: None, video_id: None, ..raw_item("p", "private") };
    let items = vec![raw_item("a", "public"), broken_private];
    assert_eq!(ids(&page_items_to_videos(&items).unwrap()), vec!["a"]);
    let broken_public = RawItem { description: None, ..raw_item("q", "public") };
    let items = vec![raw_item("a", "public"), broken_public];
    assert_eq!(
        page_items_to_videos(&items),
        Err(SyncError::MalformedResponse(ResponseField::Description))
    );
}

#[test]
fn page_without_items_aborts_listing() {
    let mut e = Enumerator::new("PL".to_string());
    assert!(e.next_request().is_some());
    let r = e.on_page(RawPage { items: None, next_page_token: Some("tok".to_string()) });
    assert_eq!(r, Err(SyncError::MalformedResponse(ResponseField::Items)));
    assert!(e.next_request().is_none());
    assert!(e.videos().is_empty());
}

#[test]
fn malformed_item_aborts_listing_after_earlier_pages() {
    let mut e = Enumerator::new("PL".to_string());
    e.on_page(page(vec![raw_item("a", "public")], Some("t1"))).unwrap();
    let bad = RawItem { published_at: None, ..raw_item("b", "public") };
    let r = e.on_page(page(vec![bad], Some("t2")));
    assert_eq!(r, Err(SyncError::MalformedResponse(ResponseField::PublishedAt)));
    assert!(e.next_request().is_none());
    assert_eq!(ids(e.videos()), vec!["a"]);
}

#[test]
fn thumbnail_file_name_is_last_segment() {
    assert_eq!(
        thumbnail_file_name("https://i.ytimg.com/vi/ID/hqdefault.jpg"),
        Ok("hqdefault.jpg".to_string())
    );
    assert_eq!(thumbnail_file_name("a/b/c"), Ok("c".to_string()));
    assert_eq!(thumbnail_file_name("hqdefault.jpg"), Err(SyncError::MalformedUrl));
    assert_eq!(thumbnail_file_name(""), Err(SyncError::MalformedUrl));
    assert_eq!(thumbnail_file_name("https://i.ytimg.com/vi/ID/"), Err(SyncError::MalformedUrl));
}

#[test]
fn paths_are_joined_with_one_slash() {
    assert_eq!(join_path("thumbnails", "V1"), "thumbnails/V1");
    assert_eq!(record_path("videos", "V1"), "videos/V1.json");
}

#[test]
fn plan_covers_every_present_variant_in_order() {
    let mut item = raw_item("v9", "public");
    {
        let t = item.thumbnails.as_mut().unwrap();
        t.standard = raw_thumb("https://i.ytimg.com/vi/v9/sddefault.jpg", 640);
        t.maxres = raw_thumb("https://i.ytimg.com/vi/v9/maxresdefault.jpg", 1280);
    }
    let video = map_item(&item).unwrap();
    let plan = thumbnail_plan("thumbs", &video).unwrap();
    assert_eq!(plan.dir, "thumbs/v9");
    let paths: Vec<String> = plan.downloads.iter().map(|d| d.path.clone()).collect();
    assert_eq!(
        paths,
        vec![
            "thumbs/v9/default.jpg",
            "thumbs/v9/hqdefault.jpg",
            "thumbs/v9/mqdefault.jpg",
            "thumbs/v9/sddefault.jpg",
            "thumbs/v9/maxresdefault.jpg",
        ]
    );
    assert_eq!(plan.downloads[3].url, "https://i.ytimg.com/vi/v9/sddefault.jpg");
}

#[test]
fn plan_fails_on_url_without_file_name() {
    let mut item = raw_item("v9", "public");
    item.thumbnails.as_mut().unwrap().maxres = raw_thumb("no-slash-here", 1);
    let video = map_item(&item).unwrap();
    assert_eq!(thumbnail_plan("thumbs", &video), Err(SyncError::MalformedUrl));
}

#[test]
fn rerun_on_same_data_plans_same_files() {
    let pages = vec![(None, page(vec![raw_item("a", "public"), raw_item("b", "unlisted")], None))];
    let mut calls = Vec::new();
    let first = enumerate("PL", &pages, &mut calls).unwrap();
    let second = enumerate("PL", &pages, &mut calls).unwrap();
    assert_eq!(first, second);
    for (x, y) in first.iter().zip(second.iter()) {
        assert_eq!(record_path("videos", &x.video_id), record_path("videos", &y.video_id));
        assert_eq!(thumbnail_plan("thumbnails", x), thumbnail_plan("thumbnails", y));
    }
}

#[test]
fn end_to_end_single_available_video() {
    let mut v1 = raw_item("V1", "public");
    v1.title = Some("Intro".to_string());
    let v2 = raw_item("V2", "private");
    let pages = vec![(None, page(vec![v1, v2], None))];
    let mut calls = Vec::new();
    let videos = enumerate("P1", &pages, &mut calls).unwrap();
    assert_eq!(calls, vec![None]);
    assert_eq!(ids(&videos), vec!["V1"]);
    assert_eq!(videos[0].title, "Intro");
    assert_eq!(record_path("videos", &videos[0].video_id), "videos/V1.json");
    let plan = thumbnail_plan("thumbnails", &videos[0]).unwrap();
    assert_eq!(plan.dir, "thumbnails/V1");
    let paths: Vec<String> = plan.downloads.iter().map(|d| d.path.clone()).collect();
    assert_eq!(
        paths,
        vec!["thumbnails/V1/default.jpg", "thumbnails/V1/hqdefault.jpg", "thumbnails/V1/mqdefault.jpg"]
    );
    assert!(paths.iter().all(|p| !p.contains("V2")));
}

#[test]
fn playlists_are_concatenated_in_given_order() {
    let a = vec![(None, page(vec![raw_item("a1", "public")], None))];
    let b = vec![(
        None,
        page(vec![raw_item("b1", "public"), raw_item("b2", "public"), raw_item("b3", "unlisted")], None),
    )];
    let mut run = SyncRun::new(vec!["A".to_string(), "B".to_string()]);
    let mut order = Vec::new();
    let mut calls = Vec::new();
    while let Some(id) = run.next_playlist() {
        let pages = if id == "A" { &a } else { &b };
        order.push(id.clone());
        let videos = enumerate(&id, pages, &mut calls).unwrap();
        run.finish_playlist(videos);
    }
    assert_eq!(order, vec!["A", "B"]);
    assert_eq!(ids(&run.into_videos()), vec!["a1", "b1", "b2", "b3"]);
}

#[test]
fn empty_run_yields_nothing() {
    let run = SyncRun::new(Vec::new());
    assert!(run.next_playlist().is_none());
    assert!(run.into_videos().is_empty());
}
