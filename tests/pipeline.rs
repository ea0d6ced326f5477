use watch_index::dates::{decode_timestamp, encode_timestamp, TimestampError};
use watch_index::classify::{classify_lookup, get_file_action, ChangeEvent, ChangeKind, ChangedPath, PathStep};
use watch_index::file_actions::FileActions;
use watch_index::filter::ChangeFilter;
use watch_index::models::{IndexableEnum, IndexableType};
use watch_index::paths::starts_with;
use watch_index::repo::{collect_results, require_found, resolve_update_options, ScanState, UpdateOptions};
use watch_index::router::{
    create_indexable_object, prepare_write, update_file_index, RouteTable, StoreWrite,
};
use watch_index::types::{PipelineError, RecordId, StoreError, Timestamp};

fn lock_filter() -> ChangeFilter {
    ChangeFilter::new(vec![r"\.#.*".to_string()]).unwrap()
}

fn data_table() -> RouteTable {
    RouteTable { routes: vec![("/data/images/".to_string(), IndexableType::LocalImage)] }
}

fn event(kind: ChangeKind, paths: &[&str]) -> ChangeEvent {
    ChangeEvent {
        kind,
        paths: paths.iter().map(|p| ChangedPath { text: p.to_string(), name_is_text: true }).collect(),
    }
}

fn id(n: u8) -> RecordId {
    RecordId { bytes: [n; 12] }
}

#[test]
fn lock_file_pattern_ignores_editor_lock_files() {
    let filter = lock_filter();
    assert!(filter.is_ignored("/data/images/.#cat.png"));
    assert!(!filter.is_ignored("/data/images/cat.png"));
}

#[test]
fn filter_supports_several_patterns() {
    let filter = ChangeFilter::new(vec![r"\.#.*".to_string(), r"~$".to_string()]).unwrap();
    assert!(filter.is_ignored("/data/notes.txt~"));
    assert!(filter.is_ignored("/data/.#notes.txt"));
    assert!(!filter.is_ignored("/data/notes.txt"));
}

#[test]
fn filter_with_no_patterns_ignores_nothing() {
    let filter = ChangeFilter::new(vec![]).unwrap();
    assert!(!filter.is_ignored("/data/images/.#cat.png"));
}

#[test]
fn invalid_pattern_is_a_setup_error() {
    let r = ChangeFilter::new(vec![r"\.#.*".to_string(), "(".to_string()]);
    assert_eq!(r.unwrap_err(), PipelineError::SetupError);
}

#[test]
fn ignored_paths_get_no_step() {
    let steps = get_file_action(&event(ChangeKind::Modify, &["/data/images/.#cat.png"]), &lock_filter());
    assert!(steps.is_empty());
    let steps = get_file_action(&event(ChangeKind::Create, &["/data/images/.#cat.png"]), &lock_filter());
    assert!(steps.is_empty());
}

#[test]
fn create_event_yields_create_action() {
    let steps = get_file_action(&event(ChangeKind::Create, &["/data/images/cat.png"]), &lock_filter());
    assert_eq!(
        steps,
        vec![PathStep::Act(FileActions::FileCreateAction {
            changed_path: "/data/images/cat.png".to_string(),
            file_name: "cat".to_string(),
        })]
    );
}

#[test]
fn modify_event_asks_for_a_lookup_by_stem() {
    let steps = get_file_action(&event(ChangeKind::Modify, &["/data/images/cat.png"]), &lock_filter());
    assert_eq!(
        steps,
        vec![PathStep::Lookup { changed_path: "/data/images/cat.png".to_string(), file_name: "cat".to_string() }]
    );
}

#[test]
fn other_event_yields_no_action() {
    let steps = get_file_action(&event(ChangeKind::Other, &["/data/images/cat.png"]), &lock_filter());
    assert_eq!(steps, vec![PathStep::Act(FileActions::NoAction)]);
}

#[test]
fn batched_event_keeps_order_and_drops_ignored_paths() {
    let steps = get_file_action(
        &event(ChangeKind::Create, &["/data/a.png", "/data/.#b.png", "/data/c.tar.gz"]),
        &lock_filter(),
    );
    assert_eq!(
        steps,
        vec![
            PathStep::Act(FileActions::FileCreateAction {
                changed_path: "/data/a.png".to_string(),
                file_name: "a".to_string(),
            }),
            PathStep::Act(FileActions::FileCreateAction {
                changed_path: "/data/c.tar.gz".to_string(),
                file_name: "c.tar".to_string(),
            }),
        ]
    );
}

#[test]
fn path_without_file_name_is_missing_identity() {
    let steps = get_file_action(&event(ChangeKind::Modify, &["/"]), &lock_filter());
    assert_eq!(steps, vec![PathStep::Fail(PipelineError::MissingIdentity)]);
}

#[test]
fn lookup_with_records_updates_the_first() {
    let r = classify_lookup("/data/images/cat.png".to_string(), "cat".to_string(), IndexableType::LocalImage, Ok(vec![id(7), id(9)]));
    assert_eq!(
        r,
        Ok(FileActions::FileUpdateAction {
            changed_path: "/data/images/cat.png".to_string(),
            file_name: "cat".to_string(),
            id: id(7),
            kind: IndexableType::LocalImage,
        })
    );
}

#[test]
fn lookup_without_records_creates() {
    let r = classify_lookup("/data/images/cat.png".to_string(), "cat".to_string(), IndexableType::LocalImage, Ok(vec![]));
    assert_eq!(
        r,
        Ok(FileActions::FileCreateAction {
            changed_path: "/data/images/cat.png".to_string(),
            file_name: "cat".to_string(),
        })
    );
}

#[test]
fn failed_lookup_is_classification_error() {
    let r = classify_lookup(
        "/data/images/cat.png".to_string(),
        "cat".to_string(),
        IndexableType::LocalImage,
        Err(StoreError { message: "connection reset".to_string() }),
    );
    assert_eq!(r, Err(PipelineError::ClassificationError));
}

#[test]
fn creating_an_image_builds_a_fresh_image_record() {
    let now = Timestamp { millis: 1_700_000_000_123 };
    let steps = get_file_action(&event(ChangeKind::Create, &["/data/images/cat.png"]), &lock_filter());
    let action = match &steps[0] {
        PathStep::Act(a) => a.clone(),
        other => panic!("unexpected step {:?}", other),
    };
    match prepare_write(&action, &data_table(), now) {
        Ok(StoreWrite::Insert(IndexableEnum::LocalImage(img))) => {
            assert_eq!(img.file_name, "cat");
            assert_eq!(img.image_type, "png");
            assert_eq!(img.date_created, Some(now));
            assert_eq!(img.date_last_modified, None);
            assert_eq!(img.id, None);
            assert_eq!(img.year, None);
            assert_eq!(img.description, None);
        }
        other => panic!("unexpected write {:?}", other),
    }
}

#[test]
fn modifying_a_recorded_image_patches_that_record() {
    let now = Timestamp { millis: 1_700_000_100_000 };
    let action = classify_lookup("/data/images/cat.png".to_string(), "cat".to_string(), IndexableType::LocalImage, Ok(vec![id(3)])).unwrap();
    match prepare_write(&action, &data_table(), now) {
        Ok(StoreWrite::Patch { id: target, patch }) => {
            assert_eq!(target, id(3));
            assert_eq!(patch.kind, IndexableType::LocalImage);
            assert_eq!(patch.type_value, "png");
            assert_eq!(patch.file_name, "cat");
            assert_eq!(patch.date_last_modified, now);
        }
        other => panic!("unexpected write {:?}", other),
    }
}

#[test]
fn no_action_writes_nothing() {
    assert!(matches!(
        prepare_write(&FileActions::NoAction, &data_table(), Timestamp { millis: 0 }),
        Ok(StoreWrite::Skip)
    ));
}

#[test]
fn first_matching_route_wins() {
    let table = RouteTable {
        routes: vec![
            ("/data/posts/".to_string(), IndexableType::Post),
            ("/data/".to_string(), IndexableType::LocalImage),
            ("/data/posts/drafts/".to_string(), IndexableType::LocalImage),
        ],
    };
    assert_eq!(table.route("/data/posts/drafts/a.md"), Some(IndexableType::Post));
    assert_eq!(table.route("/data/x.png"), Some(IndexableType::LocalImage));
    assert_eq!(table.route("/other/x.png"), None);
    let now = Timestamp { millis: 5 };
    match create_indexable_object("/data/posts/hello.md", "hello", &table, now) {
        Ok(IndexableEnum::Post(p)) => {
            assert_eq!(p.post_type, "md");
            assert_eq!(p.file_name, "hello");
            assert_eq!(p.heading, "");
            assert_eq!(p.author, "");
            assert_eq!(p.year, 0);
            assert_eq!(p.date_created, Some(now));
            assert_eq!(p.date_last_modified, None);
            assert!(p.tags.is_none());
        }
        other => panic!("unexpected entity {:?}", other),
    }
}

#[test]
fn unmatched_path_is_routing_error() {
    let r = create_indexable_object("/elsewhere/cat.png", "cat", &data_table(), Timestamp { millis: 0 });
    assert!(matches!(r, Err(PipelineError::RoutingError)));
}

#[test]
fn path_without_extension_is_missing_extension() {
    let r = create_indexable_object("/data/images/cat", "cat", &data_table(), Timestamp { millis: 0 });
    assert!(matches!(r, Err(PipelineError::MissingExtension)));
    let r = update_file_index("/data/images/cat", "cat", IndexableType::LocalImage, Timestamp { millis: 0 });
    assert_eq!(r, Err(PipelineError::MissingExtension));
}

#[test]
fn prefix_test_goes_by_characters() {
    assert!(starts_with("/data/images/cat.png", "/data/"));
    assert!(starts_with("/data", ""));
    assert!(!starts_with("/dat", "/data"));
    assert!(!starts_with("/data/images", "/data/imagez"));
    assert!(starts_with("/dätä/x", "/dätä/"));
}

#[test]
fn default_update_options_upsert() {
    assert_eq!(resolve_update_options(None), UpdateOptions { upsert: Some(true) });
    let given = UpdateOptions { upsert: Some(false) };
    assert_eq!(resolve_update_options(Some(given)), given);
}

#[test]
fn scan_returns_every_record_in_order() {
    let items: Vec<Result<u32, String>> = vec![Ok(1), Ok(2), Ok(3)];
    assert_eq!(collect_results(items), Ok(vec![1, 2, 3]));
    let empty: Vec<Result<u32, String>> = vec![];
    assert_eq!(collect_results(empty), Ok(vec![]));
}

#[test]
fn scan_aborts_on_first_decode_error() {
    let items: Vec<Result<u32, String>> =
        vec![Ok(1), Err("bad field".to_string()), Ok(3), Err("later".to_string())];
    assert_eq!(collect_results(items), Err("bad field".to_string()));
}

#[test]
fn scan_state_keeps_records_until_an_error() {
    let mut scan: ScanState<u32> = ScanState::new();
    assert_eq!(scan.absorb::<String>(Ok(4)), None);
    assert_eq!(scan.absorb(Err("broken".to_string())), Some("broken".to_string()));
    assert_eq!(scan.found, vec![4]);
}

#[test]
fn missing_record_is_not_found() {
    assert_eq!(require_found(Some(5u8)), Ok(5));
    assert_eq!(require_found::<u8>(None), Err(PipelineError::NotFound));
}

#[test]
fn timestamps_encode_as_utc_text_with_milliseconds() {
    let t = Timestamp { millis: 1_700_000_000_123 };
    assert_eq!(encode_timestamp(Some(t)), Ok(Some("2023-11-14T22:13:20.123Z".to_string())));
    assert_eq!(encode_timestamp(Some(Timestamp { millis: 0 })), Ok(Some("1970-01-01T00:00:00.000Z".to_string())));
    assert_eq!(encode_timestamp(None), Ok(None));
    assert_eq!(encode_timestamp(Some(Timestamp { millis: i64::MAX })), Err(TimestampError::OutOfRange));
}

#[test]
fn timestamps_decode_any_offset_to_utc() {
    assert_eq!(
        decode_timestamp(Some("2023-11-14T23:13:20.123+01:00".to_string())),
        Ok(Some(Timestamp { millis: 1_700_000_000_123 }))
    );
    assert_eq!(
        decode_timestamp(Some("2023-11-14T22:13:20.123Z".to_string())),
        Ok(Some(Timestamp { millis: 1_700_000_000_123 }))
    );
    assert_eq!(decode_timestamp(None), Ok(None));
    assert_eq!(decode_timestamp(Some("yesterday".to_string())), Err(TimestampError::NotRfc3339));
}

#[test]
fn update_patches_the_record_found_whatever_the_routes() {
    let now = Timestamp { millis: 42 };
    let r = update_file_index("/elsewhere/cat.png", "cat", IndexableType::LocalImage, now);
    assert_eq!(r.as_ref().map(|p| p.kind), Ok(IndexableType::LocalImage));
    assert_eq!(r.as_ref().map(|p| p.type_value.clone()), Ok("png".to_string()));
    let action = FileActions::FileUpdateAction {
        changed_path: "/elsewhere/notes.md".to_string(),
        file_name: "notes".to_string(),
        id: id(8),
        kind: IndexableType::Post,
    };
    match prepare_write(&action, &data_table(), now) {
        Ok(StoreWrite::Patch { id: target, patch }) => {
            assert_eq!(target, id(8));
            assert_eq!(patch.kind, IndexableType::Post);
            assert_eq!(patch.type_value, "md");
            assert_eq!(patch.file_name, "notes");
            assert_eq!(patch.date_last_modified, now);
        }
        other => panic!("unexpected write {:?}", other),
    }
}

#[test]
fn timestamps_outside_years_0_to_9999_are_out_of_range() {
    assert_eq!(
        encode_timestamp(Some(Timestamp { millis: 253_402_300_799_999 })),
        Ok(Some("9999-12-31T23:59:59.999Z".to_string()))
    );
    assert_eq!(
        encode_timestamp(Some(Timestamp { millis: -62_167_219_200_000 })),
        Ok(Some("0000-01-01T00:00:00.000Z".to_string()))
    );
    assert_eq!(encode_timestamp(Some(Timestamp { millis: 253_402_300_800_000 })), Err(TimestampError::OutOfRange));
    assert_eq!(encode_timestamp(Some(Timestamp { millis: -62_167_219_200_001 })), Err(TimestampError::OutOfRange));
}

#[test]
fn name_that_is_not_text_is_missing_identity() {
    let path = ChangedPath { text: "/data/images/\u{FFFD}cat.png".to_string(), name_is_text: false };
    let modify = ChangeEvent { kind: ChangeKind::Modify, paths: vec![path.clone()] };
    assert_eq!(get_file_action(&modify, &lock_filter()), vec![PathStep::Fail(PipelineError::MissingIdentity)]);
    let create = ChangeEvent { kind: ChangeKind::Create, paths: vec![path.clone()] };
    assert_eq!(get_file_action(&create, &lock_filter()), vec![PathStep::Fail(PipelineError::MissingIdentity)]);
    let other = ChangeEvent { kind: ChangeKind::Other, paths: vec![path] };
    assert_eq!(get_file_action(&other, &lock_filter()), vec![PathStep::Act(FileActions::NoAction)]);
}
