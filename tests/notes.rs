use note_api::{
    affected_outcome, create_note_row, created_note_outcome, fetched_note_outcome, filter_db_record, generate_note_id,
    insert_outcome, list_outcome, merge_update, note_id_outcome, parse_note_id,
    resolve_pagination, update_plan, ApiError, CreateNoteSchema, FilterOptions, MappingError,
    NoteField, NoteModel, StoreError, UpdateNoteSchema, validate_note_text,
};

const ID: &str = "936da01f-9abd-4d9d-80c7-02af85c822a8";

fn record(id: &str, category: Option<&str>, published: i8) -> NoteModel {
    NoteModel {
        id: id.to_string(),
        title: "T".to_string(),
        content: "C".to_string(),
        category: category.map(|c| c.to_string()),
        published,
        created_at: Some("2024-01-01T00:00:00Z".to_string()),
        updated_at: Some("2024-01-02T00:00:00Z".to_string()),
    }
}

fn has_note_id_shape(s: &str) -> bool {
    s.len() == 36
        && s.char_indices().all(|(i, c)| {
            if i == 8 || i == 13 || i == 18 || i == 23 {
                c == '-'
            } else {
                c.is_ascii_digit() || ('a'..='f').contains(&c)
            }
        })
}

#[test]
fn pagination_defaults() {
    let p = resolve_pagination(&FilterOptions { page: None, limit: None });
    assert_eq!(p.limit, 10);
    assert_eq!(p.offset, 0);
}

#[test]
fn pagination_offset_is_page_minus_one_times_limit() {
    let p = resolve_pagination(&FilterOptions { page: Some(3), limit: Some(5) });
    assert_eq!(p.limit, 5);
    assert_eq!(p.offset, 10);
    let p = resolve_pagination(&FilterOptions { page: Some(4), limit: None });
    assert_eq!(p.offset, 30);
}

#[test]
fn pagination_page_zero_is_first_page() {
    let p = resolve_pagination(&FilterOptions { page: Some(0), limit: Some(7) });
    assert_eq!(p.limit, 7);
    assert_eq!(p.offset, 0);
}

#[test]
fn pagination_limit_zero_gives_empty_window() {
    let p = resolve_pagination(&FilterOptions { page: Some(9), limit: Some(0) });
    assert_eq!(p.limit, 0);
    assert_eq!(p.offset, 0);
}

#[test]
fn pagination_huge_offset_is_exact() {
    let p = resolve_pagination(&FilterOptions { page: Some(i64::MAX), limit: Some(i64::MAX) });
    assert_eq!(p.limit, i64::MAX as u64);
    assert_eq!(p.offset, (i64::MAX as u128 - 1) * i64::MAX as u128);
}

#[test]
fn pagination_negative_page_is_first_page() {
    let p = resolve_pagination(&FilterOptions { page: Some(-3), limit: Some(4) });
    assert_eq!(p.limit, 4);
    assert_eq!(p.offset, 0);
}

#[test]
fn pagination_negative_limit_is_zero() {
    let p = resolve_pagination(&FilterOptions { page: Some(2), limit: Some(-5) });
    assert_eq!(p.limit, 0);
    assert_eq!(p.offset, 0);
}

#[test]
fn mapping_full_record() {
    let w = filter_db_record(&record(ID, Some("work"), 1)).unwrap();
    assert_eq!(w.id, ID);
    assert_eq!(w.title, "T");
    assert_eq!(w.content, "C");
    assert_eq!(w.category, "work");
    assert!(w.published);
    assert_eq!(w.created_at, "2024-01-01T00:00:00Z");
    assert_eq!(w.updated_at, "2024-01-02T00:00:00Z");
}

#[test]
fn mapping_published_small_integer() {
    assert!(!filter_db_record(&record(ID, Some(""), 0)).unwrap().published);
    assert!(filter_db_record(&record(ID, Some(""), 2)).unwrap().published);
    assert!(filter_db_record(&record(ID, Some(""), -1)).unwrap().published);
}

#[test]
fn mapping_missing_category_is_internal_error() {
    let n = record(ID, None, 0);
    assert_eq!(filter_db_record(&n), Err(MappingError::MissingCategory));
    let r = fetched_note_outcome(ID.to_string(), Ok(n));
    let e = r.unwrap_err();
    assert_eq!(e, ApiError::Mapping(MappingError::MissingCategory));
    assert_eq!(e.status_code(), 500);
    assert_eq!(e.status_word(), "error");
}

#[test]
fn mapping_missing_timestamps() {
    let mut n = record(ID, Some("x"), 0);
    n.created_at = None;
    assert_eq!(filter_db_record(&n), Err(MappingError::MissingCreatedAt));
    let mut n = record(ID, Some("x"), 0);
    n.updated_at = None;
    assert_eq!(filter_db_record(&n), Err(MappingError::MissingUpdatedAt));
}

#[test]
fn list_maps_rows_in_order() {
    let rows = vec![record("a", Some("x"), 0), record("b", Some("y"), 1)];
    let notes = list_outcome(Ok(rows)).unwrap();
    assert_eq!(notes.len(), 2);
    assert_eq!(notes[0].id, "a");
    assert_eq!(notes[1].id, "b");
    assert_eq!(notes[1].category, "y");
    assert!(notes[1].published);
}

#[test]
fn list_empty() {
    assert_eq!(list_outcome(Ok(vec![])).unwrap().len(), 0);
}

#[test]
fn list_with_broken_row_fails() {
    let rows = vec![record("a", Some("x"), 0), record("b", None, 1)];
    assert_eq!(
        list_outcome(Ok(rows)),
        Err(ApiError::Mapping(MappingError::MissingCategory))
    );
}

#[test]
fn list_reports_first_broken_row() {
    let mut late = record("c", Some("z"), 0);
    late.created_at = None;
    let rows = vec![record("a", Some("x"), 0), late, record("b", None, 1)];
    assert_eq!(
        list_outcome(Ok(rows)),
        Err(ApiError::Mapping(MappingError::MissingCreatedAt))
    );
}

#[test]
fn list_store_error() {
    let e = list_outcome(Err(StoreError::Other("down".to_string()))).unwrap_err();
    assert_eq!(e, ApiError::Store(StoreError::Other("down".to_string())));
    assert_eq!(e.status_code(), 500);
}

#[test]
fn get_missing_is_not_found() {
    let e = fetched_note_outcome(ID.to_string(), Err(StoreError::RowNotFound)).unwrap_err();
    assert_eq!(e, ApiError::NotFound(ID.to_string()));
    assert_eq!(e.status_code(), 404);
    assert_eq!(e.status_word(), "fail");
}

#[test]
fn get_store_failure_is_server_error() {
    let e = fetched_note_outcome(ID.to_string(), Err(StoreError::Other("io".to_string())))
        .unwrap_err();
    assert_eq!(e, ApiError::Store(StoreError::Other("io".to_string())));
}

#[test]
fn insert_duplicate_is_conflict() {
    let e = insert_outcome(Err(StoreError::UniqueViolation)).unwrap_err();
    assert_eq!(e, ApiError::Conflict);
    assert_eq!(e.status_code(), 400);
    assert_eq!(e.status_word(), "fail");
    assert_eq!(insert_outcome(Ok(1)), Ok(()));
    assert_eq!(
        insert_outcome(Err(StoreError::Other("x".to_string()))),
        Err(ApiError::Store(StoreError::Other("x".to_string())))
    );
}

#[test]
fn create_row_defaults_category_to_empty() {
    let body = CreateNoteSchema {
        title: "T".to_string(),
        content: "C".to_string(),
        category: None,
        published: None,
    };
    let row = create_note_row(&body).unwrap();
    assert!(has_note_id_shape(&row.id));
    assert_eq!(&row.id[14..15], "4");
    assert_eq!(row.title, "T");
    assert_eq!(row.content, "C");
    assert_eq!(row.category, "");
    assert!(!row.published);
}

#[test]
fn create_row_rejects_empty_text() {
    let body = CreateNoteSchema {
        title: "".to_string(),
        content: "C".to_string(),
        category: None,
        published: None,
    };
    let e = create_note_row(&body).unwrap_err();
    assert_eq!(e, ApiError::EmptyField(NoteField::Title));
    assert_eq!(e.status_code(), 400);
    assert_eq!(e.status_word(), "fail");
    let body = CreateNoteSchema {
        title: "T".to_string(),
        content: "".to_string(),
        category: None,
        published: None,
    };
    assert_eq!(create_note_row(&body), Err(ApiError::EmptyField(NoteField::Content)));
}

#[test]
fn validate_update_text() {
    assert_eq!(validate_note_text(&"T".to_string(), &"C".to_string()), Ok(()));
    assert_eq!(
        validate_note_text(&"".to_string(), &"".to_string()),
        Err(ApiError::EmptyField(NoteField::Title))
    );
    assert_eq!(
        validate_note_text(&"T".to_string(), &"".to_string()),
        Err(ApiError::EmptyField(NoteField::Content))
    );
}

#[test]
fn create_refetch_missing_is_server_error() {
    let e = created_note_outcome(Err(StoreError::RowNotFound)).unwrap_err();
    assert_eq!(e, ApiError::Store(StoreError::RowNotFound));
    assert_eq!(e.status_code(), 500);
    assert_eq!(e.status_word(), "error");
    let w = created_note_outcome(Ok(record(ID, Some("x"), 0))).unwrap();
    assert_eq!(w.id, ID);
}

#[test]
fn create_row_keeps_category() {
    let body = CreateNoteSchema {
        title: "T".to_string(),
        content: "C".to_string(),
        category: Some("home".to_string()),
        published: Some(true),
    };
    let row = create_note_row(&body).unwrap();
    assert_eq!(row.category, "home");
    assert!(row.published);
}

#[test]
fn generated_ids_are_fresh_and_parse_back() {
    let a = generate_note_id();
    let b = generate_note_id();
    assert_ne!(a, b);
    assert!(has_note_id_shape(&a));
    assert_eq!(parse_note_id(&a), Ok(a.clone()));
}

#[test]
fn parse_id_canonical_form() {
    assert_eq!(parse_note_id(ID), Ok(ID.to_string()));
}

#[test]
fn parse_id_normalises_other_forms() {
    assert_eq!(
        parse_note_id("936DA01F-9ABD-4D9D-80C7-02AF85C822A8"),
        Ok(ID.to_string())
    );
    assert_eq!(parse_note_id("936da01f9abd4d9d80c702af85c822a8"), Ok(ID.to_string()));
    assert_eq!(
        parse_note_id("{936da01f-9abd-4d9d-80c7-02af85c822a8}"),
        Ok(ID.to_string())
    );
}

#[test]
fn parse_id_malformed_is_validation_error() {
    let e = parse_note_id("not-a-note-id").unwrap_err();
    assert_eq!(e, ApiError::Validation("not-a-note-id".to_string()));
    assert_eq!(e.status_code(), 400);
    assert_eq!(
        note_id_outcome("zz", None),
        Err(ApiError::Validation("zz".to_string()))
    );
    assert_eq!(note_id_outcome("zz", Some(ID.to_string())), Ok(ID.to_string()));
}

#[test]
fn update_omitting_published_keeps_it() {
    let existing = record(ID, Some("x"), 1);
    let body = UpdateNoteSchema {
        title: "T2".to_string(),
        content: "C2".to_string(),
        category: None,
        published: None,
    };
    let u = merge_update(ID.to_string(), &existing, &body);
    assert_eq!(u.id, ID);
    assert_eq!(u.title, "T2");
    assert_eq!(u.content, "C2");
    assert_eq!(u.category, Some("x".to_string()));
    assert!(u.published);
}

#[test]
fn update_payload_values_win() {
    let existing = record(ID, Some("x"), 1);
    let body = UpdateNoteSchema {
        title: "T".to_string(),
        content: "C".to_string(),
        category: Some("y".to_string()),
        published: Some(false),
    };
    let u = update_plan(ID.to_string(), &body, Ok(existing)).unwrap();
    assert_eq!(u.category, Some("y".to_string()));
    assert!(!u.published);
}

#[test]
fn update_missing_note_is_not_found() {
    let body = UpdateNoteSchema {
        title: "T".to_string(),
        content: "C".to_string(),
        category: None,
        published: None,
    };
    assert_eq!(
        update_plan(ID.to_string(), &body, Err(StoreError::RowNotFound)),
        Err(ApiError::NotFound(ID.to_string()))
    );
    assert_eq!(
        affected_outcome(ID.to_string(), Ok(0)),
        Err(ApiError::NotFound(ID.to_string()))
    );
}

#[test]
fn delete_twice_gives_no_content_then_not_found() {
    assert_eq!(affected_outcome(ID.to_string(), Ok(1)), Ok(()));
    let e = affected_outcome(ID.to_string(), Ok(0)).unwrap_err();
    assert_eq!(e, ApiError::NotFound(ID.to_string()));
    assert_eq!(e.status_code(), 404);
}

#[test]
fn delete_store_failure_is_server_error() {
    let e = affected_outcome(ID.to_string(), Err(StoreError::Other("gone".to_string())))
        .unwrap_err();
    assert_eq!(e.status_code(), 500);
    assert_eq!(e.status_word(), "error");
}

#[test]
fn create_get_delete_walkthrough() {
    let body = CreateNoteSchema {
        title: "T".to_string(),
        content: "C".to_string(),
        category: None,
        published: None,
    };
    let row = create_note_row(&body).unwrap();
    assert_eq!(insert_outcome(Ok(1)), Ok(()));
    let stored = NoteModel {
        id: row.id.clone(),
        title: row.title.clone(),
        content: row.content.clone(),
        category: Some(row.category.clone()),
        published: 0,
        created_at: Some("2024-05-05T10:00:00Z".to_string()),
        updated_at: Some("2024-05-05T10:00:00Z".to_string()),
    };
    let created = created_note_outcome(Ok(stored.clone())).unwrap();
    assert_eq!(created.id, row.id);
    assert_eq!(created.category, "");
    assert!(!created.published);
    assert_eq!(created.created_at, created.updated_at);
    let path_id = parse_note_id(&created.id).unwrap();
    let fetched = fetched_note_outcome(path_id.clone(), Ok(stored)).unwrap();
    assert_eq!(fetched, created);
    assert_eq!(affected_outcome(path_id.clone(), Ok(1)), Ok(()));
    assert_eq!(
        affected_outcome(path_id.clone(), Ok(0)),
        Err(ApiError::NotFound(path_id))
    );
}
