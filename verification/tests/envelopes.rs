use notes_api::http::{
    create_envelope, health_envelope, list_envelope, status_code_for, update_envelope,
};
use notes_api::model::NoteModelResponse;
use notes_api::schema::{CreateNoteSchema, UpdateNoteSchema};
use notes_api::service::{NoteService, ServiceError};
use notes_api::store::NotesStore;

fn sample_note() -> NoteModelResponse {
    NoteModelResponse {
        id: "550e8400-e29b-41d4-a716-446655440000".to_owned(),
        title: "t".to_owned(),
        content: "c".to_owned(),
        is_published: false,
        created_at: Some(1),
        updated_at: Some(1),
    }
}

#[test]
fn health_answers_ok() {
    let env = health_envelope();
    assert_eq!(env.code, 200);
    assert_eq!(env.status, "OK");
    assert_eq!(env.message, "API is healthy");
}

#[test]
fn error_messages_describe_each_variant() {
    assert_eq!(ServiceError::InvalidArgument.message(), "Invalid UUID format");
    assert_eq!(
        ServiceError::NotFound.message(),
        "Database error: note not found"
    );
    assert_eq!(
        ServiceError::Persistence("connection reset".to_owned()).message(),
        "Database error: connection reset"
    );
}

#[test]
fn status_codes_follow_the_taxonomy() {
    assert_eq!(status_code_for(&ServiceError::InvalidArgument), 400);
    assert_eq!(status_code_for(&ServiceError::NotFound), 500);
    assert_eq!(
        status_code_for(&ServiceError::Persistence("x".to_owned())),
        500
    );
}

#[test]
fn list_envelope_shapes_both_outcomes() {
    let ok = list_envelope(Ok(vec![sample_note()]));
    assert_eq!(ok.code, 200);
    assert_eq!(ok.status, "OK");
    assert_eq!(ok.message, "Notes retrieved successfully");
    assert_eq!(ok.data.as_ref().map(|d| d.len()), Some(1));

    let err = list_envelope(Err(ServiceError::Persistence("down".to_owned())));
    assert_eq!(err.code, 500);
    assert_eq!(err.status, "error");
    assert_eq!(err.message, "Database error: down");
    assert!(err.data.is_none());
}

#[test]
fn create_envelope_maps_any_failure_to_500() {
    let ok = create_envelope(Ok(sample_note()));
    assert_eq!(ok.code, 200);
    assert_eq!(ok.message, "Note created successfully");
    assert!(ok.data.is_some());

    let err = create_envelope(Err(ServiceError::Persistence("boom".to_owned())));
    assert_eq!(err.code, 500);
    assert_eq!(err.status, "error");
    assert!(err.data.is_none());
}

#[test]
fn posted_note_returns_200_with_unpublished_valid_id() {
    let mut svc = NoteService::new(NotesStore::new());
    let outcome = svc.create_note(
        CreateNoteSchema {
            title: "A".to_owned(),
            content: "B".to_owned(),
            is_published: None,
        },
        3,
    );
    let env = create_envelope(outcome);
    assert_eq!(env.code, 200);
    let data = env.data.expect("a created note must be returned");
    assert!(!data.is_published);
    assert!(notes_api::note_id::is_valid_note_id(&data.id));
    assert!(uuid::Uuid::parse_str(&data.id).is_ok());
}

#[test]
fn put_with_malformed_id_returns_400() {
    let mut svc = NoteService::new(NotesStore::new());
    let outcome = svc.update_note(
        "not-a-uuid".to_owned(),
        UpdateNoteSchema {
            title: Some("X".to_owned()),
            content: None,
            is_published: None,
        },
        3,
    );
    let env = update_envelope(outcome);
    assert_eq!(env.code, 400);
    assert_eq!(env.status, "error");
    assert_eq!(env.message, "Invalid UUID format");
    assert!(env.data.is_none());
}

#[test]
fn put_with_unknown_id_returns_500() {
    let mut svc = NoteService::new(NotesStore::new());
    let outcome = svc.update_note(
        "550e8400-e29b-41d4-a716-446655440000".to_owned(),
        UpdateNoteSchema {
            title: None,
            content: None,
            is_published: None,
        },
        3,
    );
    let env = update_envelope(outcome);
    assert_eq!(env.code, 500);
    assert_eq!(env.status, "error");
    assert!(env.data.is_none());
}

#[test]
fn put_on_existing_note_returns_200() {
    let mut svc = NoteService::new(NotesStore::new());
    let created = svc
        .create_note(
            CreateNoteSchema {
                title: "A".to_owned(),
                content: "B".to_owned(),
                is_published: None,
            },
            1,
        )
        .expect("create must succeed");
    let outcome = svc.update_note(
        created.id,
        UpdateNoteSchema {
            title: Some("X".to_owned()),
            content: None,
            is_published: None,
        },
        2,
    );
    let env = update_envelope(outcome);
    assert_eq!(env.code, 200);
    assert_eq!(env.message, "Note updated successfully");
    assert_eq!(env.data.expect("note must be returned").title, "X");
}
