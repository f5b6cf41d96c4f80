use amai_music_player::bridge::{
    metadata_response, music_files_response, route_request, wrap_response, BridgeRoute,
    RustOperation, RustResponse, GET_METADATA_ID, GET_MUSIC_FILES_ID,
};

#[test]
fn known_resources_route_to_their_handlers() {
    assert_eq!(route_request(GET_MUSIC_FILES_ID), BridgeRoute::MusicFiles);
    assert_eq!(route_request(GET_METADATA_ID), BridgeRoute::Metadata);
}

#[test]
fn unknown_resources_route_nowhere() {
    assert_eq!(route_request(0), BridgeRoute::Unknown);
    assert_eq!(route_request(-3), BridgeRoute::Unknown);
    assert_eq!(route_request(42), BridgeRoute::Unknown);
}

#[test]
fn default_response_refuses() {
    let r = RustResponse::default();
    assert!(!r.successful);
    assert_eq!(r.message, None);
    assert_eq!(r.blob, None);
}

#[test]
fn listing_answers_create_with_a_message() {
    let r = music_files_response(&RustOperation::Create, vec![9, 8, 7]);
    assert!(r.successful);
    assert_eq!(r.message, Some(vec![9, 8, 7]));
    assert_eq!(r.blob, None);
}

#[test]
fn listing_refuses_other_operations() {
    for op in [RustOperation::Read, RustOperation::Update, RustOperation::Delete] {
        let r = music_files_response(&op, vec![1]);
        assert_eq!(r, RustResponse::default());
    }
}

#[test]
fn metadata_answers_read_with_a_blob() {
    let r = metadata_response(&RustOperation::Read, vec![4, 5]);
    assert!(r.successful);
    assert_eq!(r.message, None);
    assert_eq!(r.blob, Some(vec![4, 5]));
}

#[test]
fn metadata_refuses_other_operations() {
    for op in [RustOperation::Create, RustOperation::Update, RustOperation::Delete] {
        let r = metadata_response(&op, vec![1]);
        assert_eq!(r, RustResponse::default());
    }
}

#[test]
fn responses_keep_their_interaction_id() {
    let response = metadata_response(&RustOperation::Read, vec![1, 2]);
    let unique = wrap_response(77, response.clone());
    assert_eq!(unique.id, 77);
    assert_eq!(unique.response, response);
}
