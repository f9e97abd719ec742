use arena::protocol::{ArenaMethod, ArenaResult, FrontendCommand};
use arena::registry::{
    cancelled_message, next_id, resolve_arena, resolve_file_error, resolve_file_success, FileData,
    PendingRequests,
};

#[test]
fn next_id_counts_up_and_wraps() {
    let mut counter: u32 = 1;
    assert_eq!(next_id(&mut counter), 1);
    assert_eq!(next_id(&mut counter), 2);
    assert_eq!(counter, 3);
    let mut top: u32 = u32::MAX;
    assert_eq!(next_id(&mut top), u32::MAX);
    assert_eq!(top, 0);
}

#[test]
fn arena_request_is_numbered_and_answered_once() {
    let mut pending: PendingRequests<&str, &str> = PendingRequests::new();
    let first = pending.begin_arena_request("a", ArenaMethod::GetItem { guid: "G1".to_string() });
    let second = pending.begin_arena_request("b", ArenaMethod::GetLifecyclePhases);
    assert_eq!(
        first,
        FrontendCommand::ArenaRequest {
            request_id: 1,
            method: ArenaMethod::GetItem { guid: "G1".to_string() }
        }
    );
    assert_eq!(
        second,
        FrontendCommand::ArenaRequest { request_id: 2, method: ArenaMethod::GetLifecyclePhases }
    );
    let answer = resolve_arena(&mut pending, 2, ArenaResult::Success { json: "{}".to_string() });
    assert_eq!(answer, Some(("b", Ok("{}".to_string()))));
    let again = resolve_arena(&mut pending, 2, ArenaResult::Success { json: "{}".to_string() });
    assert_eq!(again, None);
    let error = resolve_arena(&mut pending, 1, ArenaResult::Error { message: "boom".to_string() });
    assert_eq!(error, Some(("a", Err("boom".to_string()))));
}

#[test]
fn unknown_answers_are_dropped() {
    let mut pending: PendingRequests<u8, u8> = PendingRequests::new();
    assert_eq!(resolve_arena(&mut pending, 7, ArenaResult::Error { message: "x".to_string() }), None);
    assert_eq!(resolve_file_error(&mut pending, 7, "x".to_string()), None);
}

#[test]
fn downloads_get_their_file_or_error() {
    let mut pending: PendingRequests<u8, &str> = PendingRequests::new();
    let command = pending.begin_download(
        "waiter",
        "ITEM".to_string(),
        "FILE".to_string(),
        "spec.pdf".to_string(),
    );
    assert_eq!(
        command,
        FrontendCommand::DownloadFile {
            request_id: 1,
            item_guid: "ITEM".to_string(),
            file_guid: "FILE".to_string(),
            file_name: "spec.pdf".to_string(),
        }
    );
    let got = resolve_file_success(
        &mut pending,
        1,
        "spec.pdf".to_string(),
        "AAEC".to_string(),
        "application/pdf".to_string(),
    );
    assert_eq!(
        got,
        Some((
            "waiter",
            Ok(FileData {
                file_name: "spec.pdf".to_string(),
                data_base64: "AAEC".to_string(),
                mime_type: "application/pdf".to_string(),
            })
        ))
    );
    assert_eq!(resolve_file_error(&mut pending, 1, "late".to_string()), None);
    pending.begin_download("second", "I".to_string(), "F".to_string(), "n".to_string());
    assert_eq!(
        resolve_file_error(&mut pending, 2, "Not logged in".to_string()),
        Some(("second", Err("Not logged in".to_string())))
    );
}

#[test]
fn queries_and_downloads_share_the_counter() {
    let mut pending: PendingRequests<u8, u8> = PendingRequests::new();
    pending.begin_arena_request(1, ArenaMethod::GetItemCategories);
    let command = pending.begin_download(2, "I".to_string(), "F".to_string(), "n".to_string());
    match command {
        FrontendCommand::DownloadFile { request_id, .. } => assert_eq!(request_id, 2),
        other => panic!("unexpected {other:?}"),
    }
    assert_eq!(resolve_arena(&mut pending, 2, ArenaResult::Error { message: "x".to_string() }), None);
}

#[test]
fn cancelled_requests_have_a_message() {
    assert_eq!(cancelled_message(), "Request cancelled");
}

#[test]
fn arena_result_round_trip() {
    let ok: Result<String, String> = Ok("[1,2]".to_string());
    let err: Result<String, String> = Err("no".to_string());
    assert_eq!(ArenaResult::from_outcome(ok.clone()).into_outcome(), ok);
    assert_eq!(ArenaResult::from_outcome(err.clone()).into_outcome(), err);
    assert_eq!(
        ArenaResult::from_outcome(Ok("x".to_string())),
        ArenaResult::Success { json: "x".to_string() }
    );
}
