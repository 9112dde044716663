use tapfer::error::TapferError;
use tapfer::file_meta::{FileMetaBuilder, RemovalPolicy, Span};
use tapfer::pages::NotFound;
use tapfer::progress_tokens::{parse_progress_token, ProgressTokens};
use tapfer::tapfer_id::TapferId;
use tapfer::upload::{check_field_name, expiration_field, payload_names, upload_headers};
use tapfer::websocket::{forward_event, next_packet, wss_method, WsDestination, WsEvent, WsPacket};

#[test]
fn expiration_choices() {
    let mut b = FileMetaBuilder::default();
    expiration_field(None, &mut b).unwrap();
    assert_eq!(b.expiration, None);
    expiration_field(Some("single_download"), &mut b).unwrap();
    assert_eq!(b.expiration, Some(RemovalPolicy::SingleDownload));
    expiration_field(Some("24_hours"), &mut b).unwrap();
    assert_eq!(b.expiration, Some(RemovalPolicy::Expiry { after: Span::hours(24) }));
    match expiration_field(Some("forever"), &mut b) {
        Err(TapferError::InvalidExpiration(s)) => assert_eq!(s, "forever"),
        other => panic!("unexpected {other:?}"),
    }
    assert_eq!(b.expiration, Some(RemovalPolicy::Expiry { after: Span::hours(24) }));
}

#[test]
fn only_the_file_field_is_accepted() {
    assert!(check_field_name(Some("file")).is_ok());
    assert!(matches!(check_field_name(None), Err(TapferError::MultipartFieldNameMissing)));
    match check_field_name(Some("extra")) {
        Err(TapferError::UnknownMultipartField { field_name }) => assert_eq!(field_name, "extra"),
        other => panic!("unexpected {other:?}"),
    }
}

#[test]
fn payload_names_default_to_id_and_octet_stream() {
    let id = TapferId::from_id(0x67e5504410b1426f9247bb680e5fe0c8);
    let (name, mime) = payload_names(id, None, None);
    assert_eq!(name, "67e55044-10b1-426f-9247-bb680e5fe0c8");
    assert_eq!(mime, "application/octet-stream");
    let (name, mime) = payload_names(id, Some("cat.png"), Some("image/png"));
    assert_eq!(name, "cat.png");
    assert_eq!(mime, "image/png");
}

#[test]
fn websocket_scheme_by_host() {
    assert_eq!(wss_method("localhost:3000"), "ws");
    assert_eq!(wss_method("example.org"), "wss");
    assert_eq!(wss_method("localhost"), "wss");
}

#[test]
fn progress_events_are_rate_limited() {
    let progress = WsEvent::UploadProgress { progress: 1, total: 2 };
    assert!(!forward_event(&progress, 10, 33_000_000));
    assert!(forward_event(&progress, 33_000_000, 33_000_000));
    assert!(forward_event(&WsEvent::UploadComplete, 0, 33_000_000));
    let (packet, next) = next_packet(4, WsEvent::DeleteAsset);
    assert_eq!(packet, WsPacket { seq: 4, event: WsEvent::DeleteAsset });
    assert_eq!(next, 5);
    let id = TapferId::from_id(3);
    assert_eq!(WsDestination::from_id(id), WsDestination::Id(id));
    assert_eq!(WsDestination::from_deposit(8), WsDestination::Deposit(8));
}

#[test]
fn not_found_page_defaults() {
    let page = NotFound::default();
    assert_eq!(page.embed_image_url, "/static/favicon.ico");
    assert_eq!(page.embed_description, "making file transfers trivial");
}

#[test]
fn upload_headers_are_numbers() {
    assert_eq!(upload_headers(None, None).unwrap(), (None, None));
    assert_eq!(upload_headers(Some("1024"), Some("77")).unwrap(), (Some(1024), Some(77)));
    assert_eq!(upload_headers(Some("+0012"), Some("+0")).unwrap(), (Some(12), Some(0)));
    assert!(matches!(upload_headers(Some("+"), None), Err(TapferError::InvalidNumber)));
    assert!(matches!(upload_headers(Some(" 1"), None), Err(TapferError::InvalidNumber)));
    assert_eq!(upload_headers(Some("18446744073709551615"), None).unwrap(), (Some(u64::MAX), None));
    assert!(matches!(upload_headers(Some("ten"), None), Err(TapferError::InvalidNumber)));
    assert!(matches!(upload_headers(Some("18446744073709551616"), None), Err(TapferError::InvalidNumber)));
    assert!(matches!(upload_headers(None, Some("4294967296")), Err(TapferError::InvalidNumber)));
    assert!(matches!(upload_headers(Some("5"), Some("-1")), Err(TapferError::InvalidNumber)));
}

#[test]
fn progress_tokens_map_to_running_uploads() {
    let mut tokens = ProgressTokens::new();
    let id = TapferId::from_id(42);
    assert!(matches!(tokens.progress_token_to_id(7), Err(TapferError::TokenDoesNotExist(7))));
    tokens.insert(7, id);
    assert_eq!(tokens.progress_token_to_id(7).unwrap(), id);
    tokens.remove(7);
    assert!(matches!(tokens.progress_token_to_id(7), Err(TapferError::TokenDoesNotExist(7))));
}

#[test]
fn progress_token_text() {
    assert_eq!(parse_progress_token("123").unwrap(), 123);
    assert!(matches!(parse_progress_token("x1"), Err(TapferError::InvalidNumber)));
}
