use tapfer::error::TapferError;
use tapfer::file_meta::{FileMeta, FileMetaBuilder, FileSize, RemovalPolicy, Span, Timestamp};
use tapfer::tapfer_id::TapferId;

const SAMPLE: &str = "67e55044-10b1-426f-9247-bb680e5fe0c8";

#[test]
fn id_text_is_lower_case_hyphenated() {
    let id = TapferId::from_id(0x67e5504410b1426f9247bb680e5fe0c8);
    assert_eq!(id.to_text(), SAMPLE);
}

#[test]
fn id_parses_and_round_trips() {
    let id = TapferId::from_str(SAMPLE).unwrap();
    assert_eq!(id.as_u128(), 0x67e5504410b1426f9247bb680e5fe0c8);
    assert_eq!(TapferId::from_str(&id.to_text()).unwrap(), id);
}

#[test]
fn id_parses_upper_case_text() {
    let id = TapferId::from_str(SAMPLE).unwrap();
    let upper = TapferId::from_str(&SAMPLE.to_ascii_uppercase()).unwrap();
    assert_eq!(id, upper);
}

#[test]
fn random_ids_round_trip() {
    let a = TapferId::new_random();
    let b = TapferId::new_random();
    assert_ne!(a, b);
    assert_eq!(TapferId::from_str(&a.to_text()).unwrap(), a);
}

#[test]
fn invalid_id_text_is_refused() {
    assert!(matches!(TapferId::from_str("not-an-id"), Err(TapferError::InvalidId)));
    assert!(matches!(TapferId::from_str(""), Err(TapferError::InvalidId)));
}

#[test]
fn dynamic_size_grows() {
    let mut s = FileSize::Dynamic(0);
    s.add_size(10).unwrap();
    s.add_size(5).unwrap();
    assert_eq!(s.current_size(), 15);
}

#[test]
fn known_size_refuses_additions() {
    let mut s = FileSize::AlreadyKnown(100);
    assert!(matches!(s.add_size(1), Err(TapferError::AddSizeToAlreadyKnown)));
    assert_eq!(s, FileSize::AlreadyKnown(100));
    assert_eq!(s.current_size(), 100);
}

#[test]
fn builder_defaults_to_single_download() {
    let at = Timestamp::from_unix_nanos(5);
    let meta = FileMetaBuilder::default().build_at("a.txt".to_owned(), "text/plain".to_owned(), None, at);
    assert_eq!(meta.name(), "a.txt");
    assert_eq!(meta.content_type(), "text/plain");
    assert_eq!(meta.size, FileSize::Dynamic(0));
    assert_eq!(meta.known_size(), None);
    assert!(meta.remove_after_download());
    assert_eq!(meta.expires_on(), None);
    assert_eq!(meta.created(), at);
}

#[test]
fn builder_keeps_declared_size_and_expiry() {
    let builder = FileMetaBuilder {
        expiration: Some(RemovalPolicy::Expiry { after: Span::hours(24) }),
        in_progress_token: None,
    };
    let at = Timestamp::from_unix_nanos(1_000);
    let mut meta = builder.build_at("b".to_owned(), "x/y".to_owned(), Some(77), at);
    assert_eq!(meta.known_size(), Some(77));
    assert_eq!(meta.size(), 77);
    assert!(!meta.remove_after_download());
    assert_eq!(meta.expires_on(), Some(Timestamp::from_unix_nanos(1_000 + 86_400_000_000_000)));
    assert!(matches!(meta.add_size(3), Err(TapferError::AddSizeToAlreadyKnown)));
}

#[test]
fn default_policy_is_created_now() {
    let meta = FileMeta::default_policy("c".to_owned(), "d/e".to_owned(), Some(4));
    assert_eq!(meta.removal_policy(), RemovalPolicy::SingleDownload);
    let now = Timestamp::now();
    assert!(meta.created().unix_nanos <= now.unix_nanos);
    assert!(meta.created().unix_nanos > 1_600_000_000 * 1_000_000_000);
}

#[test]
fn spans_in_nanoseconds() {
    assert_eq!(Span::seconds(60).nanos, 60_000_000_000);
    assert_eq!(Span::hours(1).nanos, 3_600_000_000_000);
    assert_eq!(Span::hours(-2).nanos, -7_200_000_000_000);
}

#[test]
fn dynamic_size_reaches_the_largest_size() {
    let mut s = FileSize::Dynamic(u64::MAX - 5);
    s.add_size(5).unwrap();
    assert_eq!(s.current_size(), u64::MAX);
}

#[test]
fn random_ids_are_version_4() {
    for _ in 0..20 {
        let v = TapferId::new_random().as_u128();
        assert_eq!((v >> 76) & 0xf, 4);
        assert_eq!((v >> 62) & 0x3, 2);
    }
}
