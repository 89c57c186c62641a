use url_uploader::resource::{name_from_path, parse_url, url_path_bytes};
use url_uploader::routing::{
    is_cancel_payload, route_message, ChatKind, Command, MessageAction,
};

fn cmd(name: &[u8], via: Option<&[u8]>, arg: Option<&str>) -> Command {
    Command {
        name: name.to_vec(),
        via: via.map(|v| v.to_vec()),
        arg: arg.map(|a| a.to_string()),
    }
}

#[test]
fn start_greets_in_private() {
    let me = b"uploader_bot".to_vec();
    let action = route_message(ChatKind::Private, Some(cmd(b"start", None, None)), &me, "/start");
    assert!(matches!(action, MessageAction::Greet));
}

#[test]
fn bare_start_is_ignored_in_groups() {
    let me = b"uploader_bot".to_vec();
    let action = route_message(ChatKind::Group, Some(cmd(b"start", None, None)), &me, "/start");
    assert!(matches!(action, MessageAction::Ignore));
    // explicitly addressed to this bot it is served, in any casing
    let action = route_message(
        ChatKind::Group,
        Some(cmd(b"start", Some(b"Uploader_Bot"), None)),
        &me,
        "/start@Uploader_Bot",
    );
    assert!(matches!(action, MessageAction::Greet));
}

#[test]
fn commands_for_other_bots_are_ignored() {
    let me = b"uploader_bot".to_vec();
    let action = route_message(
        ChatKind::Group,
        Some(cmd(b"upload", Some(b"other_bot"), Some("https://example.com/f.bin"))),
        &me,
        "",
    );
    assert!(matches!(action, MessageAction::Ignore));
}

#[test]
fn upload_requires_an_argument() {
    let me = b"uploader_bot".to_vec();
    let action = route_message(ChatKind::Group, Some(cmd(b"upload", None, None)), &me, "/upload");
    assert!(matches!(action, MessageAction::AskForUrl));
}

#[test]
fn upload_rejects_a_malformed_url() {
    let me = b"uploader_bot".to_vec();
    let action = route_message(
        ChatKind::Private,
        Some(cmd(b"upload", None, Some("not a url"))),
        &me,
        "/upload not a url",
    );
    assert!(matches!(action, MessageAction::RejectInvalidUrl(_)));
}

#[test]
fn upload_accepts_an_absolute_url() {
    let me = b"uploader_bot".to_vec();
    let action = route_message(
        ChatKind::Group,
        Some(cmd(b"upload", None, Some("https://example.com/files/clip.mp4"))),
        &me,
        "/upload https://example.com/files/clip.mp4",
    );
    match action {
        MessageAction::BeginTransfer(url) => {
            assert_eq!(url.as_str(), "https://example.com/files/clip.mp4");
        }
        _ => panic!("expected a transfer"),
    }
}

#[test]
fn bare_url_in_private_starts_a_transfer() {
    let me = b"uploader_bot".to_vec();
    let action = route_message(ChatKind::Private, None, &me, "https://example.com/a.bin");
    assert!(matches!(action, MessageAction::BeginTransfer(_)));
    // not in a group
    let action = route_message(ChatKind::Group, None, &me, "https://example.com/a.bin");
    assert!(matches!(action, MessageAction::Ignore));
    // not when it does not parse
    let action = route_message(ChatKind::Private, None, &me, "hello there");
    assert!(matches!(action, MessageAction::Ignore));
}

#[test]
fn channels_are_never_served() {
    let me = b"uploader_bot".to_vec();
    let action = route_message(ChatKind::Other, Some(cmd(b"start", None, None)), &me, "/start");
    assert!(matches!(action, MessageAction::Ignore));
}

#[test]
fn only_the_cancel_payload_cancels() {
    assert!(is_cancel_payload(&b"cancel".to_vec()));
    assert!(!is_cancel_payload(&b"Cancel".to_vec()));
    assert!(!is_cancel_payload(&b"other".to_vec()));
}

#[test]
fn url_path_feeds_the_display_name() {
    let url = parse_url("https://example.com/files/clip.mp4").unwrap();
    let path = url_path_bytes(&url);
    assert_eq!(path, b"/files/clip.mp4".to_vec());
    assert_eq!(name_from_path(&path), b"clip.mp4".to_vec());
    // a URL that cannot be a base falls back to the generic name
    let url = parse_url("data:text/plain,HelloWorld").unwrap();
    assert_eq!(name_from_path(&url_path_bytes(&url)), b"file".to_vec());
    // percent-encoding is preserved, as the platform shows it
    let url = parse_url("https://example.com/countries/vi%E1%BB%87t%20nam").unwrap();
    assert_eq!(name_from_path(&url_path_bytes(&url)), b"vi%E1%BB%87t%20nam".to_vec());
    assert!(parse_url("no scheme").is_err());
}
