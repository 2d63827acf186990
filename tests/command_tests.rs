use url_uploader::command::parse_command;
use url_uploader::routing::{route, route_command, same_text, ChatKind, Route};

#[test]
fn parses_bare_command() {
    let c = parse_command("/start").unwrap();
    assert_eq!(c.name, "start");
    assert_eq!(c.via, None);
    assert_eq!(c.arg, None);
}

#[test]
fn parses_bot_name() {
    let c = parse_command("/help@MyBot").unwrap();
    assert_eq!(c.name, "help");
    assert_eq!(c.via.as_deref(), Some("MyBot"));
    assert_eq!(c.arg, None);
}

#[test]
fn parses_argument_after_first_space() {
    let c = parse_command("/echo hello world").unwrap();
    assert_eq!(c.name, "echo");
    assert_eq!(c.via, None);
    assert_eq!(c.arg.as_deref(), Some("hello world"));
}

#[test]
fn bot_name_only_from_first_word() {
    let c = parse_command("/upload@Bot@x https://a@b").unwrap();
    assert_eq!(c.name, "upload");
    assert_eq!(c.via.as_deref(), Some("Bot@x"));
    assert_eq!(c.arg.as_deref(), Some("https://a@b"));
}

#[test]
fn rejects_text_without_slash() {
    assert!(parse_command("hello").is_none());
    assert!(parse_command("").is_none());
    assert!(parse_command(" /start").is_none());
}

#[test]
fn lone_slash_has_empty_name() {
    let c = parse_command("/").unwrap();
    assert_eq!(c.name, "");
    assert_eq!(c.via, None);
    assert_eq!(c.arg, None);
}

#[test]
fn trailing_space_gives_empty_argument() {
    let c = parse_command("/upload ").unwrap();
    assert_eq!(c.name, "upload");
    assert_eq!(c.arg.as_deref(), Some(""));
}

#[test]
fn non_ascii_text_is_split_by_characters() {
    let c = parse_command("/загрузить@Бот ссылка").unwrap();
    assert_eq!(c.name, "загрузить");
    assert_eq!(c.via.as_deref(), Some("Бот"));
    assert_eq!(c.arg.as_deref(), Some("ссылка"));
}

#[test]
fn compares_texts() {
    assert!(same_text("start", "start"));
    assert!(!same_text("start", "Start"));
    assert!(!same_text("start", "star"));
    assert!(same_text("", ""));
}

#[test]
fn bare_start_in_group_is_ignored() {
    assert!(matches!(route("/start", ChatKind::Group, "UploadBot"), Route::Ignore));
}

#[test]
fn start_in_private_chat() {
    assert!(matches!(route("/start", ChatKind::User, "UploadBot"), Route::Start));
}

#[test]
fn bot_name_matches_ignoring_case() {
    assert!(matches!(route("/start@uploadbot", ChatKind::Group, "UploadBot"), Route::Start));
}

#[test]
fn command_for_another_bot_is_ignored() {
    assert!(matches!(route("/upload@OtherBot https://x.org/a", ChatKind::Group, "UploadBot"), Route::Ignore));
}

#[test]
fn upload_carries_url_text() {
    match route("/upload https://example.org/file.zip", ChatKind::Group, "UploadBot") {
        Route::Upload(u) => assert_eq!(u, "https://example.org/file.zip"),
        _ => panic!("expected an upload"),
    }
}

#[test]
fn upload_without_url_is_input_error() {
    assert!(matches!(route("/upload", ChatKind::Group, "UploadBot"), Route::MissingUrl));
}

#[test]
fn plain_text_in_private_chat_is_tried_as_url() {
    assert!(matches!(route("https://example.org/a.bin", ChatKind::User, "UploadBot"), Route::TryUrl));
    assert!(matches!(route("/unknown", ChatKind::User, "UploadBot"), Route::TryUrl));
}

#[test]
fn plain_text_in_group_is_ignored() {
    assert!(matches!(route("https://example.org/a.bin", ChatKind::Group, "UploadBot"), Route::Ignore));
}

#[test]
fn other_chats_are_ignored() {
    assert!(matches!(route("/start", ChatKind::Other, "UploadBot"), Route::Ignore));
}

#[test]
fn unaddressed_command_is_ignored() {
    let c = parse_command("/start@Someone");
    assert!(matches!(route_command(ChatKind::User, c, false), Route::Ignore));
    let c = parse_command("/start@Someone");
    assert!(matches!(route_command(ChatKind::Group, c, true), Route::Start));
}
