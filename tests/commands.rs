use next_butler::error::{CommandError, NewFileError, StrHelperError};
use next_butler::remove::{
    rm_in_folder_target, rm_page_from_app_router, rm_page_from_page_router, rm_use_page_router,
};
use next_butler::sanitize::PathError;

#[test]
fn command_error_messages() {
    assert_eq!(
        CommandError::unknown_command(Some("foo")).message,
        "Unknown command foo. Use 'next-butler help' to see what you can do"
    );
    assert_eq!(
        CommandError::unknown_command(None).message,
        "Unknown command. Use 'next-butler help' to see what you can do"
    );
    assert_eq!(
        CommandError::wrong_location().message,
        "Can't run next-butler from outside of a next project's root folder"
    );
    assert_eq!(
        CommandError::invalid_file_type().message(),
        "Invalid file type. Use 'next-butler new --help' to see which are valid"
    );
    assert_eq!(StrHelperError::new("oops".to_string()).message(), "oops");
}

#[test]
fn new_file_error_messages() {
    assert_eq!(
        NewFileError::Path(PathError::NoName).message(),
        "Must specify a name"
    );
    assert_eq!(
        NewFileError::Path(PathError::InvalidChar('*')).message(),
        "Invalid character in the path: *"
    );
}

#[test]
fn page_removal_targets() {
    let home = rm_page_from_page_router("/", true).unwrap();
    assert_eq!(home.path, "src/pages/index");
    assert!(home.by_stem);
    let home = rm_page_from_app_router("/", false).unwrap();
    assert_eq!(home.path, "app/page");
    assert!(home.by_stem);
    let p = rm_page_from_page_router("/players", false).unwrap();
    assert_eq!(p.path, "pages/players");
    assert!(p.by_stem);
    let p = rm_page_from_app_router("../players", true).unwrap();
    assert_eq!(p.path, "src/app/players");
    assert!(!p.by_stem);
    assert_eq!(
        rm_page_from_app_router("..", true).unwrap_err(),
        PathError::NoName
    );
}

#[test]
fn removal_router_and_folders() {
    assert!(rm_use_page_router(false, true, None));
    assert!(rm_use_page_router(false, false, Some(true)));
    assert!(!rm_use_page_router(true, true, Some(true)));
    assert_eq!(rm_in_folder_target("components", "cards/x", true).unwrap(), "src/components/cards/x");
    assert_eq!(rm_in_folder_target("styles", "../../x", false).unwrap(), "styles/x");
}
