use notifier_host::address::{split_service_name, AddressError};

#[test]
fn slash_splits_at_first_slash() {
    let r = split_service_name(":1.50/org/ayatana/NotificationItem/nm_applet");
    assert_eq!(
        r,
        Ok((":1.50".to_string(), "/org/ayatana/NotificationItem/nm_applet".to_string()))
    );
}

#[test]
fn slash_path_keeps_leading_slash() {
    let (addr, path) = split_service_name("org.kde.foo/StatusNotifierItem").unwrap();
    assert_eq!(addr, "org.kde.foo");
    assert_eq!(path, "/StatusNotifierItem");
    assert!(path.starts_with('/'));
}

#[test]
fn slash_first_wins_over_colon() {
    let r = split_service_name("a:b/c:d/e");
    assert_eq!(r, Ok(("a:b".to_string(), "/c:d/e".to_string())));
}

#[test]
fn slash_alone_gives_empty_address_and_root_path() {
    assert_eq!(split_service_name("/"), Ok((String::new(), "/".to_string())));
}

#[test]
fn colon_takes_second_field() {
    let r = split_service_name("org.foo:1.50:extra");
    assert_eq!(r, Ok(("1.50".to_string(), "/StatusNotifierItem".to_string())));
}

#[test]
fn colon_unique_name_gives_default_path() {
    let r = split_service_name(":1.50");
    assert_eq!(r, Ok(("1.50".to_string(), "/StatusNotifierItem".to_string())));
}

#[test]
fn colon_trailing_gives_empty_address() {
    let r = split_service_name("abc:");
    assert_eq!(r, Ok((String::new(), "/StatusNotifierItem".to_string())));
}

#[test]
fn non_ascii_identifier_splits_by_characters() {
    let r = split_service_name("é:ü:x");
    assert_eq!(r, Ok(("ü".to_string(), "/StatusNotifierItem".to_string())));
}

#[test]
fn garbage_is_refused() {
    let r = split_service_name("garbage");
    assert_eq!(r, Err(AddressError { service: "garbage".to_string() }));
}

#[test]
fn empty_identifier_is_refused() {
    assert!(split_service_name("").is_err());
}
