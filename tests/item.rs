use notifier_host::item::{Item, ItemError, Popup};
use notifier_host::status::Status;

#[test]
fn new_item_pops_up_remotely() {
    let item: Item<&str, u32> = Item::from_proxy("proxy");
    assert_eq!(item.sni, "proxy");
    assert_eq!(item.popup_menu(10, -4), Popup::Remote(10, -4));
}

#[test]
fn status_transport_failure_is_transport_error() {
    let item: Item<(), u32> = Item::from_proxy(());
    let r = item.status(Err::<String, &str>("timeout"));
    assert_eq!(r, Err(ItemError::Transport("timeout")));
}

#[test]
fn status_banana_is_invalid_status() {
    let item: Item<(), u32> = Item::from_proxy(());
    let r = item.status(Ok::<String, &str>("Banana".to_string()));
    assert_eq!(r, Err(ItemError::InvalidStatus("Banana".to_string())));
}

#[test]
fn status_valid_reply_parses() {
    let item: Item<(), u32> = Item::from_proxy(());
    let r = item.status(Ok::<String, &str>("NeedsAttention".to_string()));
    assert_eq!(r, Ok(Status::NeedsAttention));
}

#[test]
fn set_menu_then_popup_is_local() {
    let mut item: Item<(), u32> = Item::from_proxy(());
    assert_eq!(item.set_menu(Ok::<u32, &str>(7)), Ok(()));
    assert_eq!(item.popup_menu(1, 2), Popup::Local(&7));
}

#[test]
fn set_menu_replaces_earlier_menu() {
    let mut item: Item<(), u32> = Item::from_proxy(());
    assert_eq!(item.set_menu(Ok::<u32, &str>(7)), Ok(()));
    assert_eq!(item.set_menu(Ok::<u32, &str>(9)), Ok(()));
    assert_eq!(item.popup_menu(1, 2), Popup::Local(&9));
}

#[test]
fn failed_set_menu_keeps_cached_menu() {
    let mut item: Item<(), u32> = Item::from_proxy(());
    assert_eq!(item.set_menu(Ok::<u32, &str>(7)), Ok(()));
    assert_eq!(item.set_menu(Err::<u32, &str>("gone")), Err(ItemError::Transport("gone")));
    assert_eq!(item.popup_menu(3, 4), Popup::Local(&7));
}

#[test]
fn failed_set_menu_without_menu_stays_remote() {
    let mut item: Item<(), u32> = Item::from_proxy(());
    assert_eq!(item.set_menu(Err::<u32, &str>("gone")), Err(ItemError::Transport("gone")));
    assert_eq!(item.popup_menu(i32::MIN, i32::MAX), Popup::Remote(i32::MIN, i32::MAX));
}

#[test]
fn icon_failure_gives_none() {
    let item: Item<(), u32> = Item::from_proxy(());
    assert_eq!(item.icon(Err::<Vec<u8>, &str>("undecodable")), None);
}

#[test]
fn icon_success_is_passed_on() {
    let item: Item<(), u32> = Item::from_proxy(());
    assert_eq!(item.icon(Ok::<Vec<u8>, &str>(vec![1, 2, 3])), Some(vec![1, 2, 3]));
}
