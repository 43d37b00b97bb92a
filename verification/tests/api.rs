use pyorion::api::clipboard::clipboard_api;
use pyorion::api::{register_api_instances, webview, ApiHandler};
use pyorion::api_manager::ApiManager;

#[test]
fn the_webview_methods_are_registered() {
    let mut manager = ApiManager::new();
    webview::register_api_instances(&mut manager);
    assert_eq!(manager.lookup("webview.isDevtoolsOpen"), Some(&ApiHandler::IsDevtoolsOpen));
    assert_eq!(manager.lookup("webview.openDevtools"), Some(&ApiHandler::OpenDevtools));
    assert_eq!(manager.lookup("webview.closeDevtools"), Some(&ApiHandler::CloseDevtools));
    assert_eq!(manager.lookup("webview.opendevtools"), None);
    assert_eq!(manager.lookup("clipboard.clear"), None);
}

#[test]
fn every_feature_module_is_registered() {
    let mut manager = ApiManager::new();
    register_api_instances(&mut manager);
    assert!(manager.is_registered("webview.isDevtoolsOpen"));
    assert!(manager.is_registered("webview.openDevtools"));
    assert!(manager.is_registered("webview.closeDevtools"));
    assert!(!manager.is_registered("doesNotExist"));
}

#[test]
fn the_clipboard_methods_are_registered() {
    let mut manager = ApiManager::new();
    clipboard_api(&mut manager);
    assert_eq!(manager.lookup("clipboard.set_text"), Some(&ApiHandler::ClipboardSetText));
    assert_eq!(manager.lookup("clipboard.get_text"), Some(&ApiHandler::ClipboardGetText));
    assert_eq!(manager.lookup("clipboard.clear"), Some(&ApiHandler::ClipboardClear));
    assert_eq!(manager.lookup("clipboard.set_image"), Some(&ApiHandler::ClipboardSetImage));
    assert_eq!(manager.lookup("clipboard.get_image"), Some(&ApiHandler::ClipboardGetImage));
    assert_eq!(manager.lookup("clipboard"), None);
}

#[test]
fn the_last_registration_of_a_name_wins() {
    let mut manager: ApiManager<u32> = ApiManager::new();
    assert_eq!(manager.lookup("ping"), None);
    manager.register_api("ping", 1);
    manager.register_api("pong", 2);
    manager.register_api("ping", 3);
    assert_eq!(manager.lookup("ping"), Some(&3));
    assert_eq!(manager.lookup("pong"), Some(&2));
    let mut overridden = ApiManager::new();
    register_api_instances(&mut overridden);
    overridden.register_api("webview.openDevtools", ApiHandler::CloseDevtools);
    assert_eq!(overridden.lookup("webview.openDevtools"), Some(&ApiHandler::CloseDevtools));
    assert_eq!(overridden.lookup("webview.closeDevtools"), Some(&ApiHandler::CloseDevtools));
}
