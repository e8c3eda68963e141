use bitbrowser_core::config::{
    config_file_path, AccountData, AccountInfo, ConfigManager,
};
use bitbrowser_core::cookies::{detect_login_method, has_channels_cookie, CookieItem};
use bitbrowser_core::process::{
    get_running_bitbrowser_info, is_bitbrowser_running, kill_by_pid_verdict, kill_verdict,
    resolve_port_owner, target_pids, ProcessRecord,
};

fn account(nick: &str) -> AccountData {
    AccountData {
        account_info: AccountInfo {
            nickname: nick.to_string(),
            avatar: "http://example/avatar.png".to_string(),
            wechat_id: None,
            finder_username: Some("finder".to_string()),
            appuin: None,
        },
        updated_at: "2024-01-01".to_string(),
        login_method: None,
        login_time: None,
        link_token: None,
        last_sync_time: None,
    }
}

fn cookie(name: &str) -> CookieItem {
    CookieItem { name: name.to_string(), value: "v".to_string(), domain: None }
}

#[test]
fn string_settings_are_keyed() {
    let mut m = ConfigManager::new();
    assert_eq!(m.get_string("bitbrowser_path"), None);
    assert!(m.set_string("bitbrowser_path", "C:\\a.exe".to_string()).is_ok());
    assert!(m.set_string("username", "u1".to_string()).is_ok());
    assert_eq!(m.get_string("bitbrowser_path"), Some("C:\\a.exe".to_string()));
    assert_eq!(m.get_string("username"), Some("u1".to_string()));
    assert_eq!(m.get_string("bitbrowser_api"), None);
    assert_eq!(m.get_string("no_such_key"), None);
    match m.set_string("no_such_key", "x".to_string()) {
        Err(msg) => assert_eq!(msg, "unknown configuration key: no_such_key"),
        Ok(()) => panic!("unknown keys must be rejected"),
    }
}

#[test]
fn bool_settings_are_keyed() {
    let mut m = ConfigManager::new();
    assert_eq!(m.get_bool("member_mode"), None);
    assert!(m.set_bool("member_mode", true).is_ok());
    assert!(m.set_bool("filter_my_accounts", false).is_ok());
    assert_eq!(m.get_bool("member_mode"), Some(true));
    assert_eq!(m.get_bool("filter_my_accounts"), Some(false));
    assert_eq!(m.get_bool("bitbrowser_vip_mode"), None);
    assert!(m.set_bool("nope", true).is_err());
}

#[test]
fn accounts_are_stored_and_replaced_by_key() {
    let mut m = ConfigManager::new();
    assert!(m.get_account("b1").is_none());
    m.save_account("b1".to_string(), account("first")).unwrap();
    m.save_account("b2".to_string(), account("second")).unwrap();
    assert_eq!(m.get_account("b1").unwrap().account_info.nickname, "first");
    assert_eq!(m.get_account("b2").unwrap().account_info.nickname, "second");
    assert_eq!(m.get_all_accounts().len(), 2);

    // Saving under an existing key replaces, not duplicates.
    m.save_account("b1".to_string(), account("renamed")).unwrap();
    assert_eq!(m.get_all_accounts().len(), 2);
    assert_eq!(m.get_account("b1").unwrap().account_info.nickname, "renamed");
}

#[test]
fn accounts_are_deleted_by_key() {
    let mut m = ConfigManager::new();
    m.save_account("b1".to_string(), account("one")).unwrap();
    m.save_account("b2".to_string(), account("two")).unwrap();
    m.save_account("b3".to_string(), account("three")).unwrap();
    m.delete_account("b2").unwrap();
    assert!(m.get_account("b2").is_none());
    assert_eq!(m.get_all_accounts().len(), 2);
    m.delete_accounts(vec!["b1".to_string(), "b3".to_string(), "missing".to_string()]).unwrap();
    assert!(m.get_all_accounts().is_empty());
}

#[test]
fn config_path_is_under_the_data_directory() {
    assert_eq!(
        config_file_path("C:\\Users\\u\\AppData\\Local"),
        "C:\\Users\\u\\AppData\\Local\\com.toolbox.dev\\settings.json"
    );
}

#[test]
fn login_method_detection() {
    assert_eq!(detect_login_method(&[]), None);
    assert_eq!(
        detect_login_method(&[cookie("talent_token"), cookie("other")]),
        Some("shop_helper".to_string())
    );
    assert_eq!(
        detect_login_method(&[cookie("sessionid")]),
        Some("channels_helper".to_string())
    );
    // With no recognised cookie the channels flow is the default.
    assert_eq!(
        detect_login_method(&[cookie("unrelated")]),
        Some("channels_helper".to_string())
    );
}

#[test]
fn channels_cookie_detection() {
    assert!(has_channels_cookie(&[cookie("sessionid")]));
    assert!(has_channels_cookie(&[cookie("wxuin")]));
    assert!(!has_channels_cookie(&[cookie("talent_token")]));
    assert!(!has_channels_cookie(&[]));
}

fn record(pid: u32, name: &str, path: Option<&str>) -> ProcessRecord {
    ProcessRecord { pid, name: name.to_string(), exe_path: path.map(|p| p.to_string()) }
}

#[test]
fn snapshot_queries_find_the_target() {
    let procs = vec![
        record(1, "init", None),
        record(100, "chrome.exe", Some("C:\\chrome.exe")),
        record(4276, "BitBrowser.exe", Some("C:\\Apps\\BitBrowser.exe")),
        record(4300, "bitbrowser helper", None),
    ];
    assert!(is_bitbrowser_running(&procs));
    let info = get_running_bitbrowser_info(&procs).unwrap();
    assert!(info.is_running);
    assert_eq!(info.process_id, Some(4276));
    assert_eq!(info.path, Some("C:\\Apps\\BitBrowser.exe".to_string()));
    assert_eq!(target_pids(&procs), vec![4276, 4300]);

    let empty: Vec<ProcessRecord> = vec![record(1, "init", None)];
    assert!(!is_bitbrowser_running(&empty));
    assert!(get_running_bitbrowser_info(&empty).is_none());
    assert!(target_pids(&empty).is_empty());
}

#[test]
fn port_owner_resolution_by_pid() {
    let procs = vec![record(100, "otherapp.exe", None), record(4276, "BitBrowser.exe", None)];
    let owner = resolve_port_owner(&procs, 100).unwrap();
    assert_eq!(owner.process_id, 100);
    assert_eq!(owner.process_name, "otherapp.exe");
    assert!(resolve_port_owner(&procs, 9999).is_none());
}

#[test]
fn kill_verdict_reports_absence() {
    assert!(kill_verdict(true).is_ok());
    match kill_verdict(false) {
        Err(m) => assert_eq!(m, "no process of the target application found"),
        Ok(()) => panic!("nothing killed must be an error"),
    }
}

#[test]
fn kill_by_pid_reports_each_outcome() {
    let (ok, msg) = kill_by_pid_verdict(true, true, 4444);
    assert!(ok);
    assert_eq!(msg, "stopped process 4444");
    let (ok, msg) = kill_by_pid_verdict(true, false, 4444);
    assert!(!ok);
    assert_eq!(msg, "could not stop process 4444");
    let (ok, msg) = kill_by_pid_verdict(false, false, 9);
    assert!(!ok);
    assert_eq!(msg, "no process with pid 9");
}
