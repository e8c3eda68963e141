use bitbrowser_core::cache::{
    cache_dir, path_cache_file, port_cache_file, port_from_cache_content, PathCache, PortCache,
};
use bitbrowser_core::launcher::{
    launch_result_after_spawn, launch_result_without_spawn, plan_launch, LaunchPlan,
};
use bitbrowser_core::locations::{
    common_dir_candidates, drive_candidates, is_shortcut_match, user_dir_candidates,
};
use bitbrowser_core::numbers::u16_to_dec_bytes;
use bitbrowser_core::registry::{icon_exe_candidate, registry_entry_matches};
use bitbrowser_core::resolver::{
    deep_search_step, is_skipped_dir, pick_exe_from, DeepSearchStep, ResolveStep, Resolver,
    SearchBudget, Strategy, DEEP_SEARCH_TIMEOUT_MS,
};

#[test]
fn cache_round_trip_and_staleness() {
    // Writing a path then reading it back while it exists returns it.
    let mut cache = PathCache::new(None);
    cache.write("C:\\Apps\\BitBrowser.exe".to_string());
    assert_eq!(cache.read(true), Some("C:\\Apps\\BitBrowser.exe".to_string()));
    // The entry survives a valid read.
    assert_eq!(cache.read(true), Some("C:\\Apps\\BitBrowser.exe".to_string()));
    // Once the path is gone from disk, the read returns absent and the
    // entry is removed.
    assert_eq!(cache.read(false), None);
    assert_eq!(cache.read(true), None);
}

#[test]
fn cache_clear_discards_the_entry() {
    let mut cache = PathCache::new(Some("C:\\x.exe".to_string()));
    cache.clear();
    assert_eq!(cache.read(true), None);
}

#[test]
fn port_cache_round_trip() {
    let mut cache = PortCache::new(None);
    cache.write(54345);
    assert_eq!(cache.read(true), Some(54345));
    assert_eq!(cache.read(false), None);
    assert_eq!(cache.read(true), None);
    // The backing file stores the decimal rendering; parsing it back,
    // whitespace included, yields the port.
    let mut content = u16_to_dec_bytes(54345);
    content.push(b'\n');
    assert_eq!(port_from_cache_content(&content), Some(54345));
    assert_eq!(port_from_cache_content(b"garbage"), None);
}

#[test]
fn cache_files_sit_under_the_home_directory() {
    assert_eq!(cache_dir("C:\\Users\\u"), "C:\\Users\\u\\.bitbrowser");
    assert_eq!(
        path_cache_file("C:\\Users\\u"),
        "C:\\Users\\u\\.bitbrowser\\bitbrowser_path_cache.txt"
    );
    assert_eq!(
        port_cache_file("C:\\Users\\u"),
        "C:\\Users\\u\\.bitbrowser\\bitbrowser_port_cache.txt"
    );
}

#[test]
fn resolver_tries_strategies_in_order() {
    let mut r = Resolver::new();
    assert!(matches!(r.pending(), Strategy::CacheLookup));
    let expected = [
        Strategy::ProcessScan,
        Strategy::RegistrySearch,
        Strategy::CommonDirectories,
        Strategy::StartMenuSearch,
        Strategy::DeepSearch,
    ];
    for s in expected {
        match r.advance(None) {
            ResolveStep::Try(next) => assert_eq!(next, s),
            _ => panic!("pipeline ended early"),
        }
    }
    match r.advance(None) {
        ResolveStep::Finished { path, cache_update } => {
            assert_eq!(path, None);
            assert!(!cache_update);
        },
        _ => panic!("pipeline should be over"),
    }
}

#[test]
fn resolver_short_circuits_on_a_cache_hit() {
    // A valid cached path ends the pipeline at once, and is not written
    // back to the cache it came from.
    let mut r = Resolver::new();
    assert!(matches!(r.pending(), Strategy::CacheLookup));
    match r.advance(Some("C:\\Apps\\BitBrowser.exe".to_string())) {
        ResolveStep::Finished { path, cache_update } => {
            assert_eq!(path, Some("C:\\Apps\\BitBrowser.exe".to_string()));
            assert!(!cache_update);
        },
        _ => panic!("cache hit must finish the pipeline"),
    }
}

#[test]
fn resolver_caches_what_later_strategies_find() {
    let mut r = Resolver::new();
    assert!(matches!(r.advance(None), ResolveStep::Try(Strategy::ProcessScan)));
    match r.advance(Some("D:\\BitBrowser\\BitBrowser.exe".to_string())) {
        ResolveStep::Finished { path, cache_update } => {
            assert_eq!(path, Some("D:\\BitBrowser\\BitBrowser.exe".to_string()));
            assert!(cache_update);
        },
        _ => panic!("a found path must finish the pipeline"),
    }
}

#[test]
fn directory_pick_respects_candidate_order() {
    let present = vec!["bitbrowser.exe".to_string(), "BitBrowser.exe".to_string()];
    assert_eq!(
        pick_exe_from("C:\\dir", &present),
        Some("C:\\dir\\BitBrowser.exe".to_string())
    );
    let present = vec!["readme.txt".to_string(), "bitbrowser.exe".to_string()];
    assert_eq!(
        pick_exe_from("C:\\dir", &present),
        Some("C:\\dir\\bitbrowser.exe".to_string())
    );
    assert_eq!(pick_exe_from("C:\\dir", &vec!["readme.txt".to_string()]), None);
    assert_eq!(pick_exe_from("C:\\dir", &Vec::new()), None);
}

#[test]
fn candidate_locations_are_complete() {
    let user = user_dir_candidates("C:\\Users\\u");
    assert_eq!(user.len(), 8);
    assert_eq!(user[0], "C:\\Users\\u\\AppData\\Local\\BitBrowser");
    assert_eq!(user[4], "C:\\Users\\u\\Desktop\\BitBrowser");

    let common = common_dir_candidates("C:\\");
    assert_eq!(common.len(), 12);
    assert_eq!(common[0], "C:\\Program Files\\BitBrowser");
    assert_eq!(common[4], "C:\\BitBrowser");

    let drives = drive_candidates();
    assert_eq!(drives.len(), 26);
    assert_eq!(drives[0], "A:\\");
    assert_eq!(drives[2], "C:\\");
    assert_eq!(drives[25], "Z:\\");
}

#[test]
fn deep_search_skips_system_directories() {
    assert!(is_skipped_dir("Windows"));
    assert!(is_skipped_dir("$RECYCLE.BIN"));
    assert!(is_skipped_dir("System Volume Information"));
    assert!(is_skipped_dir("RECYCLER"));
    assert!(!is_skipped_dir("BitBrowser"));
    assert!(!is_skipped_dir("Program Files"));
}

#[test]
fn deep_search_halts_once_the_budget_is_spent() {
    assert_eq!(DEEP_SEARCH_TIMEOUT_MS, 60000);
    let budget = SearchBudget::new(1000, DEEP_SEARCH_TIMEOUT_MS);
    assert!(!budget.spent(1000));
    assert!(!budget.spent(60999));
    assert!(budget.spent(61000));
    assert!(budget.spent(u64::MAX));
    // A walk over arbitrarily many entries stops at the first boundary
    // after the deadline, whatever the directory is.
    let spent = SearchBudget::new(0, 0);
    let mut boundaries = 0u32;
    for name in ["dir0", "Windows", "dir1", "dir2"] {
        boundaries += 1;
        match deep_search_step(&spent, 5, name) {
            DeepSearchStep::Halt => break,
            _ => panic!("a spent budget must halt the walk"),
        }
    }
    assert_eq!(boundaries, 1);
}

#[test]
fn shortcut_names_match_on_keyword_and_extension() {
    assert!(is_shortcut_match("BitBrowser.lnk", "bitbrowser"));
    assert!(is_shortcut_match("比特浏览器.LNK", "比特浏览器"));
    assert!(!is_shortcut_match("BitBrowser.txt", "bitbrowser"));
    assert!(!is_shortcut_match("Chrome.lnk", "bitbrowser"));
}

#[test]
fn launch_planning_orders_its_sources() {
    assert!(matches!(plan_launch(true, None, None), LaunchPlan::AlreadyRunning));
    match plan_launch(false, Some("C:\\a.exe".to_string()), Some("C:\\b.exe".to_string())) {
        LaunchPlan::Start { path } => assert_eq!(path, "C:\\a.exe"),
        _ => panic!("explicit path must win"),
    }
    match plan_launch(false, None, Some("C:\\b.exe".to_string())) {
        LaunchPlan::Start { path } => assert_eq!(path, "C:\\b.exe"),
        _ => panic!("resolved path must be used"),
    }
    assert!(matches!(plan_launch(false, None, None), LaunchPlan::NoPath));
}

#[test]
fn launch_results_follow_the_plan() {
    let r = launch_result_without_spawn(&LaunchPlan::AlreadyRunning).unwrap();
    assert!(r.success);
    let r = launch_result_without_spawn(&LaunchPlan::NoPath).unwrap();
    assert!(!r.success);
    assert!(
        launch_result_without_spawn(&LaunchPlan::Start { path: "C:\\a.exe".to_string() }).is_none()
    );

    let (ok, clear) = launch_result_after_spawn(&None);
    assert!(ok.success);
    assert!(!clear);
    let (failed, clear) = launch_result_after_spawn(&Some("no such file".to_string()));
    assert!(!failed.success);
    assert_eq!(failed.message, "launch failed: no such file");
    // A failed spawn invalidates the cached path.
    assert!(clear);
}

#[test]
fn registry_icon_values_yield_executables() {
    assert!(registry_entry_matches("BitBrowser 5.0"));
    assert!(registry_entry_matches("比特浏览器"));
    assert!(!registry_entry_matches("Google Chrome"));
    assert_eq!(
        icon_exe_candidate("\"C:\\Apps\\BitBrowser.exe\""),
        Some("C:\\Apps\\BitBrowser.exe".to_string())
    );
    assert_eq!(
        icon_exe_candidate("C:\\Apps\\BitBrowser.exe"),
        Some("C:\\Apps\\BitBrowser.exe".to_string())
    );
    assert_eq!(icon_exe_candidate("\"C:\\Apps\\icon.ico\""), None);
    assert_eq!(icon_exe_candidate("\"\""), None);
}

#[test]
fn port_cache_content_tolerates_surrounding_whitespace() {
    assert_eq!(port_from_cache_content(b"  54345 \r\n"), Some(54345));
    assert_eq!(port_from_cache_content(b"\n"), None);
    assert_eq!(port_from_cache_content(b""), None);
    assert_eq!(port_from_cache_content(b"70000"), None);
}
