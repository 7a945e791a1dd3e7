use stud_bridge::clock::chrono_lite_timestamp;
use stud_bridge::plugin::{install_result, plugin_check_verdict};

#[test]
fn missing_file_is_not_installed() {
    let st = plugin_check_verdict(false, None, "/p/f.lua".to_string(), "/p".to_string());
    assert!(!st.installed);
    assert!(!st.is_current_version);
    assert_eq!(st.path, "/p/f.lua");
    assert_eq!(st.plugins_folder, "/p");
}

#[test]
fn present_file_with_matching_content_is_current() {
    let st = plugin_check_verdict(true, Some(true), "/p/f.lua".to_string(), "/p".to_string());
    assert!(st.installed);
    assert!(st.is_current_version);
}

#[test]
fn present_but_unreadable_file_counts_as_outdated() {
    let st = plugin_check_verdict(true, None, "/p/f.lua".to_string(), "/p".to_string());
    assert!(st.installed);
    assert!(!st.is_current_version);
}

#[test]
fn present_file_with_different_content_is_outdated() {
    let st = plugin_check_verdict(true, Some(false), "/p/f.lua".to_string(), "/p".to_string());
    assert!(st.installed);
    assert!(!st.is_current_version);
}

#[test]
fn install_record_reports_the_path() {
    let r = install_result("/p/f.lua".to_string());
    assert!(r.success);
    assert_eq!(r.path, "/p/f.lua");
    assert_eq!(
        r.message,
        "Plugin installed successfully. Restart Roblox Studio to load it."
    );
}

#[test]
fn clock_reads_after_the_epoch() {
    assert!(chrono_lite_timestamp() > 1_600_000_000_000);
}
