use logig560::setup::{detect_launch_context_with, LaunchContext};

#[test]
fn detects_appimage_context_when_env_var_set() {
    let ctx = detect_launch_context_with(
        Some("/home/user/Downloads/G560.AppImage".to_string()),
        Some("/tmp/.mount_XXXX/usr/bin/logig560-gui".to_string()),
    );
    match ctx {
        LaunchContext::AppImage { appimage_path } => {
            assert_eq!(appimage_path, "/home/user/Downloads/G560.AppImage");
        }
        LaunchContext::DevBuild { .. } => panic!("expected AppImage context"),
    }
}

#[test]
fn detects_dev_build_when_no_appimage_env() {
    let ctx = detect_launch_context_with(
        None,
        Some("/home/user/proj/target/release/logig560-gui".to_string()),
    );
    match ctx {
        LaunchContext::DevBuild { cli_binary } => {
            assert_eq!(cli_binary, "/home/user/proj/target/release/logig560");
        }
        LaunchContext::AppImage { .. } => panic!("expected DevBuild context"),
    }
}

#[test]
fn dev_build_without_a_known_executable_uses_a_bare_service_name() {
    match detect_launch_context_with(None, None) {
        LaunchContext::DevBuild { cli_binary } => {
            assert_eq!(cli_binary, "logig560");
        }
        LaunchContext::AppImage { .. } => panic!("expected DevBuild context"),
    }
}

#[test]
fn dev_build_executable_without_a_parent_uses_a_bare_service_name() {
    match detect_launch_context_with(None, Some("/".to_string())) {
        LaunchContext::DevBuild { cli_binary } => {
            assert_eq!(cli_binary, "logig560");
        }
        LaunchContext::AppImage { .. } => panic!("expected DevBuild context"),
    }
}

#[test]
fn appimage_path_wins_even_without_a_known_executable() {
    match detect_launch_context_with(Some("/opt/G560.AppImage".to_string()), None) {
        LaunchContext::AppImage { appimage_path } => {
            assert_eq!(appimage_path, "/opt/G560.AppImage");
        }
        LaunchContext::DevBuild { .. } => panic!("expected AppImage context"),
    }
}
