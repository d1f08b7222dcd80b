use shell_backend::launch::{
    find_python_executable, first_step, next_step, script_candidate, SearchStep, REPORTED_CANDIDATE,
    SCRIPT_CANDIDATES,
};
use shell_backend::messages::{
    change_dir_error, command_failed_message, current_dir_error, current_dir_message, exe_dir_error,
    exe_path_error, process_started_message, run_error, script_launch_error, script_missing_message,
    server_failed_message, server_started_message, startup_failure_message,
};

#[test]
fn candidates_in_search_order() {
    assert_eq!(SCRIPT_CANDIDATES, 4);
    let expected: [(&[&str], bool); 4] = [
        (&["python", "main.py"], false),
        (&["resources", "python", "main.py"], false),
        (&["data", "python", "main.py"], false),
        (&["src-tauri", "python", "main.py"], true),
    ];
    for (i, (segments, from_cwd)) in expected.iter().enumerate() {
        let c = script_candidate(i);
        assert_eq!(c.segments, segments.iter().map(|s| s.to_string()).collect::<Vec<_>>());
        assert_eq!(c.from_current_dir, *from_cwd);
    }
}

#[test]
fn search_uses_first_existing_candidate() {
    assert_eq!(first_step(), SearchStep::Probe(0));
    assert_eq!(next_step(0, true), SearchStep::Use(0));
    assert_eq!(next_step(0, false), SearchStep::Probe(1));
    assert_eq!(next_step(1, false), SearchStep::Probe(2));
    assert_eq!(next_step(2, true), SearchStep::Use(2));
    assert_eq!(next_step(2, false), SearchStep::Probe(3));
    assert_eq!(next_step(3, true), SearchStep::Use(3));
}

#[test]
fn search_without_script_names_data_candidate() {
    assert_eq!(REPORTED_CANDIDATE, 2);
    assert_eq!(next_step(3, false), SearchStep::Missing(2));
    let named = script_candidate(REPORTED_CANDIDATE);
    assert_eq!(named.segments[0], "data");
}

#[test]
fn interpreter_is_system_python() {
    assert_eq!(find_python_executable(), "python");
}

#[test]
fn directory_messages() {
    assert_eq!(current_dir_message("C:\\work"), "当前目录为: C:\\work");
    assert_eq!(current_dir_error("denied"), "无法获取当前目录: denied");
    assert_eq!(change_dir_error("x y", "not found"), "无法切换到目录 'x y': not found");
}

#[test]
fn command_messages() {
    assert_eq!(run_error("no shell"), "执行命令失败: no shell");
    assert_eq!(command_failed_message("oops"), "命令执行失败: oops");
}

#[test]
fn server_messages() {
    assert_eq!(exe_path_error("gone"), "无法获取可执行文件路径: gone");
    assert_eq!(exe_dir_error(), "无法获取可执行文件所在目录");
    assert_eq!(script_missing_message("\"/a/main.py\""), "找不到Python脚本: \"/a/main.py\"");
    assert_eq!(script_launch_error("denied"), "无法启动Python脚本: denied");
    assert_eq!(process_started_message("42"), "Python服务器已启动，进程ID: 42");
    assert_eq!(
        server_started_message("Python服务器已启动，进程ID: 42"),
        "Python服务器启动成功，进程ID: Python服务器已启动，进程ID: 42"
    );
    assert_eq!(server_failed_message("denied"), "启动Python服务器失败: denied");
    assert_eq!(startup_failure_message("denied"), "Python服务器启动失败: denied");
}
