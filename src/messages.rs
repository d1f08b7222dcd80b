use vstd::prelude::*;

verus! {

/// `prefix` followed by `detail`, as a new string.
fn prefixed(prefix: &str, detail: &str) -> (r: String)
    ensures
        r@ == prefix@ + detail@,
{
    String::from_str(prefix).concat(detail)
}

/// Reports the working directory, given as text.
pub fn current_dir_message(dir: &str) -> (r: String)
    ensures
        r@ == "当前目录为: "@ + dir@,
{
    prefixed("当前目录为: ", dir)
}

/// Reports that the working directory could not be read.
pub fn current_dir_error(reason: &str) -> (r: String)
    ensures
        r@ == "无法获取当前目录: "@ + reason@,
{
    prefixed("无法获取当前目录: ", reason)
}

/// Reports that the working directory could not be changed to `path`.
pub fn change_dir_error(path: &str, reason: &str) -> (r: String)
    ensures
        r@ == "无法切换到目录 '"@ + path@ + "': "@ + reason@,
{
    let r = prefixed("无法切换到目录 '", path);
    let r = r.concat("': ");
    r.concat(reason)
}

/// Reports that the system shell could not be started.
pub fn run_error(reason: &str) -> (r: String)
    ensures
        r@ == "执行命令失败: "@ + reason@,
{
    prefixed("执行命令失败: ", reason)
}

/// Reports a command that ran and failed, with what it printed.
pub fn command_failed_message(output: &str) -> (r: String)
    ensures
        r@ == "命令执行失败: "@ + output@,
{
    prefixed("命令执行失败: ", output)
}

/// Reports that the path of the running program could not be read.
pub fn exe_path_error(reason: &str) -> (r: String)
    ensures
        r@ == "无法获取可执行文件路径: "@ + reason@,
{
    prefixed("无法获取可执行文件路径: ", reason)
}

/// Reports that the path of the running program has no parent directory.
pub fn exe_dir_error() -> (r: String)
    ensures
        r@ == "无法获取可执行文件所在目录"@,
{
    String::from_str("无法获取可执行文件所在目录")
}

/// Reports that no candidate entry script exists; `path` is the one named.
pub fn script_missing_message(path: &str) -> (r: String)
    ensures
        r@ == "找不到Python脚本: "@ + path@,
{
    prefixed("找不到Python脚本: ", path)
}

/// Reports that the entry script could not be launched.
pub fn script_launch_error(reason: &str) -> (r: String)
    ensures
        r@ == "无法启动Python脚本: "@ + reason@,
{
    prefixed("无法启动Python脚本: ", reason)
}

/// Reports the launched interpreter process by its id, given as text.
pub fn process_started_message(pid: &str) -> (r: String)
    ensures
        r@ == "Python服务器已启动，进程ID: "@ + pid@,
{
    prefixed("Python服务器已启动，进程ID: ", pid)
}

/// Reports that the companion server was started, with the launcher's report.
pub fn server_started_message(report: &str) -> (r: String)
    ensures
        r@ == "Python服务器启动成功，进程ID: "@ + report@,
{
    prefixed("Python服务器启动成功，进程ID: ", report)
}

/// Reports that the companion server could not be started.
pub fn server_failed_message(reason: &str) -> (r: String)
    ensures
        r@ == "启动Python服务器失败: "@ + reason@,
{
    prefixed("启动Python服务器失败: ", reason)
}

/// Reports, as the application comes up, that the companion server did not start.
pub fn startup_failure_message(reason: &str) -> (r: String)
    ensures
        r@ == "Python服务器启动失败: "@ + reason@,
{
    prefixed("Python服务器启动失败: ", reason)
}

} // verus!
