use mxu_core::webview2::ensure_webview2;
use mxu_core::webview2::extract::{
    copy_step, download_failure_message, expand_exit_message, extract_failure_message,
    refuses_runtime_dir, source_dir, system_dir_length_ok, CopyStep, DownloadFailure, Entry,
    ExtractFailure,
};
use mxu_core::webview2::install::{
    arch_mismatch_dialog, cab_file_name, disabled_dialog, download_failed_dialog, download_url,
    get_arch_info, get_webview2_runtime_dir, validate_runtime_dir, InstallAction, InstallEvent,
    InstallState, Outcome, ProgramDir, CACHE_DIR, GUID_ARM64, GUID_X64, RUNTIME_DIR,
    RUNTIME_ENV, RUNTIME_EXECUTABLE, WEBVIEW2_VERSION,
};
use mxu_core::webview2::local_cab::{arch_of_cab, runtime_cab, scan_local_cabs};

const X64_CAB: &str = "Microsoft.WebView2.FixedVersionRuntime.145.0.3800.65.x64.cab";
const ARM_CAB: &str = "Microsoft.WebView2.FixedVersionRuntime.145.0.3800.65.arm64.cab";

fn names(list: &[&str]) -> Vec<String> {
    list.iter().map(|n| n.to_string()).collect()
}

fn unsupported(arch: &str) -> String {
    format!(
        "不支持的 CPU 架构: {}。当前应用仅支持 64 位 Windows（x64、ARM64），请在 64 位系统上运行。",
        arch
    )
}

fn failed_text(error: &str, arch_label: &str, cab_name: &str) -> String {
    format!(
        "系统 WebView2 不可用，下载独立 WebView2 运行时失败：\r\n\
         {}\r\n\r\n\
         【方法一】检查网络连接后重启程序重试\r\n\r\n\
         【方法二】手动下载 cab 文件并放到程序同目录\r\n\
         1. 前往 https://aka.ms/webview2installer\r\n\
            选择 \"Fixed Version\" 下载对应架构（{}）的 cab 文件\r\n\
         2. 将下载的 cab 文件（文件名类似 {}）\r\n\
            放到本程序 exe 所在目录下\r\n\
         3. 重启程序，将自动检测并解压使用\r\n\r\n\
         【方法三】手动安装系统 WebView2 运行时\r\n\
         前往 https://aka.ms/webview2installer\r\n\
         下载 Evergreen Bootstrapper，运行安装后重启电脑即可",
        error, arch_label, cab_name
    )
}

fn failed_text_without_arch(error: &str, arch_err: &str) -> String {
    format!(
        "系统 WebView2 不可用，下载独立 WebView2 运行时失败：\r\n\
         {}\r\n\r\n\
         此外，无法判断当前系统架构：{}\r\n\r\n\
         【手动安装系统 WebView2 运行时】\r\n\
         前往 https://aka.ms/webview2installer\r\n\
         下载 Evergreen Bootstrapper，运行安装后重启电脑即可",
        error, arch_err
    )
}

fn step(arch: &str, state: InstallState, event: InstallEvent) -> (InstallState, InstallAction) {
    ensure_webview2(arch, state, &event)
}

fn failure_shown(next: &(InstallState, InstallAction), error: &str, arch: &str) {
    assert_eq!(next.0, InstallState::ShowingFailure);
    match &next.1 {
        InstallAction::ShowError(dialog) => {
            assert_eq!(dialog.title, "WebView2 下载失败");
            assert_eq!(dialog.message, download_failed_dialog(error, arch).message);
        }
        other => panic!("unexpected action {:?}", other),
    }
}

#[test]
fn arch_info_for_supported_architectures() {
    assert_eq!(get_arch_info("x86_64"), Ok(("x64", GUID_X64)));
    assert_eq!(get_arch_info("aarch64"), Ok(("arm64", GUID_ARM64)));
    assert_eq!(GUID_X64, "c411606c-d282-4304-8420-8ae6b1dd3e9a");
    assert_eq!(GUID_ARM64, "2d2cf37b-d24c-4c72-b5bc-e8061e7a7583");
    assert_eq!(WEBVIEW2_VERSION, "145.0.3800.65");
    assert_eq!(RUNTIME_ENV, "WEBVIEW2_BROWSER_EXECUTABLE_FOLDER");
}

#[test]
fn arch_info_for_other_architectures() {
    assert_eq!(get_arch_info("x86"), Err(unsupported("x86")));
    assert_eq!(get_arch_info(""), Err(unsupported("")));
    assert_eq!(get_arch_info("X86_64"), Err(unsupported("X86_64")));
}

#[test]
fn cab_name_and_url() {
    assert_eq!(cab_file_name("x64"), X64_CAB);
    assert_eq!(cab_file_name("arm64"), ARM_CAB);
    assert_eq!(
        download_url(GUID_X64, X64_CAB),
        format!(
            "https://msedge.sf.dl.delivery.mp.microsoft.com/filestreamingservice/files/{}/{}",
            "c411606c-d282-4304-8420-8ae6b1dd3e9a", X64_CAB
        )
    );
}

#[test]
fn runtime_dir_names_and_failures() {
    assert_eq!(CACHE_DIR, "cache");
    assert_eq!(RUNTIME_DIR, "webview2_runtime");
    assert_eq!(RUNTIME_EXECUTABLE, "msedgewebview2.exe");
    assert_eq!(get_webview2_runtime_dir(&ProgramDir::Found), Ok(("cache", "webview2_runtime")));
    assert_eq!(
        get_webview2_runtime_dir(&ProgramDir::NoProgramPath("x".to_string())),
        Err("获取程序路径失败: x".to_string())
    );
    assert_eq!(
        get_webview2_runtime_dir(&ProgramDir::NoProgramDirectory),
        Err("无法获取程序目录".to_string())
    );
}

#[test]
fn runtime_dir_needs_its_executable() {
    assert_eq!(validate_runtime_dir(true), Ok(()));
    assert_eq!(
        validate_runtime_dir(false),
        Err("解压后的 WebView2 运行时目录不完整（未找到 msedgewebview2.exe）。\n\
            请删除 cache/webview2_runtime/ 目录后重启程序重试。"
            .to_string())
    );
}

#[test]
fn download_failed_dialog_names_the_cabinet() {
    let dialog = download_failed_dialog("网络请求失败: timeout", "x86_64");
    assert_eq!(dialog.title, "WebView2 下载失败");
    assert_eq!(dialog.message, failed_text("网络请求失败: timeout", "x64", X64_CAB));
    let dialog = download_failed_dialog("e", "aarch64");
    assert_eq!(dialog.message, failed_text("e", "arm64", ARM_CAB));
}

#[test]
fn download_failed_dialog_without_architecture() {
    let dialog = download_failed_dialog("boom", "riscv64");
    assert_eq!(dialog.title, "WebView2 下载失败");
    assert_eq!(dialog.message, failed_text_without_arch("boom", &unsupported("riscv64")));
}

#[test]
fn arch_mismatch_dialog_text() {
    let dialog = arch_mismatch_dialog("arm64", "x64");
    assert_eq!(dialog.title, "WebView2 架构不匹配");
    assert_eq!(
        dialog.message,
        format!(
            "检测到本地 WebView2 运行时 cab 文件，但架构不匹配：\r\n\
             文件架构: {}\r\n\
             系统架构: {}\r\n\r\n\
             将忽略该文件并尝试在线下载正确版本。",
            "arm64", "x64"
        )
    );
}

#[test]
fn disabled_dialog_text() {
    let dialog = disabled_dialog("IFEO");
    assert_eq!(dialog.title, "系统 WebView2 已被禁用");
    assert_eq!(
        dialog.message,
        format!(
            "检测到系统 WebView2 已被禁用：\r\n{}\r\n\r\n\
             【什么是 WebView2？】\r\n\
             WebView2 是微软提供的网页渲染组件，本程序依赖它来\r\n\
             显示界面。如果 WebView2 被禁用，程序将无法正常运行。\r\n\r\n\
             【如何解决？】\r\n\
             方法一：如果使用了 Edge Blocker 等工具\r\n\
             - 打开 Edge Blocker，点击\"Unblock\"解除禁用\r\n\
             - 或删除注册表中的 IFEO 拦截项\r\n\r\n\
             方法二：修改组策略（需要管理员权限）\r\n\
             1. 按 Win + R，输入 gpedit.msc\r\n\
             2. 导航到：计算机配置 > 管理模板 > Microsoft Edge WebView2\r\n\
             3. 将相关策略设置为\"未配置\"或\"已启用\"\r\n\r\n\
             方法三：加入我们的 QQ 群，获取帮助和支持\r\n\
             - 群号可在我们的官网或文档底部找到\r\n\r\n\
             点击确定后将尝试下载独立 WebView2 运行时以继续运行。\r\n\
             若想恢复使用系统 WebView2，请删除 exe 目录下的 cache/webview2_runtime 文件夹",
            "IFEO"
        )
    );
}

#[test]
fn runtime_cab_names() {
    assert!(runtime_cab(X64_CAB));
    assert!(runtime_cab("Microsoft.WebView2.FixedVersionRuntime.cab"));
    assert!(!runtime_cab("Microsoft.WebView2.FixedVersionRuntime.x64.zip"));
    assert!(!runtime_cab("microsoft.webview2.fixedversionruntime.x64.cab"));
    assert!(!runtime_cab("other.cab"));
    assert_eq!(arch_of_cab(X64_CAB), "x64");
    assert_eq!(arch_of_cab(ARM_CAB), "arm64");
    assert_eq!(arch_of_cab("Microsoft.WebView2.FixedVersionRuntime.cab"), "FixedVersionRuntime");
}

#[test]
fn scan_finds_the_first_matching_cabinet() {
    let scan = scan_local_cabs(&names(&["readme.txt", X64_CAB, ARM_CAB, X64_CAB]), "x64");
    assert_eq!(scan.matched, Some(1));
    assert_eq!(scan.mismatched_arch, None);
}

#[test]
fn scan_ignores_ascii_case_of_the_architecture() {
    let upper = "Microsoft.WebView2.FixedVersionRuntime.1.X64.cab";
    let scan = scan_local_cabs(&names(&[upper]), "x64");
    assert_eq!(scan.matched, Some(0));
}

#[test]
fn scan_notes_the_last_mismatch_before_the_match() {
    let x86 = "Microsoft.WebView2.FixedVersionRuntime.1.x86.cab";
    let scan = scan_local_cabs(&names(&[x86, ARM_CAB, X64_CAB, x86]), "x64");
    assert_eq!(scan.matched, Some(2));
    assert_eq!(scan.mismatched_arch, Some("arm64".to_string()));
}

#[test]
fn scan_without_match_reports_the_last_mismatch() {
    let x86 = "Microsoft.WebView2.FixedVersionRuntime.1.x86.cab";
    let scan = scan_local_cabs(&names(&[ARM_CAB, "a.cab", x86, "b.txt"]), "x64");
    assert_eq!(scan.matched, None);
    assert_eq!(scan.mismatched_arch, Some("x86".to_string()));
}

#[test]
fn scan_of_nothing_relevant() {
    let scan = scan_local_cabs(&names(&["a.cab", "mxu.exe"]), "x64");
    assert_eq!(scan.matched, None);
    assert_eq!(scan.mismatched_arch, None);
    let scan = scan_local_cabs(&Vec::new(), "x64");
    assert_eq!(scan.matched, None);
    assert_eq!(scan.mismatched_arch, None);
}

#[test]
fn installed_system_runtime_ends_the_search() {
    let (s, a) = step("x86_64", InstallState::Start, InstallEvent::Begin);
    assert_eq!(s, InstallState::ProbingDisabled);
    assert!(matches!(a, InstallAction::ProbeDisabled));
    let (s, a) = step("x86_64", s, InstallEvent::DisabledProbed(None));
    assert_eq!(s, InstallState::ProbingInstalled);
    assert!(matches!(a, InstallAction::ProbeInstalled));
    let (s, a) = step("x86_64", s, InstallEvent::InstalledProbed(true));
    assert_eq!(s, InstallState::Finished(Outcome::SystemRuntime));
    assert!(matches!(a, InstallAction::Finish(Outcome::SystemRuntime)));
    assert!(Outcome::SystemRuntime.usable());
}

#[test]
fn disabled_runtime_is_reported_and_replaced_by_download() {
    let arch = "x86_64";
    let (s, a) = step(arch, InstallState::ProbingDisabled, InstallEvent::DisabledProbed(Some("policy".to_string())));
    assert_eq!(s, InstallState::ShowingDisabledNotice);
    match a {
        InstallAction::ShowError(dialog) => {
            assert_eq!(dialog.title, "系统 WebView2 已被禁用");
            assert_eq!(dialog.message, disabled_dialog("policy").message);
        }
        other => panic!("unexpected action {:?}", other),
    }
    let (s, a) = step(arch, s, InstallEvent::DialogClosed);
    assert_eq!(s, InstallState::LocatingRuntimeDir);
    assert!(matches!(a, InstallAction::LocateRuntimeDir));
    let (s, a) = step(arch, s, InstallEvent::RuntimeDirLocated(Ok(())));
    assert_eq!(s, InstallState::ListingProgramDir);
    assert!(matches!(a, InstallAction::ListProgramDir));
    let (s, a) = step(arch, s, InstallEvent::ProgramDirListed(Some(names(&["mxu.exe"]))));
    assert_eq!(s, InstallState::Downloading);
    match a {
        InstallAction::Download { url, cab_name } => {
            assert_eq!(cab_name, X64_CAB);
            assert_eq!(url, download_url(GUID_X64, X64_CAB));
        }
        other => panic!("unexpected action {:?}", other),
    }
    let (s, a) = step(arch, s, InstallEvent::DownloadFinished(Ok(())));
    assert_eq!(s, InstallState::ExtractingDownload);
    assert!(matches!(a, InstallAction::ExtractDownload));
    let (s, a) = step(arch, s, InstallEvent::CabExtracted(Ok(())));
    assert_eq!(s, InstallState::Validating);
    assert!(matches!(a, InstallAction::CheckRuntime));
    let (s, a) = step(arch, s, InstallEvent::RuntimeChecked(true));
    assert_eq!(s, InstallState::Finished(Outcome::LocalRuntime));
    assert!(matches!(a, InstallAction::Finish(Outcome::LocalRuntime)));
    assert!(Outcome::LocalRuntime.usable());
}

#[test]
fn local_cabinet_is_preferred() {
    let arch = "aarch64";
    let listing = names(&["mxu.exe", X64_CAB, ARM_CAB]);
    let (s, a) = step(arch, InstallState::ListingProgramDir, InstallEvent::ProgramDirListed(Some(listing)));
    assert_eq!(s, InstallState::ExtractingLocalCab);
    assert!(matches!(a, InstallAction::ExtractLocalCab { index: 2 }));
    let (s, a) = step(arch, s, InstallEvent::CabExtracted(Ok(())));
    assert_eq!(s, InstallState::Validating);
    assert!(matches!(a, InstallAction::CheckRuntime));
}

#[test]
fn broken_local_cabinet_falls_back_to_download() {
    let (s, a) = step(
        "x86_64",
        InstallState::ExtractingLocalCab,
        InstallEvent::CabExtracted(Err("corrupt".to_string())),
    );
    assert_eq!(s, InstallState::Downloading);
    assert!(matches!(a, InstallAction::Download { .. }));
}

#[test]
fn mismatched_cabinet_is_reported_then_download() {
    let arch = "x86_64";
    let (s, a) = step(arch, InstallState::ListingProgramDir, InstallEvent::ProgramDirListed(Some(names(&[ARM_CAB]))));
    assert_eq!(s, InstallState::ShowingArchMismatch);
    match a {
        InstallAction::ShowError(dialog) => {
            assert_eq!(dialog.title, "WebView2 架构不匹配");
            assert_eq!(dialog.message, arch_mismatch_dialog("arm64", "x64").message);
        }
        other => panic!("unexpected action {:?}", other),
    }
    let (s, a) = step(arch, s, InstallEvent::DialogClosed);
    assert_eq!(s, InstallState::Downloading);
    assert!(matches!(a, InstallAction::Download { .. }));
}

#[test]
fn unlisted_directory_goes_to_download() {
    let (s, a) = step("x86_64", InstallState::ListingProgramDir, InstallEvent::ProgramDirListed(None));
    assert_eq!(s, InstallState::Downloading);
    assert!(matches!(a, InstallAction::Download { .. }));
}

#[test]
fn failures_are_shown_before_the_search_ends() {
    let arch = "x86_64";
    let e = || Err("why".to_string());
    failure_shown(&step(arch, InstallState::LocatingRuntimeDir, InstallEvent::RuntimeDirLocated(e())), "why", arch);
    failure_shown(&step(arch, InstallState::Downloading, InstallEvent::DownloadFinished(e())), "why", arch);
    failure_shown(&step(arch, InstallState::ExtractingDownload, InstallEvent::CabExtracted(e())), "why", arch);
    let incomplete = validate_runtime_dir(false).unwrap_err();
    failure_shown(&step(arch, InstallState::Validating, InstallEvent::RuntimeChecked(false)), &incomplete, arch);
    let (s, a) = step(arch, InstallState::ShowingFailure, InstallEvent::DialogClosed);
    assert_eq!(s, InstallState::Finished(Outcome::Failed));
    assert!(matches!(a, InstallAction::Finish(Outcome::Failed)));
    assert!(!Outcome::Failed.usable());
}

#[test]
fn unsupported_architecture_fails_before_anything_is_unpacked() {
    let arch = "mips";
    let next = step(arch, InstallState::ProbingInstalled, InstallEvent::InstalledProbed(false));
    failure_shown(&next, &unsupported(arch), arch);
    let next = step(arch, InstallState::ShowingDisabledNotice, InstallEvent::DialogClosed);
    failure_shown(&next, &unsupported(arch), arch);
}

#[test]
fn unexpected_events_change_nothing() {
    let (s, a) = step("x86_64", InstallState::Start, InstallEvent::DialogClosed);
    assert_eq!(s, InstallState::Start);
    assert!(matches!(a, InstallAction::Nothing));
    let (s, a) = step("x86_64", InstallState::Downloading, InstallEvent::CabExtracted(Ok(())));
    assert_eq!(s, InstallState::Downloading);
    assert!(matches!(a, InstallAction::Nothing));
    let (s, a) = step("x86_64", InstallState::Finished(Outcome::Failed), InstallEvent::Begin);
    assert_eq!(s, InstallState::Finished(Outcome::Failed));
    assert!(matches!(a, InstallAction::Finish(Outcome::Failed)));
}

#[test]
fn system_dir_length() {
    assert!(!system_dir_length_ok(0));
    assert!(system_dir_length_ok(1));
    assert!(system_dir_length_ok(260));
    assert!(!system_dir_length_ok(261));
}

#[test]
fn runtime_dir_links_are_refused() {
    assert!(refuses_runtime_dir(true, 0));
    assert!(refuses_runtime_dir(false, 0x400));
    assert!(refuses_runtime_dir(false, 0x410));
    assert!(!refuses_runtime_dir(false, 0x10));
    assert!(!refuses_runtime_dir(false, 0));
}

#[test]
fn source_dir_is_the_first_payload_directory() {
    let entry = |name: &str, is_dir: bool| Entry { name: name.to_string(), is_dir };
    assert_eq!(source_dir(&Vec::new()), None);
    assert_eq!(
        source_dir(&vec![
            entry("Microsoft.WebView2.txt", false),
            entry("other", true),
            entry("Microsoft.WebView2.FixedVersionRuntime.1.x64", true),
            entry("Microsoft.WebView2.again", true),
        ]),
        Some(2)
    );
    assert_eq!(source_dir(&vec![entry("msedgewebview2.exe", false), entry("Locales", true)]), None);
}

#[test]
fn copy_steps() {
    assert_eq!(copy_step(true, true), CopyStep::Skip);
    assert_eq!(copy_step(true, false), CopyStep::Skip);
    assert_eq!(copy_step(false, true), CopyStep::Descend);
    assert_eq!(copy_step(false, false), CopyStep::CopyFile);
}

#[test]
fn expand_exit_messages() {
    assert_eq!(expand_exit_message(Some(2)), "解压失败，退出码: 2");
    assert_eq!(expand_exit_message(Some(-5)), "解压失败，退出码: -5");
    assert_eq!(expand_exit_message(None), "解压失败，退出码: -1");
}

#[test]
fn extract_failure_messages() {
    let e = |s: &str| s.to_string();
    let cases: Vec<(ExtractFailure, String)> = vec![
        (ExtractFailure::SystemDirUnknown, e("GetSystemDirectoryW 调用失败，无法获取系统目录")),
        (
            ExtractFailure::ExpandMissing { path: e("C:\\W\\expand.exe") },
            format!("未找到 expand.exe，请确认系统完整性。\n预期路径: {}", "C:\\W\\expand.exe"),
        ),
        (ExtractFailure::TempDir { why: e("x") }, e("创建临时目录失败: x")),
        (ExtractFailure::RunExpand { why: e("x") }, e("运行 expand.exe 失败: x")),
        (ExtractFailure::Metadata { why: e("x") }, e("读取运行时目录元数据失败: x")),
        (
            ExtractFailure::ReparsePoint { dir: e("D") },
            format!(
                "运行时目录 [{}] 是符号链接或重解析点，出于安全原因拒绝操作。\n\
                请手动删除该链接后重试。",
                "D"
            ),
        ),
        (
            ExtractFailure::RemoveOld { permission_denied: true, why: e("x") },
            format!(
                "删除旧的 WebView2 运行时目录失败，可能有正在运行的程序正在使用该目录。\n\n\
                    请关闭所有已运行的本应用实例后重试。\n\n系统错误: {}",
                "x"
            ),
        ),
        (
            ExtractFailure::RemoveOld { permission_denied: false, why: e("x") },
            e("删除旧的 WebView2 运行时目录失败: x"),
        ),
        (
            ExtractFailure::CreateDir { permission_denied: true, why: e("x") },
            format!(
                "创建运行时目录失败，可能缺少权限或有程序占用该路径。\n\n\
                请关闭所有已运行的本应用实例或以管理员身份重新运行。\n\n系统错误: {}",
                "x"
            ),
        ),
        (
            ExtractFailure::CreateDir { permission_denied: false, why: e("x") },
            e("创建运行时目录失败: x"),
        ),
        (ExtractFailure::CopyCreateDir { dir: e("d"), why: e("x") }, e("无法创建目录 [d]: x")),
        (ExtractFailure::CopyReadDir { dir: e("d"), why: e("x") }, e("无法读取目录 [d]: x")),
        (ExtractFailure::CopyEntry { why: e("x") }, e("无法读取目录条目: x")),
        (ExtractFailure::CopyFileType { why: e("x") }, e("无法获取文件类型: x")),
        (
            ExtractFailure::CopyFile { from: e("a"), to: e("b"), why: e("x") },
            e("无法复制文件 [a] -> [b]: x"),
        ),
    ];
    for (failure, expected) in cases {
        assert_eq!(extract_failure_message(&failure), expected);
    }
}

#[test]
fn download_failure_messages() {
    let e = |s: &str| s.to_string();
    let cases: Vec<(DownloadFailure, &str)> = vec![
        (DownloadFailure::Client(e("x")), "创建 HTTP 客户端失败: x"),
        (DownloadFailure::Request(e("x")), "网络请求失败: x"),
        (DownloadFailure::Status(e("404 Not Found")), "服务器返回错误: 404 Not Found"),
        (DownloadFailure::CreateFile(e("x")), "创建下载文件失败: x"),
        (DownloadFailure::Read(e("x")), "读取下载内容失败: x"),
        (DownloadFailure::Write(e("x")), "写入文件失败: x"),
        (DownloadFailure::Flush(e("x")), "刷新文件缓冲失败: x"),
    ];
    for (failure, expected) in cases {
        assert_eq!(download_failure_message(&failure), expected);
    }
}
