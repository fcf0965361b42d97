use tfcd::platform::{detect_command, dw_name, get_dw_link, get_file_names, os_dir, DriverDownload,
    HostArch, HostOs, Platform};

#[test]
fn probe_windows_64() {
    let p = Platform::probe(HostOs::Windows, HostArch::X86_64);
    assert_eq!(p.chrome_path, "C:/Program Files/Google/Chrome/Application/chrome.exe");
    assert_eq!(p.driver_filename, "chromedriver.exe");
    assert_eq!(p.artifact_slug, "chromedriver-win64");
}

#[test]
fn probe_windows_32() {
    let p = Platform::probe(HostOs::Windows, HostArch::X86);
    assert_eq!(p.chrome_path, "C:/Program Files/Google/Chrome/Application/chrome.exe");
    assert_eq!(p.driver_filename, "chromedriver.exe");
    assert_eq!(p.artifact_slug, "chromedriver-win32");
}

#[test]
fn probe_macos_x64() {
    let p = Platform::probe(HostOs::Macos, HostArch::X86_64);
    assert_eq!(p.chrome_path, "/Applications/Google Chrome.app/Contents/MacOS/Google Chrome");
    assert_eq!(p.driver_filename, "chromedriver");
    assert_eq!(p.artifact_slug, "chromedriver-mac-x64");
}

#[test]
fn probe_macos_arm64() {
    let p = Platform::probe(HostOs::Macos, HostArch::Arm64);
    assert_eq!(p.chrome_path, "/Applications/Google Chrome.app/Contents/MacOS/Google Chrome");
    assert_eq!(p.driver_filename, "chromedriver");
    assert_eq!(p.artifact_slug, "chromedriver-mac-arm64");
}

#[test]
fn probe_linux_any_arch() {
    for arch in [HostArch::X86_64, HostArch::Arm64, HostArch::X86] {
        let p = Platform::probe(HostOs::Linux, arch);
        assert_eq!(p.chrome_path, "google-chrome");
        assert_eq!(p.driver_filename, "chromedriver");
        assert_eq!(p.artifact_slug, "chromedriver-linux64");
    }
}

#[test]
fn file_names_match_table() {
    let (chrome, driver) = get_file_names(HostOs::Linux);
    assert_eq!(chrome, "google-chrome");
    assert_eq!(driver, "chromedriver");
    let (chrome, driver) = get_file_names(HostOs::Windows);
    assert_eq!(chrome, "C:/Program Files/Google/Chrome/Application/chrome.exe");
    assert_eq!(driver, "chromedriver.exe");
}

#[test]
fn os_dirs_match_table() {
    assert_eq!(os_dir(HostOs::Windows, HostArch::X86_64), "win64");
    assert_eq!(os_dir(HostOs::Windows, HostArch::Arm64), "win64");
    assert_eq!(os_dir(HostOs::Windows, HostArch::X86), "win32");
    assert_eq!(os_dir(HostOs::Macos, HostArch::X86_64), "mac-x64");
    assert_eq!(os_dir(HostOs::Macos, HostArch::Arm64), "mac-arm64");
    assert_eq!(os_dir(HostOs::Linux, HostArch::X86_64), "linux64");
}

#[test]
fn slug_names_match_table() {
    assert_eq!(dw_name(HostOs::Windows, HostArch::X86_64), "chromedriver-win64");
    assert_eq!(dw_name(HostOs::Windows, HostArch::X86), "chromedriver-win32");
    assert_eq!(dw_name(HostOs::Macos, HostArch::X86_64), "chromedriver-mac-x64");
    assert_eq!(dw_name(HostOs::Macos, HostArch::Arm64), "chromedriver-mac-arm64");
    assert_eq!(dw_name(HostOs::Linux, HostArch::Arm64), "chromedriver-linux64");
}

#[test]
fn download_link_linux() {
    let url = get_dw_link(HostOs::Linux, HostArch::X86_64, "131.0.6778.85");
    assert_eq!(
        url,
        "https://storage.googleapis.com/chrome-for-testing-public/131.0.6778.85/linux64/chromedriver-linux64.zip"
    );
}

#[test]
fn download_link_windows_32() {
    let url = get_dw_link(HostOs::Windows, HostArch::X86, "120.0.1.2");
    assert_eq!(
        url,
        "https://storage.googleapis.com/chrome-for-testing-public/120.0.1.2/win32/chromedriver-win32.zip"
    );
}

#[test]
fn driver_download_bundle() {
    let d = DriverDownload::new(HostOs::Macos, HostArch::Arm64, "131.0.6778.85");
    assert_eq!(d.platform, "chromedriver-mac-arm64");
    assert_eq!(
        d.url,
        "https://storage.googleapis.com/chrome-for-testing-public/131.0.6778.85/mac-arm64/chromedriver-mac-arm64.zip"
    );
}

#[test]
fn detect_command_per_os() {
    let (prog, args) = detect_command(HostOs::Linux);
    assert_eq!(prog, "google-chrome");
    assert_eq!(args, vec!["--version".to_string()]);

    let (prog, args) = detect_command(HostOs::Macos);
    assert_eq!(prog, "/Applications/Google Chrome.app/Contents/MacOS/Google Chrome");
    assert_eq!(args, vec!["--version".to_string()]);

    let (prog, args) = detect_command(HostOs::Windows);
    assert_eq!(prog, "powershell");
    assert_eq!(args.len(), 2);
    assert_eq!(args[0], "-Command");
    assert_eq!(
        args[1],
        "(Get-Item 'C:/Program Files/Google/Chrome/Application/chrome.exe').VersionInfo.ProductVersion"
    );
}
