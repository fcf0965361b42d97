//! The platform probe: a pure mapping from host identity to the Chrome
//! executable path, the driver file name, the artifact slug and the
//! download URL.

use vstd::prelude::*;
use vstd::string::StringExecFns;
use crate::text::join2;

verus! {

/// The operating systems the mapping table distinguishes.  Hosts outside
/// the supported matrix fall through to the Linux row.
#[derive(Clone, Copy, Debug, PartialEq, Eq, Structural)]
pub enum HostOs {
    Windows,
    Macos,
    Linux,
}

/// The processor architectures the mapping table distinguishes.
#[derive(Clone, Copy, Debug, PartialEq, Eq, Structural)]
pub enum HostArch {
    X86_64,
    Arm64,
    X86,
}

/// Where the locally installed Chrome lives (for Linux, a name resolved on
/// the PATH).
pub open spec fn chrome_path_spec(os: HostOs) -> Seq<char> {
    match os {
        HostOs::Windows => "C:/Program Files/Google/Chrome/Application/chrome.exe"@,
        HostOs::Macos => "/Applications/Google Chrome.app/Contents/MacOS/Google Chrome"@,
        HostOs::Linux => "google-chrome"@,
    }
}

/// The file name of the driver executable inside the extracted artifact.
pub open spec fn driver_filename_spec(os: HostOs) -> Seq<char> {
    match os {
        HostOs::Windows => "chromedriver.exe"@,
        HostOs::Macos => "chromedriver"@,
        HostOs::Linux => "chromedriver"@,
    }
}

/// The platform directory inside the download URL.
pub open spec fn os_dir_spec(os: HostOs, arch: HostArch) -> Seq<char> {
    match os {
        HostOs::Windows => if arch == HostArch::X86 {
            "win32"@
        } else {
            "win64"@
        },
        HostOs::Macos => if arch == HostArch::X86_64 {
            "mac-x64"@
        } else {
            "mac-arm64"@
        },
        HostOs::Linux => "linux64"@,
    }
}

/// The platform-tagged directory name inside the downloaded zip, which is
/// also the local cache subdirectory name.
pub open spec fn artifact_slug_spec(os: HostOs, arch: HostArch) -> Seq<char> {
    "chromedriver-"@ + os_dir_spec(os, arch)
}

/// The download endpoint for one version and platform.
pub open spec fn url_spec(os: HostOs, arch: HostArch, version: Seq<char>) -> Seq<char> {
    "https://storage.googleapis.com/chrome-for-testing-public/"@ + version + "/"@ + os_dir_spec(
        os,
        arch,
    ) + "/"@ + artifact_slug_spec(os, arch) + ".zip"@
}

/// The Chrome executable path and the driver executable name for one host,
/// exactly as the mapping table gives them.
pub fn get_file_names(os: HostOs) -> (r: (String, String))
    ensures
        r.0@ == chrome_path_spec(os),
        r.1@ == driver_filename_spec(os),
{
    match os {
        HostOs::Windows => (
            String::from_str("C:/Program Files/Google/Chrome/Application/chrome.exe"),
            String::from_str("chromedriver.exe"),
        ),
        HostOs::Macos => (
            String::from_str("/Applications/Google Chrome.app/Contents/MacOS/Google Chrome"),
            String::from_str("chromedriver"),
        ),
        HostOs::Linux => (String::from_str("google-chrome"), String::from_str("chromedriver")),
    }
}

/// The platform directory of the download URL for one host.
pub fn os_dir(os: HostOs, arch: HostArch) -> (r: String)
    ensures
        r@ == os_dir_spec(os, arch),
{
    match os {
        HostOs::Windows => if arch == HostArch::X86 {
            String::from_str("win32")
        } else {
            String::from_str("win64")
        },
        HostOs::Macos => if arch == HostArch::X86_64 {
            String::from_str("mac-x64")
        } else {
            String::from_str("mac-arm64")
        },
        HostOs::Linux => String::from_str("linux64"),
    }
}

/// The artifact slug for one host.
pub fn dw_name(os: HostOs, arch: HostArch) -> (r: String)
    ensures
        r@ == artifact_slug_spec(os, arch),
{
    let dir = os_dir(os, arch);
    join2("chromedriver-", dir.as_str())
}

/// The download URL for one host and Chrome version.
pub fn get_dw_link(os: HostOs, arch: HostArch, chrome_version: &str) -> (r: String)
    ensures
        r@ == url_spec(os, arch, chrome_version@),
{
    let mut r = String::from_str("https://storage.googleapis.com/chrome-for-testing-public/");
    r.append(chrome_version);
    r.append("/");
    let dir = os_dir(os, arch);
    r.append(dir.as_str());
    r.append("/");
    let slug = dw_name(os, arch);
    r.append(slug.as_str());
    r.append(".zip");
    r
}

/// A platform-tagged download artifact: the slug and the URL it is fetched
/// from.
pub struct DriverDownload {
    pub platform: String,
    pub url: String,
}

impl DriverDownload {
    /// The artifact one host needs for one Chrome version.
    pub fn new(os: HostOs, arch: HostArch, version: &str) -> (d: DriverDownload)
        ensures
            d.platform@ == artifact_slug_spec(os, arch),
            d.url@ == url_spec(os, arch, version@),
    {
        DriverDownload { platform: dw_name(os, arch), url: get_dw_link(os, arch, version) }
    }
}

/// The immutable descriptor the probe produces once per process.
pub struct Platform {
    pub os: HostOs,
    pub arch: HostArch,
    pub chrome_path: String,
    pub driver_filename: String,
    pub artifact_slug: String,
}

impl Platform {
    /// The string fields agree with the mapping table for `os` and `arch`.
    pub open spec fn wf(self) -> bool {
        &&& self.chrome_path@ == chrome_path_spec(self.os)
        &&& self.driver_filename@ == driver_filename_spec(self.os)
        &&& self.artifact_slug@ == artifact_slug_spec(self.os, self.arch)
    }

    /// Resolves one host to its descriptor; total over the host matrix.
    pub fn probe(os: HostOs, arch: HostArch) -> (p: Platform)
        ensures
            p.os == os,
            p.arch == arch,
            p.wf(),
            p.chrome_path@ == chrome_path_spec(os),
            p.driver_filename@ == driver_filename_spec(os),
            p.artifact_slug@ == artifact_slug_spec(os, arch),
    {
        let (chrome_path, driver_filename) = get_file_names(os);
        Platform { os, arch, chrome_path, driver_filename, artifact_slug: dw_name(os, arch) }
    }

    /// The download URL for this platform and one Chrome version.
    pub fn url_for(&self, version: &str) -> (r: String)
        ensures
            r@ == url_spec(self.os, self.arch, version@),
    {
        get_dw_link(self.os, self.arch, version)
    }
}

/// The program the version detector invokes on one host.
pub open spec fn detect_program_spec(os: HostOs) -> Seq<char> {
    match os {
        HostOs::Windows => "powershell"@,
        HostOs::Macos => chrome_path_spec(HostOs::Macos),
        HostOs::Linux => "google-chrome"@,
    }
}

/// The PowerShell expression that reads Chrome's product version on Windows.
pub open spec fn ps_command_spec() -> Seq<char> {
    "(Get-Item '"@ + chrome_path_spec(HostOs::Windows) + "').VersionInfo.ProductVersion"@
}

/// The arguments the version detector passes on one host.
pub open spec fn detect_args_spec(os: HostOs) -> Seq<Seq<char>> {
    match os {
        HostOs::Windows => seq!["-Command"@, ps_command_spec()],
        HostOs::Macos => seq!["--version"@],
        HostOs::Linux => seq!["--version"@],
    }
}

/// The command line that detects the installed Chrome version on one host:
/// PowerShell reading the file version on Windows, `--version` elsewhere.
pub fn detect_command(os: HostOs) -> (r: (String, Vec<String>))
    ensures
        r.0@ == detect_program_spec(os),
        r.1.deep_view() == detect_args_spec(os),
{
    match os {
        HostOs::Windows => {
            let mut cmd = String::from_str("(Get-Item '");
            cmd.append("C:/Program Files/Google/Chrome/Application/chrome.exe");
            cmd.append("').VersionInfo.ProductVersion");
            let mut args: Vec<String> = Vec::new();
            args.push(String::from_str("-Command"));
            args.push(cmd);
            proof {
                assert(args.deep_view() =~= detect_args_spec(os));
            }
            (String::from_str("powershell"), args)
        },
        HostOs::Macos => {
            let mut args: Vec<String> = Vec::new();
            args.push(String::from_str("--version"));
            proof {
                assert(args.deep_view() =~= detect_args_spec(os));
            }
            (
                String::from_str("/Applications/Google Chrome.app/Contents/MacOS/Google Chrome"),
                args,
            )
        },
        HostOs::Linux => {
            let mut args: Vec<String> = Vec::new();
            args.push(String::from_str("--version"));
            proof {
                assert(args.deep_view() =~= detect_args_spec(os));
            }
            (String::from_str("google-chrome"), args)
        },
    }
}

} // verus!
