//! Where the external tools are found: the path of a tool among the
//! packaged resources and in the per-user cache, for each platform and
//! architecture.

use crate::naming::{join_path, joined};
use crate::text::{append_str, chars_of, same_text, string_of};
use vstd::prelude::*;

verus! {

/// The operating systems that tools are packaged for.
#[derive(Clone, Copy, Debug, PartialEq, Eq, Structural)]
pub enum Platform {
    Windows,
    Macos,
    Linux,
}

/// The processor architectures that tools are packaged for.
#[derive(Clone, Copy, Debug, PartialEq, Eq, Structural)]
pub enum Architecture {
    X64,
    Arm64,
}

/// The two external tools.
#[derive(Clone, Copy, Debug, PartialEq, Eq, Structural)]
pub enum ToolName {
    /// Finds and downloads source media.
    Fetcher,
    /// Transcodes audio and video.
    Converter,
}

/// One executable for one build target.
#[derive(Clone, Copy, Debug, PartialEq, Eq, Structural)]
pub struct ToolBinary {
    pub name: ToolName,
    pub platform: Platform,
    pub architecture: Architecture,
}

/// The platform for an operating system's name: Linux for every name but
/// `windows` and `macos`.
pub open spec fn platform_of(os: Seq<char>) -> Platform {
    if os == "windows"@ {
        Platform::Windows
    } else if os == "macos"@ {
        Platform::Macos
    } else {
        Platform::Linux
    }
}

/// The architecture for a processor's name: 64-bit x86 for every name but
/// `aarch64`.
pub open spec fn architecture_of(arch: Seq<char>) -> Architecture {
    if arch == "aarch64"@ {
        Architecture::Arm64
    } else {
        Architecture::X64
    }
}

/// The name of a platform's resource directory.
pub open spec fn platform_dir(p: Platform) -> Seq<char> {
    match p {
        Platform::Windows => "windows"@,
        Platform::Macos => "macos"@,
        Platform::Linux => "linux"@,
    }
}

/// The name of an architecture's resource directory.
pub open spec fn architecture_dir(a: Architecture) -> Seq<char> {
    match a {
        Architecture::X64 => "x64"@,
        Architecture::Arm64 => "arm64"@,
    }
}

/// The name of a tool's program.
pub open spec fn tool_program(t: ToolName) -> Seq<char> {
    match t {
        ToolName::Fetcher => "yt-dlp"@,
        ToolName::Converter => "ffmpeg"@,
    }
}

/// The file name of the program `binary` on a platform: with `.exe` behind
/// it on Windows.
pub open spec fn binary_name(binary: Seq<char>, p: Platform) -> Seq<char> {
    if p == Platform::Windows {
        binary + ".exe"@
    } else {
        binary
    }
}

/// The path of a tool below the root of the packaged resources.
pub open spec fn resource_path_of(tool: ToolBinary) -> Seq<char> {
    "binaries/"@ + platform_dir(tool.platform) + seq!['/'] + architecture_dir(tool.architecture)
        + seq!['/'] + binary_name(tool_program(tool.name), tool.platform)
}

/// The path of a tool in the cache below the application's data directory.
pub open spec fn cache_path_of(app_data_dir: Seq<char>, tool: ToolBinary) -> Seq<char> {
    joined(joined(app_data_dir, "bin"@), binary_name(tool_program(tool.name), tool.platform))
}

/// The path of a program in this application's directory below the user's
/// configuration directory.
pub open spec fn local_path_of(config_dir: Seq<char>, program: Seq<char>, p: Platform) -> Seq<
    char,
> {
    joined(joined(joined(config_dir, "youtube-downloader"@), "bin"@), binary_name(program, p))
}

impl Platform {
    /// The platform for an operating system's name.
    pub fn from_os(os: &str) -> (p: Platform)
        ensures
            p == platform_of(os@),
    {
        let v = chars_of(os);
        if same_text(&v, "windows") {
            Platform::Windows
        } else if same_text(&v, "macos") {
            Platform::Macos
        } else {
            Platform::Linux
        }
    }

    /// The name of the platform's resource directory.
    pub fn dir_name(&self) -> (r: &'static str)
        ensures
            r@ == platform_dir(*self),
    {
        match self {
            Platform::Windows => "windows",
            Platform::Macos => "macos",
            Platform::Linux => "linux",
        }
    }
}

impl Architecture {
    /// The architecture for a processor's name.
    pub fn from_arch(arch: &str) -> (a: Architecture)
        ensures
            a == architecture_of(arch@),
    {
        let v = chars_of(arch);
        if same_text(&v, "aarch64") {
            Architecture::Arm64
        } else {
            Architecture::X64
        }
    }

    /// The name of the architecture's resource directory.
    pub fn dir_name(&self) -> (r: &'static str)
        ensures
            r@ == architecture_dir(*self),
    {
        match self {
            Architecture::X64 => "x64",
            Architecture::Arm64 => "arm64",
        }
    }
}

impl ToolName {
    /// The name of the tool's program.
    pub fn program(&self) -> (r: &'static str)
        ensures
            r@ == tool_program(*self),
    {
        match self {
            ToolName::Fetcher => "yt-dlp",
            ToolName::Converter => "ffmpeg",
        }
    }
}

/// The resource directory of the platform that the operating system
/// `target_os` belongs to.
pub fn get_platform(target_os: &str) -> (r: &'static str)
    ensures
        r@ == platform_dir(platform_of(target_os@)),
{
    Platform::from_os(target_os).dir_name()
}

/// The resource directory of the architecture that the processor
/// `target_arch` belongs to.
pub fn get_arch(target_arch: &str) -> (r: &'static str)
    ensures
        r@ == architecture_dir(architecture_of(target_arch@)),
{
    Architecture::from_arch(target_arch).dir_name()
}

/// The file name of the program `binary` on `platform`.
pub fn get_binary_name(binary: &str, platform: Platform) -> (r: String)
    ensures
        r@ == binary_name(binary@, platform),
{
    let mut v = chars_of(binary);
    if platform == Platform::Windows {
        append_str(&mut v, ".exe");
    }
    string_of(&v)
}

impl ToolBinary {
    /// The tool `name` for the host that `target_os` and `target_arch`
    /// describe.
    pub fn for_host(name: ToolName, target_os: &str, target_arch: &str) -> (t: ToolBinary)
        ensures
            t == (ToolBinary {
                name,
                platform: platform_of(target_os@),
                architecture: architecture_of(target_arch@),
            }),
    {
        ToolBinary {
            name,
            platform: Platform::from_os(target_os),
            architecture: Architecture::from_arch(target_arch),
        }
    }

    /// The path of the tool below the root of the packaged resources.
    pub fn resource_path(&self) -> (r: String)
        ensures
            r@ == resource_path_of(*self),
    {
        let mut v = chars_of("binaries/");
        append_str(&mut v, self.platform.dir_name());
        v.push('/');
        append_str(&mut v, self.architecture.dir_name());
        v.push('/');
        let name = get_binary_name(self.name.program(), self.platform);
        append_str(&mut v, name.as_str());
        assert(v@ =~= resource_path_of(*self));
        string_of(&v)
    }

    /// The path of the tool in the cache below the application's data
    /// directory.
    pub fn cache_path(&self, app_data_dir: &str) -> (r: String)
        ensures
            r@ == cache_path_of(app_data_dir@, *self),
    {
        let root = chars_of(app_data_dir);
        let bin = join_path(&root, &chars_of("bin"));
        let name = get_binary_name(self.name.program(), self.platform);
        let p = join_path(&bin, &chars_of(name.as_str()));
        string_of(&p)
    }
}

/// The path of the program `program` below the user's configuration
/// directory.
fn local_path(config_dir: &str, program: &str, platform: Platform) -> (r: String)
    ensures
        r@ == local_path_of(config_dir@, program@, platform),
{
    let root = chars_of(config_dir);
    let app = join_path(&root, &chars_of("youtube-downloader"));
    let bin = join_path(&app, &chars_of("bin"));
    let name = get_binary_name(program, platform);
    let p = join_path(&bin, &chars_of(name.as_str()));
    string_of(&p)
}

/// Where a fetcher that the user installed for this application lies;
/// `None` without a configuration directory.
pub fn get_local_ytdlp_path(config_dir: Option<&str>, platform: Platform) -> (r: Option<String>)
    ensures
        match r {
            Some(p) => config_dir matches Some(d) && p@ == local_path_of(
                d@,
                "yt-dlp"@,
                platform,
            ),
            None => config_dir is None,
        },
{
    match config_dir {
        Some(d) => Some(local_path(d, "yt-dlp", platform)),
        None => None,
    }
}

/// Where a converter that the user installed for this application lies;
/// `None` without a configuration directory.
pub fn get_local_ffmpeg_path(config_dir: Option<&str>, platform: Platform) -> (r: Option<String>)
    ensures
        match r {
            Some(p) => config_dir matches Some(d) && p@ == local_path_of(
                d@,
                "ffmpeg"@,
                platform,
            ),
            None => config_dir is None,
        },
{
    match config_dir {
        Some(d) => Some(local_path(d, "ffmpeg", platform)),
        None => None,
    }
}

/// How to install the two tools by hand on a platform.
pub open spec fn installation_instructions(p: Platform) -> Seq<char> {
    match p {
        Platform::Windows =>
            "Windows Installation:\n\nyt-dlp:\n- Download from: https://github.com/yt-dlp/yt-dlp/releases/latest\n- Or use: winget install yt-dlp\n- Or use: pip install yt-dlp\n\nFFmpeg:\n- Download from: https://ffmpeg.org/download.html\n- Or use: winget install ffmpeg\n- Or use: choco install ffmpeg\n\nIMPORTANT: After installation, RESTART the application for PATH changes to take effect!"@,
        Platform::Macos =>
            "macOS Installation:\n\nyt-dlp:\n- brew install yt-dlp\n- Or: pip install yt-dlp\n\nFFmpeg:\n- brew install ffmpeg"@,
        Platform::Linux =>
            "Linux Installation:\n\nyt-dlp:\n- pip install yt-dlp\n- Or: sudo apt install yt-dlp (Debian/Ubuntu)\n- Or: sudo yum install yt-dlp (RHEL/CentOS)\n\nFFmpeg:\n- sudo apt install ffmpeg (Debian/Ubuntu)\n- Or: sudo yum install ffmpeg (RHEL/CentOS)\n- Or: sudo pacman -S ffmpeg (Arch Linux)"@,
    }
}

/// How to install the two tools by hand on `platform`.
pub fn get_installation_instructions(platform: Platform) -> (r: String)
    ensures
        r@ == installation_instructions(platform),
{
    let text: &'static str = match platform {
        Platform::Windows =>
            "Windows Installation:\n\nyt-dlp:\n- Download from: https://github.com/yt-dlp/yt-dlp/releases/latest\n- Or use: winget install yt-dlp\n- Or use: pip install yt-dlp\n\nFFmpeg:\n- Download from: https://ffmpeg.org/download.html\n- Or use: winget install ffmpeg\n- Or use: choco install ffmpeg\n\nIMPORTANT: After installation, RESTART the application for PATH changes to take effect!",
        Platform::Macos =>
            "macOS Installation:\n\nyt-dlp:\n- brew install yt-dlp\n- Or: pip install yt-dlp\n\nFFmpeg:\n- brew install ffmpeg",
        Platform::Linux =>
            "Linux Installation:\n\nyt-dlp:\n- pip install yt-dlp\n- Or: sudo apt install yt-dlp (Debian/Ubuntu)\n- Or: sudo yum install yt-dlp (RHEL/CentOS)\n\nFFmpeg:\n- sudo apt install ffmpeg (Debian/Ubuntu)\n- Or: sudo yum install ffmpeg (RHEL/CentOS)\n- Or: sudo pacman -S ffmpeg (Arch Linux)",
    };
    let v = chars_of(text);
    string_of(&v)
}

} // verus!
