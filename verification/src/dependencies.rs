//! Reports on the two external tools: which command runs them, what
//! version they are, where a build of them can be had.

use crate::locator::{
    binary_name, get_binary_name, get_installation_instructions, installation_instructions,
    tool_program, Platform, ToolName,
};
use crate::naming::{file_name, file_name_of};
use crate::text::{
    append_str, chars_of, first_char, find_char, lemma_first_match_from, owned,
    same_text, slice_of, string_of, text_model, texts, trim, trimmed,
};
use vstd::prelude::*;

verus! {

// ---------------------------------------------------------------------------
// Which command runs a tool
// ---------------------------------------------------------------------------

/// The names under which a tool may be on the search path, in the order
/// in which to try them.
pub open spec fn command_names(tool: ToolName, platform: Platform) -> Seq<Seq<char>> {
    if platform == Platform::Windows {
        seq![binary_name(tool_program(tool), platform), tool_program(tool)]
    } else {
        seq![tool_program(tool)]
    }
}

/// The names under which a tool may be on the search path.
pub fn command_names_of(tool: ToolName, platform: Platform) -> (r: Vec<String>)
    ensures
        texts(r@) == command_names(tool, platform),
{
    let mut r: Vec<String> = Vec::new();
    if platform == Platform::Windows {
        r.push(get_binary_name(tool.program(), platform));
    }
    r.push(owned(tool.program()));
    assert(texts(r@) =~= command_names(tool, platform));
    r
}

/// How a tool can be run.
#[derive(Clone, Debug, PartialEq, Eq)]
pub struct CommandCheck {
    /// Whether some command runs the tool.
    pub installed: bool,
    /// The command that runs it; the first name tried where none does.
    pub command: String,
    /// Whether the command is the copy in the application's own directory.
    pub local: bool,
}

/// Whether the command with index `i` ran; false where it was not tried.
pub open spec fn ran(works: Seq<bool>, i: int) -> bool {
    0 <= i < works.len() && works[i]
}

/// The index of the first command at or after `from` that ran.
pub open spec fn first_working(names: Seq<Seq<char>>, works: Seq<bool>, from: int) -> Option<int>
    decreases names.len() - from,
{
    if from < 0 || from >= names.len() {
        None
    } else if ran(works, from) {
        Some(from)
    } else {
        first_working(names, works, from + 1)
    }
}

/// The command to use: the local copy where it ran, else the first name
/// that ran, else none.
pub open spec fn chosen_command(
    local: Option<Seq<char>>,
    local_works: bool,
    names: Seq<Seq<char>>,
    works: Seq<bool>,
) -> (bool, Seq<char>, bool) {
    if local is Some && local_works {
        (true, local.unwrap(), true)
    } else {
        match first_working(names, works, 0) {
            Some(i) => (true, names[i], false),
            None => (false, names[0], false),
        }
    }
}

/// Chooses the command to run a tool by, from what the probes brought:
/// `local_works` for the local copy, `works` for each of `names`.
pub fn select_command(
    local: Option<&str>,
    local_works: bool,
    names: &Vec<String>,
    works: &Vec<bool>,
) -> (r: CommandCheck)
    requires
        names.len() > 0,
    ensures
        (r.installed, r.command@, r.local) == chosen_command(
            match local {
                Some(l) => Some(l@),
                None => None,
            },
            local_works,
            texts(names@),
            works@,
        ),
{
    if let Some(l) = local {
        if local_works {
            return CommandCheck { installed: true, command: owned(l), local: true };
        }
    }
    let mut i: usize = 0;
    while i < names.len()
        invariant
            i <= names.len(),
            !(local is Some && local_works),
            first_working(texts(names@), works@, 0) == first_working(
                texts(names@),
                works@,
                i as int,
            ),
        decreases names.len() - i,
    {
        if i < works.len() && works[i] {
            return CommandCheck { installed: true, command: names[i].clone(), local: false };
        }
        i = i + 1;
    }
    CommandCheck { installed: false, command: names[0].clone(), local: false }
}

/// The state of both tools, for display.
#[derive(Clone, Debug, PartialEq, Eq)]
pub struct DependencyCheck {
    pub ytdlp_installed: bool,
    pub ffmpeg_installed: bool,
    pub ytdlp_command: String,
    pub ffmpeg_command: String,
    pub ytdlp_error: Option<String>,
    pub ffmpeg_error: Option<String>,
    pub installation_instructions: String,
}

/// What to tell the user when the fetcher is not installed.
pub open spec fn fetcher_missing() -> Seq<char> {
    "yt-dlp is not installed or not found in PATH.\n\nVisit: https://github.com/yt-dlp/yt-dlp"@
}

/// What to tell the user when the converter is not installed.
pub open spec fn converter_missing() -> Seq<char> {
    "FFmpeg is not installed or not found in PATH.\n\nVisit: https://ffmpeg.org/download.html"@
}

impl DependencyCheck {
    /// The state of both tools from the check of each: a tool that is not
    /// installed has an error, one that is has none.
    pub fn from_checks(fetcher: CommandCheck, converter: CommandCheck, platform: Platform) -> (r:
        DependencyCheck)
        ensures
            r.ytdlp_installed == fetcher.installed,
            r.ffmpeg_installed == converter.installed,
            r.ytdlp_command@ == fetcher.command@,
            r.ffmpeg_command@ == converter.command@,
            text_model(r.ytdlp_error) == if fetcher.installed {
                None
            } else {
                Some(fetcher_missing())
            },
            text_model(r.ffmpeg_error) == if converter.installed {
                None
            } else {
                Some(converter_missing())
            },
            r.installation_instructions@ == installation_instructions(platform),
    {
        let ytdlp_error = if fetcher.installed {
            None
        } else {
            Some(
                owned(
                    "yt-dlp is not installed or not found in PATH.\n\nVisit: https://github.com/yt-dlp/yt-dlp",
                ),
            )
        };
        let ffmpeg_error = if converter.installed {
            None
        } else {
            Some(
                owned(
                    "FFmpeg is not installed or not found in PATH.\n\nVisit: https://ffmpeg.org/download.html",
                ),
            )
        };
        DependencyCheck {
            ytdlp_installed: fetcher.installed,
            ffmpeg_installed: converter.installed,
            ytdlp_command: fetcher.command,
            ffmpeg_command: converter.command,
            ytdlp_error,
            ffmpeg_error,
            installation_instructions: get_installation_instructions(platform),
        }
    }
}

// ---------------------------------------------------------------------------
// What version a tool is
// ---------------------------------------------------------------------------

/// What came of running a tool's version probe.
#[derive(Clone, Debug, PartialEq, Eq)]
pub enum ProbeReport {
    /// The tool ran; `stdout` is what it printed.
    Ran { success: bool, stdout: String },
    /// The tool could not be launched.
    NotRun { message: String },
}

/// What is known of one tool: where it is and what version, or what went
/// wrong.
#[derive(Clone, Debug, PartialEq, Eq)]
pub struct ToolReport {
    pub path: Option<String>,
    pub version: Option<String>,
    pub error: Option<String>,
}

/// A tool report as mathematical values.
pub struct ToolReportModel {
    pub path: Option<Seq<char>>,
    pub version: Option<Seq<char>>,
    pub error: Option<Seq<char>>,
}

impl View for ToolReport {
    type V = ToolReportModel;

    open spec fn view(&self) -> ToolReportModel {
        ToolReportModel {
            path: text_model(self.path),
            version: text_model(self.version),
            error: text_model(self.error),
        }
    }
}

/// The first line of a text: what stands before its first line feed,
/// without a carriage return directly before that; the whole text where it
/// has no line feed; nothing where it is empty.
pub open spec fn first_line(text: Seq<char>) -> Option<Seq<char>> {
    if text.len() == 0 {
        None
    } else {
        match first_char(text, '\n') {
            None => Some(text),
            Some(i) => if i > 0 && text[i - 1] == '\r' {
                Some(text.subrange(0, i - 1))
            } else {
                Some(text.subrange(0, i))
            },
        }
    }
}

/// The version that a tool's probe printed: all of it without surrounding
/// white space for the fetcher, its first line for the converter.
pub open spec fn printed_version(tool: ToolName, stdout: Seq<char>) -> Option<Seq<char>> {
    match tool {
        ToolName::Fetcher => Some(trimmed(stdout)),
        ToolName::Converter => first_line(stdout),
    }
}

/// What is known of a tool after its extraction and its version probe.
/// The probe counts only where the extraction gave a path.
pub open spec fn tool_report(
    tool: ToolName,
    extraction: Result<Seq<char>, Seq<char>>,
    success: bool,
    ran: bool,
    output: Seq<char>,
) -> ToolReportModel {
    match extraction {
        Err(e) => ToolReportModel {
            path: None,
            version: None,
            error: Some("Failed to extract "@ + tool_program(tool) + ": "@ + e),
        },
        Ok(path) => if !ran {
            ToolReportModel {
                path: Some(path),
                version: None,
                error: Some("Failed to run "@ + tool_program(tool) + ": "@ + output),
            }
        } else if success {
            ToolReportModel {
                path: Some(path),
                version: printed_version(tool, output),
                error: None,
            }
        } else {
            ToolReportModel {
                path: Some(path),
                version: None,
                error: Some(tool_program(tool) + " version check failed"@),
            }
        },
    }
}

/// The first line of a text.
pub fn first_line_of(text: &Vec<char>) -> (r: Option<Vec<char>>)
    ensures
        match r {
            Some(l) => first_line(text@) == Some(l@),
            None => first_line(text@) is None,
        },
{
    if text.len() == 0 {
        return None;
    }
    match find_char(text, '\n') {
        None => {
            let n: usize = text.len();
            let all = slice_of(text, 0, n);
            assert(all@ =~= text@);
            Some(all)
        },
        Some(i) => {
            proof {
                lemma_first_match_from(text@, seq!['\n'], 0);
                assert(seq!['\n'].len() == 1);
            }
            if i > 0 && text[i - 1] == '\r' {
                Some(slice_of(text, 0, i - 1))
            } else {
                Some(slice_of(text, 0, i))
            }
        },
    }
}

/// What is known of `tool` after its extraction, which gave a path or an
/// error message, and its version probe.
pub fn report_tool(tool: ToolName, extraction: Result<String, String>, probe: ProbeReport) -> (r:
    ToolReport)
    ensures
        r@ == tool_report(
            tool,
            match extraction {
                Ok(p) => Ok(p@),
                Err(e) => Err(e@),
            },
            probe matches ProbeReport::Ran { success: true, .. },
            probe is Ran,
            match probe {
                ProbeReport::Ran { stdout, .. } => stdout@,
                ProbeReport::NotRun { message } => message@,
            },
        ),
{
    match extraction {
        Err(e) => {
            let mut v = chars_of("Failed to extract ");
            append_str(&mut v, tool.program());
            append_str(&mut v, ": ");
            append_str(&mut v, e.as_str());
            ToolReport { path: None, version: None, error: Some(string_of(&v)) }
        },
        Ok(path) => match probe {
            ProbeReport::NotRun { message } => {
                let mut v = chars_of("Failed to run ");
                append_str(&mut v, tool.program());
                append_str(&mut v, ": ");
                append_str(&mut v, message.as_str());
                ToolReport { path: Some(path), version: None, error: Some(string_of(&v)) }
            },
            ProbeReport::Ran { success, stdout } => {
                if success {
                    let text = chars_of(stdout.as_str());
                    let version = match tool {
                        ToolName::Fetcher => Some(string_of(&trim(&text))),
                        ToolName::Converter => match first_line_of(&text) {
                            Some(l) => Some(string_of(&l)),
                            None => None,
                        },
                    };
                    ToolReport { path: Some(path), version, error: None }
                } else {
                    let mut v = chars_of(tool.program());
                    append_str(&mut v, " version check failed");
                    ToolReport { path: Some(path), version: None, error: Some(string_of(&v)) }
                }
            },
        },
    }
}

/// What is known of both tools.
#[derive(Clone, Debug, PartialEq, Eq)]
pub struct DepsCheckResult {
    pub ytdlp_path: Option<String>,
    pub ffmpeg_path: Option<String>,
    pub ytdlp_version: Option<String>,
    pub ffmpeg_version: Option<String>,
    pub ytdlp_error: Option<String>,
    pub ffmpeg_error: Option<String>,
}

impl DepsCheckResult {
    /// What is known of both tools, from the report on each.
    pub fn from_reports(fetcher: ToolReport, converter: ToolReport) -> (r: DepsCheckResult)
        ensures
            text_model(r.ytdlp_path) == fetcher@.path,
            text_model(r.ytdlp_version) == fetcher@.version,
            text_model(r.ytdlp_error) == fetcher@.error,
            text_model(r.ffmpeg_path) == converter@.path,
            text_model(r.ffmpeg_version) == converter@.version,
            text_model(r.ffmpeg_error) == converter@.error,
    {
        DepsCheckResult {
            ytdlp_path: fetcher.path,
            ffmpeg_path: converter.path,
            ytdlp_version: fetcher.version,
            ffmpeg_version: converter.version,
            ytdlp_error: fetcher.error,
            ffmpeg_error: converter.error,
        }
    }
}

// ---------------------------------------------------------------------------
// Where a build of a tool can be had
// ---------------------------------------------------------------------------

/// Where to download a build of a tool, and whether it comes in a ZIP
/// archive.
#[derive(Clone, Copy, Debug)]
pub struct DownloadSource {
    pub url: &'static str,
    pub zipped: bool,
}

/// Where a build of the fetcher can be had for a platform and a processor;
/// `None` for a processor that no Linux build exists for.
pub open spec fn fetcher_source(platform: Platform, arch: Seq<char>) -> Option<(Seq<char>, bool)> {
    match platform {
        Platform::Windows => Some(
            ("https://github.com/yt-dlp/yt-dlp/releases/latest/download/yt-dlp.exe"@, false),
        ),
        Platform::Macos => Some(
            ("https://github.com/yt-dlp/yt-dlp/releases/latest/download/yt-dlp_macos"@, false),
        ),
        Platform::Linux => if arch == "x86_64"@ {
            Some(("https://github.com/yt-dlp/yt-dlp/releases/latest/download/yt-dlp_linux"@, false))
        } else if arch == "aarch64"@ {
            Some(
                (
                    "https://github.com/yt-dlp/yt-dlp/releases/latest/download/yt-dlp_linux_aarch64"@,
                    false,
                ),
            )
        } else {
            None
        },
    }
}

/// Where a build of the converter can be had for a platform and a
/// processor; `None` for a processor that no Linux build exists for.
pub open spec fn converter_source(platform: Platform, arch: Seq<char>) -> Option<
    (Seq<char>, bool),
> {
    match platform {
        Platform::Windows => Some(
            ("https://www.gyan.dev/ffmpeg/builds/ffmpeg-release-essentials.zip"@, true),
        ),
        Platform::Macos => Some(("https://evermeet.cx/ffmpeg/ffmpeg-7.0.zip"@, true)),
        Platform::Linux => if arch == "x86_64"@ {
            Some(
                (
                    "https://github.com/eugeneware/ffmpeg-static/releases/download/b6.0.1/ffmpeg-linux-x64"@,
                    false,
                ),
            )
        } else if arch == "aarch64"@ {
            Some(
                (
                    "https://github.com/eugeneware/ffmpeg-static/releases/download/b6.0.1/ffmpeg-linux-arm64"@,
                    false,
                ),
            )
        } else {
            None
        },
    }
}

/// Where a build of a tool can be had.
pub open spec fn download_source(tool: ToolName, platform: Platform, arch: Seq<char>) -> Option<
    (Seq<char>, bool),
> {
    match tool {
        ToolName::Fetcher => fetcher_source(platform, arch),
        ToolName::Converter => converter_source(platform, arch),
    }
}

/// Where a build of `tool` can be had for `platform` and the processor
/// `target_arch`; `None` for a processor that no Linux build exists for.
pub fn download_source_of(tool: ToolName, platform: Platform, target_arch: &str) -> (r: Option<
    DownloadSource,
>)
    ensures
        match r {
            Some(s) => download_source(tool, platform, target_arch@) == Some((s.url@, s.zipped)),
            None => download_source(tool, platform, target_arch@) is None,
        },
{
    let arch = chars_of(target_arch);
    let x86 = same_text(&arch, "x86_64");
    let arm = same_text(&arch, "aarch64");
    match tool {
        ToolName::Fetcher => match platform {
            Platform::Windows => Some(
                DownloadSource {
                    url: "https://github.com/yt-dlp/yt-dlp/releases/latest/download/yt-dlp.exe",
                    zipped: false,
                },
            ),
            Platform::Macos => Some(
                DownloadSource {
                    url: "https://github.com/yt-dlp/yt-dlp/releases/latest/download/yt-dlp_macos",
                    zipped: false,
                },
            ),
            Platform::Linux => if x86 {
                Some(
                    DownloadSource {
                        url: "https://github.com/yt-dlp/yt-dlp/releases/latest/download/yt-dlp_linux",
                        zipped: false,
                    },
                )
            } else if arm {
                Some(
                    DownloadSource {
                        url: "https://github.com/yt-dlp/yt-dlp/releases/latest/download/yt-dlp_linux_aarch64",
                        zipped: false,
                    },
                )
            } else {
                None
            },
        },
        ToolName::Converter => match platform {
            Platform::Windows => Some(
                DownloadSource {
                    url: "https://www.gyan.dev/ffmpeg/builds/ffmpeg-release-essentials.zip",
                    zipped: true,
                },
            ),
            Platform::Macos => Some(
                DownloadSource { url: "https://evermeet.cx/ffmpeg/ffmpeg-7.0.zip", zipped: true },
            ),
            Platform::Linux => if x86 {
                Some(
                    DownloadSource {
                        url: "https://github.com/eugeneware/ffmpeg-static/releases/download/b6.0.1/ffmpeg-linux-x64",
                        zipped: false,
                    },
                )
            } else if arm {
                Some(
                    DownloadSource {
                        url: "https://github.com/eugeneware/ffmpeg-static/releases/download/b6.0.1/ffmpeg-linux-arm64",
                        zipped: false,
                    },
                )
            } else {
                None
            },
        },
    }
}

/// The archive member is the converter's program: its last part is
/// `ffmpeg` or `ffmpeg.exe`.
pub open spec fn is_converter_entry(name: Seq<char>) -> bool {
    file_name(name) == "ffmpeg.exe"@ || file_name(name) == "ffmpeg"@
}

/// The index of the first archive member at or after `from` that is the
/// converter's program.
pub open spec fn first_converter_entry(names: Seq<Seq<char>>, from: int) -> Option<int>
    decreases names.len() - from,
{
    if from < 0 || from >= names.len() {
        None
    } else if is_converter_entry(names[from]) {
        Some(from)
    } else {
        first_converter_entry(names, from + 1)
    }
}

/// Finds the converter's program among the members of an archive, given
/// by name in the archive's order.
pub fn find_converter_entry(names: &Vec<String>) -> (r: Option<usize>)
    ensures
        match r {
            Some(i) => first_converter_entry(texts(names@), 0) == Some(i as int) && i
                < names.len(),
            None => first_converter_entry(texts(names@), 0) is None,
        },
{
    let mut i: usize = 0;
    while i < names.len()
        invariant
            i <= names.len(),
            first_converter_entry(texts(names@), 0) == first_converter_entry(
                texts(names@),
                i as int,
            ),
        decreases names.len() - i,
    {
        let name = file_name_of(&chars_of(names[i].as_str()));
        if same_text(&name, "ffmpeg.exe") || same_text(&name, "ffmpeg") {
            return Some(i);
        }
        i = i + 1;
    }
    None
}

} // verus!
