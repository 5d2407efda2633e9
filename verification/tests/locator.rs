use youtube_downloader::locator::{
    get_arch, get_binary_name, get_installation_instructions, get_local_ffmpeg_path,
    get_local_ytdlp_path, get_platform, Architecture, Platform, ToolBinary, ToolName,
};

#[test]
fn platform_names() {
    assert_eq!(get_platform("windows"), "windows");
    assert_eq!(get_platform("macos"), "macos");
    assert_eq!(get_platform("linux"), "linux");
    assert_eq!(get_platform("freebsd"), "linux");
    assert_eq!(get_platform(""), "linux");
    assert_eq!(get_platform("Windows"), "linux");
    assert_eq!(Platform::from_os("macos"), Platform::Macos);
}

#[test]
fn architecture_names() {
    assert_eq!(get_arch("x86_64"), "x64");
    assert_eq!(get_arch("aarch64"), "arm64");
    assert_eq!(get_arch("riscv64"), "x64");
    assert_eq!(Architecture::from_arch("aarch64"), Architecture::Arm64);
}

#[test]
fn binary_names_carry_the_platform_suffix() {
    assert_eq!(get_binary_name("yt-dlp", Platform::Windows), "yt-dlp.exe");
    assert_eq!(get_binary_name("yt-dlp", Platform::Linux), "yt-dlp");
    assert_eq!(get_binary_name("ffmpeg", Platform::Macos), "ffmpeg");
    assert_eq!(ToolName::Fetcher.program(), "yt-dlp");
    assert_eq!(ToolName::Converter.program(), "ffmpeg");
}

#[test]
fn resource_path_is_keyed_by_platform_and_architecture() {
    let tool = ToolBinary::for_host(ToolName::Converter, "windows", "x86_64");
    assert_eq!(tool.resource_path(), "binaries/windows/x64/ffmpeg.exe");
    let tool = ToolBinary::for_host(ToolName::Fetcher, "macos", "aarch64");
    assert_eq!(tool.resource_path(), "binaries/macos/arm64/yt-dlp");
    let tool = ToolBinary::for_host(ToolName::Fetcher, "linux", "x86_64");
    assert_eq!(tool.resource_path(), "binaries/linux/x64/yt-dlp");
}

#[test]
fn cache_path_lies_below_the_data_directory() {
    let tool = ToolBinary::for_host(ToolName::Fetcher, "linux", "x86_64");
    assert_eq!(tool.cache_path("/home/me/.local/share/app"), "/home/me/.local/share/app/bin/yt-dlp");
    assert_eq!(tool.cache_path("/home/me/data/"), "/home/me/data/bin/yt-dlp");
    assert_eq!(tool.cache_path(""), "bin/yt-dlp");
    let tool = ToolBinary::for_host(ToolName::Converter, "windows", "x86_64");
    assert_eq!(tool.cache_path("C:/data"), "C:/data/bin/ffmpeg.exe");
}

#[test]
fn local_paths_lie_below_the_configuration_directory() {
    assert_eq!(
        get_local_ytdlp_path(Some("/home/me/.config"), Platform::Linux),
        Some("/home/me/.config/youtube-downloader/bin/yt-dlp".to_string())
    );
    assert_eq!(
        get_local_ffmpeg_path(Some("C:/cfg"), Platform::Windows),
        Some("C:/cfg/youtube-downloader/bin/ffmpeg.exe".to_string())
    );
    assert_eq!(get_local_ytdlp_path(None, Platform::Linux), None);
    assert_eq!(get_local_ffmpeg_path(None, Platform::Macos), None);
}

#[test]
fn installation_instructions_per_platform() {
    let windows = get_installation_instructions(Platform::Windows);
    assert!(windows.starts_with("Windows Installation:\n\nyt-dlp:\n- Download from:"));
    assert!(windows.ends_with("RESTART the application for PATH changes to take effect!"));
    assert_eq!(
        get_installation_instructions(Platform::Macos),
        "macOS Installation:\n\nyt-dlp:\n- brew install yt-dlp\n- Or: pip install yt-dlp\n\nFFmpeg:\n- brew install ffmpeg"
    );
    let linux = get_installation_instructions(Platform::Linux);
    assert!(linux.starts_with("Linux Installation:"));
    assert!(linux.ends_with("- Or: sudo pacman -S ffmpeg (Arch Linux)"));
}
