//! The command lines of the two external tools.

use crate::locator::ToolName;
use crate::naming::{join_path, joined};
use crate::text::{append_str, chars_of, decimal, decimal_of, owned, string_of, texts};
use vstd::prelude::*;

verus! {

/// The argument that makes a tool print its version: the converter takes
/// it with a single dash.
pub open spec fn version_flag(tool: ToolName) -> Seq<char> {
    match tool {
        ToolName::Converter => "-version"@,
        ToolName::Fetcher => "--version"@,
    }
}

/// The fetcher's arguments for a metadata query on one video.
pub open spec fn metadata_args(url: Seq<char>) -> Seq<Seq<char>> {
    seq!["--dump-json"@, "--no-playlist"@, url]
}

/// The fetcher's arguments for the flat listing of a playlist.
pub open spec fn listing_args(url: Seq<char>) -> Seq<Seq<char>> {
    seq!["--dump-json"@, "--flat-playlist"@, url]
}

/// The audio quality for a bit rate in kilobits per second.
pub open spec fn quality(bitrate: nat) -> Seq<char> {
    decimal(bitrate) + "K"@
}

/// The template by which the fetcher names its output in `dir`.
pub open spec fn output_template(dir: Seq<char>) -> Seq<char> {
    joined(dir, "%(title)s.%(ext)s"@)
}

/// The fetcher's arguments for the transfer of one video as MP3 audio,
/// with one progress line per update. `converter`, where given, is the
/// directory in which the fetcher finds the converter.
pub open spec fn transfer_args(
    bitrate: nat,
    dir: Seq<char>,
    url: Seq<char>,
    converter: Option<Seq<char>>,
) -> Seq<Seq<char>> {
    seq![
        "-x"@,
        "--audio-format"@,
        "mp3"@,
        "--audio-quality"@,
        quality(bitrate),
        "-o"@,
        output_template(dir),
        "--no-playlist"@,
        "--newline"@,
    ] + (match converter {
        Some(c) => seq!["--ffmpeg-location"@, c],
        None => Seq::<Seq<char>>::empty(),
    }) + seq![url]
}

/// The converter's arguments for turning `input` into MP3 audio at
/// `output`.
pub open spec fn conversion_args(input: Seq<char>, output: Seq<char>, bitrate: nat) -> Seq<
    Seq<char>,
> {
    seq![
        "-i"@,
        input,
        "-vn"@,
        "-acodec"@,
        "libmp3lame"@,
        "-ab"@,
        decimal(bitrate) + "k"@,
        "-ar"@,
        "44100"@,
        "-y"@,
        output,
    ]
}

/// The argument that makes `tool` print its version.
pub fn version_flag_of(tool: ToolName) -> (r: &'static str)
    ensures
        r@ == version_flag(tool),
{
    match tool {
        ToolName::Converter => "-version",
        ToolName::Fetcher => "--version",
    }
}

/// The fetcher's arguments for a metadata query on one video.
pub fn metadata_args_of(url: &str) -> (r: Vec<String>)
    ensures
        texts(r@) == metadata_args(url@),
{
    let mut r: Vec<String> = Vec::new();
    r.push(owned("--dump-json"));
    r.push(owned("--no-playlist"));
    r.push(owned(url));
    assert(texts(r@) =~= metadata_args(url@));
    r
}

/// The fetcher's arguments for the flat listing of a playlist.
pub fn listing_args_of(url: &str) -> (r: Vec<String>)
    ensures
        texts(r@) == listing_args(url@),
{
    let mut r: Vec<String> = Vec::new();
    r.push(owned("--dump-json"));
    r.push(owned("--flat-playlist"));
    r.push(owned(url));
    assert(texts(r@) =~= listing_args(url@));
    r
}

/// The fetcher's arguments for the transfer of one video as MP3 audio.
pub fn transfer_args_of(bitrate: u32, dir: &str, url: &str, converter: &Option<String>) -> (r:
    Vec<String>)
    ensures
        texts(r@) == transfer_args(
            bitrate as nat,
            dir@,
            url@,
            match *converter {
                Some(c) => Some(c@),
                None => None,
            },
        ),
{
    let mut q = decimal_of(bitrate as u64);
    append_str(&mut q, "K");
    let template = join_path(&chars_of(dir), &chars_of("%(title)s.%(ext)s"));
    let mut r: Vec<String> = Vec::new();
    r.push(owned("-x"));
    r.push(owned("--audio-format"));
    r.push(owned("mp3"));
    r.push(owned("--audio-quality"));
    r.push(string_of(&q));
    r.push(owned("-o"));
    r.push(string_of(&template));
    r.push(owned("--no-playlist"));
    r.push(owned("--newline"));
    match converter {
        Some(c) => {
            r.push(owned("--ffmpeg-location"));
            r.push(owned(c.as_str()));
        },
        None => {},
    }
    r.push(owned(url));
    assert(texts(r@) =~= transfer_args(
        bitrate as nat,
        dir@,
        url@,
        match *converter {
            Some(c) => Some(c@),
            None => None,
        },
    ));
    r
}

/// The converter's arguments for turning `input` into MP3 audio at
/// `output`.
pub fn conversion_args_of(input: &str, output: &str, bitrate: u32) -> (r: Vec<String>)
    ensures
        texts(r@) == conversion_args(input@, output@, bitrate as nat),
{
    let mut q = decimal_of(bitrate as u64);
    append_str(&mut q, "k");
    let mut r: Vec<String> = Vec::new();
    r.push(owned("-i"));
    r.push(owned(input));
    r.push(owned("-vn"));
    r.push(owned("-acodec"));
    r.push(owned("libmp3lame"));
    r.push(owned("-ab"));
    r.push(string_of(&q));
    r.push(owned("-ar"));
    r.push(owned("44100"));
    r.push(owned("-y"));
    r.push(owned(output));
    assert(texts(r@) =~= conversion_args(input@, output@, bitrate as nat));
    r
}

} // verus!
