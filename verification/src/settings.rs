//! What the application keeps between runs: the user's preferences and
//! the history of downloads. Reading and writing the files is the
//! caller's part; the rules on their contents are here.

use crate::orchestrator::{DownloadResponse, DownloadResult, ResponseModel, ResultModel};
use crate::text::{copy_text, decimal, decimal_of, append_chars, append_str, chars_of, string_of, text_model};
use vstd::prelude::*;

verus! {

/// The history holds at most this many downloads.
pub const HISTORY_LIMIT: usize = 100;

/// The user's preferences. Each is absent until it has been set.
#[derive(Clone, Debug, PartialEq, Eq)]
pub struct AppPreferences {
    pub output_folder: Option<String>,
    pub bitrate: Option<u32>,
    pub last_url: Option<String>,
}

/// Preferences as mathematical values.
pub struct PreferencesModel {
    pub output_folder: Option<Seq<char>>,
    pub bitrate: Option<u32>,
    pub last_url: Option<Seq<char>>,
}

impl View for AppPreferences {
    type V = PreferencesModel;

    open spec fn view(&self) -> PreferencesModel {
        PreferencesModel {
            output_folder: text_model(self.output_folder),
            bitrate: self.bitrate,
            last_url: text_model(self.last_url),
        }
    }
}

impl PreferencesModel {
    /// These preferences with each given value in place of the old one; a
    /// value that is not given leaves the old one.
    pub open spec fn updated(
        self,
        output_folder: Option<Seq<char>>,
        bitrate: Option<u32>,
        last_url: Option<Seq<char>>,
    ) -> PreferencesModel {
        PreferencesModel {
            output_folder: if output_folder is Some {
                output_folder
            } else {
                self.output_folder
            },
            bitrate: if bitrate is Some {
                bitrate
            } else {
                self.bitrate
            },
            last_url: if last_url is Some {
                last_url
            } else {
                self.last_url
            },
        }
    }
}

impl AppPreferences {
    /// Preferences with nothing set.
    pub fn new() -> (p: AppPreferences)
        ensures
            p@ == (PreferencesModel { output_folder: None, bitrate: None, last_url: None }),
    {
        AppPreferences { output_folder: None, bitrate: None, last_url: None }
    }

    /// Sets each preference that is given, and leaves the others.
    pub fn update(
        &mut self,
        output_folder: Option<String>,
        bitrate: Option<u32>,
        last_url: Option<String>,
    )
        ensures
            final(self)@ == old(self)@.updated(
                text_model(output_folder),
                bitrate,
                text_model(last_url),
            ),
    {
        if let Some(folder) = output_folder {
            self.output_folder = Some(folder);
        }
        if let Some(rate) = bitrate {
            self.bitrate = Some(rate);
        }
        if let Some(url) = last_url {
            self.last_url = Some(url);
        }
    }
}

/// One download of the past.
#[derive(Clone, Debug, PartialEq, Eq)]
pub struct DownloadHistory {
    pub url: String,
    pub title: Option<String>,
    pub output_path: String,
    pub bitrate: u32,
    pub timestamp: String,
    /// The duration in seconds, as the decimal number that was reported.
    pub duration: Option<String>,
}

/// A download of the past as mathematical values.
pub struct HistoryModel {
    pub url: Seq<char>,
    pub title: Option<Seq<char>>,
    pub output_path: Seq<char>,
    pub bitrate: u32,
    pub timestamp: Seq<char>,
    pub duration: Option<Seq<char>>,
}

impl View for DownloadHistory {
    type V = HistoryModel;

    open spec fn view(&self) -> HistoryModel {
        HistoryModel {
            url: self.url@,
            title: text_model(self.title),
            output_path: self.output_path@,
            bitrate: self.bitrate,
            timestamp: self.timestamp@,
            duration: text_model(self.duration),
        }
    }
}

/// The models of a sequence of downloads.
pub open spec fn history_models(v: Seq<DownloadHistory>) -> Seq<HistoryModel> {
    Seq::new(v.len(), |i: int| v[i]@)
}

/// The history with one more download: the oldest goes when there would
/// be more than `HISTORY_LIMIT`.
pub open spec fn with_download(history: Seq<HistoryModel>, download: HistoryModel) -> Seq<
    HistoryModel,
> {
    if history.len() + 1 > HISTORY_LIMIT {
        history.push(download).drop_first()
    } else {
        history.push(download)
    }
}

/// The history's entry for one artifact.
pub open spec fn entry_for(
    url: Seq<char>,
    bitrate: u32,
    timestamp: Seq<char>,
    result: ResultModel,
) -> HistoryModel {
    HistoryModel {
        url,
        title: result.title,
        output_path: result.output_path,
        bitrate,
        timestamp,
        duration: result.duration,
    }
}

/// The history's entries for a response: one for each artifact, in order.
pub open spec fn entries_for(
    url: Seq<char>,
    bitrate: u32,
    timestamp: Seq<char>,
    response: ResponseModel,
) -> Seq<HistoryModel> {
    match response {
        ResponseModel::Single(r) => seq![entry_for(url, bitrate, timestamp, r)],
        ResponseModel::Playlist(p) => Seq::new(
            p.downloaded_videos.len(),
            |i: int| entry_for(url, bitrate, timestamp, p.downloaded_videos[i]),
        ),
    }
}

/// The history of downloads, oldest first.
#[derive(Clone, Debug, PartialEq, Eq)]
pub struct HistoryData {
    pub downloads: Vec<DownloadHistory>,
}

impl HistoryData {
    /// An empty history.
    pub fn new() -> (h: HistoryData)
        ensures
            history_models(h.downloads@) == Seq::<HistoryModel>::empty(),
    {
        let h = HistoryData { downloads: Vec::new() };
        assert(history_models(h.downloads@) =~= Seq::<HistoryModel>::empty());
        h
    }

    /// Adds a download at the end, and drops the oldest when there would
    /// be more than `HISTORY_LIMIT`.
    pub fn add(&mut self, download: DownloadHistory)
        ensures
            history_models(final(self).downloads@) == with_download(
                history_models(old(self).downloads@),
                download@,
            ),
    {
        self.downloads.push(download);
        if self.downloads.len() > HISTORY_LIMIT {
            self.downloads.remove(0);
        }
        assert(history_models(self.downloads@) =~= with_download(
            history_models(old(self).downloads@),
            download@,
        ));
    }
}

fn history_entry(url: &str, bitrate: u32, timestamp: &str, result: &DownloadResult) -> (e:
    DownloadHistory)
    ensures
        e@ == entry_for(url@, bitrate, timestamp@, result@),
{
    DownloadHistory {
        url: crate::text::owned(url),
        title: copy_text(&result.title),
        output_path: result.output_path.clone(),
        bitrate,
        timestamp: crate::text::owned(timestamp),
        duration: copy_text(&result.duration),
    }
}

/// The history's entries for a response.
pub fn history_entries(url: &str, bitrate: u32, timestamp: &str, response: &DownloadResponse) -> (r:
    Vec<DownloadHistory>)
    ensures
        history_models(r@) == entries_for(url@, bitrate, timestamp@, response@),
{
    let mut r: Vec<DownloadHistory> = Vec::new();
    match response {
        DownloadResponse::Single(result) => {
            r.push(history_entry(url, bitrate, timestamp, result));
            assert(history_models(r@) =~= entries_for(url@, bitrate, timestamp@, response@));
        },
        DownloadResponse::Playlist(p) => {
            let mut i: usize = 0;
            while i < p.downloaded_videos.len()
                invariant
                    i <= p.downloaded_videos.len(),
                    r@.len() == i,
                    forall|j: int|
                        0 <= j < i ==> r@[j]@ == entry_for(
                            url@,
                            bitrate,
                            timestamp@,
                            p.downloaded_videos@[j]@,
                        ),
                decreases p.downloaded_videos.len() - i,
            {
                r.push(history_entry(url, bitrate, timestamp, &p.downloaded_videos[i]));
                i = i + 1;
            }
            assert(history_models(r@) =~= entries_for(url@, bitrate, timestamp@, response@));
        },
    }
    r
}

/// The notice shown when a request is done: its title and its body.
pub open spec fn completion_notice(response: ResponseModel) -> (Seq<char>, Seq<char>) {
    match response {
        ResponseModel::Single(r) => (
            "Download Complete"@,
            "Successfully downloaded and converted to MP3"@,
        ),
        ResponseModel::Playlist(p) => (
            "Playlist Download Complete"@,
            "Successfully downloaded "@ + decimal(p.downloaded_videos.len()) + " videos from playlist"@,
        ),
    }
}

/// The notice shown when a request is done: its title and its body.
pub fn completion_notice_of(response: &DownloadResponse) -> (r: (String, String))
    ensures
        (r.0@, r.1@) == completion_notice(response@),
{
    match response {
        DownloadResponse::Single(result) => (
            crate::text::owned("Download Complete"),
            crate::text::owned("Successfully downloaded and converted to MP3"),
        ),
        DownloadResponse::Playlist(p) => {
            let mut v = chars_of("Successfully downloaded ");
            let count = decimal_of(p.downloaded_videos.len() as u64);
            append_chars(&mut v, &count);
            append_str(&mut v, " videos from playlist");
            (crate::text::owned("Playlist Download Complete"), string_of(&v))
        },
    }
}

} // verus!
