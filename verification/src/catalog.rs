//! Browsing the songs under a directory.
//!
//! The caller lists the directory and reads the manifests; the library
//! decides what the findings amount to. A scan is best effort: a child
//! without a manifest is no song, and a child whose manifest cannot be
//! read or understood is left out without failing the scan. Loading one
//! song and resolving one stem fail loudly instead.

use vstd::prelude::*;
use crate::binary64::Binary64;
use crate::decode::{decode_analysis, parse_analysis_of};
use crate::json::parsed_json;
use crate::round_trip::lemma_analysis_read_well;
use crate::error::{CommandError, ErrorModel};
use crate::keyed::{as_map, lemma_as_map_len};
use crate::manifest::{text_view, AnalysisModel, SongAnalysis};
use crate::text::{joined, path_join};

verus! {

/// What a catalog lists of one song.
#[derive(Debug, Clone, PartialEq, Eq)]
pub struct SongSummary {
    /// The song's directory, as the scan came by it.
    pub path: String,
    pub title: Option<String>,
    pub artist: Option<String>,
    /// Length of the recording in seconds.
    pub duration: Binary64,
    /// Number of stems in the analysis.
    pub stem_count: usize,
}

/// A `SongSummary` as mathematical values.
pub struct SummaryModel {
    pub path: Seq<char>,
    pub title: Option<Seq<char>>,
    pub artist: Option<Seq<char>>,
    pub duration: Binary64,
    pub stem_count: nat,
}

impl View for SongSummary {
    type V = SummaryModel;

    open spec fn view(&self) -> SummaryModel {
        SummaryModel {
            path: self.path@,
            title: text_view(self.title),
            artist: text_view(self.artist),
            duration: self.duration,
            stem_count: self.stem_count as nat,
        }
    }
}

impl DeepView for SongSummary {
    type V = SummaryModel;

    open spec fn deep_view(&self) -> SummaryModel {
        self@
    }
}

/// What the caller found where a song's manifest should be.
#[derive(Debug)]
pub enum ManifestRead {
    /// There is no manifest file.
    Missing,
    /// There is one, but it could not be read as text.
    Unreadable,
    /// The text of the manifest.
    Content(String),
}

/// One child of the scanned directory.
#[derive(Debug)]
pub struct SongEntry {
    /// The child's path.
    pub path: String,
    /// What was found at the manifest's place below it.
    pub manifest: ManifestRead,
}

/// What the caller found when it listed the scanned directory.
#[derive(Debug)]
pub enum Listing {
    /// The directory does not exist.
    NoDirectory,
    /// The directory exists but could not be listed; holds the system's
    /// description.
    Failed(String),
    /// The children in the order of enumeration. A child that the
    /// enumeration failed on stands as the system's description of the
    /// failure.
    Children(Vec<Result<SongEntry, String>>),
}

/// The summary of an analysis found at `path`: title, artist and duration
/// as the analysis has them, and the number of its stems.
pub open spec fn summary_of(path: Seq<char>, analysis: AnalysisModel) -> SummaryModel {
    SummaryModel {
        path,
        title: analysis.title,
        artist: analysis.artist,
        duration: analysis.original_duration,
        stem_count: analysis.stems.len(),
    }
}

/// The summary that a child contributes to the catalog: one, if it has a
/// manifest that reads as an analysis, and none otherwise.
pub open spec fn entry_summary(entry: SongEntry) -> Option<SummaryModel> {
    match entry.manifest {
        ManifestRead::Content(text) => match parse_analysis_of(text@) {
            Ok(analysis) => Some(summary_of(entry.path@, analysis)),
            Err(_) => None,
        },
        _ => None,
    }
}

/// The summaries that the children before `end` contribute, in order.
pub open spec fn summaries_before(children: Seq<Result<SongEntry, String>>, end: int) -> Seq<
    SummaryModel,
>
    decreases end,
{
    if end <= 0 || end > children.len() {
        Seq::empty()
    } else {
        let before = summaries_before(children, end - 1);
        match children[end - 1] {
            Ok(entry) => match entry_summary(entry) {
                Some(summary) => before.push(summary),
                None => before,
            },
            Err(_) => before,
        }
    }
}

/// The first child that the enumeration failed on, if there is one.
pub open spec fn first_failure(children: Seq<Result<SongEntry, String>>) -> Option<int> {
    if exists|i: int| 0 <= i < children.len() && (#[trigger] children[i]) is Err {
        Some(
            choose|i: int|
                0 <= i < children.len() && (#[trigger] children[i]) is Err && forall|k: int|
                    0 <= k < i ==> (#[trigger] children[k]) is Ok,
        )
    } else {
        None
    }
}

/// What a listing amounts to: nothing where there is no directory, the
/// system's complaint where the directory or one of its children could
/// not be listed, and otherwise the summaries of the children that are
/// songs.
pub open spec fn list_songs_of(listing: Listing) -> Result<Seq<SummaryModel>, ErrorModel> {
    match listing {
        Listing::NoDirectory => Ok(Seq::empty()),
        Listing::Failed(description) => Err(ErrorModel::Io(description@)),
        Listing::Children(children) => match first_failure(children@) {
            Some(i) => Err(ErrorModel::Io(children@[i]->Err_0@)),
            None => Ok(summaries_before(children@, children@.len() as int)),
        },
    }
}

/// What reading a song's manifest amounts to: the analysis it describes,
/// the system's complaint where the file could not be read, or the
/// reader's complaint where the text is no manifest.
pub open spec fn load_analysis_of(read: Result<String, String>) -> Result<
    AnalysisModel,
    ErrorModel,
> {
    match read {
        Ok(text) => match parse_analysis_of(text@) {
            Ok(analysis) => Ok(analysis),
            Err(complaint) => Err(ErrorModel::Parse(complaint)),
        },
        Err(description) => Err(ErrorModel::Io(description@)),
    }
}

/// A scan that the enumeration did not fail on never fails, whatever the
/// manifests hold, and lists at most one song for each child.
pub proof fn lemma_scan_is_best_effort(children: Vec<Result<SongEntry, String>>)
    requires
        forall|i: int| 0 <= i < children@.len() ==> (#[trigger] children@[i]) is Ok,
    ensures
        list_songs_of(Listing::Children(children)) is Ok,
        list_songs_of(Listing::Children(children))->Ok_0.len() <= children@.len(),
{
    if first_failure(children@) is Some {
        assert(children@[first_failure(children@)->0] is Ok);
    }
    lemma_summaries_count(children@, children@.len() as int);
}

/// The children before `end` contribute at most one summary each.
pub proof fn lemma_summaries_count(children: Seq<Result<SongEntry, String>>, end: int)
    requires
        0 <= end <= children.len(),
    ensures
        summaries_before(children, end).len() <= end,
    decreases end,
{
    if end > 0 {
        lemma_summaries_count(children, end - 1);
    }
}

/// A child whose manifest is missing, unreadable or not understood
/// changes nothing in the catalog, and a child whose manifest reads as an
/// analysis adds exactly that analysis's summary.
pub proof fn lemma_scan_step(children: Seq<Result<SongEntry, String>>, end: int)
    requires
        0 < end <= children.len(),
        children[end - 1] is Ok,
    ensures
        summaries_before(children, end) == match entry_summary(children[end - 1]->Ok_0) {
            Some(summary) => summaries_before(children, end - 1).push(summary),
            None => summaries_before(children, end - 1),
        },
        !(children[end - 1]->Ok_0.manifest is Content) ==> entry_summary(children[end - 1]->Ok_0)
            is None,
        children[end - 1]->Ok_0.manifest matches ManifestRead::Content(text) ==> (entry_summary(
            children[end - 1]->Ok_0,
        ) is Some <==> parse_analysis_of(text@) is Ok),
{
}

/// The stem count of a listed song is the number of names in the mapping
/// of stems of that song's analysis.
pub proof fn lemma_stem_count(entry: SongEntry)
    requires
        entry_summary(entry) is Some,
    ensures
        entry.manifest matches ManifestRead::Content(text) && parse_analysis_of(text@) matches Ok(
            analysis,
        ) && entry_summary(entry)->0.stem_count == as_map(analysis.stems).dom().len(),
{
    let text = entry.manifest->Content_0;
    let json = parsed_json(text@)->Ok_0;
    lemma_analysis_read_well(json);
    lemma_as_map_len(decode_analysis(json)->Ok_0.stems);
}

/// The name of the manifest file inside a song's directory.
pub fn manifest_file_name() -> (name: &'static str)
    ensures
        name@ == "analysis.json"@,
{
    "analysis.json"
}

/// The place of the manifest of the song at `song_dir`.
pub fn manifest_path(song_dir: &str) -> (path: String)
    ensures
        path@ == path_join(song_dir@, "analysis.json"@),
{
    joined(song_dir, manifest_file_name())
}

/// The place of a stem file, given as the manifest records it, of the
/// song at `song_dir`.
pub fn stem_path(song_dir: &str, relative_path: &str) -> (path: String)
    ensures
        path@ == path_join(song_dir@, relative_path@),
{
    joined(song_dir, relative_path)
}

impl SongSummary {
    /// Summarises the analysis found at `path`. The stem count is the
    /// number of names in the analysis's mapping of stems.
    pub fn new(path: String, analysis: SongAnalysis) -> (summary: SongSummary)
        ensures
            summary@ == summary_of(path@, analysis@),
            summary.stem_count == as_map(analysis@.stems).dom().len(),
    {
        let stem_count = analysis.stems.len();
        proof {
            lemma_as_map_len(analysis@.stems);
        }
        SongSummary {
            path,
            title: analysis.title,
            artist: analysis.artist,
            duration: analysis.original_duration,
            stem_count,
        }
    }
}

/// Decides what one child contributes to the catalog.
pub fn summarize_entry(entry: &SongEntry) -> (r: Option<SongSummary>)
    ensures
        match r {
            Some(summary) => entry_summary(*entry) == Some(summary@),
            None => entry_summary(*entry) is None,
        },
{
    match &entry.manifest {
        ManifestRead::Content(text) => match SongAnalysis::parse(text.as_str()) {
            Ok(analysis) => Some(SongSummary::new(entry.path.clone(), analysis)),
            Err(_) => None,
        },
        _ => None,
    }
}

/// Lists the songs that a directory listing holds. A directory that does
/// not exist lists as empty.
pub fn list_songs(listing: &Listing) -> (r: Result<Vec<SongSummary>, CommandError>)
    ensures
        *listing is NoDirectory ==> r is Ok && r->Ok_0@.len() == 0,
        match r {
            Ok(songs) => list_songs_of(*listing) == Ok::<Seq<SummaryModel>, ErrorModel>(
                songs.deep_view(),
            ),
            Err(e) => list_songs_of(*listing) == Err::<Seq<SummaryModel>, ErrorModel>(e@),
        },
{
    match listing {
        Listing::NoDirectory => {
            let songs: Vec<SongSummary> = Vec::new();
            assert(songs.deep_view() =~= Seq::<SummaryModel>::empty());
            Ok(songs)
        },
        Listing::Failed(description) => Err(CommandError::Io(description.clone())),
        Listing::Children(children) => {
            let mut songs: Vec<SongSummary> = Vec::new();
            let mut i: usize = 0;
            assert(songs.deep_view() =~= summaries_before(children@, 0));
            while i < children.len()
                invariant
                    i <= children@.len(),
                    *listing == Listing::Children(*children),
                    forall|k: int| 0 <= k < i ==> (#[trigger] children@[k]) is Ok,
                    songs.deep_view() == summaries_before(children@, i as int),
                decreases children.len() - i,
            {
                match &children[i] {
                    Ok(entry) => {
                        if let Some(summary) = summarize_entry(entry) {
                            let ghost before = songs.deep_view();
                            songs.push(summary);
                            assert(songs.deep_view() =~= before.push(summary@));
                        }
                    },
                    Err(description) => {
                        proof {
                            let here = i as int;
                            assert(0 <= here < children@.len() && children@[here] is Err
                                && forall|k: int| 0 <= k < here ==> (#[trigger] children@[k]) is Ok);
                            let found = first_failure(children@)->0;
                            if found < here {
                                assert(children@[found] is Ok);
                            } else if here < found {
                                assert(children@[here] is Ok);
                            }
                        }
                        return Err(CommandError::Io(description.clone()));
                    },
                }
                i += 1;
            }
            proof {
                if first_failure(children@) is Some {
                    assert(children@[first_failure(children@)->0] is Ok);
                }
            }
            Ok(songs)
        },
    }
}

/// Loads the analysis of one song from what reading its manifest gave.
pub fn load_analysis(read: Result<String, String>) -> (r: Result<SongAnalysis, CommandError>)
    ensures
        match r {
            Ok(analysis) => load_analysis_of(read) == Ok::<AnalysisModel, ErrorModel>(analysis@),
            Err(e) => load_analysis_of(read) == Err::<AnalysisModel, ErrorModel>(e@),
        },
{
    match read {
        Ok(text) => match SongAnalysis::parse(text.as_str()) {
            Ok(analysis) => Ok(analysis),
            Err(complaint) => Err(CommandError::Parse(complaint)),
        },
        Err(description) => Err(CommandError::Io(description)),
    }
}

/// Answers for a stem file whose place was resolved and looked at: the
/// resolved path if the file is there right now, and otherwise the
/// complaint that it was not found, with the path that was tried.
pub fn get_stem_path(resolved: String, exists: bool) -> (r: Result<String, CommandError>)
    ensures
        r is Ok <==> exists,
        match r {
            Ok(path) => path == resolved,
            Err(e) => e == CommandError::NotFound(resolved),
        },
{
    if exists {
        Ok(resolved)
    } else {
        Err(CommandError::NotFound(resolved))
    }
}

} // verus!
