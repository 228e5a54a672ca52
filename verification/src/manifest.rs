//! The analysis manifest of one song.
//!
//! A manifest is produced once by the converter and only read here. Its
//! texts, numbers and mappings are kept as they were written: nothing
//! checks that a stem's key matches the stem's own name, that the beats
//! are in order of time, or that a stem has any path at all.

use vstd::prelude::*;
use crate::binary64::{finite_bits, non_negative_bits, positive_bits, Binary64};
use crate::keyed::{distinct_keys, Entries};
use crate::text_map::TextMap;

verus! {

/// One isolated component of a song, such as the vocals or the drums.
#[derive(Debug)]
pub struct StemInfo {
    /// The stem's identifier.
    pub name: String,
    /// File paths by format or variant.
    pub paths: TextMap<String>,
    /// Whether note data was extracted for the stem.
    pub has_notes: bool,
    /// Peak loudness in decibels.
    pub peak_db: Binary64,
}

/// One detected rhythmic event.
#[derive(Debug, Clone, PartialEq, Eq)]
pub struct BeatEvent {
    /// Seconds from the start of the song.
    pub time: Binary64,
    /// The event's category.
    pub beat_type: String,
    /// Position within the measure, where it is known.
    pub beat_in_measure: Option<i32>,
}

/// Everything the converter recorded about one song.
#[derive(Debug)]
pub struct SongAnalysis {
    pub title: Option<String>,
    pub artist: Option<String>,
    pub album: Option<String>,
    /// Length of the recording in seconds.
    pub original_duration: Binary64,
    /// Sample rate in hertz.
    pub sample_rate: i32,
    /// Tempo in beats per minute, where it was detected.
    pub tempo_bpm: Option<Binary64>,
    /// Beats per measure and beat unit, where they were detected.
    pub time_signature: Option<(i32, i32)>,
    /// The stems by name.
    pub stems: TextMap<StemInfo>,
    /// The beats in the order in which they were recorded.
    pub beats: Vec<BeatEvent>,
    /// The input file the analysis was made from.
    pub source_file: String,
    /// When the analysis was made.
    pub processing_date: String,
    /// Version of the converter that made it.
    pub converter_version: String,
}

/// A `StemInfo` as mathematical values.
pub struct StemModel {
    pub name: Seq<char>,
    pub paths: Entries<Seq<char>>,
    pub has_notes: bool,
    pub peak_db: Binary64,
}

/// A `BeatEvent` as mathematical values.
pub struct BeatModel {
    pub time: Binary64,
    pub beat_type: Seq<char>,
    pub beat_in_measure: Option<i32>,
}

/// A `SongAnalysis` as mathematical values.
pub struct AnalysisModel {
    pub title: Option<Seq<char>>,
    pub artist: Option<Seq<char>>,
    pub album: Option<Seq<char>>,
    pub original_duration: Binary64,
    pub sample_rate: i32,
    pub tempo_bpm: Option<Binary64>,
    pub time_signature: Option<(i32, i32)>,
    pub stems: Entries<StemModel>,
    pub beats: Seq<BeatModel>,
    pub source_file: Seq<char>,
    pub processing_date: Seq<char>,
    pub converter_version: Seq<char>,
}

impl View for StemInfo {
    type V = StemModel;

    open spec fn view(&self) -> StemModel {
        StemModel {
            name: self.name@,
            paths: self.paths@,
            has_notes: self.has_notes,
            peak_db: self.peak_db,
        }
    }
}

impl DeepView for StemInfo {
    type V = StemModel;

    open spec fn deep_view(&self) -> StemModel {
        self@
    }
}

impl View for BeatEvent {
    type V = BeatModel;

    open spec fn view(&self) -> BeatModel {
        BeatModel {
            time: self.time,
            beat_type: self.beat_type@,
            beat_in_measure: self.beat_in_measure,
        }
    }
}

impl DeepView for BeatEvent {
    type V = BeatModel;

    open spec fn deep_view(&self) -> BeatModel {
        self@
    }
}

/// What an optional text holds.
pub open spec fn text_view(text: Option<String>) -> Option<Seq<char>> {
    match text {
        Some(s) => Some(s@),
        None => None,
    }
}

impl View for SongAnalysis {
    type V = AnalysisModel;

    open spec fn view(&self) -> AnalysisModel {
        AnalysisModel {
            title: text_view(self.title),
            artist: text_view(self.artist),
            album: text_view(self.album),
            original_duration: self.original_duration,
            sample_rate: self.sample_rate,
            tempo_bpm: self.tempo_bpm,
            time_signature: self.time_signature,
            stems: self.stems@,
            beats: self.beats.deep_view(),
            source_file: self.source_file@,
            processing_date: self.processing_date@,
            converter_version: self.converter_version@,
        }
    }
}

impl DeepView for SongAnalysis {
    type V = AnalysisModel;

    open spec fn deep_view(&self) -> AnalysisModel {
        self@
    }
}

/// A stem that can be written down as it stands: its paths are under
/// distinct names and its loudness is a finite number.
pub open spec fn stem_well_formed(stem: StemModel) -> bool {
    distinct_keys(stem.paths) && finite_bits(stem.peak_db.bits)
}

/// A beat whose time is a finite number.
pub open spec fn beat_well_formed(beat: BeatModel) -> bool {
    finite_bits(beat.time.bits)
}

/// An analysis that can be written down as it stands: every number in it
/// is finite and no mapping holds a name twice.
pub open spec fn analysis_well_formed(analysis: AnalysisModel) -> bool {
    &&& finite_bits(analysis.original_duration.bits)
    &&& (analysis.tempo_bpm matches Some(tempo) ==> finite_bits(tempo.bits))
    &&& distinct_keys(analysis.stems)
    &&& forall|i: int|
        0 <= i < analysis.stems.len() ==> stem_well_formed((#[trigger] analysis.stems[i]).1)
    &&& forall|i: int| 0 <= i < analysis.beats.len() ==> beat_well_formed(#[trigger] analysis.beats[i])
}

/// A stem that can be played: it has at least one path.
pub open spec fn stem_usable(stem: StemModel) -> bool {
    stem.paths.len() > 0
}

/// What a manifest should satisfy beyond its shape, though no reader
/// insists on it: a duration above zero and no beat before the start.
pub open spec fn analysis_valid(analysis: AnalysisModel) -> bool {
    &&& positive_bits(analysis.original_duration.bits)
    &&& forall|i: int|
        0 <= i < analysis.beats.len() ==> non_negative_bits((#[trigger] analysis.beats[i]).time.bits)
}

impl StemInfo {
    /// Whether the stem has at least one path.
    pub fn is_usable(&self) -> (b: bool)
        ensures
            b == stem_usable(self@),
    {
        self.paths.len() > 0
    }
}

impl SongAnalysis {
    /// Whether the duration is above zero and no beat lies before the
    /// start of the song.
    pub fn is_valid(&self) -> (b: bool)
        ensures
            b == analysis_valid(self@),
    {
        if !self.original_duration.is_positive() {
            return false;
        }
        let mut i: usize = 0;
        while i < self.beats.len()
            invariant
                i <= self.beats@.len(),
                forall|k: int|
                    0 <= k < i ==> non_negative_bits((#[trigger] self@.beats[k]).time.bits),
            decreases self.beats.len() - i,
        {
            if !self.beats[i].time.is_non_negative() {
                assert(!non_negative_bits(self@.beats[i as int].time.bits));
                return false;
            }
            i += 1;
        }
        true
    }
}

} // verus!
