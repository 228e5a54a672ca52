//! Writing manifests and summaries as JSON documents.
//!
//! Every field is written under its name in lower camel case, in the
//! order of the schema. An absent optional field is written as `null`, and
//! so is a number that is not finite, for which JSON has no notation.

use vstd::prelude::*;
use vstd::string::StringExecFns;
use crate::binary64::{finite_bits, Binary64};
use crate::catalog::{SongSummary, SummaryModel};
use crate::json::{items_view, lemma_array_view, lemma_object_view, members_view, Json, JsonModel, JsonNumber};
use crate::keyed::Entries;
use crate::manifest::{
    AnalysisModel, BeatEvent, BeatModel, SongAnalysis, StemInfo, StemModel,
};
use crate::text_map::TextMap;

verus! {

/// A text that may be absent.
pub open spec fn encode_optional_text(text: Option<Seq<char>>) -> JsonModel {
    match text {
        Some(s) => JsonModel::Text(s),
        None => JsonModel::Null,
    }
}

/// A number: by its bit pattern where it is finite, and `null` otherwise.
pub open spec fn encode_binary64(number: Binary64) -> JsonModel {
    if finite_bits(number.bits) {
        JsonModel::Number(JsonNumber { signed: None, unsigned: None, binary64: Some(number.bits) })
    } else {
        JsonModel::Null
    }
}

/// A number that may be absent.
pub open spec fn encode_optional_binary64(number: Option<Binary64>) -> JsonModel {
    match number {
        Some(x) => encode_binary64(x),
        None => JsonModel::Null,
    }
}

/// An integer of 32 signed bits, by its integer readings.
pub open spec fn encode_int32(i: i32) -> JsonModel {
    JsonModel::Number(
        JsonNumber {
            signed: Some(i as i64),
            unsigned: if i >= 0 {
                Some(i as u64)
            } else {
                None
            },
            binary64: None,
        },
    )
}

/// An integer of 32 signed bits that may be absent.
pub open spec fn encode_optional_int32(i: Option<i32>) -> JsonModel {
    match i {
        Some(i) => encode_int32(i),
        None => JsonModel::Null,
    }
}

/// A pair of integers that may be absent, as an array of the two.
pub open spec fn encode_optional_int32_pair(pair: Option<(i32, i32)>) -> JsonModel {
    match pair {
        Some(pair) => JsonModel::Array(seq![encode_int32(pair.0), encode_int32(pair.1)]),
        None => JsonModel::Null,
    }
}

/// A count, by its integer readings.
pub open spec fn encode_count(n: nat) -> JsonModel {
    JsonModel::Number(
        JsonNumber {
            signed: if n <= i64::MAX {
                Some(n as i64)
            } else {
                None
            },
            unsigned: if n <= u64::MAX {
                Some(n as u64)
            } else {
                None
            },
            binary64: None,
        },
    )
}

/// A mapping of paths, as an object with one string member for each.
pub open spec fn encode_paths(paths: Entries<Seq<char>>) -> JsonModel {
    JsonModel::Object(Seq::new(paths.len(), |i: int| (paths[i].0, JsonModel::Text(paths[i].1))))
}

/// A stem, as an object.
pub open spec fn encode_stem(stem: StemModel) -> JsonModel {
    JsonModel::Object(
        seq![
            ("name"@, JsonModel::Text(stem.name)),
            ("paths"@, encode_paths(stem.paths)),
            ("hasNotes"@, JsonModel::Bool(stem.has_notes)),
            ("peakDb"@, encode_binary64(stem.peak_db)),
        ],
    )
}

/// A mapping of stems, as an object with one member for each.
pub open spec fn encode_stems(stems: Entries<StemModel>) -> JsonModel {
    JsonModel::Object(Seq::new(stems.len(), |i: int| (stems[i].0, encode_stem(stems[i].1))))
}

/// A beat, as an object.
pub open spec fn encode_beat(beat: BeatModel) -> JsonModel {
    JsonModel::Object(
        seq![
            ("time"@, encode_binary64(beat.time)),
            ("type"@, JsonModel::Text(beat.beat_type)),
            ("beatInMeasure"@, encode_optional_int32(beat.beat_in_measure)),
        ],
    )
}

/// A list of beats, as an array.
pub open spec fn encode_beats(beats: Seq<BeatModel>) -> JsonModel {
    JsonModel::Array(Seq::new(beats.len(), |i: int| encode_beat(beats[i])))
}

/// The members of an analysis, in the order of the schema.
pub open spec fn analysis_members(analysis: AnalysisModel) -> Entries<JsonModel> {
    seq![
        ("title"@, encode_optional_text(analysis.title)),
        ("artist"@, encode_optional_text(analysis.artist)),
        ("album"@, encode_optional_text(analysis.album)),
        ("originalDuration"@, encode_binary64(analysis.original_duration)),
        ("sampleRate"@, encode_int32(analysis.sample_rate)),
        ("tempoBpm"@, encode_optional_binary64(analysis.tempo_bpm)),
        ("timeSignature"@, encode_optional_int32_pair(analysis.time_signature)),
        ("stems"@, encode_stems(analysis.stems)),
        ("beats"@, encode_beats(analysis.beats)),
        ("sourceFile"@, JsonModel::Text(analysis.source_file)),
        ("processingDate"@, JsonModel::Text(analysis.processing_date)),
        ("converterVersion"@, JsonModel::Text(analysis.converter_version)),
    ]
}

/// An analysis, as an object.
pub open spec fn encode_analysis(analysis: AnalysisModel) -> JsonModel {
    JsonModel::Object(analysis_members(analysis))
}

/// A summary, as an object.
pub open spec fn encode_summary(summary: SummaryModel) -> JsonModel {
    JsonModel::Object(
        seq![
            ("path"@, JsonModel::Text(summary.path)),
            ("title"@, encode_optional_text(summary.title)),
            ("artist"@, encode_optional_text(summary.artist)),
            ("duration"@, encode_binary64(summary.duration)),
            ("stemCount"@, encode_count(summary.stem_count)),
        ],
    )
}

/// Writes a text that may be absent.
fn optional_text_json(text: &Option<String>) -> (json: Json)
    ensures
        json@ == encode_optional_text(crate::manifest::text_view(*text)),
{
    match text {
        Some(s) => Json::Text(s.clone()),
        None => Json::Null,
    }
}

/// Writes a number.
fn binary64_json(number: Binary64) -> (json: Json)
    ensures
        json@ == encode_binary64(number),
{
    if number.is_finite() {
        Json::Number(JsonNumber { signed: None, unsigned: None, binary64: Some(number.bits) })
    } else {
        Json::Null
    }
}

/// Writes a number that may be absent.
fn optional_binary64_json(number: Option<Binary64>) -> (json: Json)
    ensures
        json@ == encode_optional_binary64(number),
{
    match number {
        Some(x) => binary64_json(x),
        None => Json::Null,
    }
}

/// Writes an integer of 32 signed bits.
fn int32_json(i: i32) -> (json: Json)
    ensures
        json@ == encode_int32(i),
{
    let unsigned: Option<u64> = if i >= 0 {
        Some(i as u64)
    } else {
        None
    };
    Json::Number(JsonNumber { signed: Some(i as i64), unsigned, binary64: None })
}

/// Writes an integer of 32 signed bits that may be absent.
fn optional_int32_json(i: Option<i32>) -> (json: Json)
    ensures
        json@ == encode_optional_int32(i),
{
    match i {
        Some(i) => int32_json(i),
        None => Json::Null,
    }
}

/// Writes a pair of integers that may be absent.
fn optional_int32_pair_json(pair: Option<(i32, i32)>) -> (json: Json)
    ensures
        json@ == encode_optional_int32_pair(pair),
{
    match pair {
        Some(pair) => {
            let mut items: Vec<Json> = Vec::new();
            items.push(int32_json(pair.0));
            items.push(int32_json(pair.1));
            proof {
                lemma_array_view(items);
                assert(items_view(items@) =~= seq![encode_int32(pair.0), encode_int32(pair.1)]);
            }
            Json::Array(items)
        },
        None => Json::Null,
    }
}

/// Writes a count.
fn count_json(n: usize) -> (json: Json)
    ensures
        json@ == encode_count(n as nat),
{
    let wide: u64 = n as u64;
    let signed: Option<i64> = if wide <= 0x7fff_ffff_ffff_ffff {
        Some(wide as i64)
    } else {
        None
    };
    Json::Number(JsonNumber { signed, unsigned: Some(wide), binary64: None })
}

/// Writes a mapping of paths.
fn paths_json(paths: &TextMap<String>) -> (json: Json)
    ensures
        json@ == encode_paths(paths@),
{
    let mut members: Vec<(String, Json)> = Vec::new();
    let mut i: usize = 0;
    while i < paths.len()
        invariant
            i <= paths@.len(),
            members@.len() == i,
            forall|k: int|
                0 <= k < i ==> (#[trigger] members_view(members@)[k]) == (
                    paths@[k].0,
                    JsonModel::Text(paths@[k].1),
                ),
        decreases paths@.len() - i,
    {
        if let Some(entry) = paths.entry(i) {
            let ghost before = members_view(members@);
            members.push((entry.0.clone(), Json::Text(entry.1.clone())));
            assert forall|k: int| 0 <= k < i + 1 implies (#[trigger] members_view(members@)[k]) == (
                paths@[k].0,
                JsonModel::Text(paths@[k].1),
            ) by {
                if k < i {
                    assert(members_view(members@)[k] == before[k]);
                }
            }
        }
        i += 1;
    }
    proof {
        lemma_object_view(members);
        assert(members_view(members@) =~= encode_paths(paths@)->Object_0);
    }
    Json::Object(members)
}

/// Writes a mapping of stems.
fn stems_json(stems: &TextMap<StemInfo>) -> (json: Json)
    ensures
        json@ == encode_stems(stems@),
{
    let mut members: Vec<(String, Json)> = Vec::new();
    let mut i: usize = 0;
    while i < stems.len()
        invariant
            i <= stems@.len(),
            members@.len() == i,
            forall|k: int|
                0 <= k < i ==> (#[trigger] members_view(members@)[k]) == (
                    stems@[k].0,
                    encode_stem(stems@[k].1),
                ),
        decreases stems@.len() - i,
    {
        if let Some(entry) = stems.entry(i) {
            let ghost before = members_view(members@);
            members.push((entry.0.clone(), entry.1.to_json()));
            assert forall|k: int| 0 <= k < i + 1 implies (#[trigger] members_view(members@)[k]) == (
                stems@[k].0,
                encode_stem(stems@[k].1),
            ) by {
                if k < i {
                    assert(members_view(members@)[k] == before[k]);
                }
            }
        }
        i += 1;
    }
    proof {
        lemma_object_view(members);
        assert(members_view(members@) =~= encode_stems(stems@)->Object_0);
    }
    Json::Object(members)
}

/// Writes a list of beats.
fn beats_json(beats: &Vec<BeatEvent>) -> (json: Json)
    ensures
        json@ == encode_beats(beats.deep_view()),
{
    let mut items: Vec<Json> = Vec::new();
    let mut i: usize = 0;
    while i < beats.len()
        invariant
            i <= beats@.len(),
            items@.len() == i,
            forall|k: int| 0 <= k < i ==> (#[trigger] items@[k])@ == encode_beat(beats@[k]@),
        decreases beats.len() - i,
    {
        items.push(beats[i].to_json());
        i += 1;
    }
    proof {
        lemma_array_view(items);
        assert(items_view(items@) =~= encode_beats(beats.deep_view())->Array_0);
    }
    Json::Array(items)
}

/// Makes a member of an object.
fn member_of(name: &str, json: Json) -> (member: (String, Json))
    ensures
        member.0@ == name@,
        member.1 == json,
{
    (String::from_str(name), json)
}

impl StemInfo {
    /// Writes the stem as a JSON document.
    pub fn to_json(&self) -> (json: Json)
        ensures
            json@ == encode_stem(self@),
    {
        let mut members: Vec<(String, Json)> = Vec::new();
        members.push(member_of("name", Json::Text(self.name.clone())));
        members.push(member_of("paths", paths_json(&self.paths)));
        members.push(member_of("hasNotes", Json::Bool(self.has_notes)));
        members.push(member_of("peakDb", binary64_json(self.peak_db)));
        proof {
            lemma_object_view(members);
            assert(members_view(members@) =~= encode_stem(self@)->Object_0);
        }
        Json::Object(members)
    }
}

impl BeatEvent {
    /// Writes the beat as a JSON document.
    pub fn to_json(&self) -> (json: Json)
        ensures
            json@ == encode_beat(self@),
    {
        let mut members: Vec<(String, Json)> = Vec::new();
        members.push(member_of("time", binary64_json(self.time)));
        members.push(member_of("type", Json::Text(self.beat_type.clone())));
        members.push(member_of("beatInMeasure", optional_int32_json(self.beat_in_measure)));
        proof {
            lemma_object_view(members);
            assert(members_view(members@) =~= encode_beat(self@)->Object_0);
        }
        Json::Object(members)
    }
}

impl SongAnalysis {
    /// Writes the analysis as a JSON document.
    pub fn to_json(&self) -> (json: Json)
        ensures
            json@ == encode_analysis(self@),
    {
        let mut members: Vec<(String, Json)> = Vec::new();
        members.push(member_of("title", optional_text_json(&self.title)));
        members.push(member_of("artist", optional_text_json(&self.artist)));
        members.push(member_of("album", optional_text_json(&self.album)));
        members.push(member_of("originalDuration", binary64_json(self.original_duration)));
        members.push(member_of("sampleRate", int32_json(self.sample_rate)));
        members.push(member_of("tempoBpm", optional_binary64_json(self.tempo_bpm)));
        members.push(member_of("timeSignature", optional_int32_pair_json(self.time_signature)));
        members.push(member_of("stems", stems_json(&self.stems)));
        members.push(member_of("beats", beats_json(&self.beats)));
        members.push(member_of("sourceFile", Json::Text(self.source_file.clone())));
        members.push(member_of("processingDate", Json::Text(self.processing_date.clone())));
        members.push(member_of("converterVersion", Json::Text(self.converter_version.clone())));
        proof {
            lemma_object_view(members);
            assert(members_view(members@) =~= analysis_members(self@));
        }
        Json::Object(members)
    }
}

impl SongSummary {
    /// Writes the summary as a JSON document.
    pub fn to_json(&self) -> (json: Json)
        ensures
            json@ == encode_summary(self@),
    {
        let mut members: Vec<(String, Json)> = Vec::new();
        members.push(member_of("path", Json::Text(self.path.clone())));
        members.push(member_of("title", optional_text_json(&self.title)));
        members.push(member_of("artist", optional_text_json(&self.artist)));
        members.push(member_of("duration", binary64_json(self.duration)));
        members.push(member_of("stemCount", count_json(self.stem_count)));
        proof {
            lemma_object_view(members);
            assert(members_view(members@) =~= encode_summary(self@)->Object_0);
        }
        Json::Object(members)
    }
}

} // verus!
