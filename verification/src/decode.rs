//! Reading a manifest out of a JSON document.
//!
//! The fields are read in the order in which the schema lists them, and
//! the first complaint ends the reading. Members that the schema does not
//! know are passed over.

use vstd::prelude::*;
use vstd::string::StringExecFns;
use crate::binary64::Binary64;
use crate::fields::{
    in_field, in_field_text, member, missing, named, optional_binary64, optional_binary64_of,
    optional_int32, optional_int32_of, optional_int32_pair, optional_int32_pair_of, optional_text,
    optional_text_of, read_text, required_binary64, required_binary64_of, required_flag,
    required_flag_of, required_int32, required_int32_of, required_text, required_text_of, text_of,
};
use crate::json::{
    items_view, lemma_array_view, lemma_object_view, members_view, outcome_is, parsed_json, Json,
    JsonModel,
};
use crate::keyed::{find, put, Entries};
use crate::manifest::{
    AnalysisModel, BeatEvent, BeatModel, SongAnalysis, StemInfo, StemModel,
};
use crate::text_map::TextMap;

verus! {

/// The complaint of a reading, if it made one.
pub open spec fn fault<T>(read: Result<T, Seq<char>>) -> Option<Seq<char>> {
    match read {
        Ok(_) => None,
        Err(f) => Some(f),
    }
}

/// The earlier of two complaints.
pub open spec fn first(earlier: Option<Seq<char>>, later: Option<Seq<char>>) -> Option<Seq<char>> {
    if earlier is Some {
        earlier
    } else {
        later
    }
}

/// The complaint `fault`, said of an item of a list.
pub open spec fn in_item(fault: Seq<char>) -> Seq<char> {
    "item: "@ + fault
}

/// Reads the members from `start` on, each by `read`, and puts each value
/// under its member's name into `done`. The first complaint ends the
/// reading and names the member.
pub open spec fn read_entries_from<T>(
    members: Entries<JsonModel>,
    read: spec_fn(JsonModel) -> Result<T, Seq<char>>,
    start: int,
    done: Entries<T>,
) -> Result<Entries<T>, Seq<char>>
    decreases members.len() - start,
{
    if start < 0 || start >= members.len() {
        Ok(done)
    } else {
        match named(members[start].0, read(members[start].1)) {
            Err(f) => Err(f),
            Ok(value) => read_entries_from(
                members,
                read,
                start + 1,
                put(done, members[start].0, value),
            ),
        }
    }
}

/// Reads the items from `start` on, each by `read`, and appends each
/// value to `done`. The first complaint ends the reading.
pub open spec fn read_items_from<T>(
    items: Seq<JsonModel>,
    read: spec_fn(JsonModel) -> Result<T, Seq<char>>,
    start: int,
    done: Seq<T>,
) -> Result<Seq<T>, Seq<char>>
    decreases items.len() - start,
{
    if start < 0 || start >= items.len() {
        Ok(done)
    } else {
        match read(items[start]) {
            Err(f) => Err(in_item(f)),
            Ok(value) => read_items_from(items, read, start + 1, done.push(value)),
        }
    }
}

/// How a path is read: as a string.
pub open spec fn path_reader() -> spec_fn(JsonModel) -> Result<Seq<char>, Seq<char>> {
    |json: JsonModel| read_text(json)
}

/// How a stem is read.
pub open spec fn stem_reader() -> spec_fn(JsonModel) -> Result<StemModel, Seq<char>> {
    |json: JsonModel| decode_stem(json)
}

/// How a beat is read.
pub open spec fn beat_reader() -> spec_fn(JsonModel) -> Result<BeatModel, Seq<char>> {
    |json: JsonModel| decode_beat(json)
}

/// A mapping from names to paths: an object whose members are strings.
pub open spec fn read_paths(json: JsonModel) -> Result<Entries<Seq<char>>, Seq<char>> {
    match json {
        JsonModel::Object(members) => read_entries_from(members, path_reader(), 0, Seq::empty()),
        _ => Err("expected an object"@),
    }
}

/// A mapping from names to stems: an object whose members are stems.
pub open spec fn read_stems(json: JsonModel) -> Result<Entries<StemModel>, Seq<char>> {
    match json {
        JsonModel::Object(members) => read_entries_from(members, stem_reader(), 0, Seq::empty()),
        _ => Err("expected an object"@),
    }
}

/// A list of beats: an array whose items are beats.
pub open spec fn read_beats(json: JsonModel) -> Result<Seq<BeatModel>, Seq<char>> {
    match json {
        JsonModel::Array(items) => read_items_from(items, beat_reader(), 0, Seq::empty()),
        _ => Err("expected an array"@),
    }
}

/// The required mapping of paths under `name`.
pub open spec fn required_paths_of(members: Entries<JsonModel>, name: Seq<char>) -> Result<
    Entries<Seq<char>>,
    Seq<char>,
> {
    match find(members, name) {
        Some(json) => named(name, read_paths(json)),
        None => missing(name),
    }
}

/// The required mapping of stems under `name`.
pub open spec fn required_stems_of(members: Entries<JsonModel>, name: Seq<char>) -> Result<
    Entries<StemModel>,
    Seq<char>,
> {
    match find(members, name) {
        Some(json) => named(name, read_stems(json)),
        None => missing(name),
    }
}

/// The required list of beats under `name`.
pub open spec fn required_beats_of(members: Entries<JsonModel>, name: Seq<char>) -> Result<
    Seq<BeatModel>,
    Seq<char>,
> {
    match find(members, name) {
        Some(json) => named(name, read_beats(json)),
        None => missing(name),
    }
}

/// The stem that a document describes: an object with the string `name`,
/// the mapping `paths`, the boolean `hasNotes` and the number `peakDb`.
pub open spec fn decode_stem(json: JsonModel) -> Result<StemModel, Seq<char>> {
    match json {
        JsonModel::Object(members) => {
            let name = required_text_of(members, "name"@);
            let paths = required_paths_of(members, "paths"@);
            let has_notes = required_flag_of(members, "hasNotes"@);
            let peak_db = required_binary64_of(members, "peakDb"@);
            match first(
                fault(name),
                first(fault(paths), first(fault(has_notes), fault(peak_db))),
            ) {
                Some(f) => Err(f),
                None => Ok(
                    StemModel {
                        name: name->Ok_0,
                        paths: paths->Ok_0,
                        has_notes: has_notes->Ok_0,
                        peak_db: peak_db->Ok_0,
                    },
                ),
            }
        },
        _ => Err("expected an object"@),
    }
}

/// The beat that a document describes: an object with the number `time`,
/// the string `type` and, where known, the integer `beatInMeasure`.
pub open spec fn decode_beat(json: JsonModel) -> Result<BeatModel, Seq<char>> {
    match json {
        JsonModel::Object(members) => {
            let time = required_binary64_of(members, "time"@);
            let beat_type = required_text_of(members, "type"@);
            let beat_in_measure = optional_int32_of(members, "beatInMeasure"@);
            match first(fault(time), first(fault(beat_type), fault(beat_in_measure))) {
                Some(f) => Err(f),
                None => Ok(
                    BeatModel {
                        time: time->Ok_0,
                        beat_type: beat_type->Ok_0,
                        beat_in_measure: beat_in_measure->Ok_0,
                    },
                ),
            }
        },
        _ => Err("expected an object"@),
    }
}

/// The first complaint among the fields of an analysis, in the order of
/// the schema.
pub open spec fn analysis_fault(members: Entries<JsonModel>) -> Option<Seq<char>> {
    first(
        fault(optional_text_of(members, "title"@)),
        first(
            fault(optional_text_of(members, "artist"@)),
            first(
                fault(optional_text_of(members, "album"@)),
                first(
                    fault(required_binary64_of(members, "originalDuration"@)),
                    first(
                        fault(required_int32_of(members, "sampleRate"@)),
                        first(
                            fault(optional_binary64_of(members, "tempoBpm"@)),
                            first(
                                fault(optional_int32_pair_of(members, "timeSignature"@)),
                                first(
                                    fault(required_stems_of(members, "stems"@)),
                                    first(
                                        fault(required_beats_of(members, "beats"@)),
                                        first(
                                            fault(required_text_of(members, "sourceFile"@)),
                                            first(
                                                fault(
                                                    required_text_of(members, "processingDate"@),
                                                ),
                                                fault(
                                                    required_text_of(members, "converterVersion"@),
                                                ),
                                            ),
                                        ),
                                    ),
                                ),
                            ),
                        ),
                    ),
                ),
            ),
        ),
    )
}

/// The analysis that a document describes: an object with the fields of
/// the schema under their names in lower camel case.
pub open spec fn decode_analysis(json: JsonModel) -> Result<AnalysisModel, Seq<char>> {
    match json {
        JsonModel::Object(members) => match analysis_fault(members) {
            Some(f) => Err(f),
            None => Ok(
                AnalysisModel {
                    title: optional_text_of(members, "title"@)->Ok_0,
                    artist: optional_text_of(members, "artist"@)->Ok_0,
                    album: optional_text_of(members, "album"@)->Ok_0,
                    original_duration: required_binary64_of(members, "originalDuration"@)->Ok_0,
                    sample_rate: required_int32_of(members, "sampleRate"@)->Ok_0,
                    tempo_bpm: optional_binary64_of(members, "tempoBpm"@)->Ok_0,
                    time_signature: optional_int32_pair_of(members, "timeSignature"@)->Ok_0,
                    stems: required_stems_of(members, "stems"@)->Ok_0,
                    beats: required_beats_of(members, "beats"@)->Ok_0,
                    source_file: required_text_of(members, "sourceFile"@)->Ok_0,
                    processing_date: required_text_of(members, "processingDate"@)->Ok_0,
                    converter_version: required_text_of(members, "converterVersion"@)->Ok_0,
                },
            ),
        },
        _ => Err("expected an object"@),
    }
}

/// The analysis that a manifest's text describes: what the JSON parser
/// makes of the text, read as an analysis.
pub open spec fn parse_analysis_of(text: Seq<char>) -> Result<AnalysisModel, Seq<char>> {
    match parsed_json(text) {
        Ok(json) => decode_analysis(json),
        Err(wording) => Err(wording),
    }
}

/// Reads the members of an object as paths.
fn paths_from(members: &Vec<(String, Json)>) -> (r: Result<TextMap<String>, String>)
    ensures
        outcome_is(r, read_entries_from(members_view(members@), path_reader(), 0, Seq::empty())),
{
    let ghost entries = members_view(members@);
    let mut paths: TextMap<String> = TextMap::new();
    let mut i: usize = 0;
    while i < members.len()
        invariant
            i <= members@.len(),
            entries == members_view(members@),
            read_entries_from(entries, path_reader(), i as int, paths@) == read_entries_from(
                entries,
                path_reader(),
                0,
                Seq::empty(),
            ),
        decreases members.len() - i,
    {
        let name = &members[i].0;
        match text_of(&members[i].1) {
            Ok(path) => {
                paths.insert(name.clone(), path);
            },
            Err(f) => {
                return Err(in_field_text(name.as_str(), f.as_str()));
            },
        }
        i += 1;
    }
    Ok(paths)
}

/// Reads the members of an object as stems.
fn stems_from(members: &Vec<(String, Json)>) -> (r: Result<TextMap<StemInfo>, String>)
    ensures
        outcome_is(r, read_entries_from(members_view(members@), stem_reader(), 0, Seq::empty())),
{
    let ghost entries = members_view(members@);
    let mut stems: TextMap<StemInfo> = TextMap::new();
    let mut i: usize = 0;
    while i < members.len()
        invariant
            i <= members@.len(),
            entries == members_view(members@),
            read_entries_from(entries, stem_reader(), i as int, stems@) == read_entries_from(
                entries,
                stem_reader(),
                0,
                Seq::empty(),
            ),
        decreases members.len() - i,
    {
        let name = &members[i].0;
        match StemInfo::from_json(&members[i].1) {
            Ok(stem) => {
                stems.insert(name.clone(), stem);
            },
            Err(f) => {
                return Err(in_field_text(name.as_str(), f.as_str()));
            },
        }
        i += 1;
    }
    Ok(stems)
}

/// Reads the items of an array as beats.
fn beats_from(items: &Vec<Json>) -> (r: Result<Vec<BeatEvent>, String>)
    ensures
        outcome_is(r, read_items_from(items_view(items@), beat_reader(), 0, Seq::empty())),
{
    let ghost documents = items_view(items@);
    let mut beats: Vec<BeatEvent> = Vec::new();
    let mut i: usize = 0;
    assert(beats.deep_view() =~= Seq::<BeatModel>::empty());
    while i < items.len()
        invariant
            i <= items@.len(),
            documents == items_view(items@),
            read_items_from(documents, beat_reader(), i as int, beats.deep_view())
                == read_items_from(documents, beat_reader(), 0, Seq::empty()),
        decreases items.len() - i,
    {
        match BeatEvent::from_json(&items[i]) {
            Ok(beat) => {
                let ghost before = beats.deep_view();
                beats.push(beat);
                assert(beats.deep_view() =~= before.push(beat@));
            },
            Err(f) => {
                return Err(String::from_str("item: ").concat(f.as_str()));
            },
        }
        i += 1;
    }
    Ok(beats)
}

/// The required mapping of paths under `name`.
fn required_paths(members: &Vec<(String, Json)>, name: &str) -> (r: Result<
    TextMap<String>,
    String,
>)
    ensures
        outcome_is(r, required_paths_of(members_view(members@), name@)),
{
    match member(members, name) {
        Some(Json::Object(inner)) => {
            proof {
                lemma_object_view(*inner);
            }
            match paths_from(inner) {
                Ok(paths) => Ok(paths),
                Err(f) => Err(in_field_text(name, f.as_str())),
            }
        },
        Some(_) => Err(in_field_text(name, "expected an object")),
        None => Err(in_field_text(name, "missing")),
    }
}

/// The required mapping of stems under `name`.
fn required_stems(members: &Vec<(String, Json)>, name: &str) -> (r: Result<
    TextMap<StemInfo>,
    String,
>)
    ensures
        outcome_is(r, required_stems_of(members_view(members@), name@)),
{
    match member(members, name) {
        Some(Json::Object(inner)) => {
            proof {
                lemma_object_view(*inner);
            }
            match stems_from(inner) {
                Ok(stems) => Ok(stems),
                Err(f) => Err(in_field_text(name, f.as_str())),
            }
        },
        Some(_) => Err(in_field_text(name, "expected an object")),
        None => Err(in_field_text(name, "missing")),
    }
}

/// The required list of beats under `name`.
fn required_beats(members: &Vec<(String, Json)>, name: &str) -> (r: Result<
    Vec<BeatEvent>,
    String,
>)
    ensures
        outcome_is(r, required_beats_of(members_view(members@), name@)),
{
    match member(members, name) {
        Some(Json::Array(items)) => {
            proof {
                lemma_array_view(*items);
            }
            match beats_from(items) {
                Ok(beats) => Ok(beats),
                Err(f) => Err(in_field_text(name, f.as_str())),
            }
        },
        Some(_) => Err(in_field_text(name, "expected an array")),
        None => Err(in_field_text(name, "missing")),
    }
}

impl StemInfo {
    /// Reads a stem out of a JSON document.
    pub fn from_json(json: &Json) -> (r: Result<StemInfo, String>)
        ensures
            outcome_is(r, decode_stem(json@)),
    {
        match json {
            Json::Object(members) => {
                proof {
                    lemma_object_view(*members);
                }
                let name = required_text(members, "name")?;
                let paths = required_paths(members, "paths")?;
                let has_notes = required_flag(members, "hasNotes")?;
                let peak_db = required_binary64(members, "peakDb")?;
                Ok(StemInfo { name, paths, has_notes, peak_db })
            },
            _ => Err(String::from_str("expected an object")),
        }
    }
}

impl BeatEvent {
    /// Reads a beat out of a JSON document.
    pub fn from_json(json: &Json) -> (r: Result<BeatEvent, String>)
        ensures
            outcome_is(r, decode_beat(json@)),
    {
        match json {
            Json::Object(members) => {
                proof {
                    lemma_object_view(*members);
                }
                let time = required_binary64(members, "time")?;
                let beat_type = required_text(members, "type")?;
                let beat_in_measure = optional_int32(members, "beatInMeasure")?;
                Ok(BeatEvent { time, beat_type, beat_in_measure })
            },
            _ => Err(String::from_str("expected an object")),
        }
    }
}

impl SongAnalysis {
    /// Reads an analysis out of a JSON document.
    pub fn from_json(json: &Json) -> (r: Result<SongAnalysis, String>)
        ensures
            outcome_is(r, decode_analysis(json@)),
    {
        match json {
            Json::Object(members) => {
                proof {
                    lemma_object_view(*members);
                }
                let title = optional_text(members, "title")?;
                let artist = optional_text(members, "artist")?;
                let album = optional_text(members, "album")?;
                let original_duration = required_binary64(members, "originalDuration")?;
                let sample_rate = required_int32(members, "sampleRate")?;
                let tempo_bpm = optional_binary64(members, "tempoBpm")?;
                let time_signature = optional_int32_pair(members, "timeSignature")?;
                let stems = required_stems(members, "stems")?;
                let beats = required_beats(members, "beats")?;
                let source_file = required_text(members, "sourceFile")?;
                let processing_date = required_text(members, "processingDate")?;
                let converter_version = required_text(members, "converterVersion")?;
                Ok(
                    SongAnalysis {
                        title,
                        artist,
                        album,
                        original_duration,
                        sample_rate,
                        tempo_bpm,
                        time_signature,
                        stems,
                        beats,
                        source_file,
                        processing_date,
                        converter_version,
                    },
                )
            },
            _ => Err(String::from_str("expected an object")),
        }
    }

    /// Reads an analysis out of the text of a manifest. Fails with the
    /// parser's wording when the text is not one well-formed JSON
    /// document, and with a complaint that names the field when the
    /// document does not fit the schema.
    pub fn parse(text: &str) -> (r: Result<SongAnalysis, String>)
        ensures
            outcome_is(r, parse_analysis_of(text@)),
    {
        match Json::parse(text) {
            Ok(json) => SongAnalysis::from_json(&json),
            Err(wording) => Err(wording),
        }
    }
}

} // verus!
