//! Writing a manifest and reading it back.
//!
//! What is read from a document can be written down as it stands, and
//! what is written down reads back as the same analysis: absent fields
//! stay absent, mappings keep their names and lists their order.

use vstd::prelude::*;
use crate::binary64::finite_bits;
use crate::decode::{
    beat_reader, decode_analysis, decode_beat, decode_stem, path_reader, read_beats,
    read_entries_from, read_items_from, read_paths, read_stems, stem_reader,
};
use crate::encode::{
    analysis_members, encode_analysis, encode_beat, encode_beats, encode_paths, encode_stem,
    encode_stems,
};
use crate::json::JsonModel;
use crate::keyed::{
    distinct_keys, lemma_position, lemma_position_at, lemma_put_distinct, position, put, Entries,
};
use crate::manifest::{
    analysis_well_formed, beat_well_formed, stem_well_formed, AnalysisModel, BeatModel, StemModel,
};

verus! {

/// Every value of `s` is `good`.
pub open spec fn all_values<T>(s: Entries<T>, good: spec_fn(T) -> bool) -> bool {
    forall|k: int| 0 <= k < s.len() ==> good((#[trigger] s[k]).1)
}

/// Every item of `s` is `good`.
pub open spec fn all_items<T>(s: Seq<T>, good: spec_fn(T) -> bool) -> bool {
    forall|k: int| 0 <= k < s.len() ==> good(#[trigger] s[k])
}

/// Members written one for each entry of a mapping, under the entry's
/// name and so that each reads back as the entry's value, read back as
/// the mapping.
pub proof fn lemma_entries_round_trip<T>(
    encoded: Entries<JsonModel>,
    read: spec_fn(JsonModel) -> Result<T, Seq<char>>,
    s: Entries<T>,
    i: int,
)
    requires
        distinct_keys(s),
        encoded.len() == s.len(),
        0 <= i <= s.len(),
        forall|k: int|
            0 <= k < s.len() ==> (#[trigger] encoded[k]).0 == s[k].0 && read(encoded[k].1) == Ok::<
                T,
                Seq<char>,
            >(s[k].1),
    ensures
        read_entries_from(encoded, read, i, s.take(i)) == Ok::<Entries<T>, Seq<char>>(s),
    decreases s.len() - i,
{
    if i == s.len() {
        assert(s.take(i) =~= s);
    } else {
        let done = s.take(i);
        assert(encoded[i].0 == s[i].0);
        lemma_position(done, s[i].0);
        if position(done, s[i].0) is Some {
            let at = position(done, s[i].0).unwrap();
            assert(done[at].0 == s[at].0);
            assert(s[at].0 != s[i].0);
        }
        assert(put(done, s[i].0, s[i].1) =~= s.take(i + 1));
        lemma_entries_round_trip(encoded, read, s, i + 1);
    }
}

/// Items written one for each element of a list, so that each reads back
/// as the element, read back as the list.
pub proof fn lemma_items_round_trip<T>(
    encoded: Seq<JsonModel>,
    read: spec_fn(JsonModel) -> Result<T, Seq<char>>,
    s: Seq<T>,
    i: int,
)
    requires
        encoded.len() == s.len(),
        0 <= i <= s.len(),
        forall|k: int| 0 <= k < s.len() ==> read(#[trigger] encoded[k]) == Ok::<T, Seq<char>>(s[k]),
    ensures
        read_items_from(encoded, read, i, s.take(i)) == Ok::<Seq<T>, Seq<char>>(s),
    decreases s.len() - i,
{
    if i == s.len() {
        assert(s.take(i) =~= s);
    } else {
        assert(read(encoded[i]) == Ok::<T, Seq<char>>(s[i]));
        assert(s.take(i).push(s[i]) =~= s.take(i + 1));
        lemma_items_round_trip(encoded, read, s, i + 1);
    }
}

/// Putting a good value keeps all values good.
pub proof fn lemma_put_keeps<T>(
    s: Entries<T>,
    key: Seq<char>,
    value: T,
    good: spec_fn(T) -> bool,
)
    requires
        all_values(s, good),
        good(value),
    ensures
        all_values(put(s, key, value), good),
{
    lemma_position(s, key);
    let t = put(s, key, value);
    assert forall|k: int| 0 <= k < t.len() implies good((#[trigger] t[k]).1) by {
        match position(s, key) {
            Some(i) => {
                if k != i {
                    assert(t[k] == s[k]);
                }
            },
            None => {
                if k < s.len() {
                    assert(t[k] == s[k]);
                }
            },
        }
    }
}

/// A mapping that was read holds no name twice, and each of its values
/// is as good as the reader makes them.
pub proof fn lemma_entries_read_well<T>(
    members: Entries<JsonModel>,
    read: spec_fn(JsonModel) -> Result<T, Seq<char>>,
    good: spec_fn(T) -> bool,
    i: int,
    done: Entries<T>,
)
    requires
        0 <= i,
        distinct_keys(done),
        all_values(done, good),
        forall|json: JsonModel| (#[trigger] read(json)) is Ok ==> good(read(json)->Ok_0),
    ensures
        read_entries_from(members, read, i, done) matches Ok(s) ==> distinct_keys(s) && all_values(
            s,
            good,
        ),
    decreases members.len() - i,
{
    if i < members.len() {
        let value = read(members[i].1);
        if value is Ok {
            lemma_put_distinct(done, members[i].0, value->Ok_0);
            lemma_put_keeps(done, members[i].0, value->Ok_0, good);
            lemma_entries_read_well(
                members,
                read,
                good,
                i + 1,
                put(done, members[i].0, value->Ok_0),
            );
        }
    }
}

/// Each item of a list that was read is as good as the reader makes
/// them.
pub proof fn lemma_items_read_well<T>(
    items: Seq<JsonModel>,
    read: spec_fn(JsonModel) -> Result<T, Seq<char>>,
    good: spec_fn(T) -> bool,
    i: int,
    done: Seq<T>,
)
    requires
        0 <= i,
        all_items(done, good),
        forall|json: JsonModel| (#[trigger] read(json)) is Ok ==> good(read(json)->Ok_0),
    ensures
        read_items_from(items, read, i, done) matches Ok(s) ==> all_items(s, good),
    decreases items.len() - i,
{
    if i < items.len() {
        let value = read(items[i]);
        if value is Ok {
            let next = done.push(value->Ok_0);
            assert forall|k: int| 0 <= k < next.len() implies good(#[trigger] next[k]) by {
                if k < done.len() {
                    assert(next[k] == done[k]);
                }
            }
            lemma_items_read_well(items, read, good, i + 1, next);
        }
    }
}

/// A mapping of paths reads back as it was written.
pub proof fn lemma_paths_round_trip(paths: Entries<Seq<char>>)
    requires
        distinct_keys(paths),
    ensures
        read_paths(encode_paths(paths)) == Ok::<Entries<Seq<char>>, Seq<char>>(paths),
{
    let encoded = encode_paths(paths)->Object_0;
    lemma_entries_round_trip(encoded, path_reader(), paths, 0);
    assert(paths.take(0) =~= Seq::empty());
}

/// A stem that is well formed reads back as it was written.
pub proof fn lemma_stem_round_trip(stem: StemModel)
    requires
        stem_well_formed(stem),
    ensures
        decode_stem(encode_stem(stem)) == Ok::<StemModel, Seq<char>>(stem),
{
    reveal_strlit("name");
    reveal_strlit("paths");
    reveal_strlit("hasNotes");
    reveal_strlit("peakDb");
    let members = encode_stem(stem)->Object_0;
    lemma_position_at(members, "name"@, 0);
    lemma_position_at(members, "paths"@, 1);
    lemma_position_at(members, "hasNotes"@, 2);
    lemma_position_at(members, "peakDb"@, 3);
    lemma_paths_round_trip(stem.paths);
}

/// A beat that is well formed reads back as it was written.
pub proof fn lemma_beat_round_trip(beat: BeatModel)
    requires
        beat_well_formed(beat),
    ensures
        decode_beat(encode_beat(beat)) == Ok::<BeatModel, Seq<char>>(beat),
{
    reveal_strlit("time");
    reveal_strlit("type");
    reveal_strlit("beatInMeasure");
    assert("time"@[1] != "type"@[1]);
    let members = encode_beat(beat)->Object_0;
    lemma_position_at(members, "time"@, 0);
    lemma_position_at(members, "type"@, 1);
    lemma_position_at(members, "beatInMeasure"@, 2);
}

/// A mapping of well-formed stems reads back as it was written.
pub proof fn lemma_stems_round_trip(stems: Entries<StemModel>)
    requires
        distinct_keys(stems),
        forall|i: int| 0 <= i < stems.len() ==> stem_well_formed((#[trigger] stems[i]).1),
    ensures
        read_stems(encode_stems(stems)) == Ok::<Entries<StemModel>, Seq<char>>(stems),
{
    let encoded = encode_stems(stems)->Object_0;
    assert forall|k: int| 0 <= k < stems.len() implies (#[trigger] encoded[k]).0 == stems[k].0
        && stem_reader()(encoded[k].1) == Ok::<StemModel, Seq<char>>(stems[k].1) by {
        lemma_stem_round_trip(stems[k].1);
    }
    lemma_entries_round_trip(encoded, stem_reader(), stems, 0);
    assert(stems.take(0) =~= Seq::empty());
}

/// A list of well-formed beats reads back as it was written.
pub proof fn lemma_beats_round_trip(beats: Seq<BeatModel>)
    requires
        forall|i: int| 0 <= i < beats.len() ==> beat_well_formed(#[trigger] beats[i]),
    ensures
        read_beats(encode_beats(beats)) == Ok::<Seq<BeatModel>, Seq<char>>(beats),
{
    let encoded = encode_beats(beats)->Array_0;
    assert forall|k: int| 0 <= k < beats.len() implies beat_reader()(#[trigger] encoded[k]) == Ok::<
        BeatModel,
        Seq<char>,
    >(beats[k]) by {
        lemma_beat_round_trip(beats[k]);
    }
    lemma_items_round_trip(encoded, beat_reader(), beats, 0);
    assert(beats.take(0) =~= Seq::empty());
}

/// The names of the fields of an analysis differ from one another: by
/// their lengths, and where two are of one length, by a character.
pub proof fn lemma_analysis_names_differ()
    ensures
        "title"@.len() == 5,
        "artist"@.len() == 6,
        "album"@.len() == 5,
        "originalDuration"@.len() == 16,
        "sampleRate"@.len() == 10,
        "tempoBpm"@.len() == 8,
        "timeSignature"@.len() == 13,
        "stems"@.len() == 5,
        "beats"@.len() == 5,
        "sourceFile"@.len() == 10,
        "processingDate"@.len() == 14,
        "converterVersion"@.len() == 16,
        "title"@ != "album"@,
        "title"@ != "stems"@,
        "title"@ != "beats"@,
        "album"@ != "stems"@,
        "album"@ != "beats"@,
        "stems"@ != "beats"@,
        "sampleRate"@ != "sourceFile"@,
        "originalDuration"@ != "converterVersion"@,
{
    reveal_strlit("title");
    reveal_strlit("artist");
    reveal_strlit("album");
    reveal_strlit("originalDuration");
    reveal_strlit("sampleRate");
    reveal_strlit("tempoBpm");
    reveal_strlit("timeSignature");
    reveal_strlit("stems");
    reveal_strlit("beats");
    reveal_strlit("sourceFile");
    reveal_strlit("processingDate");
    reveal_strlit("converterVersion");
    assert("title"@[0] != "album"@[0]);
    assert("title"@[0] != "stems"@[0]);
    assert("title"@[0] != "beats"@[0]);
    assert("album"@[0] != "stems"@[0]);
    assert("album"@[0] != "beats"@[0]);
    assert("stems"@[0] != "beats"@[0]);
    assert("sampleRate"@[1] != "sourceFile"@[1]);
    assert("originalDuration"@[0] != "converterVersion"@[0]);
}

/// Each field of a written analysis is found under its name.
pub proof fn lemma_analysis_members(analysis: AnalysisModel)
    ensures
        position(analysis_members(analysis), "title"@) == Some(0int),
        position(analysis_members(analysis), "artist"@) == Some(1int),
        position(analysis_members(analysis), "album"@) == Some(2int),
        position(analysis_members(analysis), "originalDuration"@) == Some(3int),
        position(analysis_members(analysis), "sampleRate"@) == Some(4int),
        position(analysis_members(analysis), "tempoBpm"@) == Some(5int),
        position(analysis_members(analysis), "timeSignature"@) == Some(6int),
        position(analysis_members(analysis), "stems"@) == Some(7int),
        position(analysis_members(analysis), "beats"@) == Some(8int),
        position(analysis_members(analysis), "sourceFile"@) == Some(9int),
        position(analysis_members(analysis), "processingDate"@) == Some(10int),
        position(analysis_members(analysis), "converterVersion"@) == Some(11int),
{
    lemma_analysis_names_differ();
    let members = analysis_members(analysis);
    let names = seq![
        "title"@,
        "artist"@,
        "album"@,
        "originalDuration"@,
        "sampleRate"@,
        "tempoBpm"@,
        "timeSignature"@,
        "stems"@,
        "beats"@,
        "sourceFile"@,
        "processingDate"@,
        "converterVersion"@,
    ];
    assert forall|j: int| 0 <= j < 12 implies (#[trigger] members[j]).0 == names[j] by {}
    assert forall|i: int, j: int| 0 <= i < j < 12 implies (#[trigger] names[i]) != (
    #[trigger] names[j]) by {}
    assert forall|i: int| 0 <= i < 12 implies position(members, #[trigger] names[i]) == Some(
        i,
    ) by {
        assert forall|j: int| i < j < members.len() implies (#[trigger] members[j]).0
            != names[i] by {
            assert(members[j].0 == names[j]);
        }
        lemma_position_at(members, names[i], i);
    }
    assert(names[0] == "title"@);
    assert(names[1] == "artist"@);
    assert(names[2] == "album"@);
    assert(names[3] == "originalDuration"@);
    assert(names[4] == "sampleRate"@);
    assert(names[5] == "tempoBpm"@);
    assert(names[6] == "timeSignature"@);
    assert(names[7] == "stems"@);
    assert(names[8] == "beats"@);
    assert(names[9] == "sourceFile"@);
    assert(names[10] == "processingDate"@);
    assert(names[11] == "converterVersion"@);
}

/// A well-formed analysis reads back as it was written: every field,
/// with the absent ones still absent.
pub proof fn lemma_analysis_round_trip(analysis: AnalysisModel)
    requires
        analysis_well_formed(analysis),
    ensures
        decode_analysis(encode_analysis(analysis)) == Ok::<AnalysisModel, Seq<char>>(analysis),
{
    lemma_analysis_members(analysis);
    lemma_stems_round_trip(analysis.stems);
    lemma_beats_round_trip(analysis.beats);
}

/// A stem that was read is well formed.
pub proof fn lemma_stem_read_well(json: JsonModel)
    ensures
        decode_stem(json) matches Ok(stem) ==> stem_well_formed(stem),
{
    if let JsonModel::Object(members) = json {
        if let Some(JsonModel::Object(inner)) = crate::keyed::find(members, "paths"@) {
            let good = |path: Seq<char>| true;
            lemma_entries_read_well(inner, path_reader(), good, 0, Seq::empty());
        }
    }
}

/// A beat that was read is well formed.
pub proof fn lemma_beat_read_well(json: JsonModel)
    ensures
        decode_beat(json) matches Ok(beat) ==> beat_well_formed(beat),
{
}

/// An analysis that was read is well formed.
pub proof fn lemma_analysis_read_well(json: JsonModel)
    ensures
        decode_analysis(json) matches Ok(analysis) ==> analysis_well_formed(analysis),
{
    if let JsonModel::Object(members) = json {
        if let Some(JsonModel::Object(inner)) = crate::keyed::find(members, "stems"@) {
            let good = |stem: StemModel| stem_well_formed(stem);
            assert forall|document: JsonModel| (#[trigger] stem_reader()(document)) is Ok implies good(
                stem_reader()(document)->Ok_0,
            ) by {
                lemma_stem_read_well(document);
            }
            lemma_entries_read_well(inner, stem_reader(), good, 0, Seq::empty());
        }
        if let Some(JsonModel::Array(items)) = crate::keyed::find(members, "beats"@) {
            let good = |beat: BeatModel| beat_well_formed(beat);
            assert forall|document: JsonModel| (#[trigger] beat_reader()(document)) is Ok implies good(
                beat_reader()(document)->Ok_0,
            ) by {
                lemma_beat_read_well(document);
            }
            lemma_items_read_well(items, beat_reader(), good, 0, Seq::empty());
        }
    }
}

/// Reading a document, writing down what was read and reading that again
/// gives what the first reading gave.
pub proof fn lemma_reading_is_idempotent(json: JsonModel)
    requires
        decode_analysis(json) is Ok,
    ensures
        decode_analysis(encode_analysis(decode_analysis(json)->Ok_0)) == decode_analysis(json),
{
    lemma_analysis_read_well(json);
    lemma_analysis_round_trip(decode_analysis(json)->Ok_0);
}

} // verus!
