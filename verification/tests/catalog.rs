use song_catalog::catalog::{manifest_file_name, manifest_path, stem_path, summarize_entry};
use song_catalog::{
    get_stem_path, list_songs, load_analysis, Binary64, CommandError, Listing, ManifestRead,
    SongAnalysis, SongEntry, SongSummary,
};

fn number(x: f64) -> Binary64 {
    Binary64::from_bits(x.to_bits())
}

fn manifest(title: &str, stems: &[&str]) -> String {
    let stems: Vec<String> = stems
        .iter()
        .map(|s| {
            format!(
                "\"{}\": {{\"name\": \"{}\", \"paths\": {{\"wav\": \"{}.wav\"}}, \"hasNotes\": false, \"peakDb\": -1.5}}",
                s, s, s
            )
        })
        .collect();
    format!(
        "{{\"title\": \"{}\", \"artist\": null, \"originalDuration\": 12.5, \"sampleRate\": 44100, \
         \"stems\": {{{}}}, \"beats\": [], \"sourceFile\": \"in.mp3\", \
         \"processingDate\": \"2024-01-01\", \"converterVersion\": \"1.0\"}}",
        title,
        stems.join(", ")
    )
}

fn song(path: &str, manifest: ManifestRead) -> Result<SongEntry, String> {
    Ok(SongEntry { path: path.to_string(), manifest })
}

#[test]
fn a_directory_that_does_not_exist_lists_as_empty() {
    assert_eq!(list_songs(&Listing::NoDirectory).unwrap(), vec![]);
}

#[test]
fn an_empty_directory_lists_as_empty() {
    assert_eq!(list_songs(&Listing::Children(vec![])).unwrap(), vec![]);
}

#[test]
fn a_directory_that_cannot_be_listed_fails_with_the_systems_description() {
    let err = list_songs(&Listing::Failed("Permission denied (os error 13)".to_string())).unwrap_err();
    assert!(matches!(&err, CommandError::Io(d) if d == "Permission denied (os error 13)"));
    assert_eq!(err.message(), "Permission denied (os error 13)");
}

#[test]
fn one_valid_and_one_corrupt_manifest_list_as_one_song() {
    let listing = Listing::Children(vec![
        song("/songs/broken", ManifestRead::Content("{\"title\": \"x\"".to_string())),
        song("/songs/good", ManifestRead::Content(manifest("Good", &["vocals", "drums"]))),
    ]);
    assert_eq!(
        list_songs(&listing).unwrap(),
        vec![SongSummary {
            path: "/songs/good".to_string(),
            title: Some("Good".to_string()),
            artist: None,
            duration: number(12.5),
            stem_count: 2,
        }]
    );
}

#[test]
fn children_without_a_readable_manifest_are_no_songs() {
    let listing = Listing::Children(vec![
        song("/songs/notes.txt", ManifestRead::Missing),
        song("/songs/a", ManifestRead::Content(manifest("A", &[]))),
        song("/songs/locked", ManifestRead::Unreadable),
        song("/songs/schema", ManifestRead::Content("{\"originalDuration\": \"long\"}".to_string())),
        song("/songs/b", ManifestRead::Content(manifest("B", &["bass"]))),
    ]);
    let songs = list_songs(&listing).unwrap();
    let listed: Vec<(&str, usize)> = songs.iter().map(|s| (s.path.as_str(), s.stem_count)).collect();
    assert_eq!(listed, vec![("/songs/a", 0), ("/songs/b", 1)]);
}

#[test]
fn a_failure_of_the_enumeration_fails_the_scan() {
    let listing = Listing::Children(vec![
        song("/songs/a", ManifestRead::Content(manifest("A", &[]))),
        Err("Input/output error (os error 5)".to_string()),
        song("/songs/b", ManifestRead::Content(manifest("B", &[]))),
        Err("later".to_string()),
    ]);
    let err = list_songs(&listing).unwrap_err();
    assert!(matches!(&err, CommandError::Io(d) if d == "Input/output error (os error 5)"));
}

#[test]
fn stem_count_is_the_number_of_stem_names() {
    for names in [vec![], vec!["a"], vec!["a", "b", "c"], vec!["a", "b", "a"]] {
        let text = manifest("T", &names);
        let analysis = SongAnalysis::parse(&text).unwrap();
        let mut distinct = names.clone();
        distinct.sort();
        distinct.dedup();
        assert_eq!(analysis.stems.len(), distinct.len());
        let summary = SongSummary::new("/songs/t".to_string(), analysis);
        assert_eq!(summary.stem_count, distinct.len());
    }
}

#[test]
fn summary_copies_title_artist_and_duration() {
    let text = "{\"title\": \"T\", \"artist\": \"A\", \"album\": \"L\", \"originalDuration\": 99, \
                \"sampleRate\": 1, \"stems\": {}, \"beats\": [], \"sourceFile\": \"\", \
                \"processingDate\": \"\", \"converterVersion\": \"\"}";
    let summary = SongSummary::new("dir".to_string(), SongAnalysis::parse(text).unwrap());
    assert_eq!(
        summary,
        SongSummary {
            path: "dir".to_string(),
            title: Some("T".to_string()),
            artist: Some("A".to_string()),
            duration: number(99.0),
            stem_count: 0,
        }
    );
}

#[test]
fn summarize_entry_is_the_filter_of_the_scan() {
    let good = SongEntry { path: "p".to_string(), manifest: ManifestRead::Content(manifest("G", &["x"])) };
    assert_eq!(summarize_entry(&good).unwrap().stem_count, 1);
    let bad = SongEntry { path: "p".to_string(), manifest: ManifestRead::Content("[]".to_string()) };
    assert!(summarize_entry(&bad).is_none());
    let none = SongEntry { path: "p".to_string(), manifest: ManifestRead::Missing };
    assert!(summarize_entry(&none).is_none());
    let locked = SongEntry { path: "p".to_string(), manifest: ManifestRead::Unreadable };
    assert!(summarize_entry(&locked).is_none());
}

#[test]
fn load_analysis_returns_the_analysis() {
    let analysis = load_analysis(Ok(manifest("Loaded", &["vocals"]))).unwrap();
    assert_eq!(analysis.title.as_deref(), Some("Loaded"));
    assert_eq!(analysis.stems.len(), 1);
}

#[test]
fn load_analysis_fails_loudly_on_an_unreadable_manifest() {
    let err = load_analysis(Err("No such file or directory (os error 2)".to_string())).unwrap_err();
    assert!(matches!(&err, CommandError::Io(d) if d == "No such file or directory (os error 2)"));
}

#[test]
fn load_analysis_fails_loudly_on_a_manifest_that_does_not_parse() {
    let err = load_analysis(Ok("{".to_string())).unwrap_err();
    assert!(matches!(&err, CommandError::Parse(_)));
    assert_eq!(err.message(), "EOF while parsing an object at line 1 column 1");
    let err = load_analysis(Ok("{}".to_string())).unwrap_err();
    assert!(matches!(&err, CommandError::Parse(_)));
    assert_eq!(err.message(), "field `originalDuration`: missing");
}

#[test]
fn stem_path_is_given_only_for_a_file_that_exists() {
    assert_eq!(get_stem_path("/songs/a/stems/v.wav".to_string(), true).unwrap(), "/songs/a/stems/v.wav");
    let err = get_stem_path("/songs/a/stems/v.wav".to_string(), false).unwrap_err();
    assert!(matches!(&err, CommandError::NotFound(p) if p == "/songs/a/stems/v.wav"));
    assert_eq!(err.message(), "Stem file not found: /songs/a/stems/v.wav");
}

#[test]
fn paths_are_resolved_below_the_song_directory() {
    assert_eq!(manifest_file_name(), "analysis.json");
    assert_eq!(manifest_path("/songs/a"), "/songs/a/analysis.json");
    assert_eq!(manifest_path("songs/a/"), "songs/a/analysis.json");
    assert_eq!(stem_path("/songs/a", "stems/vocals.wav"), "/songs/a/stems/vocals.wav");
    assert_eq!(stem_path("/songs/a", "/elsewhere/v.wav"), "/elsewhere/v.wav");
    assert_eq!(stem_path("", "v.wav"), "v.wav");
}
