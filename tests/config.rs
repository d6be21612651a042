use mentor_script::config::{is_audio_extension, Config, SongCandidate};
use mentor_script::scheduler::CheckType;

fn config_with(songs: &[&str]) -> Config {
    Config {
        mentor_text: "Stay focused".to_string(),
        hourly_link: "https://example.com/hourly".to_string(),
        thirty_link: "https://example.com/thirty".to_string(),
        songs_dir: "/music".to_string(),
        songs: songs.iter().map(|s| s.to_string()).collect(),
    }
}

fn candidate(path: &str, ext: Option<&str>) -> SongCandidate {
    SongCandidate { path: path.to_string(), extension: ext.map(|e| e.to_string()) }
}

#[test]
fn audio_extensions() {
    for ext in ["mp3", "wav", "ogg", "flac"] {
        assert!(is_audio_extension(ext));
    }
    for ext in ["MP3", "txt", "", "mp", "flac2", "oggx", ".mp3"] {
        assert!(!is_audio_extension(ext));
    }
}

#[test]
fn playable_songs_keep_order_and_filter() {
    let found = vec![
        candidate("/m/a.mp3", Some("mp3")),
        candidate("/m/notes.txt", Some("txt")),
        candidate("/m/b.flac", Some("flac")),
        candidate("/m/README", None),
        candidate("/m/c.WAV", Some("WAV")),
        candidate("/m/d.ogg", Some("ogg")),
        candidate("/m/e.wav", Some("wav")),
    ];
    assert_eq!(
        Config::playable_songs(found),
        vec!["/m/a.mp3", "/m/b.flac", "/m/d.ogg", "/m/e.wav"]
    );
    assert!(Config::playable_songs(Vec::new()).is_empty());
}

#[test]
fn links_per_check() {
    let c = config_with(&[]);
    assert_eq!(c.link_for(CheckType::Hour), "https://example.com/hourly");
    assert_eq!(c.link_for(CheckType::HalfHour), "https://example.com/thirty");
}

#[test]
fn song_at_wraps_round() {
    let c = config_with(&["a", "b", "c"]);
    assert_eq!(c.song_at(0).as_deref(), Some("a"));
    assert_eq!(c.song_at(2).as_deref(), Some("c"));
    assert_eq!(c.song_at(4).as_deref(), Some("b"));
    assert_eq!(config_with(&[]).song_at(3), None);
}

#[test]
fn pick_song_draws_from_list() {
    assert_eq!(config_with(&[]).pick_song(), None);
    assert_eq!(config_with(&["only"]).pick_song().as_deref(), Some("only"));
    let c = config_with(&["a", "b"]);
    let mut seen_a = false;
    let mut seen_b = false;
    for _ in 0..200 {
        match c.pick_song().as_deref() {
            Some("a") => seen_a = true,
            Some("b") => seen_b = true,
            other => panic!("unexpected draw {:?}", other),
        }
    }
    assert!(seen_a && seen_b);
}
