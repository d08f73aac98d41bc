use ev3dev_lang_rust::error::{Ev3Error, Ev3Result};
use ev3dev_lang_rust::sound::{
    get_channels, get_volume, get_volume_channel, set_volume, set_volume_channel, tone, tone_sequence,
    volume_text_parsable,
};

const SCONTROLS: &str = "Simple mixer control 'Master',0\nSimple mixer control 'PCM',0\nnothing here\n";

#[test]
fn channels_are_read_from_scontrols() {
    assert_eq!(get_channels(SCONTROLS), vec!["Master".to_owned(), "PCM".to_owned()]);
    assert_eq!(get_channels(""), vec!["Playback".to_owned()]);
    assert_eq!(get_channels("one ' quote\n''\n"), vec!["Playback".to_owned()]);
    assert_eq!(get_channels("'it's'"), vec!["it's".to_owned()]);
}

#[test]
fn volume_arguments() {
    let scontrols: Ev3Result<String> = Ok(SCONTROLS.to_owned());
    assert_eq!(set_volume_channel(40, "PCM"), vec!["-q", "set", "PCM", "40%"]);
    assert_eq!(
        set_volume(75, &scontrols),
        vec![vec!["-q", "set", "Master", "75%"], vec!["-q", "set", "PCM", "75%"]]
    );
    assert_eq!(set_volume(-5, &Ok(String::new())), vec![vec!["-q", "set", "Playback", "-5%"]]);
    assert_eq!(get_volume(&scontrols), vec!["get", "Master"]);
    assert_eq!(get_volume(&Ok("x".to_owned())), vec!["get", "Playback"]);
}

#[test]
fn volume_falls_back_to_playback_when_scontrols_fails() {
    let failed: Ev3Result<String> = Err(Ev3Error::InternalError { msg: "No such file or directory".to_owned() });
    assert_eq!(set_volume(30, &failed), vec![vec!["-q", "set", "Playback", "30%"]]);
    assert_eq!(get_volume(&failed), vec!["get", "Playback"]);
}

#[test]
fn volume_is_read_from_amixer_get() {
    let out = "Simple mixer control 'Playback',0\n  Mono: Playback 192 [75%] [-12.00dB] [on]\n";
    assert!(volume_text_parsable(out));
    assert_eq!(get_volume_channel(out), Ok(75));
    assert!(volume_text_parsable("[%]"));
    assert_eq!(
        get_volume_channel("[%]"),
        Err(Ev3Error::InternalError { msg: "cannot parse integer from empty string".to_owned() })
    );
    assert_eq!(
        get_volume_channel("a[x%]"),
        Err(Ev3Error::InternalError { msg: "invalid digit found in string".to_owned() })
    );
}

#[test]
fn volume_text_that_cannot_be_cut() {
    // these are the texts on which slicing the output by the markers would panic
    assert!(!volume_text_parsable(""));
    assert!(!volume_text_parsable("abc [50"));
    assert!(!volume_text_parsable("50%] ["));
    assert!(!volume_text_parsable("é50%]"));
    assert!(volume_text_parsable("x50%]"));
    assert_eq!(get_volume_channel("x50%]"), Ok(50));
}

#[test]
fn tone_arguments() {
    assert_eq!(tone("466", 500), vec!["-f 466", "-l 500"]);
    assert_eq!(tone(&466.5f32.to_string(), -1), vec!["-f 466.5", "-l -1"]);
}

#[test]
fn tone_sequence_arguments() {
    assert!(tone_sequence(&[]).is_empty());
    assert_eq!(tone_sequence(&[("392".to_owned(), 350, 100)]), vec!["-f 392", "-l 350", "-D 100"]);
    let tones = [
        ("392".to_owned(), 350, 100),
        ("311.1".to_owned(), 250, 100),
        ("466.2".to_owned(), 25, 0),
    ];
    assert_eq!(
        tone_sequence(&tones),
        vec![
            "-f 392", "-l 350", "-D 100", "-n", "-f 311.1", "-l 250", "-D 100", "-n", "-f 466.2",
            "-l 25", "-D 0",
        ]
    );
}
