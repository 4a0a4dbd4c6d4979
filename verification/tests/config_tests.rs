use speaker_core::assets::decode_logo_data;
use speaker_core::config::{resolve_display_name, SpotifyConfig};
use speaker_core::audio::AudioFormat;
use speaker_core::hashing::device_id;
use speaker_core::kv::{read_config_value, write_config_value};
use speaker_core::lyrics::build_lyrics_request_url;

#[test]
fn device_id_is_the_sha1_hex_of_the_name() {
    assert_eq!(device_id("SPEAKER"), "89010b39293e45b3c432334adac864e7ca83ee2c");
    assert_eq!(device_id("My Speaker"), "907673fb1854f0c4740684bf057c2a0f0e9df884");
}

#[test]
fn device_id_is_stable_across_calls() {
    assert_eq!(device_id("SPEAKER"), device_id("SPEAKER"));
    assert_ne!(device_id("SPEAKER"), device_id("speaker"));
}

#[test]
fn config_derives_its_identity_from_the_name() {
    let config = SpotifyConfig::new("SPEAKER");
    assert_eq!(config.device_name, "SPEAKER");
    assert_eq!(config.device_id, "89010b39293e45b3c432334adac864e7ca83ee2c");
    assert_eq!(config.audio_format, AudioFormat::S16);
}

#[test]
fn display_name_falls_back_and_asks_to_persist() {
    let (name, persist) = resolve_display_name(Some("Kitchen".to_string()));
    assert_eq!(name, "Kitchen");
    assert!(!persist);
    let (name, persist) = resolve_display_name(None);
    assert_eq!(name, "SPEAKER");
    assert!(persist);
}

#[test]
fn kv_store_round_trips_a_key() {
    let empty: Vec<u8> = Vec::new();
    let data = write_config_value(&empty, &b"name".to_vec(), &b"SPEAKER".to_vec());
    assert_eq!(data, b"name=SPEAKER\n".to_vec());
    let v = read_config_value(&data, &b"name".to_vec());
    assert_eq!(v, Some(b"SPEAKER".to_vec()));
}

#[test]
fn kv_update_replaces_in_place_and_keeps_other_keys() {
    let data = b"name=SPEAKER\nlogo=a.png\n".to_vec();
    let updated = write_config_value(&data, &b"name".to_vec(), &b"Kitchen".to_vec());
    assert_eq!(updated, b"name=Kitchen\nlogo=a.png\n".to_vec());
    assert_eq!(
        read_config_value(&updated, &b"logo".to_vec()),
        Some(b"a.png".to_vec())
    );
}

#[test]
fn kv_update_appends_a_missing_key() {
    let data = b"name=SPEAKER\n".to_vec();
    let updated = write_config_value(&data, &b"logo".to_vec(), &b"a.png".to_vec());
    assert_eq!(updated, b"name=SPEAKER\nlogo=a.png\n".to_vec());
}

#[test]
fn kv_lookup_misses_and_first_match_wins() {
    let data = b"a=1\nb=2\na=3\n".to_vec();
    assert_eq!(read_config_value(&data, &b"c".to_vec()), None);
    assert_eq!(read_config_value(&data, &b"a".to_vec()), Some(b"1".to_vec()));
}

#[test]
fn kv_value_may_contain_the_separator() {
    let data = b"url=https://example.test/x?a=b\n".to_vec();
    assert_eq!(
        read_config_value(&data, &b"url".to_vec()),
        Some(b"https://example.test/x?a=b".to_vec())
    );
}

#[test]
fn kv_handles_an_unterminated_last_line() {
    let data = b"name=SPEAKER".to_vec();
    assert_eq!(
        read_config_value(&data, &b"name".to_vec()),
        Some(b"SPEAKER".to_vec())
    );
    let updated = write_config_value(&data, &b"logo".to_vec(), &b"a.png".to_vec());
    assert_eq!(updated, b"name=SPEAKER\nlogo=a.png\n".to_vec());
}

#[test]
fn logo_data_decodes_from_base64() {
    assert_eq!(decode_logo_data("aGVsbG8="), Some(b"hello".to_vec()));
    assert_eq!(decode_logo_data("not base64!"), None);
}

#[test]
fn lyrics_request_url_is_assembled_and_encoded() {
    let url = build_lyrics_request_url("A B", "Song", "An Album", "215.5");
    assert_eq!(
        url,
        "https://lrclib.net/api/get?artist_name=A%20B&track_name=Song&album_name=An%20Album&duration=215.5"
    );
    // Spaces that survive encoding (the raw duration) become plus signs.
    let url = build_lyrics_request_url("A", "B", "C", "1 2");
    assert_eq!(
        url,
        "https://lrclib.net/api/get?artist_name=A&track_name=B&album_name=C&duration=1+2"
    );
}
