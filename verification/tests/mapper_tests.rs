use speaker_core::events::{
    map_player_event_to_payload, repeat_string, sink_status_string, AudioItem, PlayerEvent,
    SinkStatus, SpotifyPlayerEventPayload, UniqueFields,
};
use speaker_core::ids::{from_base62, to_base62, ItemKind, TrackId};

fn track_id(id: u128) -> TrackId {
    TrackId { id, kind: ItemKind::Track }
}

fn sample_item(id: TrackId) -> AudioItem {
    AudioItem {
        track_id: id,
        uri: "spotify:track:abc".to_string(),
        name: "A Song".to_string(),
        duration_ms: 215_000,
        is_explicit: false,
        covers: vec!["https://covers.example/1".to_string()],
        language: vec!["en".to_string()],
        unique_fields: UniqueFields::Track {
            artists: vec!["Artist One".to_string(), "Artist Two".to_string()],
            album: "An Album".to_string(),
            album_artists: vec!["Artist One".to_string()],
            popularity: 57,
            number: 3,
            disc_number: 1,
        },
    }
}

#[test]
fn base62_has_fixed_width() {
    assert_eq!(to_base62(0), "0000000000000000000000");
    assert_eq!(to_base62(1), "0000000000000000000001");
    assert_eq!(to_base62(61), "000000000000000000000Z");
    assert_eq!(to_base62(62), "0000000000000000000010");
    assert_eq!(to_base62(12345), "00000000000000000003d7");
}

#[test]
fn base62_round_trips() {
    for id in [0u128, 1, 61, 62, 4096, 123_456_789, u128::MAX] {
        let s = to_base62(id);
        assert_eq!(s.len(), 22);
        assert_eq!(from_base62(&s), Some(id));
    }
}

#[test]
fn base62_rejects_bad_input() {
    assert_eq!(from_base62(""), None);
    assert_eq!(from_base62("0000000000000000000001x-"), None);
    assert_eq!(from_base62("000000000000000000000-"), None);
    // 62^22 - 1 does not fit in 128 bits.
    assert_eq!(from_base62("ZZZZZZZZZZZZZZZZZZZZZZ"), None);
}

#[test]
fn track_change_round_trips_through_the_payload() {
    // A valid identifier survives the trip across the boundary and back.
    let id = track_id(0x1234_5678_9abc_def0_1122_3344_5566_7788u128);
    let event = PlayerEvent::TrackChanged { audio_item: sample_item(id) };
    match map_player_event_to_payload(event) {
        Some(SpotifyPlayerEventPayload::TrackChanged { item }) => {
            assert_eq!(from_base62(&item.track_id), Some(id.id));
            assert_eq!(item.name, "A Song");
            assert_eq!(item.duration_ms, 215_000);
        },
        other => panic!("expected a track-change payload, got {:?}", other.is_some()),
    }
}

#[test]
fn malformed_identifier_is_never_emitted() {
    let bad = TrackId { id: 7, kind: ItemKind::Unknown };
    let event = PlayerEvent::TrackChanged { audio_item: sample_item(bad) };
    assert!(map_player_event_to_payload(event).is_none());
    let event = PlayerEvent::Playing { track_id: bad, position_ms: 10 };
    assert!(map_player_event_to_payload(event).is_none());
}

#[test]
fn playing_event_carries_id_and_position() {
    let id = track_id(99);
    let event = PlayerEvent::Playing { track_id: id, position_ms: 1234 };
    match map_player_event_to_payload(event) {
        Some(SpotifyPlayerEventPayload::Playing { track_id, position_ms }) => {
            assert_eq!(track_id, to_base62(99));
            assert_eq!(position_ms, 1234);
        },
        _ => panic!("expected a playing payload"),
    }
}

#[test]
fn repeat_mapping_follows_track_precedence() {
    assert_eq!(repeat_string(false, false), "off");
    assert_eq!(repeat_string(true, false), "context");
    assert_eq!(repeat_string(false, true), "track");
    assert_eq!(repeat_string(true, true), "track");
}

#[test]
fn repeat_events_map_to_their_labels() {
    let cases = [
        (false, false, "off"),
        (true, false, "context"),
        (false, true, "track"),
        (true, true, "track"),
    ];
    for (context, track, expected) in cases {
        match map_player_event_to_payload(PlayerEvent::RepeatChanged { context, track }) {
            Some(SpotifyPlayerEventPayload::RepeatChanged { repeat }) => {
                assert_eq!(repeat, expected);
            },
            _ => panic!("expected a repeat payload"),
        }
    }
}

#[test]
fn simple_events_pass_their_fields_through() {
    match map_player_event_to_payload(PlayerEvent::VolumeChanged { volume: 65535 }) {
        Some(SpotifyPlayerEventPayload::VolumeChanged { volume }) => assert_eq!(volume, 65535),
        _ => panic!("expected a volume payload"),
    }
    match map_player_event_to_payload(PlayerEvent::ShuffleChanged { shuffle: true }) {
        Some(SpotifyPlayerEventPayload::ShuffleChanged { shuffle }) => assert!(shuffle),
        _ => panic!("expected a shuffle payload"),
    }
    assert!(matches!(
        map_player_event_to_payload(PlayerEvent::SessionDisconnected),
        Some(SpotifyPlayerEventPayload::SessionDisconnected)
    ));
}

#[test]
fn unknown_events_are_silently_ignored() {
    assert!(map_player_event_to_payload(PlayerEvent::Unknown).is_none());
}

#[test]
fn sink_status_labels() {
    assert_eq!(sink_status_string(SinkStatus::Running), "running");
    assert_eq!(
        sink_status_string(SinkStatus::TemporarilyClosed),
        "temporarily_closed"
    );
    assert_eq!(sink_status_string(SinkStatus::Closed), "closed");
}
