//! The event mapper: internal player and sink lifecycle notifications
//! normalized into the stable external event schema.
//!
//! Events carrying a track identifier are emitted only when the identifier has
//! a canonical external form; otherwise the whole event is dropped, so a
//! malformed identifier never crosses the boundary. Unknown internal variants
//! are ignored as a forward-compatible no-op.

use vstd::prelude::*;
use crate::ids::{base62_valid, base62_value, to_base62, track_id_chars, TrackId};

verus! {

/// The fields specific to the kind of item being played.
pub enum UniqueFields {
    Track {
        artists: Vec<String>,
        album: String,
        album_artists: Vec<String>,
        popularity: u8,
        number: u32,
        disc_number: u32,
    },
    Episode { description: String, publish_time_unix: i64, show_name: String },
}

/// Abstract value of [`UniqueFields`].
#[verifier::ext_equal]
pub enum UniqueFieldsModel {
    Track {
        artists: Seq<Seq<char>>,
        album: Seq<char>,
        album_artists: Seq<Seq<char>>,
        popularity: u8,
        number: u32,
        disc_number: u32,
    },
    Episode { description: Seq<char>, publish_time_unix: i64, show_name: Seq<char> },
}

impl View for UniqueFields {
    type V = UniqueFieldsModel;

    open spec fn view(&self) -> UniqueFieldsModel {
        match self {
            UniqueFields::Track { artists, album, album_artists, popularity, number, disc_number } =>
                UniqueFieldsModel::Track {
                    artists: artists.deep_view(),
                    album: album@,
                    album_artists: album_artists.deep_view(),
                    popularity: *popularity,
                    number: *number,
                    disc_number: *disc_number,
                },
            UniqueFields::Episode { description, publish_time_unix, show_name } =>
                UniqueFieldsModel::Episode {
                    description: description@,
                    publish_time_unix: *publish_time_unix,
                    show_name: show_name@,
                },
        }
    }
}

/// What the player knows about the item a track-change names.
pub struct AudioItem {
    pub track_id: TrackId,
    pub uri: String,
    pub name: String,
    pub duration_ms: u32,
    pub is_explicit: bool,
    pub covers: Vec<String>,
    pub language: Vec<String>,
    pub unique_fields: UniqueFields,
}

/// Abstract value of [`AudioItem`].
#[verifier::ext_equal]
pub struct AudioItemModel {
    pub track_id: TrackId,
    pub uri: Seq<char>,
    pub name: Seq<char>,
    pub duration_ms: u32,
    pub is_explicit: bool,
    pub covers: Seq<Seq<char>>,
    pub language: Seq<Seq<char>>,
    pub unique_fields: UniqueFieldsModel,
}

impl View for AudioItem {
    type V = AudioItemModel;

    open spec fn view(&self) -> AudioItemModel {
        AudioItemModel {
            track_id: self.track_id,
            uri: self.uri@,
            name: self.name@,
            duration_ms: self.duration_ms,
            is_explicit: self.is_explicit,
            covers: self.covers.deep_view(),
            language: self.language.deep_view(),
            unique_fields: self.unique_fields@,
        }
    }
}

/// The internal player lifecycle notifications the mapper understands.
/// `Unknown` stands for any variant a future player may add: ignored.
pub enum PlayerEvent {
    PlayRequestIdChanged { play_request_id: u64 },
    TrackChanged { audio_item: AudioItem },
    Stopped { track_id: TrackId },
    Playing { track_id: TrackId, position_ms: u32 },
    Paused { track_id: TrackId, position_ms: u32 },
    Loading { track_id: TrackId },
    Preloading { track_id: TrackId },
    EndOfTrack { track_id: TrackId },
    Seeked { track_id: TrackId, position_ms: u32 },
    Unavailable { track_id: TrackId },
    VolumeChanged { volume: u16 },
    ShuffleChanged { shuffle: bool },
    RepeatChanged { context: bool, track: bool },
    AutoPlayChanged { auto_play: bool },
    FilterExplicitContentChanged { filter: bool },
    SessionDisconnected,
    Unknown,
}

/// Abstract value of [`PlayerEvent`].
#[verifier::ext_equal]
pub enum PlayerEventModel {
    PlayRequestIdChanged { play_request_id: u64 },
    TrackChanged { audio_item: AudioItemModel },
    Stopped { track_id: TrackId },
    Playing { track_id: TrackId, position_ms: u32 },
    Paused { track_id: TrackId, position_ms: u32 },
    Loading { track_id: TrackId },
    Preloading { track_id: TrackId },
    EndOfTrack { track_id: TrackId },
    Seeked { track_id: TrackId, position_ms: u32 },
    Unavailable { track_id: TrackId },
    VolumeChanged { volume: u16 },
    ShuffleChanged { shuffle: bool },
    RepeatChanged { context: bool, track: bool },
    AutoPlayChanged { auto_play: bool },
    FilterExplicitContentChanged { filter: bool },
    SessionDisconnected,
    Unknown,
}

impl View for PlayerEvent {
    type V = PlayerEventModel;

    open spec fn view(&self) -> PlayerEventModel {
        match self {
            PlayerEvent::PlayRequestIdChanged { play_request_id } =>
                PlayerEventModel::PlayRequestIdChanged { play_request_id: *play_request_id },
            PlayerEvent::TrackChanged { audio_item } =>
                PlayerEventModel::TrackChanged { audio_item: audio_item@ },
            PlayerEvent::Stopped { track_id } => PlayerEventModel::Stopped { track_id: *track_id },
            PlayerEvent::Playing { track_id, position_ms } =>
                PlayerEventModel::Playing { track_id: *track_id, position_ms: *position_ms },
            PlayerEvent::Paused { track_id, position_ms } =>
                PlayerEventModel::Paused { track_id: *track_id, position_ms: *position_ms },
            PlayerEvent::Loading { track_id } => PlayerEventModel::Loading { track_id: *track_id },
            PlayerEvent::Preloading { track_id } =>
                PlayerEventModel::Preloading { track_id: *track_id },
            PlayerEvent::EndOfTrack { track_id } =>
                PlayerEventModel::EndOfTrack { track_id: *track_id },
            PlayerEvent::Seeked { track_id, position_ms } =>
                PlayerEventModel::Seeked { track_id: *track_id, position_ms: *position_ms },
            PlayerEvent::Unavailable { track_id } =>
                PlayerEventModel::Unavailable { track_id: *track_id },
            PlayerEvent::VolumeChanged { volume } =>
                PlayerEventModel::VolumeChanged { volume: *volume },
            PlayerEvent::ShuffleChanged { shuffle } =>
                PlayerEventModel::ShuffleChanged { shuffle: *shuffle },
            PlayerEvent::RepeatChanged { context, track } =>
                PlayerEventModel::RepeatChanged { context: *context, track: *track },
            PlayerEvent::AutoPlayChanged { auto_play } =>
                PlayerEventModel::AutoPlayChanged { auto_play: *auto_play },
            PlayerEvent::FilterExplicitContentChanged { filter } =>
                PlayerEventModel::FilterExplicitContentChanged { filter: *filter },
            PlayerEvent::SessionDisconnected => PlayerEventModel::SessionDisconnected,
            PlayerEvent::Unknown => PlayerEventModel::Unknown,
        }
    }
}

/// The item payload of an external track-change event.
pub struct SerializableAudioItem {
    pub track_id: String,
    pub uri: String,
    pub name: String,
    pub duration_ms: u32,
    pub is_explicit: bool,
    pub covers: Vec<String>,
    pub language: Vec<String>,
    pub unique_fields: SerializableUniqueFields,
}

/// The type-tagged union inside an external track-change event.
pub enum SerializableUniqueFields {
    Track {
        artists: Vec<String>,
        album: String,
        album_artists: Vec<String>,
        popularity: u8,
        number: u32,
        disc_number: u32,
    },
    Episode { description: String, publish_time_unix: i64, show_name: String },
}

/// Abstract value of [`SerializableAudioItem`].
#[verifier::ext_equal]
pub struct SerializableAudioItemModel {
    pub track_id: Seq<char>,
    pub uri: Seq<char>,
    pub name: Seq<char>,
    pub duration_ms: u32,
    pub is_explicit: bool,
    pub covers: Seq<Seq<char>>,
    pub language: Seq<Seq<char>>,
    pub unique_fields: UniqueFieldsModel,
}

impl View for SerializableUniqueFields {
    type V = UniqueFieldsModel;

    open spec fn view(&self) -> UniqueFieldsModel {
        match self {
            SerializableUniqueFields::Track {
                artists,
                album,
                album_artists,
                popularity,
                number,
                disc_number,
            } => UniqueFieldsModel::Track {
                artists: artists.deep_view(),
                album: album@,
                album_artists: album_artists.deep_view(),
                popularity: *popularity,
                number: *number,
                disc_number: *disc_number,
            },
            SerializableUniqueFields::Episode { description, publish_time_unix, show_name } =>
                UniqueFieldsModel::Episode {
                    description: description@,
                    publish_time_unix: *publish_time_unix,
                    show_name: show_name@,
                },
        }
    }
}

impl View for SerializableAudioItem {
    type V = SerializableAudioItemModel;

    open spec fn view(&self) -> SerializableAudioItemModel {
        SerializableAudioItemModel {
            track_id: self.track_id@,
            uri: self.uri@,
            name: self.name@,
            duration_ms: self.duration_ms,
            is_explicit: self.is_explicit,
            covers: self.covers.deep_view(),
            language: self.language.deep_view(),
            unique_fields: self.unique_fields@,
        }
    }
}

/// The external, serializable event schema.
pub enum SpotifyPlayerEventPayload {
    PlayRequestIdChanged { play_request_id: u64 },
    TrackChanged { item: SerializableAudioItem },
    Stopped { track_id: String },
    Playing { track_id: String, position_ms: u32 },
    Paused { track_id: String, position_ms: u32 },
    Loading { track_id: String },
    Preloading { track_id: String },
    EndOfTrack { track_id: String },
    Seeked { track_id: String, position_ms: u32 },
    Unavailable { track_id: String },
    VolumeChanged { volume: u16 },
    ShuffleChanged { shuffle: bool },
    RepeatChanged { repeat: String },
    AutoPlayChanged { auto_play: bool },
    FilterExplicitContentChanged { filter: bool },
    SessionDisconnected,
}

/// Abstract value of [`SpotifyPlayerEventPayload`].
#[verifier::ext_equal]
pub enum PayloadModel {
    PlayRequestIdChanged { play_request_id: u64 },
    TrackChanged { item: SerializableAudioItemModel },
    Stopped { track_id: Seq<char> },
    Playing { track_id: Seq<char>, position_ms: u32 },
    Paused { track_id: Seq<char>, position_ms: u32 },
    Loading { track_id: Seq<char> },
    Preloading { track_id: Seq<char> },
    EndOfTrack { track_id: Seq<char> },
    Seeked { track_id: Seq<char>, position_ms: u32 },
    Unavailable { track_id: Seq<char> },
    VolumeChanged { volume: u16 },
    ShuffleChanged { shuffle: bool },
    RepeatChanged { repeat: Seq<char> },
    AutoPlayChanged { auto_play: bool },
    FilterExplicitContentChanged { filter: bool },
    SessionDisconnected,
}

impl View for SpotifyPlayerEventPayload {
    type V = PayloadModel;

    open spec fn view(&self) -> PayloadModel {
        match self {
            SpotifyPlayerEventPayload::PlayRequestIdChanged { play_request_id } =>
                PayloadModel::PlayRequestIdChanged { play_request_id: *play_request_id },
            SpotifyPlayerEventPayload::TrackChanged { item } =>
                PayloadModel::TrackChanged { item: item@ },
            SpotifyPlayerEventPayload::Stopped { track_id } =>
                PayloadModel::Stopped { track_id: track_id@ },
            SpotifyPlayerEventPayload::Playing { track_id, position_ms } =>
                PayloadModel::Playing { track_id: track_id@, position_ms: *position_ms },
            SpotifyPlayerEventPayload::Paused { track_id, position_ms } =>
                PayloadModel::Paused { track_id: track_id@, position_ms: *position_ms },
            SpotifyPlayerEventPayload::Loading { track_id } =>
                PayloadModel::Loading { track_id: track_id@ },
            SpotifyPlayerEventPayload::Preloading { track_id } =>
                PayloadModel::Preloading { track_id: track_id@ },
            SpotifyPlayerEventPayload::EndOfTrack { track_id } =>
                PayloadModel::EndOfTrack { track_id: track_id@ },
            SpotifyPlayerEventPayload::Seeked { track_id, position_ms } =>
                PayloadModel::Seeked { track_id: track_id@, position_ms: *position_ms },
            SpotifyPlayerEventPayload::Unavailable { track_id } =>
                PayloadModel::Unavailable { track_id: track_id@ },
            SpotifyPlayerEventPayload::VolumeChanged { volume } =>
                PayloadModel::VolumeChanged { volume: *volume },
            SpotifyPlayerEventPayload::ShuffleChanged { shuffle } =>
                PayloadModel::ShuffleChanged { shuffle: *shuffle },
            SpotifyPlayerEventPayload::RepeatChanged { repeat } =>
                PayloadModel::RepeatChanged { repeat: repeat@ },
            SpotifyPlayerEventPayload::AutoPlayChanged { auto_play } =>
                PayloadModel::AutoPlayChanged { auto_play: *auto_play },
            SpotifyPlayerEventPayload::FilterExplicitContentChanged { filter } =>
                PayloadModel::FilterExplicitContentChanged { filter: *filter },
            SpotifyPlayerEventPayload::SessionDisconnected => PayloadModel::SessionDisconnected,
        }
    }
}

/// The repeat label: track repeat takes precedence over context repeat; with
/// neither set the label is `off`.
pub open spec fn repeat_label(context: bool, track: bool) -> Seq<char> {
    if track {
        "track"@
    } else if context {
        "context"@
    } else {
        "off"@
    }
}

/// The mapped item payload: the identifier in its external form, everything
/// else carried over unchanged.
pub open spec fn map_item_model(a: AudioItemModel) -> SerializableAudioItemModel {
    SerializableAudioItemModel {
        track_id: track_id_chars(a.track_id.id),
        uri: a.uri,
        name: a.name,
        duration_ms: a.duration_ms,
        is_explicit: a.is_explicit,
        covers: a.covers,
        language: a.language,
        unique_fields: a.unique_fields,
    }
}

/// What the mapper emits for each internal event: the exact payload, or
/// nothing for an event whose identifier has no external form and for unknown
/// variants.
pub open spec fn map_event_model(e: PlayerEventModel) -> Option<PayloadModel> {
    match e {
        PlayerEventModel::PlayRequestIdChanged { play_request_id } =>
            Some(PayloadModel::PlayRequestIdChanged { play_request_id }),
        PlayerEventModel::TrackChanged { audio_item } => if audio_item.track_id.renderable() {
            Some(PayloadModel::TrackChanged { item: map_item_model(audio_item) })
        } else {
            None
        },
        PlayerEventModel::Stopped { track_id } => if track_id.renderable() {
            Some(PayloadModel::Stopped { track_id: track_id_chars(track_id.id) })
        } else {
            None
        },
        PlayerEventModel::Playing { track_id, position_ms } => if track_id.renderable() {
            Some(PayloadModel::Playing { track_id: track_id_chars(track_id.id), position_ms })
        } else {
            None
        },
        PlayerEventModel::Paused { track_id, position_ms } => if track_id.renderable() {
            Some(PayloadModel::Paused { track_id: track_id_chars(track_id.id), position_ms })
        } else {
            None
        },
        PlayerEventModel::Loading { track_id } => if track_id.renderable() {
            Some(PayloadModel::Loading { track_id: track_id_chars(track_id.id) })
        } else {
            None
        },
        PlayerEventModel::Preloading { track_id } => if track_id.renderable() {
            Some(PayloadModel::Preloading { track_id: track_id_chars(track_id.id) })
        } else {
            None
        },
        PlayerEventModel::EndOfTrack { track_id } => if track_id.renderable() {
            Some(PayloadModel::EndOfTrack { track_id: track_id_chars(track_id.id) })
        } else {
            None
        },
        PlayerEventModel::Seeked { track_id, position_ms } => if track_id.renderable() {
            Some(PayloadModel::Seeked { track_id: track_id_chars(track_id.id), position_ms })
        } else {
            None
        },
        PlayerEventModel::Unavailable { track_id } => if track_id.renderable() {
            Some(PayloadModel::Unavailable { track_id: track_id_chars(track_id.id) })
        } else {
            None
        },
        PlayerEventModel::VolumeChanged { volume } => Some(PayloadModel::VolumeChanged { volume }),
        PlayerEventModel::ShuffleChanged { shuffle } =>
            Some(PayloadModel::ShuffleChanged { shuffle }),
        PlayerEventModel::RepeatChanged { context, track } =>
            Some(PayloadModel::RepeatChanged { repeat: repeat_label(context, track) }),
        PlayerEventModel::AutoPlayChanged { auto_play } =>
            Some(PayloadModel::AutoPlayChanged { auto_play }),
        PlayerEventModel::FilterExplicitContentChanged { filter } =>
            Some(PayloadModel::FilterExplicitContentChanged { filter }),
        PlayerEventModel::SessionDisconnected => Some(PayloadModel::SessionDisconnected),
        PlayerEventModel::Unknown => None,
    }
}

/// Renders an identifier to its external form, or nothing when it has none.
pub fn render_track_id(t: TrackId) -> (r: Option<String>)
    ensures
        match r {
            Some(s) => t.renderable() && s@ == track_id_chars(t.id),
            None => !t.renderable(),
        },
{
    if t.kind == crate::ids::ItemKind::Unknown {
        None
    } else {
        Some(to_base62(t.id))
    }
}

/// The repeat label as a string: track repeat wins, then context, then `off`.
pub fn repeat_string(context: bool, track: bool) -> (r: String)
    ensures
        r@ == repeat_label(context, track),
{
    if track {
        "track".to_owned()
    } else if context {
        "context".to_owned()
    } else {
        "off".to_owned()
    }
}

/// Normalizes one internal player event into the external schema. Returns
/// exactly [`map_event_model`] of the event: a payload for every supported
/// event whose identifier (if it carries one) is renderable, and nothing
/// otherwise.
pub fn map_player_event_to_payload(event: PlayerEvent) -> (r: Option<SpotifyPlayerEventPayload>)
    ensures
        (match r {
            Some(p) => Some(p@),
            None => None::<PayloadModel>,
        }) == map_event_model(event@),
{
    match event {
        PlayerEvent::PlayRequestIdChanged { play_request_id } =>
            Some(SpotifyPlayerEventPayload::PlayRequestIdChanged { play_request_id }),
        PlayerEvent::TrackChanged { audio_item } => {
            match render_track_id(audio_item.track_id) {
                Some(id) => {
                    let item = SerializableAudioItem {
                        track_id: id,
                        uri: audio_item.uri,
                        name: audio_item.name,
                        duration_ms: audio_item.duration_ms,
                        is_explicit: audio_item.is_explicit,
                        covers: audio_item.covers,
                        language: audio_item.language,
                        unique_fields: match audio_item.unique_fields {
                            UniqueFields::Track {
                                artists,
                                album,
                                album_artists,
                                popularity,
                                number,
                                disc_number,
                            } => SerializableUniqueFields::Track {
                                artists,
                                album,
                                album_artists,
                                popularity,
                                number,
                                disc_number,
                            },
                            UniqueFields::Episode {
                                description,
                                publish_time_unix,
                                show_name,
                            } => SerializableUniqueFields::Episode {
                                description,
                                publish_time_unix,
                                show_name,
                            },
                        },
                    };
                    Some(SpotifyPlayerEventPayload::TrackChanged { item })
                },
                None => None,
            }
        },
        PlayerEvent::Stopped { track_id } => match render_track_id(track_id) {
            Some(id) => Some(SpotifyPlayerEventPayload::Stopped { track_id: id }),
            None => None,
        },
        PlayerEvent::Playing { track_id, position_ms } => match render_track_id(track_id) {
            Some(id) => Some(SpotifyPlayerEventPayload::Playing { track_id: id, position_ms }),
            None => None,
        },
        PlayerEvent::Paused { track_id, position_ms } => match render_track_id(track_id) {
            Some(id) => Some(SpotifyPlayerEventPayload::Paused { track_id: id, position_ms }),
            None => None,
        },
        PlayerEvent::Loading { track_id } => match render_track_id(track_id) {
            Some(id) => Some(SpotifyPlayerEventPayload::Loading { track_id: id }),
            None => None,
        },
        PlayerEvent::Preloading { track_id } => match render_track_id(track_id) {
            Some(id) => Some(SpotifyPlayerEventPayload::Preloading { track_id: id }),
            None => None,
        },
        PlayerEvent::EndOfTrack { track_id } => match render_track_id(track_id) {
            Some(id) => Some(SpotifyPlayerEventPayload::EndOfTrack { track_id: id }),
            None => None,
        },
        PlayerEvent::Seeked { track_id, position_ms } => match render_track_id(track_id) {
            Some(id) => Some(SpotifyPlayerEventPayload::Seeked { track_id: id, position_ms }),
            None => None,
        },
        PlayerEvent::Unavailable { track_id } => match render_track_id(track_id) {
            Some(id) => Some(SpotifyPlayerEventPayload::Unavailable { track_id: id }),
            None => None,
        },
        PlayerEvent::VolumeChanged { volume } =>
            Some(SpotifyPlayerEventPayload::VolumeChanged { volume }),
        PlayerEvent::ShuffleChanged { shuffle } =>
            Some(SpotifyPlayerEventPayload::ShuffleChanged { shuffle }),
        PlayerEvent::RepeatChanged { context, track } => Some(
            SpotifyPlayerEventPayload::RepeatChanged { repeat: repeat_string(context, track) },
        ),
        PlayerEvent::AutoPlayChanged { auto_play } =>
            Some(SpotifyPlayerEventPayload::AutoPlayChanged { auto_play }),
        PlayerEvent::FilterExplicitContentChanged { filter } =>
            Some(SpotifyPlayerEventPayload::FilterExplicitContentChanged { filter }),
        PlayerEvent::SessionDisconnected => Some(SpotifyPlayerEventPayload::SessionDisconnected),
        PlayerEvent::Unknown => None,
    }
}

/// Round trip: the identifier inside a mapped track-change payload is a valid
/// base-62 numeral that decodes back to the internal identifier value; and an
/// event whose identifier has no external form maps to nothing.
pub proof fn lemma_mapped_track_id_decodes(e: PlayerEventModel)
    requires
        e matches PlayerEventModel::TrackChanged { audio_item },
    ensures
        e matches PlayerEventModel::TrackChanged { audio_item } ==> {
            &&& audio_item.track_id.renderable() ==> (map_event_model(e) matches Some(
                PayloadModel::TrackChanged { item },
            ) && base62_valid(item.track_id) && base62_value(item.track_id)
                == audio_item.track_id.id)
            &&& !audio_item.track_id.renderable() ==> map_event_model(e) is None
        },
{
    let audio_item = e->TrackChanged_audio_item;
    if audio_item.track_id.renderable() {
        crate::ids::lemma_track_id_round_trip(audio_item.track_id.id);
    }
}

/// The status of the audio output sink, as reported to the boundary.
#[derive(Clone, Copy, PartialEq, Eq, Structural, Debug)]
pub enum SinkStatus {
    Running,
    TemporarilyClosed,
    Closed,
}

/// The external label of a sink status.
pub open spec fn sink_status_label(s: SinkStatus) -> Seq<char> {
    match s {
        SinkStatus::Running => "running"@,
        SinkStatus::TemporarilyClosed => "temporarily_closed"@,
        SinkStatus::Closed => "closed"@,
    }
}

/// The sink status as the string the boundary event carries.
pub fn sink_status_string(s: SinkStatus) -> (r: String)
    ensures
        r@ == sink_status_label(s),
{
    match s {
        SinkStatus::Running => "running".to_owned(),
        SinkStatus::TemporarilyClosed => "temporarily_closed".to_owned(),
        SinkStatus::Closed => "closed".to_owned(),
    }
}

} // verus!
