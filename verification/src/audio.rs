//! Audio entities: music, sound effects and interface sounds, each on its own
//! volume channel.
use vstd::prelude::*;

use crate::assets::SoundKey;
use crate::ui::Blueprint;
use crate::ui::Marker;
use crate::ui::Part;
use crate::ui::shaped;

verus! {

/// Marks music, played at the music volume.
#[derive(PartialEq, Eq, Structural, Clone, Copy, Debug)]
pub struct MusicAudio;

/// Marks a sound effect, played at the effects volume.
#[derive(PartialEq, Eq, Structural, Clone, Copy, Debug)]
pub struct SfxAudio;

/// Marks an interface sound, played at the interface volume.
#[derive(PartialEq, Eq, Structural, Clone, Copy, Debug)]
pub struct UiAudio;

/// The volume settings a sound follows, each scaled by the master volume.
#[derive(PartialEq, Eq, Structural, Clone, Copy, Debug)]
pub enum AudioChannel {
    Music,
    Sfx,
    Ui,
}

/// What happens when a sound ends.
#[derive(PartialEq, Eq, Structural, Clone, Copy, Debug)]
pub enum PlaybackMode {
    /// It starts over.
    Loop,
    /// Its entity is despawned.
    Despawn,
}

/// How fast a sound plays.
#[derive(PartialEq, Eq, Structural, Clone, Copy, Debug)]
pub enum Pitch {
    /// At its own speed.
    Unchanged,
    /// Raised by the given number of semitones.
    Semitones(u64),
    /// Raised by one reactor tone per module of a chain of the given length
    /// beyond the first.
    ChainStep(u64),
}

pub open spec fn music_audio_blueprint(b: Blueprint, sound: SoundKey) -> bool {
    shaped(
        b,
        seq![
            Part::Name("MusicAudio"),
            Part::Marker(Marker::MusicAudio(MusicAudio)),
            Part::Audio(sound, PlaybackMode::Loop, AudioChannel::Music, Pitch::Unchanged),
        ],
        0,
    )
}

/// Music, looping at the music volume.
pub fn music_audio(sound: SoundKey) -> (b: Blueprint)
    ensures
        music_audio_blueprint(b, sound),
{
    Blueprint {
        parts: vec![
            Part::Name("MusicAudio"),
            Part::Marker(Marker::MusicAudio(MusicAudio)),
            Part::Audio(sound, PlaybackMode::Loop, AudioChannel::Music, Pitch::Unchanged),
        ],
        children: vec![],
    }
}

pub open spec fn sfx_audio_blueprint(b: Blueprint, sound: SoundKey, pitch: Pitch) -> bool {
    shaped(
        b,
        seq![
            Part::Name("SfxAudio"),
            Part::Marker(Marker::SfxAudio(SfxAudio)),
            Part::Audio(sound, PlaybackMode::Despawn, AudioChannel::Sfx, pitch),
        ],
        0,
    )
}

/// A sound effect, played once at the effects volume.
pub fn sfx_audio(sound: SoundKey, pitch: Pitch) -> (b: Blueprint)
    ensures
        sfx_audio_blueprint(b, sound, pitch),
{
    Blueprint {
        parts: vec![
            Part::Name("SfxAudio"),
            Part::Marker(Marker::SfxAudio(SfxAudio)),
            Part::Audio(sound, PlaybackMode::Despawn, AudioChannel::Sfx, pitch),
        ],
        children: vec![],
    }
}

pub open spec fn ui_audio_blueprint(b: Blueprint, sound: SoundKey, pitch: Pitch) -> bool {
    shaped(
        b,
        seq![
            Part::Name("UiAudio"),
            Part::Marker(Marker::UiAudio(UiAudio)),
            Part::Audio(sound, PlaybackMode::Despawn, AudioChannel::Ui, pitch),
        ],
        0,
    )
}

/// An interface sound, played once at the interface volume.
pub fn ui_audio(sound: SoundKey, pitch: Pitch) -> (b: Blueprint)
    ensures
        ui_audio_blueprint(b, sound, pitch),
{
    Blueprint {
        parts: vec![
            Part::Name("UiAudio"),
            Part::Marker(Marker::UiAudio(UiAudio)),
            Part::Audio(sound, PlaybackMode::Despawn, AudioChannel::Ui, pitch),
        ],
        children: vec![],
    }
}

/// Where a changed volume goes on a playing entity.
#[derive(PartialEq, Eq, Structural, Clone, Copy, Debug)]
pub enum VolumeTarget {
    /// The sink of a sound already playing.
    Sink,
    /// The playback settings of a sound not yet started.
    Playback,
}

/// A new volume goes to the entity's sink when it has one, and otherwise to its
/// playback settings; an entity with neither is left alone.
pub fn volume_target(has_sink: bool, has_playback: bool) -> (t: Option<VolumeTarget>)
    ensures
        t == (if has_sink {
            Some(VolumeTarget::Sink)
        } else if has_playback {
            Some(VolumeTarget::Playback)
        } else {
            None
        }),
{
    if has_sink {
        Some(VolumeTarget::Sink)
    } else if has_playback {
        Some(VolumeTarget::Playback)
    } else {
        None
    }
}

/// The marker of each channel's entities, as the settings are applied to them.
pub fn channel_of(marker: Marker) -> (c: Option<AudioChannel>)
    ensures
        c == match marker {
            Marker::MusicAudio(_) => Some(AudioChannel::Music),
            Marker::SfxAudio(_) => Some(AudioChannel::Sfx),
            Marker::UiAudio(_) => Some(AudioChannel::Ui),
            _ => None,
        },
{
    match marker {
        Marker::MusicAudio(_) => Some(AudioChannel::Music),
        Marker::SfxAudio(_) => Some(AudioChannel::Sfx),
        Marker::UiAudio(_) => Some(AudioChannel::Ui),
        _ => None,
    }
}

} // verus!
