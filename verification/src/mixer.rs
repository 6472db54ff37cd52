//! The choice of volume control, as a value that a mixer is built from anew
//! for every session.

use vstd::prelude::*;

verus! {

/// The volume controller that the configuration asks for.
#[derive(Clone, Copy, Debug, PartialEq, Eq)]
pub enum VolumeController {
    /// The sound card's own mixer, with a linear or a logarithmic curve.
    Alsa { linear: bool },
    /// Gain applied in the playback pipeline.
    SoftVol,
}

/// How a session's mixer is built.
#[derive(Clone, Debug, PartialEq, Eq)]
pub enum MixerStrategy {
    /// A hardware mixer: the device, the control on it, and the curve.
    Hardware { device: String, control: String, linear: bool },
    /// A software mixer, which needs no device.
    Software,
}

/// The name that `configured` gives, or `fallback` where it gives none.
pub open spec fn name_or(configured: Option<String>, fallback: Seq<char>) -> Seq<char> {
    match configured {
        Some(s) => s@,
        None => fallback,
    }
}

impl MixerStrategy {
    /// Whether this is the strategy that `controller` calls for, with the
    /// device "default" and the control "Master" where none is configured.
    pub open spec fn matches_choice(
        self,
        controller: VolumeController,
        audio_device: Option<String>,
        mixer: Option<String>,
    ) -> bool {
        match controller {
            VolumeController::Alsa { linear } => match self {
                MixerStrategy::Hardware { device, control, linear: l } => {
                    &&& device@ == name_or(audio_device, "default"@)
                    &&& control@ == name_or(mixer, "Master"@)
                    &&& l == linear
                },
                MixerStrategy::Software => false,
            },
            VolumeController::SoftVol => self is Software,
        }
    }

    /// The strategy for the configured controller, device and control.
    pub fn choose_for(
        controller: VolumeController,
        audio_device: &Option<String>,
        mixer: &Option<String>,
    ) -> (r: MixerStrategy)
        ensures
            r.matches_choice(controller, *audio_device, *mixer),
    {
        match controller {
            VolumeController::Alsa { linear } => {
                let device = match audio_device {
                    Some(d) => d.clone(),
                    None => "default".to_owned(),
                };
                let control = match mixer {
                    Some(m) => m.clone(),
                    None => "Master".to_owned(),
                };
                MixerStrategy::Hardware { device, control, linear }
            },
            VolumeController::SoftVol => MixerStrategy::Software,
        }
    }
}

/// Whether the device announces a linear volume curve: only a hardware
/// controller that was configured so does.
pub fn linear_volume(controller: VolumeController) -> (r: bool)
    ensures
        r == (controller matches VolumeController::Alsa { linear } && linear),
{
    match controller {
        VolumeController::Alsa { linear } => linear,
        VolumeController::SoftVol => false,
    }
}

} // verus!
