//! Startup: from the configuration to the loop's first state.

use vstd::prelude::*;
use crate::backend::{find_backend, registered_backend_names, selection};
use crate::backend::{BackendChoice, BackendError};
use crate::credentials::{resolve_credentials, resolves_to, wants_keyring, Resolution};
use crate::main_loop::{Action, AudioSetup, Credentials, LoopState, MainLoopState};
use crate::mixer::{linear_volume, MixerStrategy, VolumeController};

verus! {

/// What the configuration says of the user, of audio and of the device.
#[derive(Clone, Debug, PartialEq, Eq)]
pub struct SpotifydConfig {
    pub username: Option<String>,
    pub password: Option<String>,
    /// Whether a password may be taken from the keyring.
    pub use_keyring: bool,
    pub audio_device: Option<String>,
    /// The control of a hardware mixer.
    pub mixer: Option<String>,
    pub volume_controller: VolumeController,
    /// The audio backend asked for, by name.
    pub backend: Option<String>,
    pub device_name: String,
}

/// The loop's first state, and what the driver needs beside it.
pub struct Startup {
    pub state: MainLoopState,
    /// The first action: to connect where credentials were at hand.
    pub first: Action,
    /// The names of the backends at hand, in their order of preference.
    pub backends: Vec<String>,
    /// The backend selected among them.
    pub backend: BackendChoice,
}

/// Why the daemon cannot start.
#[derive(Clone, Copy, Debug, PartialEq, Eq)]
pub enum StartupError {
    /// A user is named without a password to be found anywhere.
    NoPassword,
    /// The backend asked for is not among those at hand.
    UnknownBackend,
    /// There is no backend at all.
    NoBackends,
}

/// The view of an optional configured name.
pub open spec fn configured_name(name: Option<String>) -> Option<Seq<char>> {
    match name {
        None => None,
        Some(n) => Some(n@),
    }
}

/// The password to go by: the configured one, or else the keyring's where
/// the keyring is to be asked.
pub open spec fn effective_password(config: SpotifydConfig, keyring: Option<String>) -> Option<
    String,
> {
    if config.password is None && config.username is Some && config.use_keyring {
        keyring
    } else {
        config.password
    }
}

/// Whether `audio` is the setup that `config` and the choice of backend
/// call for.
pub open spec fn audio_matches(
    audio: AudioSetup,
    config: SpotifydConfig,
    backend: BackendChoice,
) -> bool {
    &&& audio.mixer.matches_choice(config.volume_controller, config.audio_device, config.mixer)
    &&& audio.backend == backend.index
    &&& audio.audio_device == config.audio_device
    &&& audio.device_name == config.device_name
    &&& audio.linear_volume == (config.volume_controller matches VolumeController::Alsa {
        linear,
    } && linear)
}

/// The credentials that a first action connects with.
pub open spec fn connects_with(first: Action) -> Option<Credentials> {
    match first {
        Action::Connect { credentials, .. } => Some(credentials),
        _ => None,
    }
}

/// The first action for the credentials at hand.
pub open spec fn first_action(credentials: Option<Credentials>) -> Action {
    match credentials {
        Some(c) => Action::Connect { attempt: 1, credentials: c, retire: None },
        None => Action::Nothing,
    }
}

/// Whether `s` is the startup for `config` with these credentials, and
/// with the backend that `config` selects among those that `s` lists.
pub open spec fn started_with(
    s: Startup,
    config: SpotifydConfig,
    credentials: Option<Credentials>,
) -> bool {
    let backend = s.backend;
    &&& selection(configured_name(config.backend), s.backends@) == Ok::<
        BackendChoice,
        BackendError,
    >(backend)
    &&& s.state.wf()
    &&& s.state@ == LoopState::initial(credentials)
    &&& s.first == first_action(credentials)
    &&& audio_matches(s.state.audio(), config, backend)
}

/// The failure that a backend selection's failure stands for.
pub open spec fn backend_failure(e: BackendError) -> StartupError {
    match e {
        BackendError::UnknownBackend => StartupError::UnknownBackend,
        BackendError::NoBackends => StartupError::NoBackends,
    }
}

/// Whether `r` is the startup that `config` calls for, given the
/// keyring's password, the credentials stored earlier and the backends
/// that `registry` names. A missing password is reported before a
/// missing backend.
pub open spec fn startup_matches(
    r: Result<Startup, StartupError>,
    config: SpotifydConfig,
    keyring: Option<String>,
    cached: Option<Credentials>,
    registry: Seq<String>,
) -> bool {
    let password = effective_password(config, keyring);
    if resolves_to(Resolution::NoPassword, config.username, password, cached) {
        r is Err && r->Err_0 == StartupError::NoPassword
    } else {
        match selection(configured_name(config.backend), registry) {
            Err(e) => r is Err && r->Err_0 == backend_failure(e),
            Ok(choice) => {
                &&& r is Ok
                &&& r->Ok_0.backends@ == registry
                &&& started_with(r->Ok_0, config, connects_with(r->Ok_0.first))
                &&& match connects_with(r->Ok_0.first) {
                    Some(c) => resolves_to(Resolution::Use(c), config.username, password, cached),
                    None => resolves_to(Resolution::Absent, config.username, password, cached),
                }
            },
        }
    }
}

/// Builds the loop's first state from the configuration, the password
/// that the keyring gave, the credentials stored earlier, and the names of
/// the backends at hand.
pub fn initial_state_from(
    config: SpotifydConfig,
    keyring: Option<String>,
    cached: Option<Credentials>,
    registry: Vec<String>,
) -> (r: Result<Startup, StartupError>)
    ensures
        startup_matches(r, config, keyring, cached, registry@),
{
    let SpotifydConfig {
        username,
        password,
        use_keyring,
        audio_device,
        mixer,
        volume_controller,
        backend,
        device_name,
    } = config;
    let password = match password {
        Some(p) => Some(p),
        None => if wants_keyring(&username, use_keyring) {
            keyring
        } else {
            None
        },
    };
    let credentials = match resolve_credentials(username, password, cached) {
        Resolution::Use(c) => Some(c),
        Resolution::Absent => None,
        Resolution::NoPassword => {
            return Err(StartupError::NoPassword);
        },
    };
    let strategy = MixerStrategy::choose_for(volume_controller, &audio_device, &mixer);
    let linear = linear_volume(volume_controller);
    let found = match &backend {
        Some(name) => find_backend(Some(name.as_str()), &registry),
        None => find_backend(None, &registry),
    };
    match found {
        Err(BackendError::UnknownBackend) => Err(StartupError::UnknownBackend),
        Err(BackendError::NoBackends) => Err(StartupError::NoBackends),
        Ok(choice) => {
            let audio = AudioSetup {
                mixer: strategy,
                backend: choice.index,
                audio_device,
                device_name,
                linear_volume: linear,
            };
            let (state, first) = MainLoopState::new(credentials, audio);
            Ok(Startup { state, first, backends: registry, backend: choice })
        },
    }
}

/// Builds the loop's first state with the backends that the playback
/// library was built with, which the result lists. That library always has
/// a backend, so of the backends only an unknown name can make this fail.
pub fn initial_state(
    config: SpotifydConfig,
    keyring: Option<String>,
    cached: Option<Credentials>,
) -> (r: Result<Startup, StartupError>)
    ensures
        (r is Err && r->Err_0 == StartupError::NoPassword) <==> resolves_to(
            Resolution::NoPassword,
            config.username,
            effective_password(config, keyring),
            cached,
        ),
        !(r is Err && r->Err_0 == StartupError::NoBackends),
        r is Err && r->Err_0 == StartupError::UnknownBackend ==> config.backend is Some,
        match r {
            Err(_) => true,
            Ok(s) => {
                &&& s.backends@.len() > 0
                &&& started_with(s, config, connects_with(s.first))
                &&& match connects_with(s.first) {
                    Some(c) => resolves_to(
                        Resolution::Use(c),
                        config.username,
                        effective_password(config, keyring),
                        cached,
                    ),
                    None => resolves_to(
                        Resolution::Absent,
                        config.username,
                        effective_password(config, keyring),
                        cached,
                    ),
                }
            },
        },
{
    let registry = registered_backend_names();
    initial_state_from(config, keyring, cached, registry)
}

} // verus!
