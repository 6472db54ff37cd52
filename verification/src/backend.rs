//! Selection of the audio backend by name.

use vstd::prelude::*;

verus! {

/// The backend that a selection settled on.
#[derive(Clone, Copy, Debug, PartialEq, Eq)]
pub struct BackendChoice {
    /// Position of the backend in the registry.
    pub index: usize,
    /// Whether no name was asked for, so that the first backend was taken.
    /// The caller is expected to tell the user which one that is.
    pub defaulted: bool,
}

/// Why no backend could be selected.
#[derive(Clone, Copy, Debug, PartialEq, Eq)]
pub enum BackendError {
    /// A name was asked for that the registry does not hold.
    UnknownBackend,
    /// No name was asked for and the registry holds no backend at all.
    NoBackends,
}

/// No entry of `registry` before position `upto` carries `name`.
pub open spec fn absent_before(registry: Seq<String>, name: Seq<char>, upto: int) -> bool {
    forall|j: int| 0 <= j < upto && j < registry.len() ==> (#[trigger] registry[j])@ != name
}

/// What selecting `name` from `registry` yields: the first entry when no name
/// is given, else the first entry that carries the name, compared character
/// by character.
pub open spec fn selection(name: Option<Seq<char>>, registry: Seq<String>) -> Result<
    BackendChoice,
    BackendError,
> {
    match name {
        None => if registry.len() == 0 {
            Err(BackendError::NoBackends)
        } else {
            Ok(BackendChoice { index: 0, defaulted: true })
        },
        Some(n) => if absent_before(registry, n, registry.len() as int) {
            Err(BackendError::UnknownBackend)
        } else {
            let i = choose|i: int|
                0 <= i < registry.len() && registry[i]@ == n && absent_before(registry, n, i);
            Ok(BackendChoice { index: i as usize, defaulted: false })
        },
    }
}

/// The view of an optional name.
pub open spec fn name_view(name: Option<&str>) -> Option<Seq<char>> {
    match name {
        None => None,
        Some(n) => Some(n@),
    }
}

/// Selects a backend from `registry`, which lists the backends' names in
/// their order of preference.
pub fn find_backend(name: Option<&str>, registry: &Vec<String>) -> (r: Result<
    BackendChoice,
    BackendError,
>)
    ensures
        r == selection(name_view(name), registry@),
        match r {
            Ok(c) => c.index < registry.len() && match name {
                None => c.index == 0 && c.defaulted,
                Some(n) => !c.defaulted && registry[c.index as int]@ == n@ && absent_before(
                    registry@,
                    n@,
                    c.index as int,
                ),
            },
            Err(BackendError::NoBackends) => name is None && registry.len() == 0,
            Err(BackendError::UnknownBackend) => name is Some && absent_before(
                registry@,
                name->0@,
                registry.len() as int,
            ),
        },
{
    match name {
        None => {
            if registry.len() == 0 {
                Err(BackendError::NoBackends)
            } else {
                Ok(BackendChoice { index: 0, defaulted: true })
            }
        },
        Some(n) => {
            let wanted: String = n.to_owned();
            let mut i: usize = 0;
            while i < registry.len()
                invariant
                    i <= registry.len(),
                    name == Some(n),
                    wanted@ == n@,
                    absent_before(registry@, n@, i as int),
                decreases registry.len() - i,
            {
                if registry[i] == wanted {
                    proof {
                        assert(registry@[i as int]@ == n@);
                        let k = choose|k: int|
                            0 <= k < registry.len() && registry[k]@ == n@ && absent_before(
                                registry@,
                                n@,
                                k,
                            );
                        assert(!absent_before(registry@, n@, registry.len() as int));
                        assert(k == i) by {
                            if k < i {
                                assert(registry@[k]@ != n@);
                            } else if i < k {
                                assert(registry@[i as int]@ != n@);
                            }
                        }
                    }
                    return Ok(BackendChoice { index: i, defaulted: false });
                }
                i += 1;
            }
            Err(BackendError::UnknownBackend)
        },
    }
}

/// Reads the names of the table `librespot::playback::audio_backend::BACKENDS`,
/// in the table's order. The table always ends with the pipe and the
/// subprocess sink, whatever was enabled at build time, so the contract
/// claims that the list is not empty, and nothing of the names themselves.
#[verifier::external_body]
pub(crate) fn registered_backend_names() -> (names: Vec<String>)
    ensures
        names@.len() > 0,
{
    librespot::playback::audio_backend::BACKENDS.iter().map(|backend| backend.0.to_string()).collect()
}

/// Selects a backend among those that the playback library was built with.
/// Returns the names that it chose from beside the choice, so that the caller
/// can name the backend taken.
pub fn find_registered_backend(name: Option<&str>) -> (r: (
    Vec<String>,
    Result<BackendChoice, BackendError>,
))
    ensures
        r.0@.len() > 0,
        r.1 == selection(name_view(name), r.0@),
        name is None ==> r.1 == Ok::<BackendChoice, BackendError>(
            BackendChoice { index: 0, defaulted: true },
        ),
{
    let registry = registered_backend_names();
    let choice = find_backend(name, &registry);
    (registry, choice)
}

} // verus!
