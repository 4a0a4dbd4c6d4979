//! The sink adapter's decisions: which output device a request selects, and
//! which sample formats the capture-tee sink accepts. The device list itself
//! comes from the host audio system; the choice among its entries is made
//! here.

use vstd::prelude::*;
use crate::audio::AudioFormat;

verus! {

/// The ways building the audio output sink can fail.
#[derive(Debug)]
pub enum RodioError {
    /// No default output device exists.
    NoDeviceAvailable,
    /// The named device is absent from the device list.
    DeviceNotAvailable(String),
    PlayError(String),
    StreamError(String),
    DevicesError(String),
    /// A sample-format problem, such as an unsupported encoding.
    Samples(String),
}

/// Which device the sink should open.
#[derive(Clone, Copy, PartialEq, Eq, Structural, Debug)]
pub enum DeviceSelection {
    /// The device at this index of the enumerated list.
    Named(usize),
    /// The host's default output device.
    Default,
}

/// Whether a device list entry (whose name may be unreadable) carries exactly
/// the requested name.
pub open spec fn entry_matches(entry: Option<Seq<char>>, requested: Seq<char>) -> bool {
    entry matches Some(n) && n == requested
}

/// Selects the output device: the first list entry carrying the requested
/// name, or the default device when no name is requested. Fails with the
/// named error when the requested name is absent, and with
/// `NoDeviceAvailable` when no name is requested and no default exists.
/// Entries whose names could not be read are skipped, never matched.
pub fn select_output_device(
    device_names: &Vec<Option<String>>,
    requested: &Option<String>,
    has_default: bool,
) -> (r: Result<DeviceSelection, RodioError>)
    ensures
        ({
            let names = device_names.deep_view();
            match requested {
                Some(want) => match r {
                    Ok(DeviceSelection::Named(j)) => 0 <= j < names.len() && entry_matches(
                        names[j as int],
                        want@,
                    ) && (forall|k: int| 0 <= k < j ==> !entry_matches(names[k], want@)),
                    Err(RodioError::DeviceNotAvailable(n)) => n@ == want@ && (forall|k: int|
                        0 <= k < names.len() ==> !entry_matches(names[k], want@)),
                    _ => false,
                },
                None => if has_default {
                    r matches Ok(DeviceSelection::Default)
                } else {
                    r matches Err(RodioError::NoDeviceAvailable)
                },
            }
        }),
{
    if requested.is_some() {
        let want: &String = requested.as_ref().unwrap();
        proof {
            assert(want == requested->0);
        }
        {
            let ghost names = device_names.deep_view();
            let mut i: usize = 0;
            while i < device_names.len()
                invariant
                    requested is Some,
                    want == requested->0,
                    names == device_names.deep_view(),
                    names.len() == device_names@.len(),
                    i <= device_names@.len(),
                    forall|k: int| 0 <= k < i ==> !entry_matches(names[k], want@),
                decreases device_names@.len() - i,
            {
                proof {
                    assert(names[i as int] == device_names@[i as int].deep_view());
                }
                match &device_names[i] {
                    Some(name) => {
                        if name.eq(want) {
                            proof {
                                assert(names[i as int] == Some(name@));
                                assert(entry_matches(names[i as int], want@));
                                assert(0 <= i < names.len());
                                assert(forall|k: int| 0 <= k < i ==> !entry_matches(names[k], want@));
                            }
                            return Ok(DeviceSelection::Named(i));
                        }
                        proof {
                            assert(names[i as int] == Some(name@));
                            assert(!entry_matches(names[i as int], want@));
                        }
                    },
                    None => {
                        proof {
                            assert(names[i as int] is None);
                        }
                    },
                }
                i = i + 1;
            }
            Err(RodioError::DeviceNotAvailable(want.clone()))
        }
    } else {
        if has_default {
            Ok(DeviceSelection::Default)
        } else {
            Err(RodioError::NoDeviceAvailable)
        }
    }
}

/// Accepts only the two supported sample encodings; anything else is refused
/// at construction time with a format error, never at first write.
pub fn validate_capture_format(format: AudioFormat) -> (r: Result<(), RodioError>)
    ensures
        r is Ok <==> (format == AudioFormat::S16 || format == AudioFormat::F32),
        r is Err ==> r matches Err(RodioError::Samples(_)),
{
    if format == AudioFormat::S16 || format == AudioFormat::F32 {
        Ok(())
    } else {
        Err(RodioError::Samples(
            "the capture sink supports only the S16 and F32 sample formats".to_owned(),
        ))
    }
}

} // verus!
