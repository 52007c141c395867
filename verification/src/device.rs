use crate::error::{ErrorView, MicCaptureError};
use vstd::prelude::*;
use vstd::string::*;

verus! {

/// An audio input device as it is offered to the user.
#[derive(Debug, Clone, PartialEq, Eq)]
pub struct AudioDeviceInfo {
    /// Stable identifier, the same after a restart of the machine.
    pub id: String,
    /// Name to show to the user.
    pub name: String,
}

/// A device descriptor as contracts speak of it.
pub struct DeviceView {
    pub id: Seq<char>,
    pub name: Seq<char>,
}

impl View for AudioDeviceInfo {
    type V = DeviceView;

    open spec fn view(&self) -> DeviceView {
        DeviceView { id: self.id@, name: self.name@ }
    }
}

impl DeepView for AudioDeviceInfo {
    type V = DeviceView;

    open spec fn deep_view(&self) -> DeviceView {
        self@
    }
}

/// What the backend told of one input device. Either answer may be missing:
/// a device can vanish between being listed and being asked.
#[derive(Debug, Clone, PartialEq, Eq)]
pub struct DeviceProbe {
    pub id: Option<String>,
    pub name: Option<String>,
}

/// A probe as contracts speak of it.
pub struct ProbeView {
    pub id: Option<Seq<char>>,
    pub name: Option<Seq<char>>,
}

impl View for DeviceProbe {
    type V = ProbeView;

    open spec fn view(&self) -> ProbeView {
        ProbeView { id: self.id.deep_view(), name: self.name.deep_view() }
    }
}

impl DeepView for DeviceProbe {
    type V = ProbeView;

    open spec fn deep_view(&self) -> ProbeView {
        self@
    }
}

/// The descriptor that a probe gives, where the backend told both the
/// identifier and the name.
pub open spec fn described(probe: ProbeView) -> Option<DeviceView> {
    match (probe.id, probe.name) {
        (Some(id), Some(name)) => Some(DeviceView { id, name }),
        _ => None,
    }
}

/// The devices to offer after an enumeration: those whose identifier and
/// name are both known, in the backend's order; none where the enumeration
/// itself failed.
pub open spec fn listed(enumeration: Option<Seq<ProbeView>>) -> Seq<DeviceView> {
    match enumeration {
        Some(probes) => probes.filter_map(|probe: ProbeView| described(probe)),
        None => Seq::empty(),
    }
}

/// Whether a device whose identifier the backend told as `id`, if it told
/// any, is the one that `wanted` names.
pub open spec fn answers_to(id: Option<Seq<char>>, wanted: Seq<char>) -> bool {
    id == Some(wanted)
}

/// Whether `index` is the first device among those with the identifiers
/// `ids` that `wanted` names.
pub open spec fn is_first_match(ids: Seq<Option<Seq<char>>>, wanted: Seq<char>, index: int) -> bool {
    &&& 0 <= index < ids.len()
    &&& answers_to(ids[index], wanted)
    &&& forall|earlier: int| 0 <= earlier < index ==> !answers_to(#[trigger] ids[earlier], wanted)
}

/// Whether `wanted` names none of the devices with the identifiers `ids`.
pub open spec fn no_match(ids: Seq<Option<Seq<char>>>, wanted: Seq<char>) -> bool {
    forall|index: int| 0 <= index < ids.len() ==> !answers_to(#[trigger] ids[index], wanted)
}

/// The list reflects the enumeration and nothing else: a device is offered
/// exactly if the backend told of some device both this identifier and this
/// name.
pub proof fn law_listing_reflects_enumeration(probes: Seq<ProbeView>, device: DeviceView)
    ensures
        listed(Some(probes)).contains(device) <==> exists|index: int|
            0 <= index < probes.len() && described(#[trigger] probes[index]) == Some(device),
    decreases probes.len(),
{
    let describe = |probe: ProbeView| described(probe);
    if probes.len() > 0 {
        // The list of all probes is the list of all but the last, followed by
        // the last one's descriptor where it has one.
        let rest = probes.drop_last();
        let list = probes.filter_map(describe);
        let shorter = rest.filter_map(describe);
        law_listing_reflects_enumeration(rest, device);
        if shorter.contains(device) {
            let at = choose|at: int| 0 <= at < shorter.len() && shorter[at] == device;
            assert(list[at] == device);
        }
        if described(probes.last()) == Some(device) {
            assert(list.last() == device);
        }
        if exists|index: int|
            0 <= index < probes.len() && described(#[trigger] probes[index]) == Some(device) {
            let index = choose|index: int|
                0 <= index < probes.len() && described(#[trigger] probes[index]) == Some(device);
            if index < rest.len() {
                assert(described(rest[index]) == Some(device));
            }
        }
    }
}

/// Turns the backend's answer to an enumeration into the list of devices to
/// offer. `None` stands for an enumeration that failed as a whole.
pub fn list_devices(enumeration: Option<Vec<DeviceProbe>>) -> (devices: Vec<AudioDeviceInfo>)
    ensures
        devices.deep_view() == listed(enumeration.deep_view()),
{
    let mut devices: Vec<AudioDeviceInfo> = Vec::new();
    match enumeration {
        None => {},
        Some(probes) => {
            let ghost describe = |probe: ProbeView| described(probe);
            let ghost all = probes.deep_view();
            let mut next: usize = 0;
            while next < probes.len()
                invariant
                    next <= probes.len(),
                    all == probes.deep_view(),
                    describe == (|probe: ProbeView| described(probe)),
                    devices.deep_view() == all.take(next as int).filter_map(describe),
                decreases probes.len() - next,
            {
                let probe = &probes[next];
                proof {
                    all.lemma_filter_map_take_succ(describe, next as int);
                }
                match (&probe.id, &probe.name) {
                    (Some(id), Some(name)) => {
                        let device = AudioDeviceInfo { id: id.clone(), name: name.clone() };
                        devices.push(device);
                    },
                    _ => {},
                }
                next += 1;
            }
            assert(all.take(next as int) =~= all);
        },
    }
    devices
}

/// Picks the device to open for the identifier `wanted`. `ids` holds, in the
/// backend's order, the identifier of each input device, or `None` where
/// the backend would not tell it. The choice is the position of the first
/// device that carries the identifier; it fails with `DeviceNotFound`,
/// naming the identifier, exactly when no device carries it.
pub fn select_device(ids: &Vec<Option<String>>, wanted: &str) -> (choice: Result<
    usize,
    MicCaptureError,
>)
    ensures
        match choice {
            Ok(index) => is_first_match(ids.deep_view(), wanted@, index as int),
            Err(error) => no_match(ids.deep_view(), wanted@) && error@
                == ErrorView::DeviceNotFound(wanted@),
        },
{
    let wanted_id = wanted.to_owned();
    let mut next: usize = 0;
    while next < ids.len()
        invariant
            next <= ids.len(),
            wanted_id@ == wanted@,
            forall|earlier: int|
                0 <= earlier < next ==> !answers_to(#[trigger] ids.deep_view()[earlier], wanted@),
        decreases ids.len() - next,
    {
        match &ids[next] {
            Some(id) => {
                if *id == wanted_id {
                    return Ok(next);
                }
            },
            None => {},
        }
        next += 1;
    }
    Err(MicCaptureError::DeviceNotFound(wanted_id))
}

} // verus!
