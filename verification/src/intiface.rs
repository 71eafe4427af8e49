//! The toys Intiface Central reports, and which of them a vibration request drives.

use vstd::prelude::*;

use std::time::{Duration, Instant};

use crate::config::MAX_VIBRATION_STRENGTH_PERCENT;
use crate::gui::elapsed_between;
use crate::text::{contains_string, string_views};

verus! {

/// A toy reported by Intiface: its device index and its display name.
#[derive(Debug, Clone, PartialEq, Eq)]
pub struct DiscoveredToy {
    pub index: u32,
    pub name: String,
}

impl View for DiscoveredToy {
    type V = (u32, Seq<char>);

    open spec fn view(&self) -> (u32, Seq<char>) {
        (self.index, self.name@)
    }
}

/// The toys of a client's device list (index and name of each connected device,
/// in the client's order); no client means no toys.
pub fn list_devices(connected_devices: Option<Vec<(u32, String)>>) -> (r: Vec<DiscoveredToy>)
    ensures
        match connected_devices {
            None => r@.len() == 0,
            Some(devices) => {
                &&& r@.len() == devices@.len()
                &&& forall|i: int|
                    0 <= i < r@.len() ==> #[trigger] r@[i]@ == (devices@[i].0, devices@[i].1@)
            },
        },
{
    let mut toys: Vec<DiscoveredToy> = Vec::new();
    let devices = match connected_devices {
        Some(devices) => devices,
        None => return toys,
    };
    let mut i: usize = 0;
    while i < devices.len()
        invariant
            i <= devices@.len(),
            toys@.len() == i,
            forall|j: int|
                0 <= j < i ==> #[trigger] toys@[j]@ == (devices@[j].0, devices@[j].1@),
        decreases devices@.len() - i,
    {
        let index = devices[i].0;
        let name = devices[i].1.clone();
        toys.push(DiscoveredToy { index, name });
        i += 1;
    }
    toys
}

/// The devices chosen for a vibration and how to drive them.
#[derive(Debug, Clone, PartialEq, Eq)]
pub struct VibrationPlan {
    /// Strength in percent of the maximum, at most [`MAX_VIBRATION_STRENGTH_PERCENT`].
    pub strength_percent: u32,
    pub duration_ms: u64,
    /// Positions, in the connected device list, of the devices to vibrate, ascending.
    pub devices: Vec<usize>,
}

/// Decides a vibration of the toys named `toy_names` at `strength_percent` for
/// `duration_ms`, given the names of the connected devices: nothing when no toy is
/// named or the duration is zero; otherwise the strength capped at 100 percent and
/// every connected device whose name is among the selected ones.
pub fn plan_vibration(
    toy_names: &Vec<String>,
    strength_percent: u32,
    duration_ms: u64,
    device_names: &Vec<String>,
) -> (r: Option<VibrationPlan>)
    ensures
        r is None <==> (toy_names@.len() == 0 || duration_ms == 0),
        r matches Some(plan) ==> {
            &&& plan.strength_percent == if strength_percent <= MAX_VIBRATION_STRENGTH_PERCENT {
                strength_percent
            } else {
                MAX_VIBRATION_STRENGTH_PERCENT
            }
            &&& plan.duration_ms == duration_ms
            &&& forall|j: int| 0 <= j < plan.devices@.len() ==> #[trigger] plan.devices@[j] < device_names@.len()
            &&& forall|j: int, k: int| 0 <= j < k < plan.devices@.len() ==> plan.devices@[j] < plan.devices@[k]
            &&& forall|d: int|
                0 <= d < device_names@.len() ==> (plan.devices@.contains(d as usize) <==> string_views(toy_names@).contains(#[trigger] device_names@[d]@))
        },
{
    if toy_names.len() == 0 || duration_ms == 0 {
        return None;
    }
    let strength = if strength_percent <= MAX_VIBRATION_STRENGTH_PERCENT {
        strength_percent
    } else {
        MAX_VIBRATION_STRENGTH_PERCENT
    };
    let mut devices: Vec<usize> = Vec::new();
    let mut d: usize = 0;
    while d < device_names.len()
        invariant
            d <= device_names@.len(),
            forall|j: int| 0 <= j < devices@.len() ==> #[trigger] devices@[j] < d,
            forall|j: int, k: int| 0 <= j < k < devices@.len() ==> devices@[j] < devices@[k],
            forall|e: int|
                0 <= e < d ==> (devices@.contains(e as usize) <==> string_views(toy_names@).contains(#[trigger] device_names@[e]@)),
        decreases device_names@.len() - d,
    {
        let ghost before = devices@;
        if contains_string(toy_names, device_names[d].as_str()) {
            devices.push(d);
            assert(devices@.last() == d);
        }
        proof {
            assert forall|e: int| 0 <= e < d + 1 implies (devices@.contains(e as usize)
                <==> string_views(toy_names@).contains(#[trigger] device_names@[e]@)) by {
                if e < d {
                    if before.contains(e as usize) {
                        let j = choose|j: int| 0 <= j < before.len() && before[j] == e as usize;
                        assert(devices@[j] == e as usize);
                    }
                    if devices@.contains(e as usize) {
                        let j = choose|j: int| 0 <= j < devices@.len() && devices@[j] == e as usize;
                        if j == before.len() {
                            assert(devices@[j] == d);
                        } else {
                            assert(before[j] == e as usize);
                        }
                    }
                } else {
                    if devices@.contains(e as usize) {
                        let j = choose|j: int| 0 <= j < devices@.len() && devices@[j] == e as usize;
                        if j < before.len() {
                            assert(before[j] < d);
                        }
                    }
                    if string_views(toy_names@).contains(device_names@[e]@) {
                        assert(devices@[devices@.len() - 1] == d);
                    }
                }
            }
        }
        d += 1;
    }
    Some(VibrationPlan { strength_percent: strength, duration_ms, devices })
}


/// When the Intiface connection last showed a sign of life, if it did since it was
/// (re)established.
#[derive(Debug, Clone, Copy)]
pub struct LastEventClock {
    at: Option<Instant>,
}

impl View for LastEventClock {
    type V = Option<Instant>;

    closed spec fn view(&self) -> Option<Instant> {
        self.at
    }
}

impl LastEventClock {
    /// No event seen yet.
    pub fn new() -> (r: Self)
        ensures
            r@ is None,
    {
        LastEventClock { at: None }
    }

    /// Records an event at `now`.
    pub fn touch_at(&mut self, now: Instant)
        ensures
            final(self)@ == Some(now),
    {
        self.at = Some(now);
    }

    /// Records an event at the current instant.
    pub fn touch(&mut self)
        ensures
            final(self)@ is Some,
    {
        self.touch_at(Instant::now());
    }

    /// Forgets the last event, as when the connection is dropped.
    pub fn clear(&mut self)
        ensures
            final(self)@ is None,
    {
        self.at = None;
    }

    /// The time from the last event to `now`, if an event was seen.
    pub fn elapsed_at(&self, now: Instant) -> (r: Option<Duration>)
        ensures
            r == match self@ {
                Some(at) => Some(elapsed_between(now, at)),
                None => None,
            },
    {
        match self.at {
            Some(at) => Some(now.duration_since(at)),
            None => None,
        }
    }

    /// The time from the last event to the current instant, if an event was seen.
    pub fn elapsed(&self) -> (r: Option<Duration>)
        ensures
            r is Some <==> self@ is Some,
    {
        self.elapsed_at(Instant::now())
    }
}

} // verus!
