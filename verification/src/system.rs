//! The hardware facet: the brightness state, its reducer, and the percent
//! projection the consumer prints.

use vstd::prelude::*;

use crate::watch::{SystemEvent, SystemEventKind};

verus! {

/// The brightness facet: the current raw value and the device maximum,
/// read once at initialization.
#[derive(Clone, Copy, PartialEq, Eq, Structural, Debug)]
pub struct BrightnessState {
    pub brightness: u16,
    pub max_brightness: u16,
}

/// The brightness facet is well-formed when the maximum is positive and
/// the current value does not exceed it.
pub open spec fn brightness_wf(b: BrightnessState) -> bool {
    0 < b.max_brightness && b.brightness <= b.max_brightness
}

impl BrightnessState {
    /// Overwrites the stored brightness; nothing else changes.
    fn update_brightness(&mut self, new_brightness: u16)
        requires
            new_brightness <= old(self).max_brightness,
        ensures
            final(self).brightness == new_brightness,
            final(self).max_brightness == old(self).max_brightness,
    {
        self.brightness = new_brightness;
    }
}

/// The authoritative hardware state: one sub-state per facet.
#[derive(Clone, Copy, PartialEq, Eq, Structural, Debug)]
pub struct SystemState {
    pub brightness: BrightnessState,
}

/// The hardware state invariant.
pub open spec fn system_wf(s: SystemState) -> bool {
    brightness_wf(s.brightness)
}

/// Whether a hardware event is consistent with the state: a brightness
/// value never exceeds the device maximum.
pub open spec fn system_event_valid(s: SystemState, e: SystemEvent) -> bool {
    match e {
        SystemEvent::BrightnessChanged { new_brightness } => new_brightness
            <= s.brightness.max_brightness,
    }
}

/// The transition function of the hardware reducer: exactly the facet the
/// event kind names changes.
pub open spec fn spec_system_apply(
    s: SystemState,
    kind: SystemEventKind,
    e: SystemEvent,
) -> SystemState {
    match (kind, e) {
        (SystemEventKind::Brightness, SystemEvent::BrightnessChanged { new_brightness }) => SystemState {
            brightness: BrightnessState { brightness: new_brightness, ..s.brightness },
        },
    }
}

impl SystemState {
    /// Builds the initial state from the values read once at startup.
    pub fn initialize(brightness: u16, max_brightness: u16) -> (r: Self)
        requires
            0 < max_brightness,
            brightness <= max_brightness,
        ensures
            r.brightness.brightness == brightness,
            r.brightness.max_brightness == max_brightness,
            system_wf(r),
    {
        SystemState { brightness: BrightnessState { brightness, max_brightness } }
    }

    /// Applies one event, dispatching on the source kind: only the named
    /// facet is touched, and the invariant holds afterwards.
    pub fn apply(&mut self, event_kind: SystemEventKind, event: SystemEvent)
        requires
            system_wf(*old(self)),
            system_event_valid(*old(self), event),
        ensures
            *final(self) == spec_system_apply(*old(self), event_kind, event),
            system_wf(*final(self)),
    {
        match (event_kind, event) {
            (SystemEventKind::Brightness, SystemEvent::BrightnessChanged { new_brightness }) => {
                self.brightness.update_brightness(new_brightness)
            },
        }
    }
}

/// The brightness as an integer percentage, truncated.
pub open spec fn spec_brightness_percent(b: BrightnessState) -> int {
    (b.brightness * 100) / (b.max_brightness as int)
}

/// The projected hardware view model: the brightness as a 0 to 100
/// percentage.
#[derive(Clone, Copy, PartialEq, Eq, Structural, Debug)]
pub struct SystemStateInfo {
    pub brightness: u8,
}

impl SystemState {
    /// Computes the hardware view model: the brightness percentage,
    /// truncated to an integer, always between 0 and 100.
    pub fn state_info(&self) -> (r: SystemStateInfo)
        requires
            system_wf(*self),
        ensures
            r.brightness == spec_brightness_percent(self.brightness),
            0 <= r.brightness <= 100,
    {
        let b = self.brightness.brightness as u32;
        let m = self.brightness.max_brightness as u32;
        let pct = (b * 100) / m;
        proof {
            let bi = b as int;
            let mi = m as int;
            assert((bi * 100) / mi <= 100 && (bi * 100) / mi >= 0) by (nonlinear_arith)
                requires
                    0 <= bi <= mi,
                    0 < mi,
            ;
        }
        SystemStateInfo { brightness: pct as u8 }
    }
}

/// The manager owning the hardware state and the list of watched paths,
/// each with the facet it feeds.
#[derive(Debug)]
pub struct SystemStateManager {
    pub state: SystemState,
    pub watch_paths: Vec<(Vec<char>, SystemEventKind)>,
}

impl SystemStateManager {
    /// Builds the manager from the detected brightness device: its
    /// attribute path and the two values read at startup.
    pub fn new(brightness_path: Vec<char>, brightness: u16, max_brightness: u16) -> (r: Self)
        requires
            0 < max_brightness,
            brightness <= max_brightness,
        ensures
            r.state.brightness.brightness == brightness,
            r.state.brightness.max_brightness == max_brightness,
            system_wf(r.state),
            r.watch_paths@.len() == 1,
            r.watch_paths@[0].0@ == brightness_path@,
            r.watch_paths@[0].1 == SystemEventKind::Brightness,
    {
        let state = SystemState::initialize(brightness, max_brightness);
        let mut watch_paths: Vec<(Vec<char>, SystemEventKind)> = Vec::new();
        watch_paths.push((brightness_path, SystemEventKind::Brightness));
        SystemStateManager { state, watch_paths }
    }
}

} // verus!
