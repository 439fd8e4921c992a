//! The monitor resolver: from the pointer's position to the device
//! identifier of the display under it, as a state machine.
//!
//! The chain has four links: the pointer's coordinates, the display nearest
//! to them, that display's device name, and the device record that carries
//! the interface identifier. A `Resolution` says which to look up next
//! (`probe`) and takes what was found (`advance`). A link that cannot be had
//! gives up the whole identifier: the resolution ends without a target.

use crate::outcome::target_model;
use crate::wide::{decode_wide, truncated, utf16_lossy};
use vstd::prelude::*;

verus! {

/// What to look up next.
#[derive(Debug, PartialEq, Eq)]
pub enum Probe {
    /// The pointer's screen coordinates.
    CursorPosition,
    /// The display nearest to this point.
    MonitorAt { x: i32, y: i32 },
    /// The extended information of this display: its device name.
    MonitorInfo { monitor: isize },
    /// The display device behind this name, with its interface identifier.
    DisplayDevice { device_name: Vec<u16> },
    /// Nothing: the resolution is over.
    Finish,
}

/// A `Probe` with its buffer as a sequence of code units.
pub enum ProbeModel {
    CursorPosition,
    MonitorAt { x: i32, y: i32 },
    MonitorInfo { monitor: isize },
    DisplayDevice { device_name: Seq<u16> },
    Finish,
}

impl View for Probe {
    type V = ProbeModel;

    open spec fn view(&self) -> ProbeModel {
        match *self {
            Probe::CursorPosition => ProbeModel::CursorPosition,
            Probe::MonitorAt { x, y } => ProbeModel::MonitorAt { x, y },
            Probe::MonitorInfo { monitor } => ProbeModel::MonitorInfo { monitor },
            Probe::DisplayDevice { device_name } => ProbeModel::DisplayDevice {
                device_name: device_name@,
            },
            Probe::Finish => ProbeModel::Finish,
        }
    }
}

/// What a probe found.
#[derive(Debug, PartialEq, Eq)]
pub enum Finding {
    Cursor { x: i32, y: i32 },
    Monitor { handle: isize },
    /// The display's device name, in its null-terminated buffer.
    DeviceName { buffer: Vec<u16> },
    /// The device's interface identifier, in its null-terminated buffer.
    DeviceId { buffer: Vec<u16> },
    /// The system could not answer.
    Unavailable,
}

/// A `Finding` with its buffer as a sequence of code units.
pub enum FindingModel {
    Cursor { x: i32, y: i32 },
    Monitor { handle: isize },
    DeviceName { buffer: Seq<u16> },
    DeviceId { buffer: Seq<u16> },
    Unavailable,
}

impl View for Finding {
    type V = FindingModel;

    open spec fn view(&self) -> FindingModel {
        match *self {
            Finding::Cursor { x, y } => FindingModel::Cursor { x, y },
            Finding::Monitor { handle } => FindingModel::Monitor { handle },
            Finding::DeviceName { buffer } => FindingModel::DeviceName { buffer: buffer@ },
            Finding::DeviceId { buffer } => FindingModel::DeviceId { buffer: buffer@ },
            Finding::Unavailable => FindingModel::Unavailable,
        }
    }
}

/// How far a resolution has come.
#[derive(Debug, PartialEq, Eq)]
pub enum Resolution {
    AwaitingCursor,
    AwaitingMonitor { x: i32, y: i32 },
    AwaitingInfo { monitor: isize },
    AwaitingDevice { device_name: Vec<u16> },
    /// Over, with the identifier that was found or with none.
    Resolved { id: Option<String> },
}

/// A `Resolution` with its text and buffer as sequences.
pub enum ResolutionModel {
    AwaitingCursor,
    AwaitingMonitor { x: i32, y: i32 },
    AwaitingInfo { monitor: isize },
    AwaitingDevice { device_name: Seq<u16> },
    Resolved { id: Option<Seq<char>> },
}

impl View for Resolution {
    type V = ResolutionModel;

    open spec fn view(&self) -> ResolutionModel {
        match *self {
            Resolution::AwaitingCursor => ResolutionModel::AwaitingCursor,
            Resolution::AwaitingMonitor { x, y } => ResolutionModel::AwaitingMonitor { x, y },
            Resolution::AwaitingInfo { monitor } => ResolutionModel::AwaitingInfo { monitor },
            Resolution::AwaitingDevice { device_name } => ResolutionModel::AwaitingDevice {
                device_name: device_name@,
            },
            Resolution::Resolved { id } => ResolutionModel::Resolved { id: target_model(id) },
        }
    }
}

/// The identifier that a null-terminated buffer holds.
pub open spec fn decoded_id(buffer: Seq<u16>) -> Seq<char> {
    utf16_lossy(truncated(buffer, 0))
}

impl ResolutionModel {
    /// What the resolution looks up in this state.
    pub open spec fn probe(self) -> ProbeModel {
        match self {
            ResolutionModel::AwaitingCursor => ProbeModel::CursorPosition,
            ResolutionModel::AwaitingMonitor { x, y } => ProbeModel::MonitorAt { x, y },
            ResolutionModel::AwaitingInfo { monitor } => ProbeModel::MonitorInfo { monitor },
            ResolutionModel::AwaitingDevice { device_name } => ProbeModel::DisplayDevice {
                device_name,
            },
            ResolutionModel::Resolved { .. } => ProbeModel::Finish,
        }
    }

    /// The state after `finding`. What was looked up leads to the next link,
    /// and the last link to the decoded identifier. `Unavailable` ends the
    /// resolution without a target, at whatever link. A finding that does not
    /// answer the pending probe changes nothing.
    pub open spec fn step(self, finding: FindingModel) -> ResolutionModel {
        match (self, finding) {
            (ResolutionModel::Resolved { .. }, _) => self,
            (_, FindingModel::Unavailable) => ResolutionModel::Resolved { id: None },
            (
                ResolutionModel::AwaitingCursor,
                FindingModel::Cursor { x, y },
            ) => ResolutionModel::AwaitingMonitor { x, y },
            (
                ResolutionModel::AwaitingMonitor { .. },
                FindingModel::Monitor { handle },
            ) => ResolutionModel::AwaitingInfo { monitor: handle },
            (
                ResolutionModel::AwaitingInfo { .. },
                FindingModel::DeviceName { buffer },
            ) => ResolutionModel::AwaitingDevice { device_name: buffer },
            (
                ResolutionModel::AwaitingDevice { .. },
                FindingModel::DeviceId { buffer },
            ) => ResolutionModel::Resolved { id: Some(decoded_id(buffer)) },
            _ => self,
        }
    }

    /// The target that the resolution gives: the identifier that it found,
    /// and none where it found none or is not over.
    pub open spec fn target(self) -> Option<Seq<char>> {
        match self {
            ResolutionModel::Resolved { id } => id,
            _ => None,
        }
    }
}

impl Resolution {
    /// A resolution that has looked up nothing yet.
    pub fn start() -> (resolution: Resolution)
        ensures
            resolution@ == ResolutionModel::AwaitingCursor,
    {
        Resolution::AwaitingCursor
    }

    /// What to look up next.
    pub fn probe(&self) -> (probe: Probe)
        ensures
            probe@ == self@.probe(),
    {
        match self {
            Resolution::AwaitingCursor => Probe::CursorPosition,
            Resolution::AwaitingMonitor { x, y } => Probe::MonitorAt { x: *x, y: *y },
            Resolution::AwaitingInfo { monitor } => Probe::MonitorInfo { monitor: *monitor },
            Resolution::AwaitingDevice { device_name } => Probe::DisplayDevice {
                device_name: device_name.clone(),
            },
            Resolution::Resolved { .. } => Probe::Finish,
        }
    }

    /// Takes what the pending probe found and moves on.
    pub fn advance(self, finding: Finding) -> (after: Resolution)
        ensures
            after@ == self@.step(finding@),
    {
        match (self, finding) {
            (Resolution::Resolved { id }, _) => Resolution::Resolved { id },
            (_, Finding::Unavailable) => Resolution::Resolved { id: None },
            (Resolution::AwaitingCursor, Finding::Cursor { x, y }) => Resolution::AwaitingMonitor {
                x,
                y,
            },
            (
                Resolution::AwaitingMonitor { .. },
                Finding::Monitor { handle },
            ) => Resolution::AwaitingInfo { monitor: handle },
            (
                Resolution::AwaitingInfo { .. },
                Finding::DeviceName { buffer },
            ) => Resolution::AwaitingDevice { device_name: buffer },
            (Resolution::AwaitingDevice { .. }, Finding::DeviceId { buffer }) => {
                Resolution::Resolved { id: Some(decode_wide(buffer.as_slice())) }
            },
            (unchanged, _) => unchanged,
        }
    }

    /// The target that the resolution gives.
    pub fn into_target(self) -> (target: Option<String>)
        ensures
            target_model(target) == self@.target(),
    {
        match self {
            Resolution::Resolved { id } => id,
            _ => None,
        }
    }
}

/// A link that cannot be had ends a resolution that is not over, at whatever
/// link it stands, and leaves no target.
pub proof fn lemma_unavailable_gives_no_target(s: ResolutionModel)
    requires
        !(s is Resolved),
    ensures
        s.step(FindingModel::Unavailable) == (ResolutionModel::Resolved { id: None }),
        s.step(FindingModel::Unavailable).target() is None,
        s.step(FindingModel::Unavailable).probe() == ProbeModel::Finish,
{
}

/// A resolution that is over stays as it is, and one that is not over gives
/// no target.
pub proof fn lemma_resolved_is_final(s: ResolutionModel, finding: FindingModel)
    ensures
        s is Resolved ==> s.step(finding) == s,
        !(s is Resolved) ==> s.target() is None,
{
}

/// Where all four links are found, the probes are the pointer, the display at
/// the pointer, the information of that display, and the device of that
/// name, in this order; the target is the identifier decoded from the
/// device's buffer.
pub proof fn lemma_full_chain(
    x: i32,
    y: i32,
    handle: isize,
    device_name: Seq<u16>,
    device_id: Seq<u16>,
)
    ensures
        ({
            let s0 = ResolutionModel::AwaitingCursor;
            let s1 = s0.step(FindingModel::Cursor { x, y });
            let s2 = s1.step(FindingModel::Monitor { handle });
            let s3 = s2.step(FindingModel::DeviceName { buffer: device_name });
            let s4 = s3.step(FindingModel::DeviceId { buffer: device_id });
            &&& s0.probe() == ProbeModel::CursorPosition
            &&& s1.probe() == ProbeModel::MonitorAt { x, y }
            &&& s2.probe() == ProbeModel::MonitorInfo { monitor: handle }
            &&& s3.probe() == ProbeModel::DisplayDevice { device_name }
            &&& s4.probe() == ProbeModel::Finish
            &&& s4.target() == Some(decoded_id(device_id))
        }),
{
}

} // verus!
