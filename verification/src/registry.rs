use crate::resolver::{is_best_match, no_match, resolve_format};
use crate::result_code::CaptureError;
use crate::video_device::VideoDevice;
use crate::video_format::VideoFormat;
use vstd::prelude::*;

verus! {

/// What the registry holds once devices have been listed: the devices of the
/// last listing, and the identity of each device that has a capture session.
#[derive(Clone, Debug)]
pub struct State {
    pub devices: Vec<VideoDevice>,
    pub camera_sessions: Vec<u64>,
}

/// The one registry of a process. It holds nothing until the first listing
/// and a state ever after.
#[derive(Clone, Debug)]
pub struct Registry {
    pub state: Option<State>,
}

/// What to open for a capture that may start: the device and the format
/// chosen for it.
#[derive(Clone, Copy, Debug, PartialEq, Eq, Structural)]
pub struct StartRequest {
    pub device: u64,
    pub format_index: usize,
    pub format: VideoFormat,
}

impl State {
    /// The state that the registry holds, if devices have been listed.
    pub fn current(reg: &Registry) -> (r: Option<&State>)
        ensures
            match r {
                Some(s) => reg.state == Some(*s),
                None => reg.state is None,
            },
    {
        match &reg.state {
            Some(s) => Some(s),
            None => None,
        }
    }

    /// Makes this state the one that the registry holds, in place of any
    /// other.
    pub fn make_current(self, reg: &mut Registry)
        ensures
            final(reg).state == Some(self),
    {
        reg.state = Some(self);
    }
}

impl Registry {
    /// Devices have been listed at least once.
    pub open spec fn is_ready(&self) -> bool {
        self.state is Some
    }

    /// The devices of the last listing; none before the first.
    pub open spec fn devices(&self) -> Seq<VideoDevice> {
        match self.state {
            Some(s) => s.devices@,
            None => Seq::empty(),
        }
    }

    /// The identities of the devices that have a session; none before the
    /// first listing.
    pub open spec fn sessions(&self) -> Seq<u64> {
        match self.state {
            Some(s) => s.camera_sessions@,
            None => Seq::empty(),
        }
    }

    /// The device of that identity has a session.
    pub open spec fn has_session(&self, device: u64) -> bool {
        self.sessions().contains(device)
    }

    /// No device has more than one session.
    pub open spec fn wf(&self) -> bool {
        self.sessions().no_duplicates()
    }

    /// Why the device at `device_index` cannot be reached, if it cannot.
    pub open spec fn device_error(&self, device_index: u32) -> Option<CaptureError> {
        if !self.is_ready() {
            Some(CaptureError::StateNotInitialized)
        } else if device_index >= self.devices().len() {
            Some(CaptureError::DeviceNotFound)
        } else {
            None
        }
    }

    /// Why the session of the device at `device_index` cannot be reached, if
    /// it cannot.
    pub open spec fn session_error(&self, device_index: u32) -> Option<CaptureError> {
        if self.device_error(device_index) is Some {
            self.device_error(device_index)
        } else if !self.has_session(self.devices()[device_index as int].index) {
            Some(CaptureError::SessionNotStarted)
        } else {
            None
        }
    }

    /// Why a capture cannot start on the device at `device_index` at that
    /// resolution, if it cannot.
    pub open spec fn start_error(&self, device_index: u32, width: u32, height: u32) -> Option<
        CaptureError,
    > {
        if self.device_error(device_index) is Some {
            self.device_error(device_index)
        } else if self.has_session(self.devices()[device_index as int].index) {
            Some(CaptureError::SessionAlreadyStarted)
        } else if no_match(self.devices()[device_index as int].formats@, width, height) {
            Some(CaptureError::FormatNotFound)
        } else {
            None
        }
    }

    /// A registry before the first listing.
    pub fn new() -> (r: Registry)
        ensures
            !r.is_ready(),
            r.wf(),
    {
        Registry { state: None }
    }

    /// Whether devices have been listed at least once.
    pub fn ready(&self) -> (b: bool)
        ensures
            b == self.is_ready(),
    {
        self.state.is_some()
    }

    /// Takes a new listing in place of the last one. The sessions stay as
    /// they are.
    pub fn refresh(&mut self, devices: Vec<VideoDevice>)
        ensures
            final(self).is_ready(),
            final(self).devices() == devices@,
            final(self).sessions() == old(self).sessions(),
    {
        let camera_sessions = match self.state.take() {
            Some(s) => s.camera_sessions,
            None => Vec::new(),
        };
        State { devices, camera_sessions }.make_current(self);
    }

    /// The device at `device_index` of the last listing.
    pub fn device(&self, device_index: u32) -> (r: Result<&VideoDevice, CaptureError>)
        ensures
            match r {
                Ok(d) => self.device_error(device_index) is None && *d == self.devices()[device_index as int],
                Err(e) => self.device_error(device_index) == Some(e),
            },
    {
        match &self.state {
            None => Err(CaptureError::StateNotInitialized),
            Some(s) => {
                let i: usize = device_index as usize;
                if i < s.devices.len() {
                    Ok(&s.devices[i])
                } else {
                    Err(CaptureError::DeviceNotFound)
                }
            },
        }
    }

    /// Whether the device of that identity has a session.
    pub fn session_exists(&self, device: u64) -> (b: bool)
        ensures
            b == self.has_session(device),
    {
        match &self.state {
            None => false,
            Some(s) => find_session(&s.camera_sessions, device).is_some(),
        }
    }

    /// The identity under which the session of the device at `device_index`
    /// is kept.
    pub fn session_of(&self, device_index: u32) -> (r: Result<u64, CaptureError>)
        ensures
            match r {
                Ok(id) => self.session_error(device_index) is None && id == self.devices()[device_index as int].index,
                Err(e) => self.session_error(device_index) == Some(e),
            },
    {
        let id: u64 = match self.device(device_index) {
            Ok(d) => d.index,
            Err(e) => { return Err(e); },
        };
        if self.session_exists(id) {
            Ok(id)
        } else {
            Err(CaptureError::SessionNotStarted)
        }
    }

    /// Decides whether a capture may start on the device at `device_index`
    /// at that resolution, and with which format. The registry stays as it
    /// is; the session is entered by `session_opened` once the device streams.
    pub fn plan_start(&self, device_index: u32, width: u32, height: u32) -> (r: Result<
        StartRequest,
        CaptureError,
    >)
        ensures
            match r {
                Ok(req) => {
                    &&& self.start_error(device_index, width, height) is None
                    &&& req.device == self.devices()[device_index as int].index
                    &&& is_best_match(
                        self.devices()[device_index as int].formats@,
                        width,
                        height,
                        req.format_index as int,
                    )
                    &&& req.format == self.devices()[device_index as int].formats@[req.format_index as int]
                },
                Err(e) => self.start_error(device_index, width, height) == Some(e),
            },
    {
        let d = match self.device(device_index) {
            Ok(d) => d,
            Err(e) => { return Err(e); },
        };
        if self.session_exists(d.index) {
            return Err(CaptureError::SessionAlreadyStarted);
        }
        match resolve_format(&d.formats, width, height) {
            None => Err(CaptureError::FormatNotFound),
            Some(k) => Ok(StartRequest { device: d.index, format_index: k, format: d.formats[k] }),
        }
    }

    /// Enters the session of a device that has begun to stream. Where the
    /// device has a session already, or nothing was listed yet, the registry
    /// stays as it is and the answer is `false`.
    pub fn session_opened(&mut self, device: u64) -> (entered: bool)
        requires
            old(self).wf(),
        ensures
            final(self).wf(),
            entered == (old(self).is_ready() && !old(self).has_session(device)),
            entered ==> final(self).sessions() == old(self).sessions().push(device),
            !entered ==> final(self).sessions() == old(self).sessions(),
            forall|other: u64|
                final(self).has_session(other) <==> (old(self).has_session(other) || (entered
                    && other == device)),
            final(self).devices() == old(self).devices(),
            final(self).is_ready() == old(self).is_ready(),
    {
        if !self.ready() || self.session_exists(device) {
            return false;
        }
        let ghost before = self.sessions();
        let mut s = self.state.take().unwrap();
        s.camera_sessions.push(device);
        self.state = Some(s);
        proof {
            let after = self.sessions();
            assert(after == before.push(device));
            assert(after[before.len() as int] == device);
            assert forall|other: u64| after.contains(other) <==> (before.contains(other) || other
                == device) by {
                if before.contains(other) {
                    let i = choose|i: int| 0 <= i < before.len() && before[i] == other;
                    assert(after[i] == other);
                }
                if after.contains(other) {
                    let i = choose|i: int| 0 <= i < after.len() && after[i] == other;
                    if i < before.len() {
                        assert(before[i] == other);
                    }
                }
            }
            assert forall|i: int, j: int|
                0 <= i < after.len() && 0 <= j < after.len() && i != j implies after[i]
                != after[j] by {
                if i < before.len() {
                    assert(before.contains(before[i]));
                }
                if j < before.len() {
                    assert(before.contains(before[j]));
                }
            }
        }
        true
    }

    /// Takes the session of the device at `device_index` out of the
    /// registry and gives the identity under which it was kept. Where there
    /// is none to take, the registry stays as it is.
    pub fn take_session(&mut self, device_index: u32) -> (r: Result<u64, CaptureError>)
        requires
            old(self).wf(),
        ensures
            final(self).wf(),
            final(self).devices() == old(self).devices(),
            final(self).is_ready() == old(self).is_ready(),
            match r {
                Ok(id) => {
                    &&& old(self).session_error(device_index) is None
                    &&& id == old(self).devices()[device_index as int].index
                    &&& !final(self).has_session(id)
                    &&& forall|other: u64|
                        other != id ==> (final(self).has_session(other) <==> old(self).has_session(
                            other,
                        ))
                },
                Err(e) => old(self).session_error(device_index) == Some(e) && *final(self) == *old(
                    self,
                ),
            },
    {
        let id: u64 = match self.device(device_index) {
            Ok(d) => d.index,
            Err(e) => { return Err(e); },
        };
        let ghost before = self.sessions();
        let mut s = self.state.take().unwrap();
        match find_session(&s.camera_sessions, id) {
            None => {
                self.state = Some(s);
                Err(CaptureError::SessionNotStarted)
            },
            Some(k) => {
                s.camera_sessions.remove(k);
                self.state = Some(s);
                proof {
                    let after = self.sessions();
                    assert(after == before.remove(k as int));
                    assert forall|i: int, j: int|
                        0 <= i < after.len() && 0 <= j < after.len() && i != j implies after[i]
                        != after[j] by {
                        let pi = if i < k { i } else { i + 1 };
                        let pj = if j < k { j } else { j + 1 };
                        assert(after[i] == before[pi]);
                        assert(after[j] == before[pj]);
                    }
                    assert(!after.contains(id)) by {
                        if after.contains(id) {
                            let i = choose|i: int| 0 <= i < after.len() && after[i] == id;
                            let pi = if i < k { i } else { i + 1 };
                            assert(before[pi] == id);
                        }
                    }
                    assert forall|other: u64| other != id implies (after.contains(other)
                        <==> before.contains(other)) by {
                        if after.contains(other) {
                            let i = choose|i: int| 0 <= i < after.len() && after[i] == other;
                            let pi = if i < k { i } else { i + 1 };
                            assert(before[pi] == other);
                        }
                        if before.contains(other) {
                            let i = choose|i: int| 0 <= i < before.len() && before[i] == other;
                            let pi = if i < k { i } else { i - 1 };
                            assert(after[pi] == other);
                        }
                    }
                }
                Ok(id)
            },
        }
    }
}

/// The place of `device` among the sessions, if it is there.
pub fn find_session(sessions: &Vec<u64>, device: u64) -> (r: Option<usize>)
    ensures
        match r {
            Some(k) => k < sessions@.len() && sessions@[k as int] == device,
            None => !sessions@.contains(device),
        },
{
    let mut k: usize = 0;
    while k < sessions.len()
        invariant
            k <= sessions.len(),
            forall|j: int| 0 <= j < k ==> sessions@[j] != device,
        decreases sessions.len() - k,
    {
        if sessions[k] == device {
            return Some(k);
        }
        k += 1;
    }
    None
}

/// A capture on a device index that the listing does not have is refused as
/// an unknown device, whatever else the registry holds and whatever
/// resolution is asked for.
pub proof fn start_on_unknown_device(reg: Registry, device_index: u32, width: u32, height: u32)
    requires
        reg.is_ready(),
        device_index >= reg.devices().len(),
    ensures
        reg.start_error(device_index, width, height) == Some(CaptureError::DeviceNotFound),
{
}

/// Once the session of a device has been entered, a second start on that
/// device is refused as already started, at every resolution, until the
/// session is taken out.
pub proof fn second_start_is_refused(
    before: Registry,
    after: Registry,
    device_index: u32,
    width: u32,
    height: u32,
)
    requires
        before.device_error(device_index) is None,
        after.is_ready(),
        after.devices() == before.devices(),
        after.sessions() == before.sessions().push(before.devices()[device_index as int].index),
    ensures
        after.start_error(device_index, width, height) == Some(CaptureError::SessionAlreadyStarted),
{
    let id = before.devices()[device_index as int].index;
    assert(after.sessions()[before.sessions().len() as int] == id);
}

/// A session outlives a new listing: where the device that holds it is listed
/// again at `device_index`, its session is reached there as before.
pub proof fn sessions_survive_refresh(
    before: Registry,
    after: Registry,
    device: u64,
    device_index: u32,
)
    requires
        before.has_session(device),
        after.is_ready(),
        after.sessions() == before.sessions(),
        device_index < after.devices().len(),
        after.devices()[device_index as int].index == device,
    ensures
        after.session_error(device_index) is None,
{
}

} // verus!
