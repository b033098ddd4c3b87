//! The acquisition engine: device selection, the exclusive-grab lifecycle,
//! draining, and the reconnect state machine.
//!
//! The engine does no I/O itself. Each entry point returns a [`Request`]: the
//! host performs it on the device and hands the outcome back through the
//! matching method, until a request of the final kinds (`Forward`, `Lost`,
//! `Done`) ends the step.
use vstd::prelude::*;
use crate::catalog::{
    build_catalog, catalog_names, identity_of, is_catalog_of, lookup, names_of, names_unique,
    CatalogEntry, DeviceInfo,
};
use crate::event::{translate_events, translated, RawEvent, TouchEvent};

verus! {

/// Where acquisition of the selected device stands.
#[derive(Clone, Copy, Debug, PartialEq, Eq, Structural)]
pub enum Acquisition {
    /// No device has been selected yet.
    Idle,
    /// The selected device is open and held exclusively.
    Grabbed,
    /// A device was selected but is not held. `elapsed` counts the time since
    /// the last state change; while `burst` holds, every tick in the first
    /// half of the retry interval attempts the selection again.
    Retrying { elapsed: u64, burst: bool },
}

/// The outcome that the engine waits for. The `Select` steps belong to a
/// selection, the `List` steps to a catalog refresh, `WatchDirectory` to the
/// periodic directory check while retrying, the `Manual` steps to an explicit
/// grab or release.
#[derive(Clone, Copy, Debug, PartialEq, Eq, Structural)]
pub enum Pending {
    Nothing,
    SelectRelease,
    SelectDirectory,
    SelectDevices,
    SelectOpen,
    SelectGrab,
    ListDirectory,
    ListDevices,
    WatchDirectory,
    ManualRelease,
    ManualGrab,
    Drain,
}

#[derive(Clone, Copy, Debug, PartialEq, Eq, Structural)]
pub enum DeviceError {
    /// The device could not be opened or configured.
    OpenError,
    /// Exclusive access was denied.
    GrabError,
    /// The catalog lists no device under the selected name.
    DeviceNotFound,
    /// No catalog has been built yet.
    NoDevicesRegistered,
    /// The device directory could not be read.
    DirectoryReadError,
}

/// The axis maxima that a device reports when it is opened.
#[derive(Clone, Copy, Debug, PartialEq, Eq, Structural)]
pub struct AxisMaxima {
    pub x: i32,
    pub y: i32,
}

#[derive(Clone, Copy, Debug, PartialEq, Eq, Structural)]
pub enum Axis {
    X,
    Y,
}

/// What a non-blocking read of the open device gave.
pub enum DrainOutcome {
    /// The queued events, in kernel delivery order.
    Events(Vec<RawEvent>),
    /// Nothing queued; the device is still there.
    WouldBlock,
    /// The device is gone or failed.
    Fatal,
}

/// What the host must do next.
#[derive(Debug)]
pub enum Request {
    /// Read the device directory's fingerprint; answer with `directory_read`.
    ReadDirectory,
    /// Enumerate the input devices; answer with `devices_enumerated`.
    Enumerate,
    /// Close the current handle, releasing its grab, and open the device at
    /// this position of a fresh newest-first enumeration; answer with `opened`.
    Open(usize),
    /// Request exclusive access to the open device; answer with `grab_result`.
    Grab,
    /// Release exclusive access, ignoring any failure; answer with `released`.
    Release,
    /// Read the queued events without blocking; answer with `drained`.
    Drain,
    /// Hand these events to the host's handlers, in this order. Ends the step.
    Forward(Vec<TouchEvent>),
    /// The device was lost: release and close its handle, ignoring any
    /// failure. Ends the step.
    Lost,
    /// Ends the step with this outcome.
    Done(Result<(), DeviceError>),
}

/// The engine's state as a mathematical value.
pub ghost struct EngineView {
    pub retry_interval: nat,
    pub state: Acquisition,
    pub selected: Option<Seq<char>>,
    pub fingerprint: Option<Seq<char>>,
    pub catalog: Option<Seq<CatalogEntry>>,
    /// The directory fingerprint that the catalog was built under.
    pub catalog_source: Option<Seq<char>>,
    pub handle_open: bool,
    pub max_x: i32,
    pub max_y: i32,
    pub pending: Pending,
}

/// Engine for one touch device: it selects the device by name, keeps it
/// grabbed, drains it, and reconnects when it is lost.
pub struct GrabTouchDevice {
    retry_interval: u64,
    state: Acquisition,
    device_name: Option<String>,
    input_dir: Option<String>,
    device_list: Option<Vec<CatalogEntry>>,
    catalog_dir: Option<String>,
    handle_open: bool,
    device_max_abs_x: i32,
    device_max_abs_y: i32,
    pending: Pending,
}

impl View for GrabTouchDevice {
    type V = EngineView;

    closed spec fn view(&self) -> EngineView {
        EngineView {
            retry_interval: self.retry_interval as nat,
            state: self.state,
            selected: match self.device_name {
                Some(n) => Some(n@),
                None => None,
            },
            fingerprint: match self.input_dir {
                Some(d) => Some(d@),
                None => None,
            },
            catalog: match self.device_list {
                Some(c) => Some(c@),
                None => None,
            },
            catalog_source: match self.catalog_dir {
                Some(d) => Some(d@),
                None => None,
            },
            handle_open: self.handle_open,
            max_x: self.device_max_abs_x,
            max_y: self.device_max_abs_y,
            pending: self.pending,
        }
    }
}

/// The steps of a selection, before the device is opened or grabbed.
pub open spec fn selecting(p: Pending) -> bool {
    p == Pending::SelectRelease || p == Pending::SelectDirectory || p == Pending::SelectDevices
        || p == Pending::SelectOpen || p == Pending::SelectGrab
}

/// The retry timer: time accumulated while not grabbed.
pub open spec fn retry_timer(s: Acquisition) -> nat {
    match s {
        Acquisition::Retrying { elapsed, .. } => elapsed as nat,
        _ => 0,
    }
}

/// The engine's invariant.
pub open spec fn engine_inv(v: EngineView) -> bool {
    &&& v.retry_interval <= u64::MAX
    &&& v.state is Grabbed ==> v.handle_open
    &&& v.handle_open ==> v.selected is Some
    &&& (v.state is Idle <==> v.selected is None)
    &&& (v.catalog matches Some(c) ==> names_unique(c))
    &&& (v.catalog is Some <==> v.catalog_source is Some)
    &&& (v.pending == Pending::SelectDevices || v.pending == Pending::ListDevices)
        ==> v.fingerprint is Some
    &&& selecting(v.pending) ==> v.state is Retrying
    &&& (v.pending == Pending::SelectGrab || v.pending == Pending::ManualGrab) ==> v.handle_open
    &&& v.pending == Pending::Drain ==> v.state is Grabbed
    &&& v.pending == Pending::WatchDirectory ==> v.state == (Acquisition::Retrying {
        elapsed: 0,
        burst: false,
    })
}

/// The catalog must be rebuilt before a name is looked up in it: the
/// directory now reads `fp`, and either that differs from the fingerprint
/// read before or the catalog was built under another one.
pub open spec fn outdated(v: EngineView, fp: Seq<char>) -> bool {
    v.fingerprint != Some(fp) || (v.catalog_source matches Some(src) && src != fp)
}

/// The view with nothing pending.
pub open spec fn settled(v: EngineView) -> EngineView {
    EngineView { pending: Pending::Nothing, ..v }
}

/// How a selection of `name` starts: the name is remembered, a held grab is
/// released first, and the engine is retrying until the selection succeeds.
pub open spec fn starts_selection(old: EngineView, new: EngineView, name: Seq<char>, r: Request) -> bool {
    let named = EngineView { selected: Some(name), ..old };
    match old.state {
        Acquisition::Retrying { .. } => {
            &&& new == (EngineView { pending: Pending::SelectDirectory, ..named })
            &&& r is ReadDirectory
        },
        Acquisition::Idle => {
            &&& new == (EngineView {
                state: Acquisition::Retrying { elapsed: 0, burst: false },
                pending: Pending::SelectDirectory,
                ..named
            })
            &&& r is ReadDirectory
        },
        Acquisition::Grabbed => {
            &&& new == (EngineView {
                state: Acquisition::Retrying { elapsed: 0, burst: false },
                pending: Pending::SelectRelease,
                ..named
            })
            &&& r is Release
        },
    }
}

/// How a selection goes on once the catalog is current: it fails when there
/// is no catalog or the catalog lacks the name, and otherwise opens the
/// identity that the catalog gives the name. The acquisition state is kept.
pub open spec fn resolves(old: EngineView, new: EngineView, r: Request) -> bool {
    match old.catalog {
        None => new == settled(old) && r == Request::Done(Err(DeviceError::NoDevicesRegistered)),
        Some(cat) => {
            let name = old.selected->0;
            if names_of(cat).contains(name) {
                &&& new == (EngineView { pending: Pending::SelectOpen, ..old })
                &&& r matches Request::Open(id)
                &&& identity_of(cat, name, id)
            } else {
                new == settled(old) && r == Request::Done(Err(DeviceError::DeviceNotFound))
            }
        },
    }
}

/// What a release does to the observable state: a grabbed device stops
/// being held, and the engine starts retrying.
pub open spec fn after_release(v: EngineView) -> EngineView {
    if v.handle_open && v.state is Grabbed {
        EngineView { state: Acquisition::Retrying { elapsed: 0, burst: false }, ..v }
    } else {
        v
    }
}

/// The time accumulated by a tick, saturating at the largest count.
pub open spec fn accumulated(elapsed: u64, delta: u64) -> u64 {
    elapsed.saturating_add(delta)
}

/// Selecting a name that the current catalog does not list fails with
/// `DeviceNotFound` and leaves the acquisition state as it was.
pub proof fn lemma_unknown_name_fails(old: EngineView, new: EngineView, r: Request)
    requires
        resolves(old, new, r),
        old.catalog matches Some(cat) && !names_of(cat).contains(old.selected->0),
    ensures
        r == Request::Done(Err(DeviceError::DeviceNotFound)),
        new.state == old.state,
{
}

/// Releasing twice leaves the same observable state as releasing once.
pub proof fn lemma_release_idempotent(v: EngineView)
    ensures
        after_release(after_release(v)) == after_release(v),
        settled(after_release(settled(after_release(v)))) == settled(after_release(v)),
{
}

impl GrabTouchDevice {
    pub open spec fn wf(&self) -> bool {
        engine_inv(self@)
    }

    /// A new engine with the given retry interval, in the host's time units.
    pub fn new(retry_interval: u64) -> (r: Self)
        ensures
            r.wf(),
            r@ == (EngineView {
                retry_interval: retry_interval as nat,
                state: Acquisition::Idle,
                selected: None,
                fingerprint: None,
                catalog: None,
                catalog_source: None,
                handle_open: false,
                max_x: 0,
                max_y: 0,
                pending: Pending::Nothing,
            }),
    {
        GrabTouchDevice {
            retry_interval,
            state: Acquisition::Idle,
            device_name: None,
            input_dir: None,
            device_list: None,
            catalog_dir: None,
            handle_open: false,
            device_max_abs_x: 0,
            device_max_abs_y: 0,
            pending: Pending::Nothing,
        }
    }

    pub fn acquisition(&self) -> (r: Acquisition)
        ensures
            r == self@.state,
    {
        self.state
    }

    pub fn pending(&self) -> (r: Pending)
        ensures
            r == self@.pending,
    {
        self.pending
    }

    /// The maximum of the X axis that the last opened device reported; 0
    /// before any device was opened.
    pub fn get_device_max_abs_x(&self) -> (r: i32)
        ensures
            r == self@.max_x,
    {
        self.device_max_abs_x
    }

    /// The maximum of the Y axis that the last opened device reported; 0
    /// before any device was opened.
    pub fn get_device_max_abs_y(&self) -> (r: i32)
        ensures
            r == self@.max_y,
    {
        self.device_max_abs_y
    }

    pub fn axis_maximum(&self, axis: Axis) -> (r: i32)
        ensures
            r == (match axis {
                Axis::X => self@.max_x,
                Axis::Y => self@.max_y,
            }),
    {
        match axis {
            Axis::X => self.device_max_abs_x,
            Axis::Y => self.device_max_abs_y,
        }
    }

    /// Stores a fresh fingerprint of the device directory and tells whether it
    /// differs from the one stored before. The first fingerprint always counts
    /// as a change.
    pub fn compare_input_dir(&mut self, listing: String) -> (changed: bool)
        requires
            old(self).wf(),
            old(self)@.pending == Pending::Nothing,
        ensures
            final(self).wf(),
            changed == (old(self)@.fingerprint != Some(listing@)),
            final(self)@ == (EngineView { fingerprint: Some(listing@), ..old(self)@ }),
    {
        self.store_fingerprint(listing)
    }

    fn store_fingerprint(&mut self, listing: String) -> (changed: bool)
        requires
            old(self).wf(),
        ensures
            final(self).wf(),
            changed == (old(self)@.fingerprint != Some(listing@)),
            final(self)@ == (EngineView { fingerprint: Some(listing@), ..old(self)@ }),
    {
        let changed = match &self.input_dir {
            Some(d) => *d != listing,
            None => true,
        };
        if changed {
            self.input_dir = Some(listing);
        }
        changed
    }

    /// Goes on with a selection once the catalog is current.
    fn resolve(&mut self) -> (r: Request)
        requires
            old(self).wf(),
            old(self)@.pending == Pending::SelectDirectory || old(self)@.pending
                == Pending::SelectDevices,
        ensures
            final(self).wf(),
            resolves(old(self)@, final(self)@, r),
    {
        match &self.device_list {
            None => {
                self.pending = Pending::Nothing;
                Request::Done(Err(DeviceError::NoDevicesRegistered))
            },
            Some(cat) => {
                let found = match &self.device_name {
                    Some(name) => lookup(cat, name),
                    None => None,
                };
                match found {
                    Some(id) => {
                        self.pending = Pending::SelectOpen;
                        Request::Open(id)
                    },
                    None => {
                        self.pending = Pending::Nothing;
                        Request::Done(Err(DeviceError::DeviceNotFound))
                    },
                }
            },
        }
    }

    /// Selects the device listed under `name` and starts acquiring it: a held
    /// grab is released first, the catalog is rebuilt if the device directory
    /// changed since it was last read or since the catalog was built, and the
    /// device is opened and grabbed. Until a selection succeeds, the engine
    /// retries.
    pub fn set_device(&mut self, name: String) -> (r: Request)
        requires
            old(self).wf(),
            old(self)@.pending == Pending::Nothing,
        ensures
            final(self).wf(),
            starts_selection(old(self)@, final(self)@, name@, r),
    {
        self.device_name = Some(name);
        match self.state {
            Acquisition::Grabbed => {
                self.state = Acquisition::Retrying { elapsed: 0, burst: false };
                self.pending = Pending::SelectRelease;
                Request::Release
            },
            Acquisition::Idle => {
                self.state = Acquisition::Retrying { elapsed: 0, burst: false };
                self.pending = Pending::SelectDirectory;
                Request::ReadDirectory
            },
            Acquisition::Retrying { .. } => {
                self.pending = Pending::SelectDirectory;
                Request::ReadDirectory
            },
        }
    }

    /// Selects the remembered device again; does nothing before any selection.
    pub fn reconnect_device(&mut self) -> (r: Request)
        requires
            old(self).wf(),
            old(self)@.pending == Pending::Nothing,
        ensures
            final(self).wf(),
            match old(self)@.selected {
                Some(n) => starts_selection(old(self)@, final(self)@, n, r),
                None => final(self)@ == old(self)@ && r == Request::Done(Ok(())),
            },
    {
        match &self.device_name {
            Some(name) => {
                let name = name.clone();
                self.set_device(name)
            },
            None => Request::Done(Ok(())),
        }
    }

    /// Refreshes the catalog if the device directory changed since it was read
    /// or since the catalog was built; the names are
    /// then read with `device_names`.
    pub fn get_devices(&mut self) -> (r: Request)
        requires
            old(self).wf(),
            old(self)@.pending == Pending::Nothing,
        ensures
            final(self).wf(),
            final(self)@ == (EngineView { pending: Pending::ListDirectory, ..old(self)@ }),
            r is ReadDirectory,
    {
        self.pending = Pending::ListDirectory;
        Request::ReadDirectory
    }

    /// The names of the qualifying devices, newest first, each once.
    pub fn device_names(&self) -> (r: Vec<String>)
        ensures
            match self@.catalog {
                Some(cat) => r@.len() == cat.len() && forall|k: int|
                    0 <= k < r@.len() ==> #[trigger] r@[k]@ == names_of(cat)[k],
                None => r@.len() == 0,
            },
    {
        match &self.device_list {
            Some(cat) => catalog_names(cat),
            None => Vec::new(),
        }
    }

    /// Answer to `Request::ReadDirectory`: the directory's fingerprint, or
    /// `None` when it could not be read.
    pub fn directory_read(&mut self, listing: Option<String>) -> (r: Request)
        requires
            old(self).wf(),
            old(self)@.pending == Pending::SelectDirectory || old(self)@.pending
                == Pending::ListDirectory || old(self)@.pending == Pending::WatchDirectory,
        ensures
            final(self).wf(),
            match listing {
                None => final(self)@ == settled(old(self)@) && r == Request::Done(
                    Err(DeviceError::DirectoryReadError),
                ),
                Some(fp) => {
                    let changed = old(self)@.fingerprint != Some(fp@);
                    let stale = outdated(old(self)@, fp@);
                    let seen = EngineView { fingerprint: Some(fp@), ..old(self)@ };
                    if old(self)@.pending == Pending::SelectDirectory {
                        if stale {
                            final(self)@ == (EngineView { pending: Pending::SelectDevices, ..seen })
                                && r is Enumerate
                        } else {
                            resolves(old(self)@, final(self)@, r)
                        }
                    } else if old(self)@.pending == Pending::ListDirectory {
                        if stale {
                            final(self)@ == (EngineView { pending: Pending::ListDevices, ..seen })
                                && r is Enumerate
                        } else {
                            final(self)@ == settled(old(self)@) && r == Request::Done(Ok(()))
                        }
                    } else {
                        if changed {
                            final(self)@ == (EngineView {
                                state: Acquisition::Retrying { elapsed: 0, burst: true },
                                pending: Pending::SelectDevices,
                                ..seen
                            }) && r is Enumerate
                        } else {
                            final(self)@ == settled(old(self)@) && r == Request::Done(Ok(()))
                        }
                    }
                },
            },
    {
        match listing {
            None => {
                self.pending = Pending::Nothing;
                Request::Done(Err(DeviceError::DirectoryReadError))
            },
            Some(fp) => {
                let built_elsewhere = match &self.catalog_dir {
                    Some(src) => *src != fp,
                    None => false,
                };
                let changed = self.store_fingerprint(fp);
                let stale = changed || built_elsewhere;
                match self.pending {
                    Pending::SelectDirectory => {
                        if stale {
                            self.pending = Pending::SelectDevices;
                            Request::Enumerate
                        } else {
                            self.resolve()
                        }
                    },
                    Pending::ListDirectory => {
                        if stale {
                            self.pending = Pending::ListDevices;
                            Request::Enumerate
                        } else {
                            self.pending = Pending::Nothing;
                            Request::Done(Ok(()))
                        }
                    },
                    _ => {
                        if changed {
                            self.state = Acquisition::Retrying { elapsed: 0, burst: true };
                            self.pending = Pending::SelectDevices;
                            Request::Enumerate
                        } else {
                            self.pending = Pending::Nothing;
                            Request::Done(Ok(()))
                        }
                    },
                }
            },
        }
    }

    /// Answer to `Request::Enumerate`: the input devices in the order in which
    /// the system enumerates them. The catalog is rebuilt from them wholesale.
    pub fn devices_enumerated(&mut self, devices: &Vec<DeviceInfo>) -> (r: Request)
        requires
            old(self).wf(),
            old(self)@.pending == Pending::SelectDevices || old(self)@.pending
                == Pending::ListDevices,
        ensures
            final(self).wf(),
            ({
                let rebuilt = EngineView {
                    catalog: final(self)@.catalog,
                    catalog_source: old(self)@.fingerprint,
                    ..old(self)@
                };
                &&& final(self)@.catalog matches Some(cat) && is_catalog_of(devices@, cat)
                &&& if old(self)@.pending == Pending::SelectDevices {
                    resolves(rebuilt, final(self)@, r)
                } else {
                    final(self)@ == settled(rebuilt) && r == Request::Done(Ok(()))
                }
            }),
    {
        let cat = build_catalog(devices);
        self.device_list = Some(cat);
        self.catalog_dir = match &self.input_dir {
            Some(d) => Some(d.clone()),
            None => None,
        };
        if self.pending == Pending::SelectDevices {
            self.resolve()
        } else {
            self.pending = Pending::Nothing;
            Request::Done(Ok(()))
        }
    }

    /// Answer to `Request::Open`: the axis maxima of the opened device, or
    /// `None` when it could not be opened or configured.
    pub fn opened(&mut self, maxima: Option<AxisMaxima>) -> (r: Request)
        requires
            old(self).wf(),
            old(self)@.pending == Pending::SelectOpen,
        ensures
            final(self).wf(),
            match maxima {
                Some(m) => final(self)@ == (EngineView {
                    handle_open: true,
                    max_x: m.x,
                    max_y: m.y,
                    pending: Pending::SelectGrab,
                    ..old(self)@
                }) && r is Grab,
                None => final(self)@ == (EngineView {
                    handle_open: false,
                    pending: Pending::Nothing,
                    ..old(self)@
                }) && r == Request::Done(Err(DeviceError::OpenError)),
            },
    {
        match maxima {
            Some(m) => {
                self.handle_open = true;
                self.device_max_abs_x = m.x;
                self.device_max_abs_y = m.y;
                self.pending = Pending::SelectGrab;
                Request::Grab
            },
            None => {
                self.handle_open = false;
                self.pending = Pending::Nothing;
                Request::Done(Err(DeviceError::OpenError))
            },
        }
    }

    /// Requests exclusive access to the open device; succeeds at once when no
    /// device is open.
    pub fn grab_device(&mut self) -> (r: Request)
        requires
            old(self).wf(),
            old(self)@.pending == Pending::Nothing,
        ensures
            final(self).wf(),
            old(self)@.handle_open ==> final(self)@ == (EngineView {
                pending: Pending::ManualGrab,
                ..old(self)@
            }) && r is Grab,
            !old(self)@.handle_open ==> final(self)@ == old(self)@ && r == Request::Done(Ok(())),
    {
        if self.handle_open {
            self.pending = Pending::ManualGrab;
            Request::Grab
        } else {
            Request::Done(Ok(()))
        }
    }

    /// Answer to `Request::Grab`: whether exclusive access was granted.
    pub fn grab_result(&mut self, granted: bool) -> (r: Request)
        requires
            old(self).wf(),
            old(self)@.pending == Pending::SelectGrab || old(self)@.pending == Pending::ManualGrab,
        ensures
            final(self).wf(),
            granted ==> final(self)@ == (EngineView {
                state: Acquisition::Grabbed,
                pending: Pending::Nothing,
                ..old(self)@
            }) && r == Request::Done(Ok(())),
            granted ==> retry_timer(final(self)@.state) == 0,
            !granted ==> final(self)@ == settled(old(self)@) && r == Request::Done(
                Err(DeviceError::GrabError),
            ),
    {
        self.pending = Pending::Nothing;
        if granted {
            self.state = Acquisition::Grabbed;
            Request::Done(Ok(()))
        } else {
            Request::Done(Err(DeviceError::GrabError))
        }
    }

    /// Releases exclusive access to the open device. Never fails; releasing
    /// twice leaves the same state as releasing once.
    pub fn ungrab_device(&mut self) -> (r: Request)
        requires
            old(self).wf(),
            old(self)@.pending == Pending::Nothing,
        ensures
            final(self).wf(),
            old(self)@.handle_open ==> final(self)@ == (EngineView {
                pending: Pending::ManualRelease,
                ..after_release(old(self)@)
            }) && r is Release,
            !old(self)@.handle_open ==> final(self)@ == after_release(old(self)@) && r
                == Request::Done(Ok(())),
    {
        if self.handle_open {
            if self.state == Acquisition::Grabbed {
                self.state = Acquisition::Retrying { elapsed: 0, burst: false };
            }
            self.pending = Pending::ManualRelease;
            Request::Release
        } else {
            Request::Done(Ok(()))
        }
    }

    /// Answer to `Request::Release`.
    pub fn released(&mut self) -> (r: Request)
        requires
            old(self).wf(),
            old(self)@.pending == Pending::SelectRelease || old(self)@.pending
                == Pending::ManualRelease,
        ensures
            final(self).wf(),
            old(self)@.pending == Pending::SelectRelease ==> final(self)@ == (EngineView {
                pending: Pending::SelectDirectory,
                ..old(self)@
            }) && r is ReadDirectory,
            old(self)@.pending == Pending::ManualRelease ==> final(self)@ == settled(old(self)@)
                && r == Request::Done(Ok(())),
    {
        if self.pending == Pending::SelectRelease {
            self.pending = Pending::SelectDirectory;
            Request::ReadDirectory
        } else {
            self.pending = Pending::Nothing;
            Request::Done(Ok(()))
        }
    }

    /// Advances the engine by `delta` time units. While grabbed, asks for a
    /// drain. While retrying, a burst attempts the selection on every tick in
    /// the first half of the retry interval; otherwise the device directory is
    /// checked once per full interval, and a change starts a burst with an
    /// immediate selection.
    pub fn physics_process(&mut self, delta: u64) -> (r: Request)
        requires
            old(self).wf(),
            old(self)@.pending == Pending::Nothing,
        ensures
            final(self).wf(),
            match old(self)@.state {
                Acquisition::Idle => final(self)@ == old(self)@ && r == Request::Done(Ok(())),
                Acquisition::Grabbed => final(self)@ == (EngineView {
                    pending: Pending::Drain,
                    ..old(self)@
                }) && r is Drain,
                Acquisition::Retrying { elapsed, burst } => {
                    let e = accumulated(elapsed, delta);
                    if burst && 2 * e <= old(self)@.retry_interval {
                        &&& final(self)@ == (EngineView {
                            state: Acquisition::Retrying { elapsed: e, burst: true },
                            pending: Pending::SelectDirectory,
                            ..old(self)@
                        })
                        &&& r is ReadDirectory
                    } else if e >= old(self)@.retry_interval {
                        &&& final(self)@ == (EngineView {
                            state: Acquisition::Retrying { elapsed: 0, burst: false },
                            pending: Pending::WatchDirectory,
                            ..old(self)@
                        })
                        &&& r is ReadDirectory
                    } else {
                        &&& final(self)@ == (EngineView {
                            state: Acquisition::Retrying { elapsed: e, burst: false },
                            ..old(self)@
                        })
                        &&& r == Request::Done(Ok(()))
                    }
                },
            },
    {
        match self.state {
            Acquisition::Idle => Request::Done(Ok(())),
            Acquisition::Grabbed => {
                self.pending = Pending::Drain;
                Request::Drain
            },
            Acquisition::Retrying { elapsed, burst } => {
                let e = elapsed.saturating_add(delta);
                if burst && e <= self.retry_interval / 2 {
                    self.state = Acquisition::Retrying { elapsed: e, burst: true };
                    self.pending = Pending::SelectDirectory;
                    Request::ReadDirectory
                } else if e >= self.retry_interval {
                    self.state = Acquisition::Retrying { elapsed: 0, burst: false };
                    self.pending = Pending::WatchDirectory;
                    Request::ReadDirectory
                } else {
                    self.state = Acquisition::Retrying { elapsed: e, burst: false };
                    Request::Done(Ok(()))
                }
            },
        }
    }

    /// Answer to `Request::Drain`. Queued events are translated and forwarded
    /// in delivery order; a fatal failure drops the device and starts a
    /// retry burst.
    pub fn drained(&mut self, outcome: DrainOutcome) -> (r: Request)
        requires
            old(self).wf(),
            old(self)@.pending == Pending::Drain,
        ensures
            final(self).wf(),
            match outcome {
                DrainOutcome::Events(events) => {
                    &&& final(self)@ == settled(old(self)@)
                    &&& r matches Request::Forward(out)
                    &&& out@ == translated(events@)
                },
                DrainOutcome::WouldBlock => final(self)@ == settled(old(self)@) && r == Request::Done(Ok(())),
                DrainOutcome::Fatal => final(self)@ == (EngineView {
                    state: Acquisition::Retrying { elapsed: 0, burst: true },
                    handle_open: false,
                    pending: Pending::Nothing,
                    ..old(self)@
                }) && r is Lost,
            },
    {
        self.pending = Pending::Nothing;
        match outcome {
            DrainOutcome::Events(events) => Request::Forward(translate_events(&events)),
            DrainOutcome::WouldBlock => Request::Done(Ok(())),
            DrainOutcome::Fatal => {
                self.state = Acquisition::Retrying { elapsed: 0, burst: true };
                self.handle_open = false;
                Request::Lost
            },
        }
    }

} // impl GrabTouchDevice

} // verus!
