use touch_grab::catalog::{build_catalog, DeviceInfo, UNNAMED_DEVICE};
use touch_grab::engine::{
    Acquisition, Axis, AxisMaxima, DeviceError, DrainOutcome, GrabTouchDevice, Pending, Request,
};
use touch_grab::event::{
    translate_event, translate_events, RawEvent, TouchEvent, ABS_X, ABS_Y, BTN_LEFT, BTN_TOUCH,
    EV_ABS, EV_KEY,
};

fn touch_device(name: &str) -> DeviceInfo {
    DeviceInfo { name: Some(name.to_string()), abs_axes: vec![ABS_X, ABS_Y] }
}

fn keyboard(name: &str) -> DeviceInfo {
    DeviceInfo { name: Some(name.to_string()), abs_axes: vec![] }
}

/// Answers the engine's requests from a fixed world until the step ends.
struct World {
    listing: Option<String>,
    devices: Vec<(String, bool)>,
    maxima: Option<AxisMaxima>,
    grant: bool,
    drain: Vec<RawEvent>,
    drain_fatal: bool,
    opened_at: Vec<usize>,
    enumerations: usize,
}

impl World {
    fn new(listing: &str) -> World {
        World {
            listing: Some(listing.to_string()),
            devices: vec![("Touch Panel".to_string(), true)],
            maxima: Some(AxisMaxima { x: 4095, y: 2047 }),
            grant: true,
            drain: vec![],
            drain_fatal: false,
            opened_at: vec![],
            enumerations: 0,
        }
    }

    fn infos(&self) -> Vec<DeviceInfo> {
        self.devices
            .iter()
            .map(|(n, q)| if *q { touch_device(n) } else { keyboard(n) })
            .collect()
    }

    fn run(&mut self, e: &mut GrabTouchDevice, first: Request) -> Request {
        let mut req = first;
        loop {
            req = match req {
                Request::ReadDirectory => e.directory_read(self.listing.clone()),
                Request::Enumerate => {
                    self.enumerations += 1;
                    let infos = self.infos();
                    e.devices_enumerated(&infos)
                }
                Request::Open(id) => {
                    self.opened_at.push(id);
                    e.opened(self.maxima)
                }
                Request::Grab => e.grab_result(self.grant),
                Request::Release => e.released(),
                Request::Drain => {
                    if self.drain_fatal {
                        e.drained(DrainOutcome::Fatal)
                    } else if self.drain.is_empty() {
                        e.drained(DrainOutcome::WouldBlock)
                    } else {
                        e.drained(DrainOutcome::Events(self.drain.clone()))
                    }
                }
                other => return other,
            };
        }
    }
}

fn select(e: &mut GrabTouchDevice, w: &mut World, name: &str) -> Request {
    let r = e.set_device(name.to_string());
    w.run(e, r)
}

fn tick(e: &mut GrabTouchDevice, w: &mut World, delta: u64) -> Request {
    let r = e.physics_process(delta);
    w.run(e, r)
}

#[test]
fn unchanged_fingerprint_reports_no_change() {
    let mut e = GrabTouchDevice::new(500);
    assert!(e.compare_input_dir("/dev/input/event0/dev/input/event1".to_string()));
    assert!(!e.compare_input_dir("/dev/input/event0/dev/input/event1".to_string()));
    assert!(e.compare_input_dir("/dev/input/event0".to_string()));
}

#[test]
fn unchanged_directory_does_not_rebuild_catalog() {
    let mut e = GrabTouchDevice::new(500);
    let mut w = World::new("/dev/input/event0");
    let r = e.get_devices();
    assert!(matches!(w.run(&mut e, r), Request::Done(Ok(()))));
    assert_eq!(w.enumerations, 1);
    let r = e.get_devices();
    assert!(matches!(w.run(&mut e, r), Request::Done(Ok(()))));
    assert_eq!(w.enumerations, 1);
    assert_eq!(e.device_names(), vec!["Touch Panel".to_string()]);
}

#[test]
fn lost_device_is_reselected_after_replug() {
    let mut e = GrabTouchDevice::new(500);
    let mut w = World::new("/dev/input/event0");
    assert!(matches!(select(&mut e, &mut w, "Touch Panel"), Request::Done(Ok(()))));
    assert_eq!(e.acquisition(), Acquisition::Grabbed);

    // The node disappears: the next drain fails fatally.
    w.drain_fatal = true;
    w.listing = Some(String::new());
    w.devices = vec![];
    assert!(matches!(tick(&mut e, &mut w, 16), Request::Lost));
    assert_eq!(e.acquisition(), Acquisition::Retrying { elapsed: 0, burst: true });

    // The burst attempts fail while the device is absent, then the burst ends.
    assert!(matches!(
        tick(&mut e, &mut w, 100),
        Request::Done(Err(DeviceError::DeviceNotFound))
    ));
    assert!(matches!(tick(&mut e, &mut w, 200), Request::Done(Ok(()))));
    assert_eq!(e.acquisition(), Acquisition::Retrying { elapsed: 300, burst: false });
    assert!(matches!(tick(&mut e, &mut w, 100), Request::Done(Ok(()))));

    // The device comes back; at the next full interval the change is seen,
    // a burst starts and the device is selected at once.
    w.listing = Some("/dev/input/event0".to_string());
    w.devices = vec![("Touch Panel".to_string(), true)];
    w.drain_fatal = false;
    let opened_before = w.opened_at.len();
    assert!(matches!(tick(&mut e, &mut w, 100), Request::Done(Ok(()))));
    assert_eq!(w.opened_at.len(), opened_before + 1);
    assert_eq!(e.acquisition(), Acquisition::Grabbed);
}

#[test]
fn axis_maxima_kept_until_another_open() {
    let mut e = GrabTouchDevice::new(500);
    assert_eq!(e.get_device_max_abs_x(), 0);
    assert_eq!(e.axis_maximum(Axis::Y), 0);
    let mut w = World::new("/dev/input/event0");
    assert!(matches!(select(&mut e, &mut w, "Touch Panel"), Request::Done(Ok(()))));
    assert_eq!(e.axis_maximum(Axis::X), 4095);
    assert_eq!(e.axis_maximum(Axis::Y), 2047);
    assert!(matches!(tick(&mut e, &mut w, 16), Request::Done(Ok(()))));
    let r = e.ungrab_device();
    assert!(matches!(w.run(&mut e, r), Request::Done(Ok(()))));
    assert_eq!(e.get_device_max_abs_x(), 4095);
    assert_eq!(e.get_device_max_abs_y(), 2047);
    w.maxima = Some(AxisMaxima { x: 1023, y: 767 });
    assert!(matches!(select(&mut e, &mut w, "Touch Panel"), Request::Done(Ok(()))));
    assert_eq!(e.get_device_max_abs_x(), 1023);
    assert_eq!(e.get_device_max_abs_y(), 767);
}

#[test]
fn catalog_lists_qualifying_devices_newest_first() {
    let devices = vec![
        touch_device("Old Pad"),
        keyboard("Keyboard"),
        DeviceInfo { name: Some("X only".to_string()), abs_axes: vec![ABS_X] },
        touch_device("New Pad"),
    ];
    let cat = build_catalog(&devices);
    let names: Vec<&str> = cat.iter().map(|c| c.name.as_str()).collect();
    assert_eq!(names, vec!["New Pad", "Old Pad"]);
    assert_eq!(cat[0].identity, 0);
    assert_eq!(cat[1].identity, 3);
}

#[test]
fn catalog_collapses_duplicate_names() {
    let devices = vec![touch_device("Pad"), touch_device("Other"), touch_device("Pad")];
    let cat = build_catalog(&devices);
    let names: Vec<&str> = cat.iter().map(|c| c.name.as_str()).collect();
    assert_eq!(names, vec!["Pad", "Other"]);
    assert_eq!(cat[0].identity, 0);
    assert_eq!(cat[1].identity, 1);
}

#[test]
fn duplicate_name_selects_newest_device() {
    let mut e = GrabTouchDevice::new(500);
    let mut w = World::new("/dev/input/event0");
    w.devices = vec![
        ("Pad".to_string(), true),
        ("Keyboard".to_string(), false),
        ("Pad".to_string(), true),
    ];
    assert!(matches!(select(&mut e, &mut w, "Pad"), Request::Done(Ok(()))));
    assert_eq!(w.opened_at, vec![0]);
    let r = e.get_devices();
    assert!(matches!(w.run(&mut e, r), Request::Done(Ok(()))));
    assert_eq!(e.device_names(), vec!["Pad".to_string()]);
}

#[test]
fn catalog_labels_unnamed_devices() {
    let devices = vec![DeviceInfo { name: None, abs_axes: vec![ABS_Y, ABS_X] }];
    let cat = build_catalog(&devices);
    assert_eq!(cat.len(), 1);
    assert_eq!(cat[0].name, UNNAMED_DEVICE);
    assert_eq!(cat[0].name, "Unnamed device");
}

#[test]
fn catalog_of_no_qualifying_device_is_empty() {
    assert!(build_catalog(&vec![]).is_empty());
    assert!(build_catalog(&vec![keyboard("Keyboard")]).is_empty());
}

#[test]
fn unknown_name_fails_and_keeps_state() {
    let mut e = GrabTouchDevice::new(500);
    let mut w = World::new("/dev/input/event0");
    assert!(matches!(
        select(&mut e, &mut w, "Missing"),
        Request::Done(Err(DeviceError::DeviceNotFound))
    ));
    let before = e.acquisition();
    assert_eq!(before, Acquisition::Retrying { elapsed: 0, burst: false });
    assert!(matches!(tick(&mut e, &mut w, 10), Request::Done(Ok(()))));
    let before = e.acquisition();
    assert!(matches!(
        select(&mut e, &mut w, "Missing"),
        Request::Done(Err(DeviceError::DeviceNotFound))
    ));
    assert_eq!(e.acquisition(), before);
    assert!(w.opened_at.is_empty());
}

#[test]
fn no_catalog_gives_no_devices_registered() {
    let mut e = GrabTouchDevice::new(500);
    let mut w = World::new("/dev/input/event0");
    assert!(e.compare_input_dir("/dev/input/event0".to_string()));
    assert!(matches!(
        select(&mut e, &mut w, "Touch Panel"),
        Request::Done(Err(DeviceError::NoDevicesRegistered))
    ));
}

#[test]
fn selection_after_reported_change_rebuilds_catalog() {
    let mut e = GrabTouchDevice::new(500);
    let mut w = World::new("/dev/input/event0");
    let r = e.get_devices();
    assert!(matches!(w.run(&mut e, r), Request::Done(Ok(()))));
    assert_eq!(w.enumerations, 1);
    // A newer device appears; the change is seen outside a selection.
    w.devices.push(("Keyboard".to_string(), false));
    w.listing = Some("/dev/input/event0/dev/input/event1".to_string());
    assert!(e.compare_input_dir("/dev/input/event0/dev/input/event1".to_string()));
    assert!(matches!(select(&mut e, &mut w, "Touch Panel"), Request::Done(Ok(()))));
    assert_eq!(w.enumerations, 2);
    assert_eq!(w.opened_at, vec![1]);
}

#[test]
fn unreadable_directory_is_reported() {
    let mut e = GrabTouchDevice::new(500);
    let mut w = World::new("");
    w.listing = None;
    assert!(matches!(
        select(&mut e, &mut w, "Touch Panel"),
        Request::Done(Err(DeviceError::DirectoryReadError))
    ));
    assert_eq!(e.pending(), Pending::Nothing);
}

#[test]
fn open_failure_is_reported() {
    let mut e = GrabTouchDevice::new(500);
    let mut w = World::new("/dev/input/event0");
    w.maxima = None;
    assert!(matches!(
        select(&mut e, &mut w, "Touch Panel"),
        Request::Done(Err(DeviceError::OpenError))
    ));
    assert_eq!(e.acquisition(), Acquisition::Retrying { elapsed: 0, burst: false });
}

#[test]
fn grab_failure_is_reported() {
    let mut e = GrabTouchDevice::new(500);
    let mut w = World::new("/dev/input/event0");
    w.grant = false;
    assert!(matches!(
        select(&mut e, &mut w, "Touch Panel"),
        Request::Done(Err(DeviceError::GrabError))
    ));
    assert_eq!(e.acquisition(), Acquisition::Retrying { elapsed: 0, burst: false });
    // A manual grab of the open device can still succeed.
    w.grant = true;
    let r = e.grab_device();
    assert!(matches!(r, Request::Grab));
    assert!(matches!(w.run(&mut e, r), Request::Done(Ok(()))));
    assert_eq!(e.acquisition(), Acquisition::Grabbed);
}

#[test]
fn successful_selection_grabs_with_timer_reset() {
    let mut e = GrabTouchDevice::new(500);
    let mut w = World::new("/dev/input/event0");
    w.devices = vec![
        ("Pad".to_string(), true),
        ("Keyboard".to_string(), false),
        ("Touch Panel".to_string(), true),
    ];
    assert!(matches!(select(&mut e, &mut w, "Pad"), Request::Done(Ok(()))));
    assert_eq!(e.acquisition(), Acquisition::Grabbed);
    assert_eq!(w.opened_at, vec![2]);
}

#[test]
fn selecting_while_grabbed_releases_first() {
    let mut e = GrabTouchDevice::new(500);
    let mut w = World::new("/dev/input/event0");
    assert!(matches!(select(&mut e, &mut w, "Touch Panel"), Request::Done(Ok(()))));
    let r = e.set_device("Touch Panel".to_string());
    assert!(matches!(r, Request::Release));
    assert!(matches!(w.run(&mut e, r), Request::Done(Ok(()))));
    assert_eq!(e.acquisition(), Acquisition::Grabbed);
}

#[test]
fn release_is_idempotent() {
    let mut e = GrabTouchDevice::new(500);
    let mut w = World::new("/dev/input/event0");
    let r = e.ungrab_device();
    assert!(matches!(r, Request::Done(Ok(()))));
    assert_eq!(e.acquisition(), Acquisition::Idle);
    assert!(matches!(select(&mut e, &mut w, "Touch Panel"), Request::Done(Ok(()))));
    let r = e.ungrab_device();
    assert!(matches!(w.run(&mut e, r), Request::Done(Ok(()))));
    let once = e.acquisition();
    assert_eq!(once, Acquisition::Retrying { elapsed: 0, burst: false });
    let r = e.ungrab_device();
    assert!(matches!(w.run(&mut e, r), Request::Done(Ok(()))));
    assert_eq!(e.acquisition(), once);
    assert_eq!(e.pending(), Pending::Nothing);
}

#[test]
fn burst_retries_every_tick_in_first_half() {
    let mut e = GrabTouchDevice::new(500);
    let mut w = World::new("/dev/input/event0");
    w.grant = false;
    assert!(matches!(select(&mut e, &mut w, "Touch Panel"), Request::Done(Err(DeviceError::GrabError))));
    // A loss-free path into a burst: the directory changes at the interval.
    assert!(matches!(tick(&mut e, &mut w, 500), Request::Done(Ok(()))));
    w.listing = Some("/dev/input/event0/dev/input/event1".to_string());
    let opened = w.opened_at.len();
    assert!(matches!(
        tick(&mut e, &mut w, 500),
        Request::Done(Err(DeviceError::GrabError))
    ));
    assert_eq!(w.opened_at.len(), opened + 1);
    assert_eq!(e.acquisition(), Acquisition::Retrying { elapsed: 0, burst: true });
    for k in 1..=5u64 {
        assert!(matches!(tick(&mut e, &mut w, 50), Request::Done(Err(DeviceError::GrabError))));
        assert_eq!(w.opened_at.len(), opened + 1 + k as usize);
    }
    // Past half the interval the burst ends without an attempt.
    assert!(matches!(tick(&mut e, &mut w, 1), Request::Done(Ok(()))));
    assert_eq!(e.acquisition(), Acquisition::Retrying { elapsed: 251, burst: false });
    assert_eq!(w.opened_at.len(), opened + 6);
}

#[test]
fn quiet_retry_checks_once_per_interval() {
    let mut e = GrabTouchDevice::new(500);
    let mut w = World::new("/dev/input/event0");
    assert!(matches!(select(&mut e, &mut w, "Missing"), Request::Done(Err(DeviceError::DeviceNotFound))));
    let mut attempts = 0;
    for _ in 0..20 {
        let r = e.physics_process(100);
        if matches!(r, Request::ReadDirectory) {
            attempts += 1;
        }
        w.run(&mut e, r);
    }
    assert_eq!(attempts, 4);
    assert_eq!(w.enumerations, 1);
    assert!(w.opened_at.is_empty());
}

#[test]
fn idle_engine_ignores_ticks() {
    let mut e = GrabTouchDevice::new(500);
    assert!(matches!(e.physics_process(1000), Request::Done(Ok(()))));
    assert_eq!(e.acquisition(), Acquisition::Idle);
    assert!(matches!(e.reconnect_device(), Request::Done(Ok(()))));
    assert!(matches!(e.grab_device(), Request::Done(Ok(()))));
}

#[test]
fn tick_time_saturates() {
    let mut e = GrabTouchDevice::new(u64::MAX);
    let mut w = World::new("/dev/input/event0");
    assert!(matches!(select(&mut e, &mut w, "Missing"), Request::Done(Err(DeviceError::DeviceNotFound))));
    assert!(matches!(tick(&mut e, &mut w, u64::MAX - 1), Request::Done(Ok(()))));
    assert!(matches!(tick(&mut e, &mut w, 5), Request::Done(Ok(()))));
    assert_eq!(e.acquisition(), Acquisition::Retrying { elapsed: 0, burst: false });
}

#[test]
fn reconnect_reselects_remembered_name() {
    let mut e = GrabTouchDevice::new(500);
    let mut w = World::new("/dev/input/event0");
    assert!(matches!(select(&mut e, &mut w, "Touch Panel"), Request::Done(Ok(()))));
    let r = e.reconnect_device();
    assert!(matches!(w.run(&mut e, r), Request::Done(Ok(()))));
    assert_eq!(w.opened_at, vec![0, 0]);
}

#[test]
fn drained_events_forwarded_in_order() {
    let mut e = GrabTouchDevice::new(500);
    let mut w = World::new("/dev/input/event0");
    assert!(matches!(select(&mut e, &mut w, "Touch Panel"), Request::Done(Ok(()))));
    w.drain = vec![
        RawEvent { kind: EV_KEY, code: BTN_TOUCH, value: 1 },
        RawEvent { kind: EV_ABS, code: ABS_X, value: 100 },
        RawEvent { kind: 0, code: 0, value: 0 },
        RawEvent { kind: EV_ABS, code: ABS_Y, value: 200 },
        RawEvent { kind: EV_KEY, code: BTN_LEFT, value: 0 },
    ];
    match tick(&mut e, &mut w, 16) {
        Request::Forward(out) => assert_eq!(
            out,
            vec![
                TouchEvent::TouchKey(1),
                TouchEvent::XCoordinate(100),
                TouchEvent::YCoordinate(200),
                TouchEvent::TouchKey(0),
            ]
        ),
        other => panic!("unexpected {:?}", other),
    }
    assert_eq!(e.acquisition(), Acquisition::Grabbed);
    w.drain = vec![];
    assert!(matches!(tick(&mut e, &mut w, 16), Request::Done(Ok(()))));
}

#[test]
fn classification_depends_on_kind_and_code() {
    assert_eq!(
        translate_event(RawEvent { kind: EV_ABS, code: ABS_X, value: -3 }),
        Some(TouchEvent::XCoordinate(-3))
    );
    assert_eq!(translate_event(RawEvent { kind: EV_KEY, code: ABS_X, value: 1 }), None);
    assert_eq!(translate_event(RawEvent { kind: EV_ABS, code: BTN_TOUCH, value: 1 }), None);
    let a = vec![RawEvent { kind: EV_ABS, code: ABS_Y, value: 7 }];
    let b = vec![RawEvent { kind: EV_KEY, code: BTN_TOUCH, value: 1 }];
    let mut ab = a.clone();
    ab.extend(b.iter().copied());
    let mut joined = translate_events(&a);
    joined.extend(translate_events(&b));
    assert_eq!(translate_events(&ab), joined);
    assert!(translate_events(&vec![]).is_empty());
}
