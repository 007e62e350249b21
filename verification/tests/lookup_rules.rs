use kcsdi_gui::connection_editor::{edit, kind_label, normalized, TargetEdit};
use kcsdi_gui::device_lookup::{
    listed_ports, DeviceLookup, DiscoveredDevice, DiscoverySnapshot, Ending, Lookup, Publication,
    SerialPortInfo, Slot, MAX_PORTS,
};
use kcsdi_gui::model::{ConnectionTarget, DEFAULT_PORT};
use kcsdi_gui::text::{trim, Language, Text};

const SECOND: u128 = 1_000_000_000;

fn begin<T>(lookup: &mut Lookup<T>, slot: &mut Slot<T>) -> Option<Publication> {
    let publication = lookup.start(slot, None);
    if publication.is_some() {
        lookup.spawned(Ok(()));
    }
    publication
}

fn port(path: &str, label: &str) -> SerialPortInfo {
    SerialPortInfo { path: path.to_string(), label: label.to_string() }
}

#[test]
fn cancellation_rejects_late_progress_and_completion() {
    let mut lookup = Lookup::default();
    let mut slot = Slot::default();
    let publication = begin(&mut lookup, &mut slot).unwrap();
    lookup.cancel();
    publication.publish(&mut slot, 41);
    lookup.poll(&mut slot, None);
    assert!(lookup.is_pending());
    lookup.poll(&mut slot, Some(Ending::Data(42)));
    assert!(!lookup.is_pending());
    assert_eq!(lookup.data, None);
    assert_eq!(lookup.error, None);
    begin(&mut lookup, &mut slot).unwrap();
    lookup.poll(&mut slot, Some(Ending::Data(7)));
    assert_eq!(lookup.data, Some(7));
}

#[test]
fn snapshots_coalesce_and_contended_publication_never_waits() {
    let mut slot = Slot::default();
    let publisher = Publication { generation: 9 };
    for value in 0..10000 {
        publisher.publish(&mut slot, value);
    }
    assert_eq!(slot.value, Some((9, 9999)));
    slot.locked = true;
    publisher.publish(&mut slot, 123);
    assert_eq!(slot.value, Some((9, 9999)));
}

#[test]
fn single_job_and_cancel_do_not_touch_device_tokens() {
    let mut lookup: Lookup<u32> = Lookup::default();
    let mut slot = Slot::default();
    begin(&mut lookup, &mut slot).unwrap();
    assert!(begin(&mut lookup, &mut slot).is_none(), "second job started");
    lookup.cancel();
    assert!(lookup.job.unwrap().cancelled);
    lookup.poll(&mut slot, Some(Ending::Failed("cancelled".to_string())));
    assert!(!lookup.is_pending());
    assert!(lookup.error.is_none());
}

#[test]
fn shutdown_prevents_later_ui_clicks_from_starting_jobs() {
    let mut lookup: Lookup<u32> = Lookup::default();
    let mut slot = Slot::default();
    lookup.shutdown();
    assert!(begin(&mut lookup, &mut slot).is_none(), "closed lookup restarted");
    assert!(!lookup.is_pending());
}

#[test]
fn expiry_does_not_touch_serial_results_or_device_session() {
    let now = 100 * SECOND;
    let mut lookup = DeviceLookup::default();
    lookup.ports.data = Some(vec![port("COM7", "USB")]);
    lookup.discovery.data = Some(DiscoverySnapshot {
        devices: vec![DiscoveredDevice {
            target: ConnectionTarget::Tcp { host: "192.0.2.1".to_string(), port: 4321 },
            hostname: "synthetic.local".to_string(),
            product: "KC901V".to_string(),
            observed_at: now - 31 * SECOND,
            expires_at: now,
        }],
    });
    lookup.poll(&mut Slot::default(), None, &mut Slot::default(), None, now);
    assert!(lookup.discovery.data.as_ref().unwrap().devices.is_empty());
    assert_eq!(lookup.ports.data.as_ref().unwrap()[0].path, "COM7");
}

#[test]
fn failed_and_panicked_jobs_leave_their_words() {
    let mut lookup: Lookup<u32> = Lookup::default();
    let mut slot = Slot::default();
    begin(&mut lookup, &mut slot).unwrap();
    lookup.poll(&mut slot, Some(Ending::Failed("no access".to_string())));
    assert_eq!(lookup.error, Some("no access".to_string()));
    begin(&mut lookup, &mut slot).unwrap();
    assert_eq!(lookup.error, None);
    lookup.poll(&mut slot, Some(Ending::Panicked));
    assert!(lookup.error.is_some());
    assert!(!lookup.is_pending());
    assert!(lookup.start(&mut slot, None).is_some());
    lookup.spawned(Err("no thread".to_string()));
    assert_eq!(lookup.error, Some("no thread".to_string()));
    assert!(!lookup.is_pending());
}

#[test]
fn closing_gives_both_lookups_up() {
    let mut lookup = DeviceLookup::default();
    begin(&mut lookup.ports, &mut Slot::default()).unwrap();
    assert!(lookup.is_pending());
    lookup.cancel();
    assert!(lookup.ports.closed && lookup.discovery.closed);
    assert!(lookup.ports.job.unwrap().cancelled);
}

#[test]
fn port_lists_are_bounded() {
    let many: Vec<SerialPortInfo> =
        (0..MAX_PORTS + 3).map(|index| port(&format!("COM{index}"), "")).collect();
    let listed = listed_ports(many);
    assert_eq!(listed.len(), MAX_PORTS);
    assert_eq!(listed[0].path, "COM0");
    assert_eq!(listed_ports(vec![port("COM1", "")]).len(), 1);
}

#[test]
fn rendering_results_never_replaces_a_manual_path_but_a_click_does() {
    let mut target = ConnectionTarget::Serial { path: "/dev/manual-unavailable".to_string() };
    let mut ports = Lookup::default();
    ports.data = Some(vec![port("COM7", "USB fixture")]);
    ports.poll(&mut Slot::default(), None);
    assert_eq!(
        target,
        ConnectionTarget::Serial { path: "/dev/manual-unavailable".to_string() }
    );
    assert!(!ports.is_pending());
    edit(&mut target, &mut ports, TargetEdit::Listed(0));
    assert_eq!(target, ConnectionTarget::Serial { path: "COM7".to_string() });
    ports.data = Some(Vec::new());
    ports.error = Some("synthetic enumeration failure".to_string());
    ports.poll(&mut Slot::default(), None);
    edit(&mut target, &mut ports, TargetEdit::Listed(0));
    assert_eq!(target, ConnectionTarget::Serial { path: "COM7".to_string() });
}

#[test]
fn changing_the_kind_starts_over_and_gives_the_lookup_up() {
    let mut target = ConnectionTarget::Tcp { host: "192.0.2.1".to_string(), port: 901 };
    let mut ports = Lookup::default();
    begin(&mut ports, &mut Slot::default()).unwrap();
    edit(&mut target, &mut ports, TargetEdit::Serial(false));
    assert!(!ports.job.unwrap().cancelled);
    edit(&mut target, &mut ports, TargetEdit::Host("192.0.2.2".to_string()));
    edit(&mut target, &mut ports, TargetEdit::Port(902));
    edit(&mut target, &mut ports, TargetEdit::Path("COM1".to_string()));
    assert_eq!(target, ConnectionTarget::Tcp { host: "192.0.2.2".to_string(), port: 902 });
    edit(&mut target, &mut ports, TargetEdit::Serial(true));
    assert_eq!(target, ConnectionTarget::Serial { path: String::new() });
    assert!(ports.job.unwrap().cancelled);
    edit(&mut target, &mut ports, TargetEdit::Path("COM1".to_string()));
    assert_eq!(target, ConnectionTarget::Serial { path: "COM1".to_string() });
    edit(&mut target, &mut ports, TargetEdit::Serial(false));
    assert_eq!(target, ConnectionTarget::Tcp { host: String::new(), port: DEFAULT_PORT });
}

#[test]
fn hosts_lose_their_margins_and_paths_keep_them() {
    let host = ConnectionTarget::Tcp { host: " \t192.0.2.1\u{3000} \n".to_string(), port: 7 };
    let clean = normalized(&host);
    assert_eq!(clean, ConnectionTarget::Tcp { host: "192.0.2.1".to_string(), port: 7 });
    assert_eq!(normalized(&clean), clean);
    let path = ConnectionTarget::Serial { path: " /dev/tty 0 ".to_string() };
    assert_eq!(normalized(&path), path);
    assert_eq!(
        kind_label(&path, Language::English),
        Language::English.text(Text::Serial)
    );
    assert_eq!(
        kind_label(&host, Language::SimplifiedChinese),
        Language::SimplifiedChinese.text(Text::Network)
    );
}

#[test]
fn white_space_is_trimmed_and_nothing_else() {
    let mut spaces = 0;
    for code in 0..=0x10ffffu32 {
        if let Some(c) = char::from_u32(code) {
            let text = format!("{c}a{c}b{c}");
            let short = trim(&text);
            assert_eq!(short, text.trim());
            spaces += u32::from(short.len() < text.len());
        }
    }
    assert_eq!(spaces, 25);
}
