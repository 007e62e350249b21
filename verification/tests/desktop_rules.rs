use kcsdi_gui::acquisition::{AcquisitionSettings, CompletedSweep};
use kcsdi_gui::analysis_tools::Color;
use kcsdi_gui::desktop::{
    about_view, open_profile, profile_actions, profile_cards, set_language_preference,
    DeleteAction, DesktopState, DeviceProfile, EditorAction, LanguagePreference, Page,
};
use kcsdi_gui::device_lookup::{DiscoveredDevice, DiscoverySnapshot, Slot};
use kcsdi_gui::messages::{ConnectionState, Message};
use kcsdi_gui::model::{
    Cal, ConnectionTarget, DeviceInfo, Format, HealthSnapshot, Lo, Rbw, Real, S11Params,
    StreamMode, SweepData,
};
use kcsdi_gui::state::{AfConfig, AppState, RfConfig, SourceConfig};
use kcsdi_gui::text::{Language, Text};
use kcsdi_gui::workspace::{
    PlotView, S11Display, SmithView, SweepRange, TraceDisplay, TraceSettings, Width, Workspace,
    YScale,
};
use std::sync::Arc;

const LANGUAGES: [Language; 2] = [Language::English, Language::SimplifiedChinese];

fn number(value: f64) -> Real {
    Real { bits: value.to_bits() }
}

fn view() -> PlotView {
    PlotView {
        x_min: number(1e6),
        x_max: number(2e6),
        y_min: number(0.0),
        y_max: number(1.0),
        y_divisions: 10,
        y_scale: YScale::Linear,
    }
}

fn sources() -> SourceConfig {
    SourceConfig {
        rf: RfConfig { frequency_hz: 1_000_000_000, modulation: "off".to_string() },
        af: AfConfig {
            frequency_hz: 1_000,
            amplitude_mv: 100,
            modulation: "off".to_string(),
            pm_phase_deg: 0,
        },
    }
}

fn fresh(language: Language) -> AppState {
    let range = SweepRange { start_hz: number(1e6), stop_hz: number(2e6), points: 201 };
    let smith = SmithView { zoom: number(1.0), dx: number(0.0), dy: number(0.0) };
    let mut workspace = Workspace::empty(range, view(), smith);
    let settings = TraceSettings {
        display: TraceDisplay::S11(S11Display::ReturnLoss),
        cal: Cal::CalOff,
        rbw: Rbw { hz: 10_000 },
        lo: Lo::HighLo,
        ref_level_dbm: 0,
        visible: true,
        color: Color { r: 1, g: 2, b: 3, a: 255 },
        line_width: Width { bits: 1.0f32.to_bits() },
        impedance_visible: [true, true, true],
    };
    workspace.add_trace(settings, view()).unwrap();
    AppState::new(workspace, language, sources())
}

fn tcp(host: &str, port: u16) -> ConnectionTarget {
    ConnectionTarget::Tcp { host: host.to_string(), port }
}

fn profile(name: &str, target: ConnectionTarget) -> DeviceProfile {
    DeviceProfile { name: name.to_string(), target }
}

#[test]
fn opening_a_profile_selects_the_target_without_connecting_or_clearing_traces() {
    let mut state = fresh(Language::English);
    state.desktop.settings.profiles.push(profile("Bench", tcp("instrument.local", 4321)));
    let trace = || SweepData {
        mode: StreamMode::S11,
        format: "loss".to_string(),
        points: Vec::new(),
    };
    state.workspace.traces[0].completed = Some(Arc::new(CompletedSweep {
        data: trace(),
        segments: None,
        settings: AcquisitionSettings::S11(S11Params {
            cal: Cal::CalOff,
            format: Format::Z,
            points: 3,
            start_hz: 1_000_000,
            stop_hz: 2_000_000,
            rbw: Some(Rbw { hz: 10_000 }),
        }),
        session_id: 0,
        completed_at: 0,
    }));
    open_profile(&mut state, 0);
    assert_eq!(state.target, tcp("instrument.local", 4321));
    assert_eq!(state.desktop.page, Page::Instrument);
    assert!(matches!(state.connection, ConnectionState::Disconnected));
    assert_eq!(state.workspace.traces[0].completed.as_ref().unwrap().data, trace());
    assert_eq!((state.session_id, state.request_id), (0, 0));
}

#[test]
fn unavailable_serial_profile_is_valid_and_open_never_connects() {
    let target = || ConnectionTarget::Serial { path: "/dev/serial/by-id/not-present".to_string() };
    let serial = profile("Serial bench", target());
    assert!(serial.validation_error(&Vec::new(), None, true).is_none());
    let mut state = fresh(Language::English);
    state.desktop.settings.profiles.push(serial);
    open_profile(&mut state, 0);
    assert_eq!(state.target, target());
    assert!(matches!(state.connection, ConnectionState::Disconnected));
    assert!(!state.desktop.lookup.is_pending());
    state.connection = ConnectionState::Connected;
    state.desktop.settings.profiles.push(profile("Other", tcp("instrument.local", 901)));
    open_profile(&mut state, 1);
    assert_eq!(state.target, target());
}

#[test]
fn discovery_add_only_opens_an_editor_and_expired_results_cannot_be_added() {
    let mut state = fresh(Language::English);
    state.desktop.open_discovery();
    let now: u128 = 100_000_000_000;
    state.desktop.lookup.discovery.data = Some(DiscoverySnapshot {
        devices: vec![DiscoveredDevice {
            target: tcp("192.0.2.1", 4321),
            hostname: "synthetic.local".to_string(),
            product: "KC901V".to_string(),
            observed_at: now,
            expires_at: now + 30_000_000_000,
        }],
    });
    state.desktop.finish_discovery(true, Some(0), now);
    assert_eq!(state.desktop.editor.as_ref().unwrap().profile.target, tcp("192.0.2.1", 4321));
    assert!(state.desktop.settings.profiles.is_empty());
    assert_eq!(state.target, ConnectionTarget::default());
    assert_eq!(state.session_id, 0);
    assert_eq!(state.request_id, 0);
    state.desktop.editor = None;
    state.desktop.open_discovery();
    state.desktop.lookup.discovery.data.as_mut().unwrap().devices[0].expires_at = now;
    state.desktop.lookup.poll(&mut Slot::default(), None, &mut Slot::default(), None, now);
    state.desktop.finish_discovery(true, Some(0), now);
    assert!(state.desktop.editor.is_none());
    assert!(state.desktop.lookup.discovery_open);
}

#[test]
fn an_active_session_cannot_be_retargeted_by_opening_another_profile() {
    let mut state = fresh(Language::English);
    state.target = tcp("current.local", 901);
    state.connection = ConnectionState::Connected;
    state.desktop.settings.profiles.push(profile("Other", tcp("other.local", 901)));
    open_profile(&mut state, 0);
    assert_eq!(state.target, tcp("current.local", 901));
    assert_eq!(state.desktop.page, Page::Devices);
}

#[test]
fn editing_a_profile_keeps_its_name_but_cannot_take_another_profiles_name() {
    let profiles = vec![profile("Bench", tcp("instrument.local", 901))];
    let edited = profile(" bench ", tcp("instrument.local", 901));
    assert_eq!(
        edited.validation_error(&profiles, None, true),
        Some(Text::ProfileNameExists)
    );
    assert_eq!(edited.validation_error(&profiles, Some(0), true), None);
    assert_eq!(edited.normalized().name, "bench");
}

#[test]
fn profile_faults_come_in_order() {
    let profiles = vec![profile("\u{00c4}rger", tcp("instrument.local", 901))];
    let nameless = profile(" \t", tcp("", 901));
    assert_eq!(
        nameless.validation_error(&profiles, None, false),
        Some(Text::ProfileNameRequired)
    );
    assert_eq!(
        profile("A", tcp("", 901)).validation_error(&profiles, None, false),
        Some(Text::ProfileHostRequired)
    );
    let serial = ConnectionTarget::Serial { path: String::new() };
    assert_eq!(
        profile("A", serial).validation_error(&profiles, None, false),
        Some(Text::SerialPathRequired)
    );
    assert_eq!(
        profile("\u{00e4}RGER", tcp("b", 901)).validation_error(&profiles, None, true),
        Some(Text::ProfileNameExists)
    );
}

#[test]
fn saving_normalizes_and_refuses_duplicates() {
    let mut desktop = DesktopState::default();
    desktop.begin_add();
    let editor = desktop.editor.as_mut().unwrap();
    assert_eq!(editor.profile, DeviceProfile::default());
    editor.profile = profile("  Bench  ", tcp(" instrument.local ", 901));
    desktop.finish_editor(EditorAction::Continue, true);
    assert!(desktop.editor.is_some());
    desktop.finish_editor(EditorAction::Save, false);
    assert!(desktop.editor.is_some() && desktop.settings.profiles.is_empty());
    desktop.finish_editor(EditorAction::Save, true);
    assert!(desktop.editor.is_none());
    assert_eq!(desktop.settings.profiles, [profile("Bench", tcp("instrument.local", 901))]);
    desktop.begin_add();
    desktop.editor.as_mut().unwrap().profile = profile("BENCH", tcp("other.local", 901));
    desktop.finish_editor(EditorAction::Save, true);
    assert!(desktop.editor.is_some());
    desktop.finish_editor(EditorAction::Cancel, true);
    assert!(desktop.editor.is_none());
    assert_eq!(desktop.settings.profiles.len(), 1);
}

#[test]
fn deleting_asks_first() {
    let mut state = fresh(Language::English);
    state.desktop.settings.profiles.push(profile("A", tcp("a.local", 901)));
    state.desktop.settings.profiles.push(profile("B", tcp("b.local", 901)));
    profile_actions(&mut state, None, None, Some(0));
    assert_eq!(state.desktop.delete_profile, Some(0));
    state.desktop.confirm_delete(DeleteAction::Continue);
    assert_eq!(state.desktop.settings.profiles.len(), 2);
    state.desktop.confirm_delete(DeleteAction::Cancel);
    assert_eq!(state.desktop.delete_profile, None);
    assert_eq!(state.desktop.settings.profiles.len(), 2);
    profile_actions(&mut state, None, Some(1), Some(0));
    let editor = state.desktop.editor.as_ref().unwrap();
    assert_eq!((editor.index, editor.profile.name.as_str()), (Some(1), "B"));
    state.desktop.confirm_delete(DeleteAction::Delete);
    assert_eq!(state.desktop.settings.profiles, [profile("B", tcp("b.local", 901))]);
}

#[test]
fn cards_show_the_session_of_the_selected_profile_only() {
    let mut state = fresh(Language::English);
    state.desktop.settings.profiles.push(profile("A", tcp("a.local", 901)));
    state.desktop.settings.profiles.push(profile("B", tcp("b.local", 901)));
    state.target = tcp("b.local", 901);
    let cards = profile_cards(&state);
    assert!(cards.iter().all(|card| card.can_open && card.status == Text::Disconnected));
    assert!(!cards[0].selected && cards[1].selected);
    state.connection = ConnectionState::Connected;
    let cards = profile_cards(&state);
    assert_eq!((cards[0].status, cards[0].can_open), (Text::Disconnected, false));
    assert_eq!((cards[1].status, cards[1].can_open), (Text::Connected, true));
    state.connection = ConnectionState::Error(Message::Other("gone".to_string()));
    let cards = profile_cards(&state);
    assert_eq!((cards[1].status, cards[1].can_open), (Text::Error, true));
}

#[test]
fn pages_need_a_target_for_the_instrument() {
    let mut desktop = DesktopState::default();
    desktop.navigate(Page::Instrument, false);
    assert_eq!(desktop.page, Page::Devices);
    desktop.navigate(Page::About, false);
    assert_eq!(desktop.page, Page::About);
    desktop.navigate(Page::Instrument, true);
    assert_eq!(desktop.page, Page::Instrument);
}

#[test]
fn preferences_pick_the_language() {
    for system in LANGUAGES {
        let mut state = fresh(Language::English);
        set_language_preference(&mut state, LanguagePreference::System, system);
        assert_eq!(state.language, system);
        set_language_preference(&mut state, LanguagePreference::SimplifiedChinese, system);
        assert_eq!(state.language, Language::SimplifiedChinese);
        set_language_preference(&mut state, LanguagePreference::English, system);
        assert_eq!(state.language, Language::English);
    }
}

fn about_state(connected: bool) -> AppState {
    let mut state = fresh(Language::English);
    if connected {
        state.connection = ConnectionState::Connected;
    }
    state.device_info = Some(DeviceInfo {
        serial: "0000000001".to_string(),
        username: "bench".to_string(),
        software: "V1.6.1".to_string(),
        hardware: "V1.0".to_string(),
        copyright: String::new(),
    });
    state.health.succeed(
        HealthSnapshot {
            temperature: number(42.0),
            external: number(12.0),
            battery: number(8.0),
            observed_at: 0,
        },
        1,
    );
    state.desktop.page = Page::About;
    state
}

#[test]
fn about_refresh_is_disabled_while_a_request_is_pending() {
    let mut state = about_state(true);
    for pending in [true, false] {
        state.health.pending = pending;
        assert_eq!(about_view(&state, false).can_refresh, !pending);
    }
    assert!(!about_view(&state, true).can_refresh);
    assert_eq!(about_view(&state, true).reason, Text::SourceStopForHealth);
}

#[test]
fn readings_are_shown_only_of_a_connected_device() {
    let view = about_view(&about_state(true), false);
    assert!(view.details && view.readings && !view.spinner);
    let view = about_view(&about_state(false), false);
    assert!(!view.details && !view.can_refresh);
    assert_eq!(view.reason, Text::DeviceInfoUnavailable);
    let mut state = about_state(true);
    state.health.fail(Message::SourceBlocksStatus, 2);
    assert!(state.health.snapshot.is_some());
    assert_eq!(state.health.answered_at, Some(2));
    assert!(matches!(state.health.error, Some(Message::SourceBlocksStatus)));
}
