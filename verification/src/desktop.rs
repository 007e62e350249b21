//! Local device profiles, desktop settings and device information.

use vstd::prelude::*;

use crate::connection_editor;
use crate::connection_editor::normalized;
use crate::device_lookup::DeviceLookup;
use crate::messages::ConnectionState;
use crate::model::ConnectionTarget;
use crate::state::AppState;
use crate::text;
use crate::text::{lowercase, same_text, trim, Language, Text};

verus! {

#[derive(Debug, Clone, Copy, PartialEq, Eq, Structural)]
pub enum Page {
    Devices,
    Settings,
    About,
    Instrument,
}

impl Default for Page {
    fn default() -> (page: Self)
        ensures
            page is Devices,
    {
        Page::Devices
    }
}

/// How the application is coloured.
#[derive(Debug, Clone, Copy, PartialEq, Eq, Structural)]
pub enum ThemeMode {
    System,
    Light,
    Dark,
}

/// Which language the user wants.
#[derive(Debug, Clone, Copy, PartialEq, Eq, Structural)]
pub enum LanguagePreference {
    System,
    English,
    SimplifiedChinese,
}

impl LanguagePreference {
    /// The language that a preference stands for. `system` is the one that
    /// fits the operating system.
    pub open spec fn resolved(self, system: Language) -> Language {
        match self {
            LanguagePreference::System => system,
            LanguagePreference::English => Language::English,
            LanguagePreference::SimplifiedChinese => Language::SimplifiedChinese,
        }
    }

    pub fn resolve(self, system: Language) -> (language: Language)
        ensures
            language == self.resolved(system),
    {
        match self {
            LanguagePreference::System => system,
            LanguagePreference::English => Language::English,
            LanguagePreference::SimplifiedChinese => Language::SimplifiedChinese,
        }
    }
}

#[derive(Debug, PartialEq, Eq)]
pub struct DeviceProfile {
    pub name: String,
    pub target: ConnectionTarget,
}

impl Clone for DeviceProfile {
    fn clone(&self) -> (copy: Self)
        ensures
            copy == *self,
    {
        DeviceProfile { name: self.name.clone(), target: self.target.clone() }
    }
}

impl Default for DeviceProfile {
    fn default() -> (profile: Self)
        ensures
            profile.name@.len() == 0,
            profile.target matches ConnectionTarget::Tcp { host, port } && host@.len() == 0 && port
                == crate::model::DEFAULT_PORT,
    {
        DeviceProfile { name: String::new(), target: ConnectionTarget::default() }
    }
}

/// Whether a name is taken: two names are the same that differ only in case
/// and in the white space around them.
pub open spec fn name_taken(
    profiles: Seq<DeviceProfile>,
    name: Seq<char>,
    own_index: Option<usize>,
) -> bool {
    exists|i: int|
        0 <= i < profiles.len() && !(own_index matches Some(own) && own == i)
            && #[trigger] text::lower_case(text::trimmed(profiles[i].name@)) == text::lower_case(
            text::trimmed(name),
        )
}

impl DeviceProfile {
    /// What is wrong with a profile. `valid` is the driver's verdict on its
    /// normalized target.
    pub open spec fn fault(
        self,
        profiles: Seq<DeviceProfile>,
        own_index: Option<usize>,
        valid: bool,
    ) -> Option<Text> {
        if text::trimmed(self.name@).len() == 0 {
            Some(Text::ProfileNameRequired)
        } else if !valid {
            Some(
                match self.target {
                    ConnectionTarget::Tcp { .. } => Text::ProfileHostRequired,
                    ConnectionTarget::Serial { .. } => Text::SerialPathRequired,
                },
            )
        } else if name_taken(profiles, self.name@, own_index) {
            Some(Text::ProfileNameExists)
        } else {
            None
        }
    }

    pub fn validation_error(
        &self,
        profiles: &Vec<DeviceProfile>,
        own_index: Option<usize>,
        valid: bool,
    ) -> (error: Option<Text>)
        ensures
            error == self.fault(profiles@, own_index, valid),
    {
        let name = trim(self.name.as_str());
        if name.as_str().is_empty() {
            return Some(Text::ProfileNameRequired);
        }
        if !valid {
            return Some(
                match self.target {
                    ConnectionTarget::Tcp { .. } => Text::ProfileHostRequired,
                    ConnectionTarget::Serial { .. } => Text::SerialPathRequired,
                },
            );
        }
        let lower = lowercase(name.as_str());
        let mut index: usize = 0;
        while index < profiles.len()
            invariant
                index <= profiles@.len(),
                valid,
                text::trimmed(self.name@).len() > 0,
                lower@ == text::lower_case(text::trimmed(self.name@)),
                forall|i: int|
                    0 <= i < index ==> (own_index matches Some(own) && own == i)
                        || #[trigger] text::lower_case(text::trimmed(profiles@[i].name@)) != lower@,
            decreases profiles@.len() - index,
        {
            let own = match own_index {
                Some(own) => own == index,
                None => false,
            };
            if !own {
                let other = trim(profiles[index].name.as_str());
                let other_lower = lowercase(other.as_str());
                if same_text(other_lower.as_str(), lower.as_str()) {
                    assert(text::lower_case(text::trimmed(profiles@[index as int].name@))
                        == lower@);
                    return Some(Text::ProfileNameExists);
                }
            }
            index = index + 1;
        }
        None
    }

    /// Whether a profile is another as it is saved.
    pub open spec fn is_normalized(self, before: Self) -> bool {
        self.name@ == text::trimmed(before.name@) && connection_editor::is_normalized(
            self.target,
            before.target,
        )
    }

    pub fn normalized(&self) -> (profile: Self)
        ensures
            profile.is_normalized(*self),
    {
        DeviceProfile { name: trim(self.name.as_str()), target: normalized(&self.target) }
    }
}

#[derive(Debug, PartialEq, Eq)]
pub struct DesktopConfig {
    pub profiles: Vec<DeviceProfile>,
    pub theme: ThemeMode,
}

impl Default for DesktopConfig {
    fn default() -> (config: Self)
        ensures
            config.profiles@.len() == 0,
            config.theme is System,
    {
        DesktopConfig { profiles: Vec::new(), theme: ThemeMode::System }
    }
}

impl Clone for DesktopConfig {
    fn clone(&self) -> (copy: Self)
        ensures
            copy.profiles@ == self.profiles@,
            copy.theme == self.theme,
    {
        let mut profiles: Vec<DeviceProfile> = Vec::new();
        let mut index: usize = 0;
        while index < self.profiles.len()
            invariant
                index <= self.profiles@.len(),
                profiles@ == self.profiles@.take(index as int),
            decreases self.profiles@.len() - index,
        {
            profiles.push(self.profiles[index].clone());
            index = index + 1;
            assert(self.profiles@.take(index as int) =~= self.profiles@.take(index - 1).push(
                self.profiles@[index - 1],
            ));
        }
        assert(self.profiles@.take(index as int) =~= self.profiles@);
        DesktopConfig { profiles, theme: self.theme }
    }
}

/// A profile while the user edits it.
#[derive(Debug)]
pub struct ProfileEditor {
    /// Its place, or nothing for a new one.
    pub index: Option<usize>,
    pub profile: DeviceProfile,
}

#[derive(Debug)]
pub struct DesktopState {
    pub page: Page,
    pub settings: DesktopConfig,
    pub lookup: DeviceLookup,
    pub editor: Option<ProfileEditor>,
    pub delete_profile: Option<usize>,
}

impl Default for DesktopState {
    fn default() -> (desktop: Self)
        ensures
            desktop.is_fresh(),
    {
        DesktopState {
            page: Page::default(),
            settings: DesktopConfig::default(),
            lookup: DeviceLookup::default(),
            editor: None,
            delete_profile: None,
        }
    }
}

impl DesktopState {
    /// Never used.
    pub open spec fn is_fresh(self) -> bool {
        &&& self.page is Devices
        &&& self.settings.profiles@.len() == 0
        &&& self.settings.theme is System
        &&& self.lookup.ports.is_fresh()
        &&& self.lookup.discovery.is_fresh()
        &&& !self.lookup.discovery_open
        &&& self.editor is None
        &&& self.delete_profile is None
    }
}

/// What the user did in the editor of a profile.
#[derive(Debug, Clone, Copy, PartialEq, Eq, Structural)]
pub enum EditorAction {
    Continue,
    Save,
    /// The editor was closed by a button or by the escape key.
    Cancel,
}

/// What the user did in the question whether to delete a profile.
#[derive(Debug, Clone, Copy, PartialEq, Eq, Structural)]
pub enum DeleteAction {
    Continue,
    Delete,
    Cancel,
}

/// Profiles after one was saved in its place, or at the end.
pub open spec fn is_saved(
    after: Seq<DeviceProfile>,
    before: Seq<DeviceProfile>,
    editor: ProfileEditor,
) -> bool {
    match editor.index {
        Some(index) => {
            &&& after.len() == before.len()
            &&& after[index as int].is_normalized(editor.profile)
            &&& forall|i: int| 0 <= i < before.len() && i != index ==> #[trigger] after[i] == before[i]
        },
        None => {
            &&& after.len() == before.len() + 1
            &&& after.last().is_normalized(editor.profile)
            &&& after.drop_last() == before
        },
    }
}

impl DesktopState {
    /// Whether the edited profile still has its place.
    pub open spec fn editor_fits(self) -> bool {
        self.editor matches Some(editor) ==> (editor.index matches Some(index) ==> index
            < self.settings.profiles@.len())
    }

    /// Go to another page. The instrument can be opened only where there is
    /// one: `target_valid` is the driver's verdict on the target.
    pub fn navigate(&mut self, page: Page, target_valid: bool)
        ensures
            *final(self) == (DesktopState {
                page: if page is Instrument && !target_valid {
                    old(self).page
                } else {
                    page
                },
                ..*old(self)
            }),
    {
        if matches!(page, Page::Instrument) && !target_valid {
            return;
        }
        self.page = page;
    }

    pub fn open_discovery(&mut self)
        ensures
            *final(self) == (DesktopState {
                lookup: DeviceLookup { discovery_open: true, ..old(self).lookup },
                ..*old(self)
            }),
    {
        self.lookup.discovery_open = true;
    }

    /// Begin a new profile.
    pub fn begin_add(&mut self)
        ensures
            *final(self) == (DesktopState { editor: final(self).editor, ..*old(self) }),
            final(self).editor matches Some(editor) && editor.index is None
                && editor.profile.name@.len() == 0 && (editor.profile.target matches
                ConnectionTarget::Tcp { host, port } && host@.len() == 0 && port
                == crate::model::DEFAULT_PORT),
    {
        self.editor = Some(ProfileEditor { index: None, profile: DeviceProfile::default() });
    }

    /// Whether an announcement can be added. Expired ones cannot.
    pub open spec fn can_add(self, index: int, now: u128) -> bool {
        &&& self.lookup.discovery.data is Some
        &&& 0 <= index < self.lookup.discovery.data->0.devices@.len()
        &&& now < self.lookup.discovery.data->0.devices@[index].expires_at
    }

    /// Close a frame of the discovery window. `open` is whether the user left it
    /// open, `add` the announcement that was picked. Adding opens an editor and
    /// nothing more. A scan ends with its window.
    pub fn finish_discovery(&mut self, open: bool, add: Option<usize>, now: u128)
        ensures
            ({
                let adds = add is Some && old(self).can_add(add->0 as int, now);
                let device = old(self).lookup.discovery.data->0.devices@[add->0 as int];
                let stays = open && !adds;
                &&& *final(self) == (DesktopState {
                    editor: final(self).editor,
                    lookup: DeviceLookup {
                        discovery: if old(self).lookup.discovery_open && !stays {
                            old(self).lookup.discovery.cancelled()
                        } else {
                            old(self).lookup.discovery
                        },
                        discovery_open: stays,
                        ..old(self).lookup
                    },
                    ..*old(self)
                })
                &&& final(self).editor == if adds {
                    Some(
                        ProfileEditor {
                            index: None,
                            profile: DeviceProfile { name: device.hostname, target: device.target },
                        },
                    )
                } else {
                    old(self).editor
                }
            }),
    {
        let was_open = self.lookup.discovery_open;
        self.lookup.discovery_open = open;
        let mut added: Option<ProfileEditor> = None;
        if let Some(index) = add {
            if let Some(snapshot) = &self.lookup.discovery.data {
                if index < snapshot.devices.len() && snapshot.devices[index].is_fresh(now) {
                    let device = &snapshot.devices[index];
                    added = Some(
                        ProfileEditor {
                            index: None,
                            profile: DeviceProfile {
                                name: device.hostname.clone(),
                                target: device.target.clone(),
                            },
                        },
                    );
                }
            }
        }
        if added.is_some() {
            self.editor = added;
            self.lookup.discovery_open = false;
        }
        if was_open && !self.lookup.discovery_open {
            self.lookup.discovery.cancel();
        }
    }

    /// Close a frame of the profile editor. `valid` is the driver's verdict on
    /// the normalized target. A profile with a fault cannot be saved. Once the
    /// editor is gone, so is the lookup of ports.
    pub fn finish_editor(&mut self, action: EditorAction, valid: bool)
        requires
            old(self).editor_fits(),
        ensures
            *final(self) == (DesktopState {
                settings: final(self).settings,
                editor: final(self).editor,
                lookup: final(self).lookup,
                ..*old(self)
            }),
            final(self).settings.theme == old(self).settings.theme,
            match old(self).editor {
                None => *final(self) == *old(self),
                Some(editor) => {
                    let saves = action is Save && editor.profile.fault(
                        old(self).settings.profiles@,
                        editor.index,
                        valid,
                    ) is None;
                    &&& final(self).editor == if saves || action is Cancel {
                        None
                    } else {
                        old(self).editor
                    }
                    &&& final(self).lookup == if saves || action is Cancel {
                        DeviceLookup {
                            ports: old(self).lookup.ports.cancelled(),
                            ..old(self).lookup
                        }
                    } else {
                        old(self).lookup
                    }
                    &&& if saves {
                        is_saved(
                            final(self).settings.profiles@,
                            old(self).settings.profiles@,
                            editor,
                        )
                    } else {
                        final(self).settings == old(self).settings
                    }
                },
            },
    {
        let Some(editor) = self.editor.take() else {
            return;
        };
        let saves = matches!(action, EditorAction::Save) && editor.profile.validation_error(
            &self.settings.profiles,
            editor.index,
            valid,
        ).is_none();
        if saves {
            let profile = editor.profile.normalized();
            match editor.index {
                Some(index) => {
                    self.settings.profiles.set(index, profile);
                },
                None => {
                    self.settings.profiles.push(profile);
                    assert(self.settings.profiles@.drop_last() =~= old(self).settings.profiles@);
                },
            }
        } else if !matches!(action, EditorAction::Cancel) {
            self.editor = Some(editor);
            return;
        }
        self.lookup.ports.cancel();
    }

    /// Close a frame of the question whether to delete a profile.
    pub fn confirm_delete(&mut self, action: DeleteAction)
        ensures
            ({
                let profiles = old(self).settings.profiles@;
                let known = old(self).delete_profile is Some && old(self).delete_profile->0
                    < profiles.len();
                &&& *final(self) == (DesktopState {
                    settings: final(self).settings,
                    delete_profile: if known && action is Continue {
                        old(self).delete_profile
                    } else {
                        None
                    },
                    ..*old(self)
                })
                &&& final(self).settings.theme == old(self).settings.theme
                &&& final(self).settings.profiles@ == if known && action is Delete {
                    profiles.remove(old(self).delete_profile->0 as int)
                } else {
                    profiles
                }
            }),
    {
        let Some(index) = self.delete_profile else {
            return;
        };
        if index >= self.settings.profiles.len() {
            self.delete_profile = None;
            return;
        }
        match action {
            DeleteAction::Continue => {},
            DeleteAction::Delete => {
                let _deleted = self.settings.profiles.remove(index);
                self.delete_profile = None;
            },
            DeleteAction::Cancel => {
                self.delete_profile = None;
            },
        }
    }
}

/// How a saved device is shown.
#[derive(Debug, Clone, Copy, PartialEq, Eq, Structural)]
pub struct ProfileCard {
    /// Whether it is the target.
    pub selected: bool,
    pub status: Text,
    pub can_open: bool,
}

pub open spec fn status_key(connection: ConnectionState) -> Text {
    match connection {
        ConnectionState::Connected => Text::Connected,
        ConnectionState::Connecting => Text::Connecting,
        ConnectionState::Disconnecting => Text::Disconnecting,
        ConnectionState::Error(_) => Text::Error,
        ConnectionState::Disconnected => Text::Disconnected,
    }
}

/// The card of a profile. While a session is open, only its own device can be
/// opened.
pub open spec fn card_of(
    profile: DeviceProfile,
    target: ConnectionTarget,
    connection: ConnectionState,
) -> ProfileCard {
    let selected = target.same_as(profile.target);
    ProfileCard {
        selected,
        status: if selected {
            status_key(connection)
        } else {
            Text::Disconnected
        },
        can_open: !connection.in_session() || selected,
    }
}

/// The cards of all saved devices.
pub fn profile_cards(state: &AppState) -> (cards: Vec<ProfileCard>)
    ensures
        cards@ == state.desktop.settings.profiles@.map_values(
            |profile: DeviceProfile| card_of(profile, state.target, state.connection),
        ),
{
    let profiles = &state.desktop.settings.profiles;
    let busy = state.connection.is_busy();
    let mut cards: Vec<ProfileCard> = Vec::new();
    let mut index: usize = 0;
    while index < profiles.len()
        invariant
            index <= profiles@.len(),
            profiles@ == state.desktop.settings.profiles@,
            busy == state.connection.in_session(),
            cards@.len() == index,
            forall|i: int|
                0 <= i < index ==> #[trigger] cards@[i] == card_of(
                    profiles@[i],
                    state.target,
                    state.connection,
                ),
        decreases profiles@.len() - index,
    {
        let selected = state.target.same(&profiles[index].target);
        let status = if selected {
            match &state.connection {
                ConnectionState::Connected => Text::Connected,
                ConnectionState::Connecting => Text::Connecting,
                ConnectionState::Disconnecting => Text::Disconnecting,
                ConnectionState::Error(_) => Text::Error,
                ConnectionState::Disconnected => Text::Disconnected,
            }
        } else {
            Text::Disconnected
        };
        cards.push(ProfileCard { selected, status, can_open: !busy || selected });
        index = index + 1;
    }
    assert(cards@ =~= state.desktop.settings.profiles@.map_values(
        |profile: DeviceProfile| card_of(profile, state.target, state.connection),
    ));
    cards
}

/// Whether opening a profile selects its target.
pub open spec fn opens(state: AppState, index: int) -> bool {
    &&& 0 <= index < state.desktop.settings.profiles@.len()
    &&& !state.connection.in_session() || state.target.same_as(
        state.desktop.settings.profiles@[index].target,
    )
}

/// Select a profile's target and go to the instrument. Nothing is connected,
/// and a session keeps its target.
pub fn open_profile(state: &mut AppState, index: usize)
    ensures
        *final(state) == if opens(*old(state), index as int) {
            AppState {
                target: old(state).desktop.settings.profiles@[index as int].target,
                desktop: DesktopState { page: Page::Instrument, ..old(state).desktop },
                ..*old(state)
            }
        } else {
            *old(state)
        },
{
    if index >= state.desktop.settings.profiles.len() {
        return;
    }
    let target = state.desktop.settings.profiles[index].target.clone();
    if state.connection.is_busy() && !state.target.same(&target) {
        return;
    }
    state.target = target;
    state.desktop.page = Page::Instrument;
}

/// Carry out what the user did with the cards.
pub fn profile_actions(
    state: &mut AppState,
    open: Option<usize>,
    edit: Option<usize>,
    delete: Option<usize>,
)
    requires
        edit matches Some(index) ==> index < old(state).desktop.settings.profiles@.len(),
    ensures
        ({
            let opened = open is Some && opens(*old(state), open->0 as int);
            let profiles = old(state).desktop.settings.profiles@;
            *final(state) == (AppState {
                target: if opened {
                    profiles[open->0 as int].target
                } else {
                    old(state).target
                },
                desktop: DesktopState {
                    page: if opened {
                        Page::Instrument
                    } else {
                        old(state).desktop.page
                    },
                    editor: match edit {
                        Some(index) => Some(
                            ProfileEditor { index: edit, profile: profiles[index as int] },
                        ),
                        None => old(state).desktop.editor,
                    },
                    delete_profile: if delete is Some {
                        delete
                    } else {
                        old(state).desktop.delete_profile
                    },
                    ..old(state).desktop
                },
                ..*old(state)
            })
        }),
{
    if let Some(index) = open {
        open_profile(state, index);
    }
    if let Some(index) = edit {
        state.desktop.editor = Some(
            ProfileEditor {
                index: Some(index),
                profile: state.desktop.settings.profiles[index].clone(),
            },
        );
    }
    if delete.is_some() {
        state.desktop.delete_profile = delete;
    }
}

/// Take over a language preference. `system` is the language that fits the
/// operating system.
pub fn set_language_preference(
    state: &mut AppState,
    preference: LanguagePreference,
    system: Language,
)
    ensures
        *final(state) == (AppState {
            language_preference: preference,
            language: preference.resolved(system),
            ..*old(state)
        }),
{
    state.language_preference = preference;
    state.language = preference.resolve(system);
}

/// What the page about the device shows.
#[derive(Debug, Clone, Copy, PartialEq, Eq, Structural)]
pub struct AboutView {
    pub can_refresh: bool,
    /// Why a refresh is not possible, where it is not.
    pub reason: Text,
    pub spinner: bool,
    /// Whether the device's data is shown.
    pub details: bool,
    /// Whether there are readings.
    pub readings: bool,
}

/// What the page about the device shows. Readings are shown only of a device
/// that is connected.
pub fn about_view(state: &AppState, source_busy: bool) -> (view: AboutView)
    ensures
        view == (AboutView {
            can_refresh: state.connection is Connected && !state.health.pending
                && !state.calibration.spec_busy() && !source_busy,
            reason: if state.calibration.spec_busy() {
                Text::CalibrationBusy
            } else if source_busy {
                Text::SourceStopForHealth
            } else if state.health.pending {
                Text::HealthUpdating
            } else {
                Text::DeviceInfoUnavailable
            },
            spinner: state.connection is Connected && state.health.pending,
            details: state.connection is Connected && state.device_info is Some,
            readings: state.connection is Connected && state.device_info is Some
                && state.health.snapshot is Some,
        }),
{
    let connected = state.connection.is_connected();
    let calibrating = state.calibration.busy();
    let details = connected && state.device_info.is_some();
    AboutView {
        can_refresh: connected && !state.health.pending && !calibrating && !source_busy,
        reason: if calibrating {
            Text::CalibrationBusy
        } else if source_busy {
            Text::SourceStopForHealth
        } else if state.health.pending {
            Text::HealthUpdating
        } else {
            Text::DeviceInfoUnavailable
        },
        spinner: connected && state.health.pending,
        details,
        readings: details && state.health.snapshot.is_some(),
    }
}

/// A session's target never changes by opening a profile: during one, the only
/// profile that opens is one with that target.
pub proof fn law_sessions_keep_their_target(state: AppState, index: int)
    requires
        state.connection.in_session(),
        opens(state, index),
    ensures
        state.desktop.settings.profiles@[index].target.same_as(state.target),
{
}

/// Saved names stay apart: a profile that is saved has no other's name.
pub proof fn law_saved_names_differ(
    profiles: Seq<DeviceProfile>,
    editor: ProfileEditor,
    after: Seq<DeviceProfile>,
    other: int,
)
    requires
        editor.profile.fault(profiles, editor.index, true) is None,
        editor.index matches Some(index) ==> index < profiles.len(),
        is_saved(after, profiles, editor),
        0 <= other < profiles.len(),
        !(editor.index matches Some(index) && index == other),
    ensures
        ({
            let place = match editor.index {
                Some(index) => index as int,
                None => profiles.len() as int,
            };
            &&& after[other] == profiles[other]
            &&& text::lower_case(text::trimmed(after[other].name@)) != text::lower_case(
                text::trimmed(after[place].name@),
            )
        }),
{
    assert(text::lower_case(text::trimmed(profiles[other].name@)) != text::lower_case(
        text::trimmed(editor.profile.name@),
    ));
    text::law_trimming_settles(editor.profile.name@);
    if editor.index is None {
        assert(after.drop_last()[other] == after[other]);
    }
}

/// A language that the user has chosen is used, and the system's otherwise.
pub proof fn law_chosen_languages_are_used(
    preference: LanguagePreference,
    system: Language,
    language: Language,
    state: &mut AppState,
)
    requires
        call_ensures(LanguagePreference::resolve, (preference, system), language),
        call_ensures(set_language_preference, (state, preference, system), ()),
    ensures
        preference is System ==> language == system,
        preference is English ==> language is English,
        preference is SimplifiedChinese ==> language is SimplifiedChinese,
        final(state).language == language,
        final(state).language_preference == preference,
        final(state).workspace == old(state).workspace,
        final(state).connection == old(state).connection,
{
}

/// What is wrong with a profile: it needs a name, a target that the driver takes
/// and a name that no other profile has. One without any of these faults can be
/// saved.
pub proof fn law_profiles_need_a_name_and_a_target(
    profile: &DeviceProfile,
    profiles: &Vec<DeviceProfile>,
    own_index: Option<usize>,
    valid: bool,
    error: Option<Text>,
    i: int,
)
    requires
        call_ensures(
            DeviceProfile::validation_error,
            (profile, profiles, own_index, valid),
            error,
        ),
    ensures
        error == Some(Text::ProfileNameRequired) <==> text::trimmed(profile.name@).len() == 0,
        error == Some(Text::ProfileHostRequired) <==> text::trimmed(profile.name@).len() > 0
            && !valid && profile.target is Tcp,
        error == Some(Text::SerialPathRequired) <==> text::trimmed(profile.name@).len() > 0
            && !valid && profile.target is Serial,
        error is None ==> valid && text::trimmed(profile.name@).len() > 0,
        error is None && 0 <= i < profiles@.len() && !(own_index is Some && own_index->0 == i)
            ==> text::lower_case(text::trimmed(profiles@[i].name@)) != text::lower_case(
            text::trimmed(profile.name@),
        ),
        valid && text::trimmed(profile.name@).len() > 0 && (forall|k: int|
            0 <= k < profiles@.len() && !(own_index is Some && own_index->0 == k) ==> #[trigger] text::lower_case(
                text::trimmed(profiles@[k].name@),
            ) != text::lower_case(text::trimmed(profile.name@))) ==> error is None,
{
    if error is None && 0 <= i < profiles@.len() && !(own_index is Some && own_index->0 == i) {
        if text::lower_case(text::trimmed(profiles@[i].name@)) == text::lower_case(
            text::trimmed(profile.name@),
        ) {
            assert(name_taken(profiles@, profile.name@, own_index));
        }
    }
}

/// A profile is saved without the white space around its name and its host. A
/// path and a port stay as they are.
pub proof fn law_saved_profiles_are_tidy(profile: &DeviceProfile, saved: DeviceProfile)
    requires
        call_ensures(DeviceProfile::normalized, (profile,), saved),
    ensures
        saved.name@ == text::trimmed(profile.name@),
        profile.target matches ConnectionTarget::Tcp { host, port } ==> saved.target is Tcp
            && saved.target->host@ == text::trimmed(profile.target->host@) && saved.target->port
            == profile.target->port,
        profile.target is Serial ==> saved.target == profile.target,
{
}

/// What closing the editor does: a profile without faults takes its place, or
/// the end of the list, and no other profile changes. Cancelling and faults
/// change none.
pub proof fn law_editors_save_their_profile(
    desktop: &mut DesktopState,
    action: EditorAction,
    valid: bool,
    error: Option<Text>,
    i: int,
)
    requires
        old(desktop).editor_fits(),
        old(desktop).editor is Some,
        call_ensures(DesktopState::finish_editor, (desktop, action, valid), ()),
        call_ensures(
            DeviceProfile::validation_error,
            (
                &old(desktop).editor->0.profile,
                &old(desktop).settings.profiles,
                old(desktop).editor->0.index,
                valid,
            ),
            error,
        ),
    ensures
        ({
            let before = old(desktop).settings.profiles@;
            let after = final(desktop).settings.profiles@;
            let editor = old(desktop).editor->0;
            let saves = action is Save && error is None;
            &&& !saves ==> after == before
            &&& saves && editor.index is Some ==> after.len() == before.len()
                && after[editor.index->0 as int].name@ == text::trimmed(editor.profile.name@)
            &&& saves && editor.index is None ==> after.len() == before.len() + 1
                && after.last().name@ == text::trimmed(editor.profile.name@)
            &&& 0 <= i < before.len() && editor.index != Some(i as usize) ==> after[i] == before[i]
            &&& saves || action is Cancel ==> final(desktop).editor is None
            &&& !saves && !(action is Cancel) ==> final(desktop).editor == old(desktop).editor
            &&& final(desktop).settings.theme == old(desktop).settings.theme
        }),
{
    let before = old(desktop).settings.profiles@;
    let after = final(desktop).settings.profiles@;
    if 0 <= i < before.len() && old(desktop).editor->0.index is None && after.len() == before.len()
        + 1 {
        assert(after.drop_last()[i] == after[i]);
    }
}

/// A profile is deleted only where that is confirmed, and alone.
pub proof fn law_profiles_are_deleted_on_request(
    desktop: &mut DesktopState,
    action: DeleteAction,
    i: int,
)
    requires
        call_ensures(DesktopState::confirm_delete, (desktop, action), ()),
    ensures
        ({
            let before = old(desktop).settings.profiles@;
            let after = final(desktop).settings.profiles@;
            let place = old(desktop).delete_profile;
            let deletes = action is Delete && place is Some && place->0 < before.len();
            &&& deletes ==> after.len() == before.len() - 1
            &&& deletes && 0 <= i < place->0 ==> after[i] == before[i]
            &&& deletes && place->0 <= i < after.len() ==> after[i] == before[i + 1]
            &&& !deletes ==> after == before
            &&& !(action is Continue) ==> final(desktop).delete_profile is None
        }),
{
}

/// The instrument's page is opened only for a target that the driver takes, and
/// every other page at any time.
pub proof fn law_pages_are_opened(desktop: &mut DesktopState, page: Page, target_valid: bool)
    requires
        call_ensures(DesktopState::navigate, (desktop, page, target_valid), ()),
    ensures
        !(page is Instrument) || target_valid ==> final(desktop).page == page,
        page is Instrument && !target_valid ==> final(desktop).page == old(desktop).page,
        final(desktop).settings == old(desktop).settings,
        final(desktop).editor == old(desktop).editor,
{
}

/// A device that announced itself is added as a new profile under its own name
/// and target, for the user to confirm, and only while the announcement holds.
/// The window then closes and its scan ends.
pub proof fn law_announcements_become_profiles(
    desktop: &mut DesktopState,
    open: bool,
    add: Option<usize>,
    now: u128,
)
    requires
        call_ensures(DesktopState::finish_discovery, (desktop, open, add, now), ()),
    ensures
        ({
            let data = old(desktop).lookup.discovery.data;
            let known = add is Some && data is Some && add->0 < data->0.devices@.len() && now
                < data->0.devices@[add->0 as int].expires_at;
            &&& known ==> final(desktop).editor is Some && final(desktop).editor->0.index is None
                && final(desktop).editor->0.profile.name
                == data->0.devices@[add->0 as int].hostname && final(desktop).editor->0.profile.target == data->0.devices@[add->0 as int].target && !final(desktop).lookup.discovery_open
            &&& !known ==> final(desktop).editor == old(desktop).editor && final(desktop).lookup.discovery_open == open
            &&& final(desktop).settings == old(desktop).settings
            &&& old(desktop).lookup.discovery_open && !final(desktop).lookup.discovery_open && old(desktop).lookup.discovery.job is Some ==> final(desktop).lookup.discovery.job is Some && final(desktop).lookup.discovery.job->0.cancelled
        }),
{
}

/// The card of a device tells its own state: only the device of the session is
/// selected and shows how the link stands, and while a session is open no other
/// can be opened.
pub proof fn law_cards_tell_their_state(state: &AppState, cards: Vec<ProfileCard>, i: int)
    requires
        call_ensures(profile_cards, (state,), cards),
        0 <= i < state.desktop.settings.profiles@.len(),
    ensures
        cards@.len() == state.desktop.settings.profiles@.len(),
        cards@[i].selected <==> state.target.same_as(state.desktop.settings.profiles@[i].target),
        !cards@[i].selected ==> cards@[i].status is Disconnected,
        cards@[i].selected ==> (match state.connection {
            ConnectionState::Connected => cards@[i].status is Connected,
            ConnectionState::Connecting => cards@[i].status is Connecting,
            ConnectionState::Disconnecting => cards@[i].status is Disconnecting,
            ConnectionState::Error(_) => cards@[i].status is Error,
            ConnectionState::Disconnected => cards@[i].status is Disconnected,
        }),
        cards@[i].can_open <==> cards@[i].selected || state.connection is Disconnected
            || state.connection is Error,
{
}

/// Opening a profile selects its target and goes to the instrument. Nothing is
/// connected, and during a session no other target is selected.
pub proof fn law_opened_profiles_are_selected(state: &mut AppState, index: usize)
    requires
        call_ensures(open_profile, (state, index), ()),
    ensures
        ({
            let profiles = old(state).desktop.settings.profiles@;
            let idle = old(state).connection is Disconnected || old(state).connection is Error;
            let opens = index < profiles.len() && (idle || old(state).target.same_as(
                profiles[index as int].target,
            ));
            &&& opens ==> final(state).target == profiles[index as int].target && final(state).desktop.page is Instrument
            &&& !opens ==> *final(state) == *old(state)
            &&& final(state).connection == old(state).connection
            &&& final(state).desktop.settings == old(state).desktop.settings
        }),
{
}

/// The instrument's condition can be read on an open link while nothing else
/// uses it, and readings are shown only of an open link.
pub proof fn law_readings_need_an_open_link(state: &AppState, source_busy: bool, view: AboutView)
    requires
        call_ensures(about_view, (state, source_busy), view),
    ensures
        view.can_refresh <==> state.connection is Connected && !state.health.pending
            && !state.calibration.spec_busy() && !source_busy,
        view.readings ==> view.details && state.health.snapshot is Some,
        view.details <==> state.connection is Connected && state.device_info is Some,
        view.readings <==> view.details && state.health.snapshot is Some,
        view.spinner <==> state.connection is Connected && state.health.pending,
        state.calibration.spec_busy() ==> view.reason is CalibrationBusy,
        !state.calibration.spec_busy() && source_busy ==> view.reason is SourceStopForHealth,
        !state.calibration.spec_busy() && !source_busy && state.health.pending
            ==> view.reason is HealthUpdating,
        !state.calibration.spec_busy() && !source_busy && !state.health.pending
            ==> view.reason is DeviceInfoUnavailable,
{
}

/// What the user does with a card: opening selects, editing opens that profile,
/// deleting asks about it.
pub proof fn law_cards_do_what_they_say(
    state: &mut AppState,
    open: Option<usize>,
    edit: Option<usize>,
    delete: Option<usize>,
)
    requires
        edit matches Some(index) ==> index < old(state).desktop.settings.profiles@.len(),
        call_ensures(profile_actions, (state, open, edit, delete), ()),
    ensures
        edit matches Some(index) ==> final(state).desktop.editor is Some && final(state).desktop.editor->0.index == edit && final(state).desktop.editor->0.profile == old(state).desktop.settings.profiles@[index as int],
        edit is None ==> final(state).desktop.editor == old(state).desktop.editor,
        delete is Some ==> final(state).desktop.delete_profile == delete,
        delete is None ==> final(state).desktop.delete_profile == old(state).desktop.delete_profile,
        open is None ==> final(state).target == old(state).target && final(state).desktop.page
            == old(state).desktop.page,
        final(state).desktop.settings == old(state).desktop.settings,
        final(state).connection == old(state).connection,
{
}

/// A new profile starts empty, on the network with port 901, and asks for a
/// name. Opening the window of announcements changes nothing else.
pub proof fn law_new_profiles_are_empty(desktop: &mut DesktopState, other: &mut DesktopState)
    requires
        call_ensures(DesktopState::begin_add, (desktop,), ()),
        call_ensures(DesktopState::open_discovery, (other,), ()),
    ensures
        final(desktop).editor is Some && final(desktop).editor->0.index is None,
        final(desktop).editor->0.profile.name@.len() == 0,
        final(desktop).editor->0.profile.target is Tcp && final(desktop).editor->0.profile.target->port == 901 && final(desktop).editor->0.profile.target->host@.len() == 0,
        final(desktop).settings == old(desktop).settings && final(desktop).page == old(desktop).page,
        final(other).lookup.discovery_open,
        final(other).lookup.ports == old(other).lookup.ports && final(other).lookup.discovery
            == old(other).lookup.discovery,
        final(other).settings == old(other).settings && final(other).editor == old(other).editor,
{
}

/// A new desktop shows the devices, of which it has none, and looks for none.
pub proof fn law_new_desktops_show_no_device(desktop: DesktopState, config: DesktopConfig)
    requires
        call_ensures(DesktopState::default, (), desktop),
        call_ensures(DesktopConfig::default, (), config),
    ensures
        desktop.page is Devices && desktop.settings.profiles@.len() == 0
            && desktop.settings.theme is System,
        desktop.editor is None && desktop.delete_profile is None && !desktop.lookup.discovery_open,
        desktop.lookup.ports.job is None && desktop.lookup.discovery.job is None,
        config.profiles@.len() == 0 && config.theme is System,
{
}

} // verus!
