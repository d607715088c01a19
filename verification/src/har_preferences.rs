//! The HAR preferences service: the HAR settings it registers with the user
//! preferences service, and the settings it keeps for HAR.

use crate::keyed::{lemma_lookup_insert, list_insert, lookup, ListMap, ViewClone};
use crate::user_preferences::setting::{
    Constraints, EnumConstraints, SettingAndConstraints, SettingDefinition,
    SettingDefinitionView, SettingKind, SettingProto, SettingProtoView, SettingValue,
    SettingValueView, ConstraintsView,
};
use crate::user_preferences::service::{copy_protos, proto_views};
use crate::user_preferences::settings_group_id::SettingsGroupId;
use crate::user_preferences::vehicle_configuration::{User, USER_FLAG_DRIVER, USER_FLAG_EPHEMERAL};
use vstd::prelude::*;

verus! {

/// Distances in kilometers.
pub const DISTANCE_UNIT_KILOMETERS: i32 = 0;

/// Distances in miles.
pub const DISTANCE_UNIT_MILES: i32 = 1;

/// Temperatures in degrees Celsius.
pub const TEMPERATURE_UNIT_CELSIUS: i32 = 0;

/// Temperatures in degrees Fahrenheit.
pub const TEMPERATURE_UNIT_FAHRENHEIT: i32 = 1;

/// The settings that the HAR preferences service keeps: a value per key.
pub type SettingsMap = ListMap<String, SettingValue>;

/// The definition of a per-user enum setting with a default and its possible values.
pub open spec fn enum_definition(
    key: Seq<char>,
    default: i32,
    possible: Seq<i32>,
) -> SettingDefinitionView {
    SettingDefinitionView {
        kind: SettingKind::PerUser,
        setting: Some(Some(SettingProtoView { key, value: Some(SettingValueView::Enum(default)) })),
        constraints: Some(Some(ConstraintsView::EnumConstraints(possible))),
    }
}

/// The HAR settings: distance units, miles by default, and temperature units,
/// Fahrenheit by default.
pub open spec fn har_definitions() -> Seq<(Seq<char>, SettingDefinitionView)> {
    seq![
        (
            "DISTANCE_UNITS"@,
            enum_definition(
                "DISTANCE_UNITS"@,
                DISTANCE_UNIT_MILES,
                seq![DISTANCE_UNIT_KILOMETERS, DISTANCE_UNIT_MILES],
            ),
        ),
        (
            "TEMPERATURE_UNITS"@,
            enum_definition(
                "TEMPERATURE_UNITS"@,
                TEMPERATURE_UNIT_FAHRENHEIT,
                seq![TEMPERATURE_UNIT_CELSIUS, TEMPERATURE_UNIT_FAHRENHEIT],
            ),
        ),
    ]
}

/// The default value of each HAR setting.
pub open spec fn har_defaults() -> Seq<(Seq<char>, SettingValueView)> {
    seq![
        ("DISTANCE_UNITS"@, SettingValueView::Enum(DISTANCE_UNIT_MILES)),
        ("TEMPERATURE_UNITS"@, SettingValueView::Enum(TEMPERATURE_UNIT_FAHRENHEIT)),
    ]
}

/// A per-user enum setting definition.
fn enum_setting_definition(key: &str, default: i32, possible_values: Vec<i32>) -> (d:
    SettingDefinition)
    ensures
        d@ == enum_definition(key@, default, possible_values@),
        d.is_complete(),
{
    SettingDefinition {
        kind: SettingKind::PerUser,
        setting_and_constraints: Some(
            SettingAndConstraints {
                setting: Some(
                    SettingProto {
                        key: String::from_str(key),
                        value: Some(SettingValue::Enum(default)),
                    },
                ),
                constraints: Some(Constraints::EnumConstraints(EnumConstraints { possible_values })),
            },
        ),
    }
}

/// The definitions of the HAR settings, by key.
pub fn setting_definitions() -> (m: ListMap<String, SettingDefinition>)
    ensures
        m.wf(),
        m@ == har_definitions(),
{
    proof {
        lemma_unit_keys_differ();
    }
    let mut settings: ListMap<String, SettingDefinition> = ListMap::new();
    let distance_values = vec![DISTANCE_UNIT_KILOMETERS, DISTANCE_UNIT_MILES];
    assert(distance_values@ =~= seq![DISTANCE_UNIT_KILOMETERS, DISTANCE_UNIT_MILES]);
    let distance = enum_setting_definition("DISTANCE_UNITS", DISTANCE_UNIT_MILES, distance_values);
    settings.insert(String::from_str("DISTANCE_UNITS"), distance);
    let temperature_values = vec![TEMPERATURE_UNIT_CELSIUS, TEMPERATURE_UNIT_FAHRENHEIT];
    assert(temperature_values@ =~= seq![TEMPERATURE_UNIT_CELSIUS, TEMPERATURE_UNIT_FAHRENHEIT]);
    let temperature = enum_setting_definition(
        "TEMPERATURE_UNITS",
        TEMPERATURE_UNIT_FAHRENHEIT,
        temperature_values,
    );
    assert(!crate::keyed::has_key(settings@, "TEMPERATURE_UNITS"@));
    settings.insert(String::from_str("TEMPERATURE_UNITS"), temperature);
    assert(settings@ =~= har_definitions());
    settings
}

/// The two keys of the HAR settings differ.
proof fn lemma_unit_keys_differ()
    ensures
        "DISTANCE_UNITS"@ != "TEMPERATURE_UNITS"@,
{
    reveal_strlit("DISTANCE_UNITS");
    reveal_strlit("TEMPERATURE_UNITS");
    assert("DISTANCE_UNITS"@[0] != "TEMPERATURE_UNITS"@[0]);
}

/// The value that a complete definition registers.
pub open spec fn definition_default(d: SettingDefinitionView) -> SettingValueView {
    d.setting.unwrap().unwrap().value.unwrap()
}

/// The default value of each HAR setting, taken from its definition.
pub fn default_settings() -> (m: SettingsMap)
    ensures
        m.wf(),
        m@ == har_defaults(),
        m@ == har_definitions().map_values(
            |e: (Seq<char>, SettingDefinitionView)| (e.0, definition_default(e.1)),
        ),
{
    let definitions = setting_definitions();
    let mut defaults: SettingsMap = ListMap::new();
    let mut i: usize = 0;
    while i < definitions.len()
        invariant
            i <= definitions@.len(),
            definitions@ == har_definitions(),
            defaults.wf(),
            defaults@ == har_defaults().subrange(0, i as int),
        decreases definitions@.len() - i,
    {
        let key = definitions.key_at(i);
        let definition = definitions.value_at(i);
        let value = default_of(definition);
        proof {
            lemma_unit_keys_differ();
            assert(!crate::keyed::has_key(defaults@, key@)) by {
                if i == 1 {
                    assert(defaults@[0].0 != key@);
                }
            }
        }
        defaults.insert(key.view_clone(), value);
        i = i + 1;
        assert(defaults@ =~= har_defaults().subrange(0, i as int));
    }
    assert(defaults@ =~= har_defaults());
    assert(defaults@ =~= har_definitions().map_values(
        |e: (Seq<char>, SettingDefinitionView)| (e.0, definition_default(e.1)),
    ));
    defaults
}

/// The value that a complete definition registers.
fn default_of(d: &SettingDefinition) -> (v: SettingValue)
    requires
        d.is_complete(),
    ensures
        v@ == definition_default(d@),
{
    let sc = d.setting_and_constraints.as_ref().unwrap();
    let s = sc.setting.as_ref().unwrap();
    s.value.as_ref().unwrap().view_clone()
}

/// A request to change settings of the HAR group.
#[derive(Debug)]
pub struct RequestSettingsChangeRequest {
    pub group_name: String,
    pub settings: Vec<SettingProto>,
}

/// The request by which the HAR preferences service stores changed settings
/// in the user preferences service.
#[derive(Debug)]
pub struct UpdateSettingsRequest {
    pub group_name: String,
    pub settings: Vec<SettingProto>,
    pub caller_fqin: String,
}

/// The settings after storing each requested value in order, as far as the
/// requested settings carry values: the first one without a value stops the
/// change.
pub open spec fn stored_changes(
    settings: Seq<(Seq<char>, SettingValueView)>,
    changes: Seq<SettingProtoView>,
) -> Seq<(Seq<char>, SettingValueView)>
    decreases changes.len(),
{
    if changes.len() == 0 {
        settings
    } else {
        match changes[0].value {
            Some(v) => stored_changes(list_insert(settings, changes[0].key, v), changes.drop_first()),
            None => settings,
        }
    }
}

/// Every requested setting carries a value.
pub open spec fn all_valued(changes: Seq<SettingProtoView>) -> bool {
    forall|i: int| 0 <= i < changes.len() ==> (#[trigger] changes[i]).value is Some
}

/// The HAR preferences service: the current value of each HAR setting.
pub struct UserControllablePreferencesServiceImpl {
    settings: SettingsMap,
}

impl UserControllablePreferencesServiceImpl {
    /// The current settings.
    pub closed spec fn settings(&self) -> Seq<(Seq<char>, SettingValueView)> {
        self.settings@
    }

    /// The service keeps no key twice.
    pub closed spec fn wf(&self) -> bool {
        self.settings.wf()
    }

    /// The current value of each HAR setting.
    pub fn current_settings(&self) -> (m: &SettingsMap)
        ensures
            m@ == self.settings(),
    {
        &self.settings
    }

    pub fn new(settings: SettingsMap) -> (s: Self)
        requires
            settings.wf(),
        ensures
            s.wf(),
            s.settings() == settings@,
    {
        Self { settings }
    }

    /// Stores the requested settings in order. When every one carries a
    /// value, returns the update to send to the user preferences service, for
    /// the same group and settings; the first one without a value stops the
    /// change and nothing is sent.
    pub fn request_settings_change(&mut self, request: RequestSettingsChangeRequest) -> (r: Option<
        UpdateSettingsRequest,
    >)
        requires
            old(self).wf(),
        ensures
            final(self).wf(),
            final(self).settings() == stored_changes(
                old(self).settings(),
                proto_views(request.settings@),
            ),
            r is Some <==> all_valued(proto_views(request.settings@)),
            r matches Some(u) ==> u.group_name@ == request.group_name@ && proto_views(
                u.settings@,
            ) == proto_views(request.settings@) && u.caller_fqin@
                == "HarPreferencesService"@,
    {
        let changes = &request.settings;
        let ghost all = proto_views(changes@);
        assert(all.subrange(0, all.len() as int) =~= all);
        let mut i: usize = 0;
        while i < changes.len()
            invariant
                i <= changes.len(),
                all == proto_views(changes@),
                all == proto_views(request.settings@),
                self.wf(),
                all_valued(all.subrange(0, i as int)),
                stored_changes(old(self).settings(), all) == stored_changes(
                    self.settings(),
                    all.subrange(i as int, all.len() as int),
                ),
            decreases changes.len() - i,
        {
            let change = &changes[i];
            proof {
                assert(all[i as int] == change@);
                assert(all.subrange(i as int, all.len() as int)[0] == change@);
                assert(all.subrange(i as int, all.len() as int).drop_first() =~= all.subrange(
                    i + 1,
                    all.len() as int,
                ));
            }
            match &change.value {
                Some(v) => {
                    self.settings.insert(change.key.clone(), v.view_clone());
                },
                None => {
                    proof {
                        assert(all[i as int].value is None);
                        assert(!all_valued(all));
                    }
                    return None;
                },
            }
            i = i + 1;
            assert(all_valued(all.subrange(0, i as int))) by {
                assert forall|j: int| 0 <= j < i implies (#[trigger] all.subrange(0, i as int)[j]).value is Some by {
                    if j < i - 1 {
                        assert(all.subrange(0, i as int)[j] == all.subrange(0, i - 1)[j]);
                    }
                }
            }
        }
        assert(all.subrange(0, all.len() as int) =~= all);
        assert(all.subrange(i as int, all.len() as int) =~= Seq::<SettingProtoView>::empty());
        let settings = copy_protos(&request.settings);
        Some(
            UpdateSettingsRequest {
                group_name: request.group_name,
                settings,
                caller_fqin: String::from_str("HarPreferencesService"),
            },
        )
    }

    /// Resets the HAR settings to their defaults, as a change request for the
    /// HAR group; returns the update to send to the user preferences service.
    pub fn factory_reset(&mut self) -> (r: UpdateSettingsRequest)
        requires
            old(self).wf(),
        ensures
            final(self).wf(),
            final(self).settings() == stored_changes(old(self).settings(), default_changes()),
            r.group_name@ == "HAR"@,
            proto_views(r.settings@) == default_changes(),
            r.caller_fqin@ == "HarPreferencesService"@,
    {
        let defaults = default_settings();
        let mut settings: Vec<SettingProto> = Vec::new();
        let mut i: usize = 0;
        while i < defaults.len()
            invariant
                i <= defaults@.len(),
                defaults@ == har_defaults(),
                proto_views(settings@) == default_changes().subrange(0, i as int),
            decreases defaults@.len() - i,
        {
            let key = defaults.key_at(i).view_clone();
            let value = defaults.value_at(i).view_clone();
            let p = SettingProto { key, value: Some(value) };
            assert(p@ == default_changes()[i as int]);
            let ghost before = settings@;
            settings.push(p);
            assert(proto_views(settings@) =~= proto_views(before).push(p@));
            i = i + 1;
            assert(proto_views(settings@) =~= default_changes().subrange(0, i as int));
        }
        assert(proto_views(settings@) =~= default_changes());
        let request = RequestSettingsChangeRequest {
            group_name: String::from_str("HAR"),
            settings,
        };
        let r = self.request_settings_change(request);
        assert(all_valued(default_changes()));
        r.unwrap()
    }
}

/// The settings that a factory reset requests: each HAR setting at its default.
pub open spec fn default_changes() -> Seq<SettingProtoView> {
    har_defaults().map_values(
        |e: (Seq<char>, SettingValueView)| SettingProtoView { key: e.0, value: Some(e.1) },
    )
}

/// After a factory reset each HAR setting holds its default value, and every
/// other setting is kept.
pub proof fn law_factory_reset_restores_defaults(
    settings: Seq<(Seq<char>, SettingValueView)>,
    other: Seq<char>,
)
    requires
        crate::keyed::distinct_keys(settings),
        other != "DISTANCE_UNITS"@,
        other != "TEMPERATURE_UNITS"@,
    ensures
        lookup(stored_changes(settings, default_changes()), "DISTANCE_UNITS"@) == Some(
            SettingValueView::Enum(DISTANCE_UNIT_MILES),
        ),
        lookup(stored_changes(settings, default_changes()), "TEMPERATURE_UNITS"@) == Some(
            SettingValueView::Enum(TEMPERATURE_UNIT_FAHRENHEIT),
        ),
        lookup(stored_changes(settings, default_changes()), other) == lookup(settings, other),
{
    lemma_unit_keys_differ();
    let c = default_changes();
    let d = SettingValueView::Enum(DISTANCE_UNIT_MILES);
    let t = SettingValueView::Enum(TEMPERATURE_UNIT_FAHRENHEIT);
    assert(c.len() == 2);
    assert(c[0] == SettingProtoView { key: "DISTANCE_UNITS"@, value: Some(d) });
    assert(c[1] == SettingProtoView { key: "TEMPERATURE_UNITS"@, value: Some(t) });
    let s1 = list_insert(settings, "DISTANCE_UNITS"@, d);
    let s2 = list_insert(s1, "TEMPERATURE_UNITS"@, t);
    assert(c.drop_first().drop_first() =~= Seq::<SettingProtoView>::empty());
    assert(c.drop_first()[0] == c[1]);
    assert(stored_changes(s2, c.drop_first().drop_first()) == s2);
    assert(stored_changes(s1, c.drop_first()) == s2);
    assert(stored_changes(settings, c) == s2);
    lemma_lookup_insert(settings, "DISTANCE_UNITS"@, d, "DISTANCE_UNITS"@);
    lemma_lookup_insert(settings, "DISTANCE_UNITS"@, d, other);
    lemma_lookup_insert(s1, "TEMPERATURE_UNITS"@, t, "TEMPERATURE_UNITS"@);
    lemma_lookup_insert(s1, "TEMPERATURE_UNITS"@, t, "DISTANCE_UNITS"@);
    lemma_lookup_insert(s1, "TEMPERATURE_UNITS"@, t, other);
}

/// What the HAR preferences service registers with the user preferences
/// service.
#[derive(Debug)]
pub struct RegisterSettingsRequest {
    pub group_name: String,
    pub version: String,
    pub settings_definitions: Vec<SettingDefinition>,
    pub caller_fqin: String,
}

/// The registration of the HAR settings group, version 1.0.
pub fn register_settings_request() -> (r: RegisterSettingsRequest)
    ensures
        r.group_name@ == "HAR"@,
        r.version@ == "1.0"@,
        r.caller_fqin@ == "HarPreferencesService"@,
        r.settings_definitions@.len() == har_definitions().len(),
        forall|i: int|
            0 <= i < r.settings_definitions@.len() ==> (#[trigger] r.settings_definitions@[i])@
                == har_definitions()[i].1,
        forall|i: int|
            0 <= i < r.settings_definitions@.len() ==> (#[trigger] r.settings_definitions@[i]).is_complete(),
{
    let definitions = setting_definitions();
    let mut defs: Vec<SettingDefinition> = Vec::new();
    let mut i: usize = 0;
    while i < definitions.len()
        invariant
            i <= definitions@.len(),
            definitions@ == har_definitions(),
            defs@.len() == i,
            forall|j: int|
                0 <= j < defs@.len() ==> (#[trigger] defs@[j])@ == har_definitions()[j].1,
            forall|j: int| 0 <= j < defs@.len() ==> (#[trigger] defs@[j]).is_complete(),
        decreases definitions@.len() - i,
    {
        let d = definitions.value_at(i).view_clone();
        proof {
            complete_when_view_is(d);
        }
        defs.push(d);
        i = i + 1;
    }
    RegisterSettingsRequest {
        group_name: String::from_str("HAR"),
        version: String::from_str("1.0"),
        settings_definitions: defs,
        caller_fqin: String::from_str("HarPreferencesService"),
    }
}

/// A definition whose view carries a setting with a value is complete.
proof fn complete_when_view_is(d: SettingDefinition)
    requires
        d@.setting matches Some(Some(p)) && p.value is Some,
    ensures
        d.is_complete(),
{
}

/// The user that the preferences admin creates and selects: number 2, an
/// ephemeral driver.
pub fn admin_user() -> (u: User)
    ensures
        u.id == 2,
        u.flags == USER_FLAG_DRIVER | USER_FLAG_EPHEMERAL,
{
    User { id: 2, flags: USER_FLAG_DRIVER | USER_FLAG_EPHEMERAL }
}

/// A request to change one HAR setting: the group of the HAR preferences
/// service named `setting_group_name`, with `settings_key` set to `value`.
#[derive(Debug)]
pub struct SettingsChangeRequest {
    pub settings_group_id: SettingsGroupId,
    pub settings: Vec<SettingProto>,
}

/// The request by which the preferences admin changes one setting.
pub fn change_settings_request(
    setting_group_name: String,
    settings_key: String,
    value: SettingValue,
) -> (r: SettingsChangeRequest)
    ensures
        r.settings_group_id@ == ("HarPreferencesService"@, setting_group_name@),
        proto_views(r.settings@) == seq![
            SettingProtoView { key: settings_key@, value: Some(value@) },
        ],
{
    let settings = vec![SettingProto { key: settings_key, value: Some(value) }];
    let r = SettingsChangeRequest {
        settings_group_id: SettingsGroupId::new(
            String::from_str("HarPreferencesService"),
            setting_group_name,
        ),
        settings,
    };
    assert(proto_views(r.settings@) =~= seq![
        SettingProtoView { key: settings_key@, value: Some(value@) },
    ]);
    r
}

} // verus!
