//! The user preferences service: services register groups of settings,
//! users are created and selected, settings changes are validated and
//! forwarded, and subscribers are told about updates.
//!
//! Calls to other services are not made here: the operations that need one
//! return what is to be sent, and a second function turns the outcome of the
//! call into the answer.

use crate::keyed::{
    distinct_keys, has_key, key_index, lemma_key_index_unique, lemma_update_value_keeps_keys,
    list_insert, list_remove, lookup, ListMap, ViewClone,
};
use crate::user_preferences::errors::{ChangeRejection, ErrorReason, ResponseCode, ServiceError};
use crate::user_preferences::setting::{
    constraints_view, definition_setting, valid_value, value_view, Setting,
    SettingAndConstraints, SettingDefinition, SettingKind, SettingProto, SettingProtoView,
    SettingView,
};
use crate::user_preferences::settings_group::{
    is_proto_of, SettingsGroup, SettingsGroupProto, SettingsGroupView,
};
use crate::user_preferences::settings_group_id::SettingsGroupId;
use crate::user_preferences::vehicle_configuration::{
    configuration_wf, ephemeral_flags, reset_groups_view, User, VehicleConfiguration,
    VehicleConfigurationView, USER_FLAG_DRIVER, USER_FLAG_EPHEMERAL,
};
use vstd::prelude::*;

verus! {

/// The service that a factory reset is forwarded to.
pub fn factory_reset_target() -> (s: String)
    ensures
        s@ == "HvacService"@,
{
    String::from_str("HvacService")
}

/// `prefix` followed by `text`.
fn prefixed(prefix: &str, text: String) -> (s: String)
    ensures
        s@ == prefix@ + text@,
{
    let mut s = String::from_str(prefix);
    s.append(text.as_str());
    s
}

/// How passing settings to the service that registered a group went, given
/// how the call went: the call failed with a text, or it answered with an
/// error text or without one.
pub fn apply_settings_outcome(call: Result<Option<String>, String>) -> (r: Result<(), String>)
    ensures
        match call {
            Err(x) => r matches Err(m) && m@
                == "Failed to perform GRPC request to request_settings_change: "@ + x@,
            Ok(Some(e)) => r matches Err(m) && m@ == "Failed to request settings changes: "@ + e@,
            Ok(None) => r is Ok,
        },
{
    match call {
        Err(x) => Err(prefixed("Failed to perform GRPC request to request_settings_change: ", x)),
        Ok(Some(e)) => Err(prefixed("Failed to request settings changes: ", e)),
        Ok(None) => Ok(()),
    }
}

/// How the factory reset of the services went, given how the call to the
/// reset service went.
pub fn reset_services_outcome(call: Result<Option<String>, String>) -> (r: Result<(), String>)
    ensures
        match call {
            Err(x) => r matches Err(m) && m@
                == "Failed to perform GRPC request to request_settings_change: "@ + x@,
            Ok(Some(e)) => r matches Err(m) && m@ == "Failed to factory reset HvacService service: "@
                + e@,
            Ok(None) => r is Ok,
        },
{
    match call {
        Err(x) => Err(prefixed("Failed to perform GRPC request to request_settings_change: ", x)),
        Ok(Some(e)) => Err(prefixed("Failed to factory reset HvacService service: ", e)),
        Ok(None) => Ok(()),
    }
}

/// The state of the service, by view.
pub struct ServiceView {
    pub vehicle_state: VehicleConfigurationView,
    pub users: Seq<(i32, VehicleConfigurationView)>,
    pub current_user_id: Option<i32>,
    pub subscribers: Seq<((Seq<char>, Seq<char>), Seq<(Seq<char>, ())>)>,
}

/// The invariant of the service: keys are distinct everywhere, each user is
/// stored under its own identifier, and the selected user exists.
pub open spec fn service_wf(v: ServiceView) -> bool {
    &&& configuration_wf(v.vehicle_state)
    &&& distinct_keys(v.users)
    &&& forall|i: int|
        0 <= i < v.users.len() ==> configuration_wf(#[trigger] v.users[i].1) && v.users[i].0
            == v.users[i].1.user.id
    &&& match v.current_user_id {
        Some(id) => has_key(v.users, id),
        None => true,
    }
    &&& distinct_keys(v.subscribers)
    &&& forall|i: int| 0 <= i < v.subscribers.len() ==> distinct_keys(#[trigger] v.subscribers[i].1)
}

/// Whether the flags are those of a driver, optionally ephemeral, and nothing
/// else.
pub open spec fn valid_user_flags(flags: i32) -> bool {
    (flags & USER_FLAG_DRIVER) == USER_FLAG_DRIVER && (flags & !(USER_FLAG_EPHEMERAL
        | USER_FLAG_DRIVER)) == 0
}

/// The configuration of a new user: the groups of the vehicle with every
/// setting at its default value.
pub open spec fn new_user_view(
    vehicle_state: VehicleConfigurationView,
    user: User,
) -> VehicleConfigurationView {
    VehicleConfigurationView {
        user: User { id: user.id, flags: user.flags },
        settings_groups: reset_groups_view(vehicle_state.settings_groups),
    }
}

/// The settings of a group that belong to each user, as messages, in order.
pub open spec fn per_user_settings(
    s: Seq<(Seq<char>, SettingView)>,
) -> Seq<SettingProtoView>
    decreases s.len(),
{
    if s.len() == 0 {
        Seq::empty()
    } else {
        let rest = per_user_settings(s.drop_last());
        if s.last().1.kind == SettingKind::PerUser {
            rest.push(SettingProtoView { key: s.last().1.name, value: Some(s.last().1.value) })
        } else {
            rest
        }
    }
}

/// The users after selecting `id`: the previously selected user is deleted
/// when it is ephemeral and not the one selected now.
pub open spec fn users_after_select(v: ServiceView, id: i32) -> Seq<(i32, VehicleConfigurationView)> {
    match v.current_user_id {
        Some(c) => if c != id && lookup(v.users, c) is Some && ephemeral_flags(
            lookup(v.users, c).unwrap().user.flags,
        ) {
            v.users.remove(key_index(v.users, c))
        } else {
            v.users
        },
        None => v.users,
    }
}

/// The settings of `group` that belong to each user, as messages.
fn per_user_protos(group: &SettingsGroup) -> (r: Vec<SettingProto>)
    ensures
        proto_views(r@) == per_user_settings(group@.settings),
{
    let ghost s = group@.settings;
    let mut r: Vec<SettingProto> = Vec::new();
    let n = group.settings.len();
    let mut i: usize = 0;
    assert(s.subrange(0, 0) =~= Seq::<(Seq<char>, SettingView)>::empty());
    assert(proto_views(r@) =~= Seq::<SettingProtoView>::empty());
    while i < n
        invariant
            n == s.len(),
            s == group@.settings,
            i <= n,
            proto_views(r@) == per_user_settings(s.subrange(0, i as int)),
        decreases n - i,
    {
        let setting = group.settings.value_at(i);
        let ghost before = r@;
        if setting.kind == SettingKind::PerUser {
            r.push(setting.to_proto());
            assert(proto_views(r@) =~= proto_views(before).push(
                SettingProtoView { key: s[i as int].1.name, value: Some(s[i as int].1.value) },
            ));
        }
        assert(s.subrange(0, i + 1).drop_last() =~= s.subrange(0, i as int));
        i = i + 1;
    }
    assert(s.subrange(0, n as int) =~= s);
    r
}

/// The views of a sequence of setting messages.
pub open spec fn proto_views(s: Seq<SettingProto>) -> Seq<SettingProtoView> {
    s.map_values(|p: SettingProto| p@)
}

/// Settings to be sent to the service that registered a group.
#[derive(Debug)]
pub struct SettingsApplication {
    pub group_id: SettingsGroupId,
    pub settings: Vec<SettingProto>,
}

/// An update to be sent to the subscribers of a group.
#[derive(Debug)]
pub struct SettingsChangeNotification {
    pub group_id: SettingsGroupId,
    pub version: String,
    pub settings: Vec<SettingProto>,
    pub subscribers: Vec<String>,
}

/// What a subscriber gets: the settings of the group with their constraints,
/// and the version of the group.
#[derive(Debug)]
pub struct SubscribeResponse {
    pub current_settings: Vec<SettingAndConstraints>,
    pub version: String,
}

/// The state of the user preferences service.
pub struct UserPreferencesServiceImpl {
    vehicle_state: VehicleConfiguration,
    users: ListMap<i32, VehicleConfiguration>,
    current_user_id: Option<i32>,
    change_subscribers: ListMap<SettingsGroupId, ListMap<String, ()>>,
}

impl View for UserPreferencesServiceImpl {
    type V = ServiceView;

    closed spec fn view(&self) -> ServiceView {
        ServiceView {
            vehicle_state: self.vehicle_state@,
            users: self.users@,
            current_user_id: self.current_user_id,
            subscribers: self.change_subscribers@,
        }
    }
}

/// Whether a requested change of the group's settings `gs` is refused: the
/// key is not a setting of the group, the value is missing, or it is not a
/// valid value for the setting.
pub open spec fn rejects(gs: Seq<(Seq<char>, SettingView)>, p: SettingProtoView) -> bool {
    match lookup(gs, p.key) {
        None => true,
        Some(s) => match p.value {
            None => true,
            Some(v) => !valid_value(s, v),
        },
    }
}

/// Whether `r` reports the refusal of the change `p` of the group `g`.
pub open spec fn rejection_of(g: SettingsGroupView, p: SettingProtoView, r: ChangeRejection) -> bool {
    match lookup(g.settings, p.key) {
        None => r matches ChangeRejection::UnknownSetting { key, group } && key@ == p.key
            && group@ == g.id,
        Some(s) => match p.value {
            None => r matches ChangeRejection::MissingValue { key } && key@ == p.key,
            Some(v) => r matches ChangeRejection::InvalidValue { key, value } && key@ == p.key
                && value@ == v,
        },
    }
}

/// Checks requested changes in order; the first refused one is reported.
pub fn validate_requested_setting_changes(
    current_settings: &SettingsGroup,
    requested_setting_changes: &Vec<SettingProto>,
) -> (r: Result<(), ChangeRejection>)
    requires
        current_settings.wf(),
    ensures
        r is Ok <==> forall|i: int|
            0 <= i < requested_setting_changes@.len() ==> !rejects(
                current_settings@.settings,
                #[trigger] requested_setting_changes@[i]@,
            ),
        match r {
            Ok(_) => true,
            Err(rej) => exists|i: int|
                0 <= i < requested_setting_changes@.len() && (forall|j: int|
                    0 <= j < i ==> !rejects(
                        current_settings@.settings,
                        #[trigger] requested_setting_changes@[j]@,
                    )) && rejects(current_settings@.settings, requested_setting_changes@[i]@)
                    && rejection_of(current_settings@, requested_setting_changes@[i]@, rej),
        },
{
    let n = requested_setting_changes.len();
    let mut i: usize = 0;
    while i < n
        invariant
            n == requested_setting_changes@.len(),
            i <= n,
            current_settings.wf(),
            forall|j: int|
                0 <= j < i ==> !rejects(
                    current_settings@.settings,
                    #[trigger] requested_setting_changes@[j]@,
                ),
        decreases n - i,
    {
        let setting = &requested_setting_changes[i];
        let current = match current_settings.settings.get(&setting.key) {
            Some(x) => x,
            None => {
                assert(rejects(current_settings@.settings, requested_setting_changes@[i as int]@));
                return Err(
                    ChangeRejection::UnknownSetting {
                        key: setting.key.clone(),
                        group: current_settings.id.view_clone(),
                    },
                );
            },
        };
        match &setting.value {
            Some(value) => {
                if !current.is_valid_value(value) {
                    assert(rejects(current_settings@.settings, requested_setting_changes@[i as int]@));
                    return Err(
                        ChangeRejection::InvalidValue {
                            key: setting.key.clone(),
                            value: value.view_clone(),
                        },
                    );
                }
            },
            None => {
                assert(rejects(current_settings@.settings, requested_setting_changes@[i as int]@));
                return Err(ChangeRejection::MissingValue { key: setting.key.clone() });
            },
        }
        i = i + 1;
    }
    Ok(())
}

/// Whether `p` is the message form of the setting `s` with its constraints.
pub open spec fn setting_and_constraints_of(p: SettingAndConstraints, s: SettingView) -> bool {
    &&& p.setting matches Some(x)
    &&& x.key@ == s.name
    &&& value_view(x.value) == Some(s.value)
    &&& constraints_view(p.constraints) == s.constraints
}

/// The subscribers after `caller` subscribed to the group `gid`.
pub open spec fn subscribers_after_subscribe(
    subs: Seq<((Seq<char>, Seq<char>), Seq<(Seq<char>, ())>)>,
    gid: (Seq<char>, Seq<char>),
    caller: Seq<char>,
) -> Seq<((Seq<char>, Seq<char>), Seq<(Seq<char>, ())>)> {
    let set = match lookup(subs, gid) {
        Some(s) => s,
        None => Seq::empty(),
    };
    list_insert(subs, gid, list_insert(set, caller, ()))
}

/// The settings of a group after registering the settings of `defs` that it
/// does not hold yet, in order; settings it holds keep their values.
pub open spec fn add_absent_settings(
    m: Seq<(Seq<char>, SettingView)>,
    defs: Seq<SettingDefinition>,
) -> Seq<(Seq<char>, SettingView)>
    decreases defs.len(),
{
    if defs.len() == 0 {
        m
    } else {
        let rest = add_absent_settings(m, defs.drop_last());
        let s = definition_setting(defs.last());
        if has_key(rest, s.name) {
            rest
        } else {
            rest.push((s.name, s))
        }
    }
}

/// Whether a registration changes anything: the group is not registered, or
/// it is registered with another version.
pub open spec fn registration_changes(
    groups: Seq<((Seq<char>, Seq<char>), SettingsGroupView)>,
    gid: (Seq<char>, Seq<char>),
    version: Seq<char>,
) -> bool {
    match lookup(groups, gid) {
        None => true,
        Some(g) => g.version != version,
    }
}

/// The groups of the vehicle after a registration. A new group gets the
/// version of the registration; a registered group keeps its version. Either
/// way the settings it does not hold yet are added.
pub open spec fn groups_after_register(
    groups: Seq<((Seq<char>, Seq<char>), SettingsGroupView)>,
    gid: (Seq<char>, Seq<char>),
    version: Seq<char>,
    defs: Seq<SettingDefinition>,
) -> Seq<((Seq<char>, Seq<char>), SettingsGroupView)> {
    if !registration_changes(groups, gid, version) {
        groups
    } else {
        let g0 = match lookup(groups, gid) {
            Some(g) => g,
            None => SettingsGroupView { id: gid, version, settings: Seq::empty() },
        };
        list_insert(
            groups,
            gid,
            SettingsGroupView { settings: add_absent_settings(g0.settings, defs), ..g0 },
        )
    }
}

/// The settings of a group after an update: in order, each update whose key
/// names a setting of the group and whose value is valid for it sets the
/// value; the others change nothing.
pub open spec fn apply_updates(
    m: Seq<(Seq<char>, SettingView)>,
    ups: Seq<SettingProtoView>,
) -> Seq<(Seq<char>, SettingView)>
    decreases ups.len(),
{
    if ups.len() == 0 {
        m
    } else {
        let rest = apply_updates(m, ups.drop_last());
        let u = ups.last();
        match lookup(rest, u.key) {
            Some(s) => if u.value is Some && valid_value(s, u.value.unwrap()) {
                rest.update(
                    key_index(rest, u.key),
                    (rest[key_index(rest, u.key)].0, SettingView { value: u.value.unwrap(), ..s }),
                )
            } else {
                rest
            },
            None => rest,
        }
    }
}

/// A group with an update applied to its settings.
pub open spec fn updated_group(g: SettingsGroupView, ups: Seq<SettingProtoView>) -> SettingsGroupView {
    SettingsGroupView { settings: apply_updates(g.settings, ups), ..g }
}

/// The groups of a configuration with an update applied to the group `gid`.
pub open spec fn groups_after_update(
    groups: Seq<((Seq<char>, Seq<char>), SettingsGroupView)>,
    gid: (Seq<char>, Seq<char>),
    ups: Seq<SettingProtoView>,
) -> Seq<((Seq<char>, Seq<char>), SettingsGroupView)> {
    let k = key_index(groups, gid);
    groups.update(k, (groups[k].0, updated_group(groups[k].1, ups)))
}

/// The users after an update of the group `gid`: the selected user's copy of
/// the group is updated too.
pub open spec fn users_after_update(
    v: ServiceView,
    gid: (Seq<char>, Seq<char>),
    ups: Seq<SettingProtoView>,
) -> Seq<(i32, VehicleConfigurationView)> {
    match v.current_user_id {
        None => v.users,
        Some(c) => {
            let k = key_index(v.users, c);
            let cfg = v.users[k].1;
            v.users.update(
                k,
                (
                    c,
                    VehicleConfigurationView {
                        settings_groups: groups_after_update(cfg.settings_groups, gid, ups),
                        ..cfg
                    },
                ),
            )
        },
    }
}

/// Whether every update carries a value.
pub open spec fn all_have_values(ups: Seq<SettingProtoView>) -> bool {
    forall|i: int| 0 <= i < ups.len() ==> (#[trigger] ups[i]).value is Some
}

/// An update of the group `gid` can be applied: when the group is registered,
/// every update carries a value and a user is selected, that user holds a
/// copy of the group. (A user created before the group was registered holds
/// none.)
pub open spec fn update_applicable(
    v: ServiceView,
    gid: (Seq<char>, Seq<char>),
    ups: Seq<SettingProtoView>,
) -> bool {
    (lookup(v.vehicle_state.settings_groups, gid) is Some && all_have_values(ups)
        && v.current_user_id is Some) ==> lookup(
        lookup(v.users, v.current_user_id.unwrap()).unwrap().settings_groups,
        gid,
    ) is Some
}

/// The names of the subscribers of a group, in order.
pub open spec fn subscriber_names(
    subs: Seq<((Seq<char>, Seq<char>), Seq<(Seq<char>, ())>)>,
    gid: (Seq<char>, Seq<char>),
) -> Seq<Seq<char>> {
    match lookup(subs, gid) {
        Some(set) => set.map_values(|e: (Seq<char>, ())| e.0),
        None => Seq::empty(),
    }
}

/// The views of a sequence of strings.
pub open spec fn string_views(s: Seq<String>) -> Seq<Seq<char>> {
    s.map_values(|x: String| x@)
}

/// Copies setting messages.
pub fn copy_protos(v: &Vec<SettingProto>) -> (r: Vec<SettingProto>)
    ensures
        proto_views(r@) == proto_views(v@),
{
    let mut r: Vec<SettingProto> = Vec::new();
    let n = v.len();
    let mut k: usize = 0;
    while k < n
        invariant
            n == v@.len(),
            k <= n,
            proto_views(r@) == proto_views(v@).subrange(0, k as int),
        decreases n - k,
    {
        let ghost prev = r@;
        let c = v[k].view_clone();
        let ghost cv = c@;
        r.push(c);
        assert(proto_views(r@) =~= proto_views(prev).push(cv));
        k = k + 1;
        assert(proto_views(r@) =~= proto_views(v@).subrange(0, k as int));
    }
    assert(proto_views(r@) =~= proto_views(v@));
    r
}

/// Whether every message carries a value.
pub fn all_values_present(v: &Vec<SettingProto>) -> (b: bool)
    ensures
        b == all_have_values(proto_views(v@)),
{
    let n = v.len();
    let mut j: usize = 0;
    while j < n
        invariant
            n == v@.len(),
            j <= n,
            forall|i: int| 0 <= i < j ==> (#[trigger] proto_views(v@)[i]).value is Some,
        decreases n - j,
    {
        if v[j].value.is_none() {
            assert(proto_views(v@)[j as int].value is None);
            return false;
        }
        j = j + 1;
    }
    true
}

/// Applies an update to the settings of a group.
fn apply_updates_to_group(group: &mut SettingsGroup, settings: &Vec<SettingProto>)
    requires
        old(group).wf(),
        all_have_values(proto_views(settings@)),
    ensures
        final(group).wf(),
        final(group)@ == updated_group(old(group)@, proto_views(settings@)),
{
    let ghost ups = proto_views(settings@);
    let ghost start = group@;
    let n = settings.len();
    let mut i: usize = 0;
    while i < n
        invariant
            n == settings@.len(),
            ups == proto_views(settings@),
            all_have_values(ups),
            i <= n,
            group.wf(),
            group@ == updated_group(start, ups.subrange(0, i as int)),
        decreases n - i,
    {
        let u = &settings[i];
        let ghost rest = group@.settings;
        assert(ups.subrange(0, i + 1).drop_last() =~= ups.subrange(0, i as int));
        assert(ups.subrange(0, i + 1).last() == u@);
        assert(ups[i as int].value is Some);
        assert(u@.value is Some);
        match group.settings.find(&u.key) {
            Some(k) => {
                proof {
                    lemma_key_index_unique(rest, k as int);
                }
                let value = u.value.as_ref().unwrap().view_clone();
                assert(value@ == u@.value.unwrap());
                let setting = group.settings.value_at_mut(k);
                let res = setting.set_value(value);
                proof {
                    lemma_update_value_keeps_keys(rest, k as int, setting@);
                    if res is Ok {
                        assert(group@.settings == rest.update(
                            k as int,
                            (rest[k as int].0, SettingView { value: u@.value.unwrap(), ..rest[k as int].1 }),
                        ));
                    } else {
                        assert(group@.settings =~= rest);
                    }
                }
            },
            None => {},
        }
        i = i + 1;
    }
    assert(ups.subrange(0, n as int) =~= ups);
}

/// An error with the given class and reason.
fn error(error_code: ResponseCode, reason: ErrorReason) -> (e: ServiceError)
    ensures
        e.error_code == error_code,
        e.reason == reason,
{
    ServiceError { error_code, reason }
}

impl UserPreferencesServiceImpl {
    pub open spec fn wf(&self) -> bool {
        service_wf(self@)
    }

    /// A service without settings, users or subscribers.
    pub fn new() -> (s: Self)
        ensures
            s.wf(),
            s@.vehicle_state.settings_groups.len() == 0,
            s@.vehicle_state.user == (User { id: 0, flags: 0 }),
            s@.users.len() == 0,
            (s@.current_user_id is None),
            s@.subscribers.len() == 0,
    {
        UserPreferencesServiceImpl {
            vehicle_state: VehicleConfiguration::new(User::new()),
            users: ListMap::new(),
            current_user_id: None,
            change_subscribers: ListMap::new(),
        }
    }

    /// The selected user, if any.
    pub fn current_user_id(&self) -> (r: Option<i32>)
        ensures
            r == self@.current_user_id,
    {
        self.current_user_id
    }

    /// Whether the flags are those of a driver, optionally ephemeral, and
    /// nothing else.
    pub fn are_valid_user_flags(user_flags: i32) -> (r: bool)
        ensures
            r == valid_user_flags(user_flags),
    {
        (user_flags & USER_FLAG_DRIVER) == USER_FLAG_DRIVER && (user_flags & !(USER_FLAG_EPHEMERAL
            | USER_FLAG_DRIVER)) == 0
    }

    /// Creates a user whose settings are those of the vehicle, reset to their
    /// defaults.
    pub fn create_user(&mut self, user: Option<User>) -> (r: Result<(), ServiceError>)
        requires
            old(self).wf(),
        ensures
            final(self).wf(),
            match user {
                None => r matches Err(e) && e.error_code == ResponseCode::InvalidRequest
                    && e.reason is MissingUser && final(self)@ == old(self)@,
                Some(u) => if has_key(old(self)@.users, u.id) {
                    r matches Err(e) && e.error_code == ResponseCode::AlreadyExists
                        && e.reason == ErrorReason::UserIdInUse(u.id) && final(self)@ == old(
                        self,
                    )@
                } else if !valid_user_flags(u.flags) {
                    r matches Err(e) && e.error_code == ResponseCode::InvalidRequest
                        && e.reason == ErrorReason::InvalidUserFlags(u.flags) && final(self)@
                        == old(self)@
                } else {
                    r is Ok && final(self)@ == (ServiceView {
                        users: old(self)@.users.push(
                            (u.id, new_user_view(old(self)@.vehicle_state, u)),
                        ),
                        ..old(self)@
                    })
                },
            },
    {
        let u = match user {
            None => {
                return Err(error(ResponseCode::InvalidRequest, ErrorReason::MissingUser));
            },
            Some(u) => u,
        };
        if self.users.contains_key(&u.id) {
            return Err(error(ResponseCode::AlreadyExists, ErrorReason::UserIdInUse(u.id)));
        }
        if !Self::are_valid_user_flags(u.flags) {
            return Err(error(ResponseCode::InvalidRequest, ErrorReason::InvalidUserFlags(u.flags)));
        }
        let mut new_user = self.vehicle_state.view_clone();
        new_user.reset_settings();
        new_user.user = User { id: u.id, flags: u.flags };
        let ghost nv = new_user@;
        assert(configuration_wf(nv));
        let ghost before = self.users@;
        self.users.insert(u.id, new_user);
        proof {
            let s = self.users@;
            assert(s == before.push((u.id, nv)));
            assert forall|i: int| 0 <= i < s.len() implies configuration_wf(#[trigger] s[i].1)
                && s[i].0 == s[i].1.user.id by {
                if i < before.len() {
                    assert(s[i] == before[i]);
                }
            }
            if let Some(c) = self.current_user_id {
                assert(self.users.get_spec(c) is Some);
            }
        }
        Ok(())
    }

    /// Selects a user. The previously selected user is deleted when it is
    /// ephemeral and another user is selected. Returns, for each settings
    /// group of the selected user in order, its per-user settings, to be sent
    /// to the service that registered the group.
    #[verifier::spinoff_prover]
    pub fn select_user(&mut self, user_id: i32) -> (r: Result<Vec<SettingsApplication>, ServiceError>)
        requires
            old(self).wf(),
        ensures
            final(self).wf(),
            match lookup(old(self)@.users, user_id) {
                None => (r matches Err(e) && e.error_code == ResponseCode::NotFoundError
                    && e.reason == ErrorReason::SelectedUserNotFound(user_id) && final(self)@
                    == old(self)@),
                Some(target) => (r matches Ok(apps) && apps@.len()
                    == target.settings_groups.len() && (forall|i: int|
                    0 <= i < apps@.len() ==> #[trigger] apps@[i].group_id@
                        == target.settings_groups[i].0 && proto_views(apps@[i].settings@)
                        == per_user_settings(target.settings_groups[i].1.settings))
                    && final(self)@ == (ServiceView {
                    users: users_after_select(old(self)@, user_id),
                    current_user_id: Some(user_id),
                    ..old(self)@
                })),
            },
    {
        let target = match self.users.get(&user_id) {
            Some(t) => t,
            None => {
                return Err(
                    error(ResponseCode::NotFoundError, ErrorReason::SelectedUserNotFound(user_id)),
                );
            },
        };
        let mut apps: Vec<SettingsApplication> = Vec::new();
        let n = target.settings_groups.len();
        let mut i: usize = 0;
        while i < n
            invariant
                n == target@.settings_groups.len(),
                i <= n,
                apps@.len() == i,
                forall|j: int|
                    0 <= j < i ==> #[trigger] apps@[j].group_id@ == target@.settings_groups[j].0
                        && proto_views(apps@[j].settings@) == per_user_settings(
                        target@.settings_groups[j].1.settings,
                    ),
            decreases n - i,
        {
            let gid = target.settings_groups.key_at(i).view_clone();
            let group = target.settings_groups.value_at(i);
            apps.push(SettingsApplication { group_id: gid, settings: per_user_protos(group) });
            i = i + 1;
        }
        let ghost expected = users_after_select(self@, user_id);
        if let Some(c) = self.current_user_id {
            let ephemeral = match self.users.get(&c) {
                Some(p) => p.is_ephemeral(),
                None => false,
            };
            if ephemeral && user_id != c {
                let ghost before = self.users@;
                let ghost idx = key_index(before, c);
                self.users.remove(&c);
                proof {
                    let s = self.users@;
                    assert(s == before.remove(idx));
                    assert forall|i: int| 0 <= i < s.len() implies configuration_wf(
                        #[trigger] s[i].1,
                    ) && s[i].0 == s[i].1.user.id by {
                        if i < idx {
                            assert(s[i] == before[i]);
                        } else {
                            assert(s[i] == before[i + 1]);
                        }
                    }
                }
            }
        }
        assert(self.users@ == expected);
        assert(self.users.get_spec(user_id) is Some);
        self.current_user_id = Some(user_id);
        Ok(apps)
    }

    /// Deletes a user that is not selected.
    pub fn delete_user(&mut self, user_id: i32) -> (r: Result<(), ServiceError>)
        requires
            old(self).wf(),
        ensures
            final(self).wf(),
            if !has_key(old(self)@.users, user_id) {
                r matches Err(e) && e.error_code == ResponseCode::NotFoundError && e.reason
                    == ErrorReason::DeletedUserNotFound(user_id) && final(self)@ == old(self)@
            } else if old(self)@.current_user_id == Some(user_id) {
                r matches Err(e) && e.error_code == ResponseCode::InvalidRequest && e.reason
                    == ErrorReason::UserInUse(user_id) && final(self)@ == old(self)@
            } else {
                r is Ok && final(self)@ == (ServiceView {
                    users: old(self)@.users.remove(key_index(old(self)@.users, user_id)),
                    ..old(self)@
                })
            },
    {
        if !self.users.contains_key(&user_id) {
            return Err(
                error(ResponseCode::NotFoundError, ErrorReason::DeletedUserNotFound(user_id)),
            );
        }
        if self.current_user_id == Some(user_id) {
            return Err(error(ResponseCode::InvalidRequest, ErrorReason::UserInUse(user_id)));
        }
        let ghost before = self.users@;
        let ghost idx = key_index(before, user_id);
        self.users.remove(&user_id);
        proof {
            let s = self.users@;
            assert(s == before.remove(idx));
            assert forall|i: int| 0 <= i < s.len() implies configuration_wf(#[trigger] s[i].1)
                && s[i].0 == s[i].1.user.id by {
                if i < idx {
                    assert(s[i] == before[i]);
                } else {
                    assert(s[i] == before[i + 1]);
                }
            }
            if let Some(c) = self.current_user_id {
                assert(self.users.get_spec(c) is Some);
            }
        }
        Ok(())
    }

    /// Forgets every user and the selection.
    pub fn factory_reset(&mut self)
        requires
            old(self).wf(),
        ensures
            final(self).wf(),
            final(self)@ == (ServiceView {
                users: Seq::empty(),
                current_user_id: None,
                ..old(self)@
            }),
    {
        self.users.clear();
        self.current_user_id = None;
    }

    /// The answer to a factory reset, given how the reset of the services went.
    pub fn factory_reset_response(outcome: Result<(), String>) -> (r: Result<(), ServiceError>)
        ensures
            match outcome {
                Ok(_) => r is Ok,
                Err(m) => r matches Err(e) && e.error_code == ResponseCode::InternalError
                    && e.reason == ErrorReason::ServiceFailure(m),
            },
    {
        match outcome {
            Ok(_) => Ok(()),
            Err(m) => Err(error(ResponseCode::InternalError, ErrorReason::ServiceFailure(m))),
        }
    }

    /// The users, in the order in which they were created.
    pub fn list_users(&self) -> (r: Vec<User>)
        requires
            self.wf(),
        ensures
            r@ == self@.users.map_values(|e: (i32, VehicleConfigurationView)| e.1.user),
    {
        let mut r: Vec<User> = Vec::new();
        let n = self.users.len();
        let mut i: usize = 0;
        while i < n
            invariant
                n == self@.users.len(),
                i <= n,
                r@ == self@.users.map_values(
                    |e: (i32, VehicleConfigurationView)| e.1.user,
                ).subrange(0, i as int),
            decreases n - i,
        {
            let c = self.users.value_at(i);
            r.push(c.user);
            i = i + 1;
            assert(r@ =~= self@.users.map_values(
                |e: (i32, VehicleConfigurationView)| e.1.user,
            ).subrange(0, i as int));
        }
        assert(r@ =~= self@.users.map_values(|e: (i32, VehicleConfigurationView)| e.1.user));
        r
    }

    /// The settings groups of a user, in order, with current values.
    pub fn get_user_settings(&self, user_id: i32) -> (r: Result<Vec<SettingsGroupProto>, ServiceError>)
        requires
            self.wf(),
        ensures
            match lookup(self@.users, user_id) {
                None => r matches Err(e) && e.error_code == ResponseCode::InvalidRequest
                    && e.reason == ErrorReason::SettingsOfUnknownUser(user_id),
                Some(c) => r matches Ok(groups) && groups@.len() == c.settings_groups.len() && (
                forall|i: int|
                    0 <= i < groups@.len() ==> group_proto_of(
                        #[trigger] groups@[i],
                        c.settings_groups[i].1,
                    )),
            },
    {
        let user = match self.users.get(&user_id) {
            Some(u) => u,
            None => {
                return Err(
                    error(ResponseCode::InvalidRequest, ErrorReason::SettingsOfUnknownUser(user_id)),
                );
            },
        };
        let mut groups: Vec<SettingsGroupProto> = Vec::new();
        let n = user.settings_groups.len();
        let mut i: usize = 0;
        while i < n
            invariant
                n == user@.settings_groups.len(),
                i <= n,
                groups@.len() == i,
                forall|j: int|
                    0 <= j < i ==> group_proto_of(
                        #[trigger] groups@[j],
                        user@.settings_groups[j].1,
                    ),
            decreases n - i,
        {
            let g = user.settings_groups.value_at(i);
            groups.push(g.to_proto());
            i = i + 1;
        }
        Ok(groups)
    }
}

impl UserPreferencesServiceImpl {
    /// Validates a settings change of a registered group. When the change is
    /// valid, returns it, to be sent to the service that registered the
    /// group; the state does not change.
    pub fn request_settings_change(
        &self,
        settings_group_id: SettingsGroupId,
        settings: Vec<SettingProto>,
    ) -> (r: Result<SettingsApplication, ServiceError>)
        requires
            self.wf(),
        ensures
            match lookup(self@.vehicle_state.settings_groups, settings_group_id@) {
                None => (r matches Err(e) && e.error_code == ResponseCode::InvalidRequest
                    && (e.reason matches ErrorReason::GroupNotFound(g) && g@ == settings_group_id@)),
                Some(g) => if (forall|i: int|
                    0 <= i < settings@.len() ==> !rejects(g.settings, #[trigger] settings@[i]@)) {
                    (r matches Ok(app) && app.group_id@ == settings_group_id@ && proto_views(
                        app.settings@,
                    ) == proto_views(settings@))
                } else {
                    (r matches Err(e) && e.error_code == ResponseCode::InvalidRequest
                        && (e.reason matches ErrorReason::InvalidChange(rej) && exists|i: int|
                        0 <= i < settings@.len() && (forall|j: int|
                            0 <= j < i ==> !rejects(g.settings, #[trigger] settings@[j]@))
                            && rejects(g.settings, settings@[i]@) && rejection_of(
                            g,
                            settings@[i]@,
                            rej,
                        )))
                },
            },
    {
        let current_settings = match self.vehicle_state.settings_groups.get(&settings_group_id) {
            Some(g) => g,
            None => {
                return Err(
                    error(ResponseCode::InvalidRequest, ErrorReason::GroupNotFound(settings_group_id)),
                );
            },
        };
        proof {
            let gs = self@.vehicle_state.settings_groups;
            let k = key_index(gs, settings_group_id@);
            assert(distinct_keys(gs[k].1.settings));
        }
        match validate_requested_setting_changes(current_settings, &settings) {
            Ok(_) => Ok(SettingsApplication { group_id: settings_group_id, settings }),
            Err(rej) => Err(error(ResponseCode::InvalidRequest, ErrorReason::InvalidChange(rej))),
        }
    }

    /// The answer to a settings change, given how sending it went.
    pub fn settings_change_response(outcome: Result<(), String>) -> (r: Result<(), ServiceError>)
        ensures
            match outcome {
                Ok(_) => r is Ok,
                Err(m) => (r matches Err(e) && e.error_code == ResponseCode::RuntimeError
                    && e.reason == ErrorReason::ServiceFailure(m)),
            },
    {
        match outcome {
            Ok(_) => Ok(()),
            Err(m) => Err(error(ResponseCode::RuntimeError, ErrorReason::ServiceFailure(m))),
        }
    }

    /// Adds `caller_fqin` to the subscribers of the group, whether or not the
    /// group is registered, and returns the group's settings when it is.
    pub fn subscribe_to_settings_change_and_get_settings(
        &mut self,
        settings_group_id: SettingsGroupId,
        caller_fqin: String,
    ) -> (r: Result<SubscribeResponse, ServiceError>)
        requires
            old(self).wf(),
        ensures
            final(self).wf(),
            final(self)@ == (ServiceView {
                subscribers: subscribers_after_subscribe(
                    old(self)@.subscribers,
                    settings_group_id@,
                    caller_fqin@,
                ),
                ..old(self)@
            }),
            match lookup(old(self)@.vehicle_state.settings_groups, settings_group_id@) {
                None => (r matches Err(e) && e.error_code == ResponseCode::InvalidRequest
                    && (e.reason matches ErrorReason::SubscribedGroupMissing(g) && g@
                    == settings_group_id@)),
                Some(g) => (r matches Ok(resp) && resp.version@ == g.version
                    && resp.current_settings@.len() == g.settings.len() && forall|i: int|
                    0 <= i < resp.current_settings@.len() ==> setting_and_constraints_of(
                        #[trigger] resp.current_settings@[i],
                        g.settings[i].1,
                    )),
            },
    {
        let ghost old_subs = self.change_subscribers@;
        let gid = settings_group_id.view_clone();
        match self.change_subscribers.find(&settings_group_id) {
            Some(i) => {
                let set = self.change_subscribers.value_at_mut(i);
                set.insert(caller_fqin, ());
                proof {
                    lemma_key_index_unique(old_subs, i as int);
                    lemma_update_value_keeps_keys(old_subs, i as int, set@);
                }
            },
            None => {
                let mut set: ListMap<String, ()> = ListMap::new();
                set.insert(caller_fqin, ());
                self.change_subscribers.insert(settings_group_id, set);
            },
        }
        proof {
            let s = self.change_subscribers@;
            assert forall|i: int| 0 <= i < s.len() implies distinct_keys(#[trigger] s[i].1) by {
                if i < old_subs.len() && s[i] == old_subs[i] {
                }
            }
        }
        let group = match self.vehicle_state.settings_groups.get(&gid) {
            Some(g) => g,
            None => {
                return Err(error(ResponseCode::InvalidRequest, ErrorReason::SubscribedGroupMissing(gid)));
            },
        };
        let mut current_settings: Vec<SettingAndConstraints> = Vec::new();
        let n = group.settings.len();
        let mut i: usize = 0;
        while i < n
            invariant
                n == group@.settings.len(),
                i <= n,
                current_settings@.len() == i,
                forall|j: int|
                    0 <= j < i ==> setting_and_constraints_of(
                        #[trigger] current_settings@[j],
                        group@.settings[j].1,
                    ),
            decreases n - i,
        {
            let setting = group.settings.value_at(i);
            current_settings.push(setting.to_setting_and_constraints());
            i = i + 1;
        }
        Ok(SubscribeResponse { current_settings, version: group.version.clone() })
    }

    /// Removes `caller_fqin` from the subscribers of a group that has
    /// subscribers (it need not be one of them).
    pub fn unsubscribe_from_settings_change(
        &mut self,
        settings_group_id: SettingsGroupId,
        caller_fqin: String,
    ) -> (r: Result<(), ServiceError>)
        requires
            old(self).wf(),
        ensures
            final(self).wf(),
            match lookup(old(self)@.subscribers, settings_group_id@) {
                None => (r matches Err(e) && e.error_code == ResponseCode::InvalidRequest
                    && (e.reason matches ErrorReason::UnsubscribedGroupMissing(g) && g@
                    == settings_group_id@) && final(self)@ == old(self)@),
                Some(set) => r is Ok && final(self)@ == (ServiceView {
                    subscribers: old(self)@.subscribers.update(
                        key_index(old(self)@.subscribers, settings_group_id@),
                        (settings_group_id@, list_remove(set, caller_fqin@)),
                    ),
                    ..old(self)@
                }),
            },
    {
        let ghost old_subs = self.change_subscribers@;
        match self.change_subscribers.find(&settings_group_id) {
            Some(i) => {
                proof {
                    lemma_key_index_unique(old_subs, i as int);
                }
                let set = self.change_subscribers.value_at_mut(i);
                set.remove(&caller_fqin);
                proof {
                    lemma_update_value_keeps_keys(old_subs, i as int, set@);
                    let s = self.change_subscribers@;
                    assert forall|j: int| 0 <= j < s.len() implies distinct_keys(#[trigger] s[j].1) by {
                        if j != i {
                            assert(s[j] == old_subs[j]);
                        }
                    }
                }
                Ok(())
            },
            None => Err(
                error(
                    ResponseCode::InvalidRequest,
                    ErrorReason::UnsubscribedGroupMissing(settings_group_id),
                ),
            ),
        }
    }
}

impl UserPreferencesServiceImpl {
    /// Whether registering the group `group_name` of `caller_fqin` with
    /// `version` changes anything: the group is not registered, or is
    /// registered with another version.
    pub fn registration_changes(&self, caller_fqin: &String, group_name: &String, version: &String) -> (r:
        bool)
        requires
            self.wf(),
        ensures
            r == registration_changes(
                self@.vehicle_state.settings_groups,
                (caller_fqin@, group_name@),
                version@,
            ),
    {
        let gid = SettingsGroupId::new(caller_fqin.clone(), group_name.clone());
        match self.vehicle_state.settings_groups.get(&gid) {
            None => true,
            Some(g) => !(g.version == *version),
        }
    }

    /// Whether an update of the group `group_name` of `caller_fqin` can be
    /// applied: see `update_applicable`.
    pub fn update_is_applicable(
        &self,
        caller_fqin: &String,
        group_name: &String,
        settings: &Vec<SettingProto>,
    ) -> (r: bool)
        requires
            self.wf(),
        ensures
            r == update_applicable(self@, (caller_fqin@, group_name@), proto_views(settings@)),
    {
        let gid = SettingsGroupId::new(caller_fqin.clone(), group_name.clone());
        if !self.vehicle_state.settings_groups.contains_key(&gid) {
            return true;
        }
        if !all_values_present(settings) {
            return true;
        }
        match self.current_user_id {
            None => true,
            Some(c) => match self.users.get(&c) {
                Some(cfg) => cfg.settings_groups.contains_key(&gid),
                None => true,
            },
        }
    }

    /// Registers a group of settings for a service. When the group is not
    /// registered, or registered with another version, the settings it does
    /// not hold yet are added with their values as defaults; settings it
    /// holds keep their current values.
    pub fn register_settings(
        &mut self,
        caller_fqin: String,
        group_name: String,
        version: String,
        settings_definitions: Vec<SettingDefinition>,
    )
        requires
            old(self).wf(),
            registration_changes(
                old(self)@.vehicle_state.settings_groups,
                (caller_fqin@, group_name@),
                version@,
            ) ==> forall|i: int|
                0 <= i < settings_definitions@.len() ==> (
                #[trigger] settings_definitions@[i]).is_complete(),
        ensures
            final(self).wf(),
            final(self)@ == (ServiceView {
                vehicle_state: VehicleConfigurationView {
                    settings_groups: groups_after_register(
                        old(self)@.vehicle_state.settings_groups,
                        (caller_fqin@, group_name@),
                        version@,
                        settings_definitions@,
                    ),
                    ..old(self)@.vehicle_state
                },
                ..old(self)@
            }),
    {
        let ghost vv = version@;
        let ghost defs = settings_definitions@;
        let gid = SettingsGroupId::new(caller_fqin, group_name);
        let changes = match self.vehicle_state.settings_groups.get(&gid) {
            None => true,
            Some(g) => !(g.version == version),
        };
        if !changes {
            return;
        }
        let ghost groups0 = self.vehicle_state.settings_groups@;
        let idx = match self.vehicle_state.settings_groups.find(&gid) {
            Some(i) => i,
            None => {
                let g = SettingsGroup::new(gid.view_clone(), version, Vec::new());
                assert(g@.settings =~= Seq::<(Seq<char>, SettingView)>::empty());
                self.vehicle_state.settings_groups.insert(gid, g);
                self.vehicle_state.settings_groups.len() - 1
            },
        };
        let ghost groups1 = self.vehicle_state.settings_groups@;
        proof {
            lemma_key_index_unique(groups1, idx as int);
            assert(distinct_keys(groups1[idx as int].1.settings)) by {
                if idx < groups0.len() {
                    assert(groups1[idx as int] == groups0[idx as int]);
                }
            }
        }
        let ghost g0 = groups1[idx as int].1;
        let group = self.vehicle_state.settings_groups.value_at_mut(idx);
        let n = settings_definitions.len();
        let mut j: usize = 0;
        while j < n
            invariant
                n == settings_definitions@.len(),
                j <= n,
                forall|i: int|
                    0 <= i < settings_definitions@.len() ==> (
                    #[trigger] settings_definitions@[i]).is_complete(),
                group.wf(),
                group@ == (SettingsGroupView {
                    settings: add_absent_settings(
                        g0.settings,
                        settings_definitions@.subrange(0, j as int),
                    ),
                    ..g0
                }),
            decreases n - j,
        {
            let setting = Setting::from_definition(&settings_definitions[j]);
            assert(settings_definitions@.subrange(0, j + 1).drop_last()
                =~= settings_definitions@.subrange(0, j as int));
            if !group.settings.contains_key(&setting.name) {
                let name = setting.name.clone();
                group.settings.insert(name, setting);
            }
            j = j + 1;
        }
        assert(settings_definitions@.subrange(0, n as int) =~= settings_definitions@);
        proof {
            let gs = self.vehicle_state.settings_groups@;
            assert(gs =~= groups_after_register(groups0, gid@, vv, defs));
            lemma_update_value_keeps_keys(groups1, idx as int, gs[idx as int].1);
            assert forall|i: int| 0 <= i < gs.len() implies distinct_keys(
                #[trigger] gs[i].1.settings,
            ) by {
                if i != idx {
                    assert(gs[i] == groups1[i]);
                    if i < groups0.len() {
                        assert(groups1[i] == groups0[i]);
                    }
                }
            }
        }
    }

    /// Updates the settings of a registered group, and the selected user's
    /// copy of them; an update whose value is not valid for its setting, or
    /// whose key names none, changes nothing. Returns the update, to be sent
    /// to the subscribers of the group.
    pub fn update_settings(
        &mut self,
        caller_fqin: String,
        group_name: String,
        settings: Vec<SettingProto>,
    ) -> (r: Result<SettingsChangeNotification, ServiceError>)
        requires
            old(self).wf(),
            update_applicable(old(self)@, (caller_fqin@, group_name@), proto_views(settings@)),
        ensures
            final(self).wf(),
            match lookup(old(self)@.vehicle_state.settings_groups, (caller_fqin@, group_name@)) {
                None => (r matches Err(e) && e.error_code == ResponseCode::NotFoundError
                    && (e.reason matches ErrorReason::GroupNotFound(g) && g@ == (
                    caller_fqin@,
                    group_name@,
                )) && final(self)@ == old(self)@),
                Some(g) => if !all_have_values(proto_views(settings@)) {
                    (r matches Err(e) && e.error_code == ResponseCode::InvalidRequest
                        && (e.reason matches ErrorReason::MissingValues(v) && proto_views(v@)
                        == proto_views(settings@)) && final(self)@ == old(self)@)
                } else {
                    (r matches Ok(n) && n.group_id@ == (caller_fqin@, group_name@)
                        && n.version@ == g.version && proto_views(n.settings@) == proto_views(
                        settings@,
                    ) && string_views(n.subscribers@) == subscriber_names(
                        old(self)@.subscribers,
                        (caller_fqin@, group_name@),
                    ) && final(self)@ == (ServiceView {
                        vehicle_state: VehicleConfigurationView {
                            settings_groups: groups_after_update(
                                old(self)@.vehicle_state.settings_groups,
                                (caller_fqin@, group_name@),
                                proto_views(settings@),
                            ),
                            ..old(self)@.vehicle_state
                        },
                        users: users_after_update(
                            old(self)@,
                            (caller_fqin@, group_name@),
                            proto_views(settings@),
                        ),
                        ..old(self)@
                    }))
                },
            },
    {
        let gid = SettingsGroupId::new(caller_fqin, group_name);
        let ghost ups = proto_views(settings@);
        let idx = match self.vehicle_state.settings_groups.find(&gid) {
            Some(i) => i,
            None => {
                return Err(error(ResponseCode::NotFoundError, ErrorReason::GroupNotFound(gid)));
            },
        };
        if !all_values_present(&settings) {
            return Err(
                error(ResponseCode::InvalidRequest, ErrorReason::MissingValues(copy_protos(&settings))),
            );
        }
        let ghost groups0 = self.vehicle_state.settings_groups@;
        proof {
            lemma_key_index_unique(groups0, idx as int);
        }
        let version = self.vehicle_state.settings_groups.value_at(idx).version.clone();
        let group = self.vehicle_state.settings_groups.value_at_mut(idx);
        apply_updates_to_group(group, &settings);
        proof {
            let gs = self.vehicle_state.settings_groups@;
            lemma_update_value_keeps_keys(groups0, idx as int, gs[idx as int].1);
            assert forall|i: int| 0 <= i < gs.len() implies distinct_keys(
                #[trigger] gs[i].1.settings,
            ) by {
                if i != idx {
                    assert(gs[i] == groups0[i]);
                }
            }
        }
        if let Some(c) = self.current_user_id {
            let ghost users0 = self.users@;
            let ui = self.users.find(&c).unwrap();
            proof {
                lemma_key_index_unique(users0, ui as int);
            }
            let ghost cfg0 = users0[ui as int].1;
            let cfg = self.users.value_at_mut(ui);
            let gi = cfg.settings_groups.find(&gid).unwrap();
            proof {
                lemma_key_index_unique(cfg0.settings_groups, gi as int);
            }
            let user_group = cfg.settings_groups.value_at_mut(gi);
            apply_updates_to_group(user_group, &settings);
            proof {
                let cgs = cfg@.settings_groups;
                lemma_update_value_keeps_keys(cfg0.settings_groups, gi as int, cgs[gi as int].1);
                assert forall|i: int| 0 <= i < cgs.len() implies distinct_keys(
                    #[trigger] cgs[i].1.settings,
                ) by {
                    if i != gi {
                        assert(cgs[i] == cfg0.settings_groups[i]);
                    }
                }
            }
            proof {
                let us = self.users@;
                lemma_update_value_keeps_keys(users0, ui as int, us[ui as int].1);
                assert forall|i: int| 0 <= i < us.len() implies configuration_wf(#[trigger] us[i].1)
                    && us[i].0 == us[i].1.user.id by {
                    if i != ui {
                        assert(us[i] == users0[i]);
                    }
                }
            }
        }
        let subscribers = self.subscriber_list(&gid);
        let copy = copy_protos(&settings);
        Ok(SettingsChangeNotification { group_id: gid, version, settings: copy, subscribers })
    }

    /// The names of the subscribers of a group, in order.
    pub fn subscriber_list(&self, settings_group_id: &SettingsGroupId) -> (r: Vec<String>)
        requires
            self.wf(),
        ensures
            string_views(r@) == subscriber_names(self@.subscribers, settings_group_id@),
    {
        let mut r: Vec<String> = Vec::new();
        match self.change_subscribers.get(settings_group_id) {
            Some(set) => {
                let n = set.len();
                let mut i: usize = 0;
                while i < n
                    invariant
                        n == set@.len(),
                        i <= n,
                        string_views(r@) == set@.map_values(|e: (Seq<char>, ())| e.0).subrange(
                            0,
                            i as int,
                        ),
                    decreases n - i,
                {
                    let ghost prev = r@;
                    let name = set.key_at(i).clone();
                    let ghost nv = name@;
                    r.push(name);
                    assert(string_views(r@) =~= string_views(prev).push(nv));
                    i = i + 1;
                    assert(string_views(r@) =~= set@.map_values(|e: (Seq<char>, ())| e.0).subrange(
                        0,
                        i as int,
                    ));
                }
                assert(string_views(r@) =~= set@.map_values(|e: (Seq<char>, ())| e.0));
            },
            None => {
                assert(string_views(r@) =~= Seq::<Seq<char>>::empty());
            },
        }
        r
    }
}

/// Whether `p` is the message form of the group `g`.
pub open spec fn group_proto_of(p: SettingsGroupProto, g: SettingsGroupView) -> bool {
    &&& p.id@ == g.id
    &&& p.version@ == g.version
    &&& p.settings@.len() == g.settings.len()
    &&& forall|i: int|
        0 <= i < p.settings@.len() ==> is_proto_of(#[trigger] p.settings@[i], g.settings[i].1)
}

} // verus!
