//! Properties of the user preferences service that span its operations.

use crate::keyed::{
    distinct_keys, has_key, key_index, lemma_key_index_unique, lemma_lookup_insert,
    lemma_lookup_list_remove, lemma_lookup_push, list_insert, list_remove, lookup,
};
use crate::user_preferences::service::{
    add_absent_settings, apply_updates, groups_after_register, groups_after_update,
    new_user_view, per_user_settings, registration_changes, service_wf,
    subscribers_after_subscribe, updated_group, users_after_update, ServiceView,
};
use crate::user_preferences::setting::{
    definition_setting, same_kind, valid_value, ConstraintsView, SettingDefinition, SettingKind,
    SettingProtoView, SettingValueView, SettingView,
};
use crate::user_preferences::settings_group::SettingsGroupView;
use crate::user_preferences::vehicle_configuration::{
    configuration_wf, User, VehicleConfigurationView,
};
use vstd::prelude::*;

verus! {

/// A user that `create_user` added can be selected: the users after the
/// creation hold the new user under its identifier, with the vehicle's
/// settings.
pub proof fn law_created_user_is_selectable(v: ServiceView, u: User)
    requires
        service_wf(v),
        !has_key(v.users, u.id),
    ensures
        lookup(v.users.push((u.id, new_user_view(v.vehicle_state, u))), u.id) == Some(
            new_user_view(v.vehicle_state, u),
        ),
{
    lemma_lookup_push(v.users, u.id, new_user_view(v.vehicle_state, u), u.id);
}

/// A deleted user can no longer be selected, and every other user stays.
pub proof fn law_deleted_user_is_gone(v: ServiceView, id: i32, other: i32)
    requires
        service_wf(v),
        has_key(v.users, id),
        other != id,
    ensures
        lookup(v.users.remove(key_index(v.users, id)), id) is None,
        lookup(v.users.remove(key_index(v.users, id)), other) == lookup(v.users, other),
{
    let i = key_index(v.users, id);
    assert(v.users[i].0 == id);
    crate::keyed::lemma_lookup_remove(v.users, i, id);
    crate::keyed::lemma_lookup_remove(v.users, i, other);
}

/// A new user starts with every setting of every group at its default value,
/// and with the groups and settings of the vehicle.
pub proof fn law_new_user_has_defaults(v: ServiceView, u: User)
    ensures
        new_user_view(v.vehicle_state, u).settings_groups.len()
            == v.vehicle_state.settings_groups.len(),
        forall|i: int, j: int|
            #![trigger new_user_view(v.vehicle_state, u).settings_groups[i].1.settings[j]]
            0 <= i < v.vehicle_state.settings_groups.len() && 0 <= j
                < v.vehicle_state.settings_groups[i].1.settings.len() ==> {
                let g = new_user_view(v.vehicle_state, u).settings_groups[i];
                let g0 = v.vehicle_state.settings_groups[i];
                &&& g.0 == g0.0
                &&& g.1.settings.len() == g0.1.settings.len()
                &&& g.1.settings[j].0 == g0.1.settings[j].0
                &&& g.1.settings[j].1.value == g0.1.settings[j].1.default_value
                &&& g.1.settings[j].1.default_value == g0.1.settings[j].1.default_value
            },
{
}

/// Subscribing makes the caller a subscriber of the group.
pub proof fn law_subscribe_registers_caller(
    subs: Seq<((Seq<char>, Seq<char>), Seq<(Seq<char>, ())>)>,
    gid: (Seq<char>, Seq<char>),
    caller: Seq<char>,
)
    requires
        distinct_keys(subs),
    ensures
        lookup(subscribers_after_subscribe(subs, gid, caller), gid) matches Some(set) && has_key(
            set,
            caller,
        ),
{
    let set = match lookup(subs, gid) {
        Some(s) => s,
        None => Seq::empty(),
    };
    lemma_lookup_insert(subs, gid, list_insert(set, caller, ()), gid);
    let after = list_insert(set, caller, ());
    if has_key(set, caller) {
        let i = key_index(set, caller);
        assert(after[i].0 == caller);
    } else {
        assert(after[set.len() as int].0 == caller);
    }
}

/// Unsubscribing after subscribing leaves the caller out of the group's
/// subscribers, and every other subscriber as it was before subscribing.
pub proof fn law_unsubscribe_undoes_subscribe(
    subs: Seq<((Seq<char>, Seq<char>), Seq<(Seq<char>, ())>)>,
    gid: (Seq<char>, Seq<char>),
    caller: Seq<char>,
    other: Seq<char>,
)
    requires
        distinct_keys(subs),
        forall|i: int| 0 <= i < subs.len() ==> distinct_keys(#[trigger] subs[i].1),
        other != caller,
    ensures
        lookup(subscribers_after_subscribe(subs, gid, caller), gid) matches Some(set) && !has_key(
            list_remove(set, caller),
            caller,
        ) && has_key(list_remove(set, caller), other) == (lookup(subs, gid) matches Some(s0)
            && has_key(s0, other)),
{
    let set = match lookup(subs, gid) {
        Some(s) => s,
        None => Seq::empty(),
    };
    if has_key(subs, gid) {
        lemma_key_index_unique(subs, key_index(subs, gid));
    }
    assert(distinct_keys(set));
    lemma_lookup_insert(subs, gid, list_insert(set, caller, ()), gid);
    let after = list_insert(set, caller, ());
    lemma_lookup_insert(set, caller, (), caller);
    lemma_lookup_insert(set, caller, (), other);
    lemma_lookup_list_remove(after, caller, caller);
    lemma_lookup_list_remove(after, caller, other);
}

/// Registering a group again keeps the value of every setting it already
/// holds.
pub proof fn law_reregistration_keeps_values(
    m: Seq<(Seq<char>, SettingView)>,
    defs: Seq<SettingDefinition>,
    key: Seq<char>,
)
    requires
        distinct_keys(m),
        has_key(m, key),
    ensures
        distinct_keys(add_absent_settings(m, defs)),
        lookup(add_absent_settings(m, defs), key) == lookup(m, key),
    decreases defs.len(),
{
    if defs.len() > 0 {
        law_reregistration_keeps_values(m, defs.drop_last(), key);
        let rest = add_absent_settings(m, defs.drop_last());
        let s = definition_setting(defs.last());
        if !has_key(rest, s.name) {
            lemma_lookup_push(rest, s.name, s, key);
            let i = key_index(m, key);
            assert(m[i].0 == key);
            assert(has_key(rest, key));
        }
    }
}

/// Adding the definitions whose keys a group already holds changes nothing.
pub proof fn lemma_add_absent_settings_held(
    m: Seq<(Seq<char>, SettingView)>,
    defs: Seq<SettingDefinition>,
)
    requires
        forall|i: int| 0 <= i < defs.len() ==> has_key(m, #[trigger] definition_setting(defs[i]).name),
    ensures
        add_absent_settings(m, defs) == m,
    decreases defs.len(),
{
    if defs.len() > 0 {
        assert forall|i: int| 0 <= i < defs.drop_last().len() implies has_key(
            m,
            #[trigger] definition_setting(defs.drop_last()[i]).name,
        ) by {
            assert(defs.drop_last()[i] == defs[i]);
        }
        lemma_add_absent_settings_held(m, defs.drop_last());
        assert(has_key(m, definition_setting(defs[defs.len() - 1]).name));
    }
}

/// Storing a value under a key twice is storing it once.
pub proof fn lemma_list_insert_twice<A, B>(s: Seq<(A, B)>, k: A, v: B)
    requires
        distinct_keys(s),
    ensures
        list_insert(list_insert(s, k, v), k, v) == list_insert(s, k, v),
{
    let s1 = list_insert(s, k, v);
    lemma_lookup_insert(s, k, v, k);
    let i = key_index(s1, k);
    lemma_key_index_unique(s1, i);
    assert(s1[i] == (k, v));
    assert(s1.update(i, (k, v)) =~= s1);
}

/// Registering the same group with the same version and definitions twice
/// leaves the groups as registering it once does.
pub proof fn law_registration_is_idempotent(
    groups: Seq<((Seq<char>, Seq<char>), SettingsGroupView)>,
    gid: (Seq<char>, Seq<char>),
    version: Seq<char>,
    defs: Seq<SettingDefinition>,
)
    requires
        distinct_keys(groups),
    ensures
        groups_after_register(groups_after_register(groups, gid, version, defs), gid, version, defs)
            == groups_after_register(groups, gid, version, defs),
{
    let once = groups_after_register(groups, gid, version, defs);
    if registration_changes(groups, gid, version) {
        let g0 = match lookup(groups, gid) {
            Some(g) => g,
            None => SettingsGroupView { id: gid, version, settings: Seq::empty() },
        };
        let added = add_absent_settings(g0.settings, defs);
        let g1 = SettingsGroupView { settings: added, ..g0 };
        lemma_lookup_insert(groups, gid, g1, gid);
        if registration_changes(once, gid, version) {
            assert forall|i: int| 0 <= i < defs.len() implies has_key(
                added,
                #[trigger] definition_setting(defs[i]).name,
            ) by {
                law_registration_holds_every_definition(g0.settings, defs, i);
            }
            lemma_add_absent_settings_held(added, defs);
            assert(SettingsGroupView { settings: add_absent_settings(g1.settings, defs), ..g1 } == g1);
            lemma_list_insert_twice(groups, gid, g1);
        }
    }
}

/// The selected user, when there is one, is one of the users: every
/// operation of the service keeps this, as part of `service_wf`.
pub proof fn law_selected_user_exists(v: ServiceView)
    requires
        service_wf(v),
    ensures
        v.current_user_id matches Some(id) ==> lookup(v.users, id) is Some,
{
}

/// After a registration the group holds a setting for every definition.
pub proof fn law_registration_holds_every_definition(
    m: Seq<(Seq<char>, SettingView)>,
    defs: Seq<SettingDefinition>,
    i: int,
)
    requires
        0 <= i < defs.len(),
    ensures
        has_key(add_absent_settings(m, defs), definition_setting(defs[i]).name),
    decreases defs.len(),
{
    let rest = add_absent_settings(m, defs.drop_last());
    let s = definition_setting(defs.last());
    if i < defs.len() - 1 {
        law_registration_holds_every_definition(m, defs.drop_last(), i);
        assert(defs.drop_last()[i] == defs[i]);
        let k = key_index(rest, definition_setting(defs[i]).name);
        if !has_key(rest, s.name) {
            assert(rest.push((s.name, s))[k] == rest[k]);
        }
    } else {
        if !has_key(rest, s.name) {
            assert(rest.push((s.name, s))[rest.len() as int].0 == s.name);
        }
    }
}

/// An update with a valid value for a setting of the group sets that value
/// and keeps everything else about the setting.
pub proof fn law_valid_update_sets_value(
    m: Seq<(Seq<char>, SettingView)>,
    key: Seq<char>,
    value: SettingValueView,
)
    requires
        distinct_keys(m),
        lookup(m, key) matches Some(s) && valid_value(s, value),
    ensures
        lookup(apply_updates(m, seq![SettingProtoView { key, value: Some(value) }]), key) == Some(
            SettingView { value, ..lookup(m, key).unwrap() },
        ),
{
    let ups = seq![SettingProtoView { key, value: Some(value) }];
    assert(ups.drop_last() =~= Seq::<SettingProtoView>::empty());
    assert(apply_updates(m, ups.drop_last()) == m);
    assert(ups.last() == SettingProtoView { key, value: Some(value) });
    let i = key_index(m, key);
    let s = lookup(m, key).unwrap();
    assert(m[i].0 == key);
    crate::keyed::lemma_lookup_update(m, i, key, SettingView { value, ..s }, key);
}

/// An update whose value is not valid for the setting changes nothing.
pub proof fn law_invalid_update_changes_nothing(
    m: Seq<(Seq<char>, SettingView)>,
    key: Seq<char>,
    value: SettingValueView,
)
    requires
        lookup(m, key) matches Some(s) && !valid_value(s, value),
    ensures
        apply_updates(m, seq![SettingProtoView { key, value: Some(value) }]) == m,
{
    let ups = seq![SettingProtoView { key, value: Some(value) }];
    assert(ups.drop_last() =~= Seq::<SettingProtoView>::empty());
    assert(apply_updates(m, ups.drop_last()) == m);
    assert(ups.last() == SettingProtoView { key, value: Some(value) });
}

/// An update of a group with a valid value for one of its settings reaches
/// the selected user: afterwards the user's copy of the group holds the new
/// value, with everything else about the setting kept.
pub proof fn law_update_reaches_selected_user(
    v: ServiceView,
    gid: (Seq<char>, Seq<char>),
    key: Seq<char>,
    value: SettingValueView,
    c: i32,
)
    requires
        service_wf(v),
        v.current_user_id == Some(c),
        lookup(v.users, c) matches Some(cfg) && lookup(cfg.settings_groups, gid) matches Some(g)
            && lookup(g.settings, key) matches Some(s) && valid_value(s, value),
    ensures
        ({
            let cfg = lookup(v.users, c).unwrap();
            let g = lookup(cfg.settings_groups, gid).unwrap();
            let s = lookup(g.settings, key).unwrap();
            let after = users_after_update(v, gid, seq![SettingProtoView { key, value: Some(value) }]);
            lookup(after, c) matches Some(cfg2) && lookup(cfg2.settings_groups, gid) matches Some(g2)
                && lookup(g2.settings, key) == Some(SettingView { value, ..s })
        }),
{
    let ups = seq![SettingProtoView { key, value: Some(value) }];
    let cfg = lookup(v.users, c).unwrap();
    let g = lookup(cfg.settings_groups, gid).unwrap();
    let k = key_index(v.users, c);
    lemma_key_index_unique(v.users, k);
    assert(v.users[k].0 == c);
    let cfg2 = VehicleConfigurationView {
        settings_groups: groups_after_update(cfg.settings_groups, gid, ups),
        ..cfg
    };
    crate::keyed::lemma_lookup_update(v.users, k, c, cfg2, c);
    assert(configuration_wf(cfg));
    let gk = key_index(cfg.settings_groups, gid);
    lemma_key_index_unique(cfg.settings_groups, gk);
    assert(cfg.settings_groups[gk].0 == gid);
    crate::keyed::lemma_lookup_update(
        cfg.settings_groups,
        gk,
        gid,
        updated_group(g, ups),
        gid,
    );
    assert(distinct_keys(g.settings));
    law_valid_update_sets_value(g.settings, key, value);
}

/// What selecting a user hands out for a group: for each setting that belongs
/// to each user, a message with its name and its current value, in order,
/// and nothing for the others.
pub proof fn law_per_user_settings_carry_current_values(s: Seq<(Seq<char>, SettingView)>)
    ensures
        forall|i: int|
            0 <= i < s.len() && s[i].1.kind == SettingKind::PerUser ==> per_user_settings(s).contains(
                SettingProtoView { key: s[i].1.name, value: Some(s[i].1.value) },
            ),
        forall|j: int|
            0 <= j < per_user_settings(s).len() ==> exists|i: int|
                0 <= i < s.len() && s[i].1.kind == SettingKind::PerUser && #[trigger] per_user_settings(s)[j]
                    == (SettingProtoView { key: s[i].1.name, value: Some(s[i].1.value) }),
    decreases s.len(),
{
    if s.len() > 0 {
        let init = s.drop_last();
        law_per_user_settings_carry_current_values(init);
        let rest = per_user_settings(init);
        let last = s.last();
        let p = SettingProtoView { key: last.1.name, value: Some(last.1.value) };
        assert forall|i: int|
            0 <= i < s.len() && s[i].1.kind == SettingKind::PerUser implies per_user_settings(s).contains(
                SettingProtoView { key: s[i].1.name, value: Some(s[i].1.value) },
            ) by {
            if i < s.len() - 1 {
                assert(init[i] == s[i]);
                let q = SettingProtoView { key: s[i].1.name, value: Some(s[i].1.value) };
                assert(rest.contains(q));
                let j = choose|j: int| 0 <= j < rest.len() && rest[j] == q;
                if last.1.kind == SettingKind::PerUser {
                    assert(rest.push(p)[j] == q);
                }
            } else {
                assert(rest.push(p)[rest.len() as int] == p);
            }
        }
        assert forall|j: int| 0 <= j < per_user_settings(s).len() implies exists|i: int|
            0 <= i < s.len() && s[i].1.kind == SettingKind::PerUser && #[trigger] per_user_settings(s)[j]
                == (SettingProtoView { key: s[i].1.name, value: Some(s[i].1.value) }) by {
            if j < rest.len() {
                assert(per_user_settings(s)[j] == rest[j]);
                let i = choose|i: int|
                    0 <= i < init.len() && init[i].1.kind == SettingKind::PerUser && #[trigger] rest[j]
                        == (SettingProtoView { key: init[i].1.name, value: Some(init[i].1.value) });
                assert(init[i] == s[i]);
            } else {
                assert(per_user_settings(s)[j] == p);
                assert(s[s.len() - 1] == last);
            }
        }
    }
}

/// A value is accepted for a setting only when it is of the setting's kind
/// and keeps within its constraints: an enum value must be one of the
/// possible values, and a number must lie within the bounds that are given.
pub proof fn law_valid_values_keep_within_constraints(s: SettingView, v: SettingValueView)
    requires
        valid_value(s, v),
    ensures
        same_kind(v, s.value),
        match (s.constraints, v) {
            (Some(ConstraintsView::EnumConstraints(vs)), SettingValueView::Enum(e)) => vs.contains(e),
            (Some(ConstraintsView::Int32Constraints(c)), SettingValueView::Int32(x)) => (
            c.min_value is None || c.min_value.unwrap() <= x) && (c.max_value is None || x
                <= c.max_value.unwrap()),
            (Some(ConstraintsView::Int64Constraints(c)), SettingValueView::Int64(x)) => (
            c.min_value is None || c.min_value.unwrap() <= x) && (c.max_value is None || x
                <= c.max_value.unwrap()),
            (Some(ConstraintsView::EnumConstraints(_)), _) => false,
            (Some(ConstraintsView::Int32Constraints(_)), _) => false,
            (Some(ConstraintsView::Int64Constraints(_)), _) => false,
            _ => true,
        },
{
}

} // verus!
