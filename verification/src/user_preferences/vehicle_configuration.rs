//! The settings of the vehicle, or of one user, together with the user.

use crate::keyed::{distinct_keys, ListMap, ViewClone};
use crate::user_preferences::settings_group::{reset_group_view, SettingsGroup, SettingsGroupView};
use crate::user_preferences::settings_group_id::SettingsGroupId;
use vstd::prelude::*;

verus! {

/// The flag of a user that drives the vehicle.
pub const USER_FLAG_DRIVER: i32 = 1;

/// The flag of a user that is deleted once another user is selected.
pub const USER_FLAG_EPHEMERAL: i32 = 2;

/// A user of the vehicle: an identifier and flags.
#[derive(Clone, Copy, PartialEq, Eq, Structural, Debug)]
pub struct User {
    pub id: i32,
    pub flags: i32,
}

impl User {
    pub fn new() -> (u: User)
        ensures
            u.id == 0 && u.flags == 0,
    {
        User { id: 0, flags: 0 }
    }
}

/// Whether the flags mark an ephemeral user.
pub open spec fn ephemeral_flags(flags: i32) -> bool {
    flags & USER_FLAG_EPHEMERAL == USER_FLAG_EPHEMERAL
}

/// The settings groups of the vehicle or of a user, keyed by group identity.
pub struct VehicleConfiguration {
    pub user: User,
    pub settings_groups: ListMap<SettingsGroupId, SettingsGroup>,
}

/// A configuration, by view.
pub struct VehicleConfigurationView {
    pub user: User,
    pub settings_groups: Seq<((Seq<char>, Seq<char>), SettingsGroupView)>,
}

impl View for VehicleConfiguration {
    type V = VehicleConfigurationView;

    open spec fn view(&self) -> VehicleConfigurationView {
        VehicleConfigurationView { user: self.user, settings_groups: self.settings_groups@ }
    }
}

impl ViewClone for VehicleConfiguration {
    fn view_clone(&self) -> (r: Self) {
        VehicleConfiguration { user: self.user, settings_groups: self.settings_groups.view_clone() }
    }
}

impl Clone for VehicleConfiguration {
    fn clone(&self) -> (r: Self)
        ensures
            r@ == self@,
    {
        self.view_clone()
    }
}

/// Every group of the configuration with its settings reset to the defaults.
pub open spec fn reset_groups_view(
    g: Seq<((Seq<char>, Seq<char>), SettingsGroupView)>,
) -> Seq<((Seq<char>, Seq<char>), SettingsGroupView)> {
    g.map_values(
        |e: ((Seq<char>, Seq<char>), SettingsGroupView)| (e.0, reset_group_view(e.1)),
    )
}

/// A configuration view is well formed: groups and the settings of each group
/// have distinct keys.
pub open spec fn configuration_wf(c: VehicleConfigurationView) -> bool {
    &&& distinct_keys(c.settings_groups)
    &&& forall|i: int|
        0 <= i < c.settings_groups.len() ==> distinct_keys(
            #[trigger] c.settings_groups[i].1.settings,
        )
}

impl VehicleConfiguration {
    pub open spec fn wf(&self) -> bool {
        configuration_wf(self@)
    }

    /// A configuration of `user` without settings.
    pub fn new(user: User) -> (c: Self)
        ensures
            c.wf(),
            c@.user == user,
            c@.settings_groups == Seq::<((Seq<char>, Seq<char>), SettingsGroupView)>::empty(),
    {
        VehicleConfiguration { settings_groups: ListMap::new(), user }
    }

    /// Whether the user of this configuration is ephemeral.
    pub fn is_ephemeral(&self) -> (r: bool)
        ensures
            r == ephemeral_flags(self.user.flags),
    {
        (self.user.flags & USER_FLAG_EPHEMERAL) == USER_FLAG_EPHEMERAL
    }

    /// Resets every setting of every group to its default value.
    pub fn reset_settings(&mut self)
        ensures
            final(self)@.user == old(self)@.user,
            final(self)@.settings_groups == reset_groups_view(old(self)@.settings_groups),
            old(self).wf() ==> final(self).wf(),
    {
        let ghost start = self.settings_groups@;
        let n = self.settings_groups.len();
        let mut i: usize = 0;
        while i < n
            invariant
                n == start.len(),
                i <= n,
                self.settings_groups@.len() == n,
                forall|j: int|
                    0 <= j < i ==> #[trigger] self.settings_groups@[j] == (
                        start[j].0,
                        reset_group_view(start[j].1),
                    ),
                forall|j: int| i <= j < n ==> #[trigger] self.settings_groups@[j] == start[j],
                self.user == old(self).user,
                start == old(self).settings_groups@,
            decreases n - i,
        {
            let g = self.settings_groups.value_at_mut(i);
            g.reset_all();
            i = i + 1;
        }
        assert(self.settings_groups@ =~= reset_groups_view(start));
        proof {
            if old(self).wf() {
                assert forall|a: int, b: int|
                    0 <= a < n && 0 <= b < n && a != b implies self.settings_groups@[a].0
                    != self.settings_groups@[b].0 by {
                    assert(self.settings_groups@[a].0 == start[a].0);
                    assert(self.settings_groups@[b].0 == start[b].0);
                }
                assert forall|a: int| 0 <= a < n implies distinct_keys(
                    #[trigger] self.settings_groups@[a].1.settings,
                ) by {
                    let s0 = start[a].1.settings;
                    let s1 = self.settings_groups@[a].1.settings;
                    assert(distinct_keys(s0));
                    assert forall|x: int, y: int|
                        0 <= x < s1.len() && 0 <= y < s1.len() && x != y implies s1[x].0
                        != s1[y].0 by {
                        assert(s1[x].0 == s0[x].0);
                        assert(s1[y].0 == s0[y].0);
                    }
                }
            }
        }
    }
}

} // verus!
