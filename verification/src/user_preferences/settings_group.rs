//! A group of settings registered together by one service.

use crate::keyed::{distinct_keys, list_insert, ListMap, ViewClone};
use crate::user_preferences::setting::{
    reset_view, Setting, SettingProto, SettingView, value_view,
};
use crate::user_preferences::settings_group_id::SettingsGroupId;
use vstd::prelude::*;

verus! {

/// The settings of a group, keyed by setting name.
pub struct SettingsGroup {
    pub id: SettingsGroupId,
    pub version: String,
    pub settings: ListMap<String, Setting>,
}

/// A settings group, by view.
pub struct SettingsGroupView {
    pub id: (Seq<char>, Seq<char>),
    pub version: Seq<char>,
    pub settings: Seq<(Seq<char>, SettingView)>,
}

impl View for SettingsGroup {
    type V = SettingsGroupView;

    open spec fn view(&self) -> SettingsGroupView {
        SettingsGroupView { id: self.id@, version: self.version@, settings: self.settings@ }
    }
}

impl ViewClone for SettingsGroup {
    fn view_clone(&self) -> (r: Self) {
        SettingsGroup {
            id: self.id.view_clone(),
            version: self.version.clone(),
            settings: self.settings.view_clone(),
        }
    }
}

impl Clone for SettingsGroup {
    fn clone(&self) -> (r: Self)
        ensures
            r@ == self@,
    {
        self.view_clone()
    }
}

/// Entries after storing each setting of `s` under its name, in order.
pub open spec fn insert_settings(
    m: Seq<(Seq<char>, SettingView)>,
    s: Seq<SettingView>,
) -> Seq<(Seq<char>, SettingView)>
    decreases s.len(),
{
    if s.len() == 0 {
        m
    } else {
        let rest = insert_settings(m, s.drop_last());
        list_insert(rest, s.last().name, s.last())
    }
}

/// The settings of a group, each reset to its default value.
pub open spec fn reset_settings_view(
    s: Seq<(Seq<char>, SettingView)>,
) -> Seq<(Seq<char>, SettingView)> {
    s.map_values(|e: (Seq<char>, SettingView)| (e.0, reset_view(e.1)))
}

/// A settings group with every setting reset to its default value.
pub open spec fn reset_group_view(g: SettingsGroupView) -> SettingsGroupView {
    SettingsGroupView { settings: reset_settings_view(g.settings), ..g }
}

/// The views of a vector of settings.
pub open spec fn setting_views(v: Seq<Setting>) -> Seq<SettingView> {
    v.map_values(|s: Setting| s@)
}

/// Whether `p` is the message form of the setting `s`: its name and value.
pub open spec fn is_proto_of(p: SettingProto, s: SettingView) -> bool {
    p.key@ == s.name && value_view(p.value) == Some(s.value)
}

/// A settings group as carried in messages.
#[derive(Debug)]
pub struct SettingsGroupProto {
    pub id: SettingsGroupId,
    pub version: String,
    pub settings: Vec<SettingProto>,
}

impl SettingsGroup {
    pub open spec fn wf(&self) -> bool {
        self.settings.wf()
    }

    /// A group with the given settings, each stored under its name; of two
    /// settings with the same name the later one stays.
    pub fn new(id: SettingsGroupId, version: String, settings: Vec<Setting>) -> (g: Self)
        ensures
            g.wf(),
            g.id == id,
            g.version == version,
            g.settings@ == insert_settings(Seq::empty(), setting_views(settings@)),
    {
        let mut group = SettingsGroup { id, version, settings: ListMap::new() };
        let ghost all = setting_views(settings@);
        let mut rest = settings;
        // Settings are inserted in their order; `rest` is consumed from the front
        // and `src` holds copies of those already inserted.
        let mut src: Vec<Setting> = Vec::new();
        while rest.len() > 0
            invariant
                setting_views(src@) + setting_views(rest@) == all,
                group.settings.wf(),
                group.settings@ == insert_settings(Seq::empty(), setting_views(src@)),
                group.id == id,
                group.version == version,
            decreases rest.len(),
        {
            let s = rest.remove(0);
            let name = s.name.clone();
            let ghost sv = s@;
            let ghost before = src@;
            let c = s.view_clone();
            src.push(c);
            group.settings.insert(name, s);
            proof {
                assert(setting_views(src@) =~= setting_views(before).push(sv));
                assert(setting_views(src@).drop_last() =~= setting_views(before));
                assert(setting_views(src@) + setting_views(rest@) =~= all);
            }
        }
        assert(setting_views(rest@) =~= Seq::<SettingView>::empty());
        assert(setting_views(src@) =~= all);
        group
    }

    /// Resets every setting of the group to its default value.
    pub fn reset_all(&mut self)
        ensures
            final(self)@ == reset_group_view(old(self)@),
            old(self).wf() ==> final(self).wf(),
    {
        let ghost start = self.settings@;
        let n = self.settings.len();
        let mut i: usize = 0;
        while i < n
            invariant
                n == start.len(),
                i <= n,
                self.settings@.len() == n,
                forall|j: int|
                    0 <= j < i ==> #[trigger] self.settings@[j] == (
                        start[j].0,
                        reset_view(start[j].1),
                    ),
                forall|j: int| i <= j < n ==> #[trigger] self.settings@[j] == start[j],
                self.id@ == old(self).id@,
                self.version@ == old(self).version@,
                start == old(self).settings@,
            decreases n - i,
        {
            let s = self.settings.value_at_mut(i);
            s.reset();
            i = i + 1;
        }
        assert(self.settings@ =~= reset_settings_view(start));
        proof {
            if distinct_keys(start) {
                assert forall|a: int, b: int|
                    0 <= a < n && 0 <= b < n && a != b implies self.settings@[a].0
                    != self.settings@[b].0 by {
                    assert(self.settings@[a].0 == start[a].0);
                    assert(self.settings@[b].0 == start[b].0);
                }
            }
        }
    }

    /// The group as a message: its identity, version and the settings with
    /// their current values, in the order of the group.
    pub fn to_proto(&self) -> (p: SettingsGroupProto)
        ensures
            p.id@ == self.id@,
            p.version@ == self.version@,
            p.settings@.len() == self.settings@.len(),
            forall|i: int|
                0 <= i < p.settings@.len() ==> is_proto_of(
                    #[trigger] p.settings@[i],
                    self.settings@[i].1,
                ),
    {
        let mut settings: Vec<SettingProto> = Vec::new();
        let n = self.settings.len();
        let mut i: usize = 0;
        while i < n
            invariant
                n == self.settings@.len(),
                i <= n,
                settings@.len() == i,
                forall|j: int|
                    0 <= j < i ==> is_proto_of(#[trigger] settings@[j], self.settings@[j].1),
            decreases n - i,
        {
            let s = self.settings.value_at(i);
            settings.push(s.to_proto());
            i = i + 1;
        }
        SettingsGroupProto { id: self.id.view_clone(), version: self.version.clone(), settings }
    }
}

} // verus!
