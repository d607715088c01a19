//! The identity of a settings group: the service that registered it and the
//! group's name.

use crate::keyed::{KeyEq, ViewClone};
use vstd::prelude::*;

verus! {

/// Identifies a settings group by the registering service and the name of the
/// group. Two identities are equal when both parts are.
#[derive(Debug)]
pub struct SettingsGroupId {
    pub service_fqin: String,
    pub name: String,
}

impl View for SettingsGroupId {
    type V = (Seq<char>, Seq<char>);

    open spec fn view(&self) -> (Seq<char>, Seq<char>) {
        (self.service_fqin@, self.name@)
    }
}

impl KeyEq for SettingsGroupId {
    fn key_eq(&self, other: &Self) -> (b: bool) {
        self.service_fqin == other.service_fqin && self.name == other.name
    }
}

impl ViewClone for SettingsGroupId {
    fn view_clone(&self) -> (r: Self) {
        SettingsGroupId { service_fqin: self.service_fqin.clone(), name: self.name.clone() }
    }
}

impl Clone for SettingsGroupId {
    fn clone(&self) -> (r: Self)
        ensures
            r@ == self@,
    {
        self.view_clone()
    }
}

/// The text of a settings group identity: `service/name`.
pub open spec fn group_id_text(id: (Seq<char>, Seq<char>)) -> Seq<char> {
    id.0 + seq!['/'] + id.1
}

impl SettingsGroupId {
    pub fn new(service_fqin: String, name: String) -> (id: Self)
        ensures
            id.service_fqin == service_fqin,
            id.name == name,
    {
        SettingsGroupId { service_fqin, name }
    }

    /// The identity as text, `service/name`.
    pub fn to_text(&self) -> (s: String)
        ensures
            s@ == group_id_text(self@),
    {
        let mut s = self.service_fqin.clone();
        let slash = "/";
        proof {
            reveal_strlit("/");
        }
        s.append(slash);
        s.append(self.name.as_str());
        s
    }
}

} // verus!
