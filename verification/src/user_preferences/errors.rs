//! The errors that the user preferences service answers with.

use crate::text::{decimal, i64_text};
use crate::user_preferences::setting::{SettingProto, SettingValue};
use crate::user_preferences::settings_group_id::{group_id_text, SettingsGroupId};
use vstd::prelude::*;

verus! {

/// The class of a failed request.
#[derive(Clone, Copy, PartialEq, Eq, Structural, Debug)]
pub enum ResponseCode {
    InvalidRequest,
    AlreadyExists,
    NotFoundError,
    RuntimeError,
    InternalError,
}

/// Why a requested settings change was refused.
#[derive(Debug)]
pub enum ChangeRejection {
    /// The group has no setting with this key.
    UnknownSetting { key: String, group: SettingsGroupId },
    /// The value does not fit the setting.
    InvalidValue { key: String, value: SettingValue },
    /// The request carries no value for the setting.
    MissingValue { key: String },
}

/// What went wrong, with the data that the error message names.
#[derive(Debug)]
pub enum ErrorReason {
    /// A user was to be created, but the request carries none.
    MissingUser,
    /// A user with this identifier exists already.
    UserIdInUse(i32),
    /// The flags are not a valid combination for a user.
    InvalidUserFlags(i32),
    /// The user to select does not exist.
    SelectedUserNotFound(i32),
    /// The user to delete does not exist.
    DeletedUserNotFound(i32),
    /// The user to delete is the selected one.
    UserInUse(i32),
    /// The user whose settings were asked for does not exist.
    SettingsOfUnknownUser(i32),
    /// A call to another service failed, with its description.
    ServiceFailure(String),
    /// No settings group with this identity is registered.
    GroupNotFound(SettingsGroupId),
    /// A requested change was refused.
    InvalidChange(ChangeRejection),
    /// A subscriber asked for a settings group that is not registered.
    SubscribedGroupMissing(SettingsGroupId),
    /// An unsubscription names a group that has no subscribers.
    UnsubscribedGroupMissing(SettingsGroupId),
    /// An update carries settings without values; all the settings of the update.
    MissingValues(Vec<SettingProto>),
}

/// A failed request: its class and its reason.
#[derive(Debug)]
pub struct ServiceError {
    pub error_code: ResponseCode,
    pub reason: ErrorReason,
}

/// The text of a refused change; the text for an invalid value shows the
/// value and is left to the caller.
pub open spec fn rejection_text(r: ChangeRejection) -> Option<Seq<char>> {
    match r {
        ChangeRejection::UnknownSetting { key, group } => Some(
            "Setting "@ + key@ + " cannot be found within setting group "@ + group_id_text(group@),
        ),
        ChangeRejection::InvalidValue { .. } => None,
        ChangeRejection::MissingValue { key } => Some("Setting "@ + key@ + " has None value"@),
    }
}

/// The error message for a reason; the messages that show setting values
/// are left to the caller.
pub open spec fn reason_text(r: ErrorReason) -> Option<Seq<char>> {
    match r {
        ErrorReason::MissingUser => Some(
            "Invalid create user request, user field cannot be empty"@,
        ),
        ErrorReason::UserIdInUse(id) => Some(
            "User ID '"@ + decimal(id as int) + "' is already in use"@,
        ),
        ErrorReason::InvalidUserFlags(f) => Some(
            "User flags "@ + decimal(f as int) + " is not a valid value"@,
        ),
        ErrorReason::SelectedUserNotFound(id) => Some(
            "User ID '"@ + decimal(id as int) + "' does not exist"@,
        ),
        ErrorReason::DeletedUserNotFound(id) => Some(
            "User "@ + decimal(id as int) + " does not exist"@,
        ),
        ErrorReason::UserInUse(id) => Some(
            "Cannot delete User "@ + decimal(id as int) + " since it is in use"@,
        ),
        ErrorReason::SettingsOfUnknownUser(id) => Some(
            "user "@ + decimal(id as int) + " does not exist"@,
        ),
        ErrorReason::ServiceFailure(m) => Some(m@),
        ErrorReason::GroupNotFound(g) => Some(
            "Settings group "@ + group_id_text(g@) + " not found"@,
        ),
        ErrorReason::InvalidChange(c) => rejection_text(c),
        ErrorReason::SubscribedGroupMissing(g) => Some(
            "Settings "@ + group_id_text(g@) + " does not exist"@,
        ),
        ErrorReason::UnsubscribedGroupMissing(g) => Some(
            "Settings group "@ + group_id_text(g@) + " does not exist"@,
        ),
        ErrorReason::MissingValues(_) => None,
    }
}

/// `prefix`, the decimal text of `n`, then `suffix`.
fn number_text(prefix: &str, n: i32, suffix: &str) -> (s: String)
    ensures
        s@ == prefix@ + decimal(n as int) + suffix@,
{
    let mut s = String::from_str(prefix);
    let d = i64_text(n as i64);
    s.append(d.as_str());
    s.append(suffix);
    s
}

/// `prefix`, the text of a group identity, then `suffix`.
fn group_text(prefix: &str, g: &SettingsGroupId, suffix: &str) -> (s: String)
    ensures
        s@ == prefix@ + group_id_text(g@) + suffix@,
{
    let mut s = String::from_str(prefix);
    let t = g.to_text();
    s.append(t.as_str());
    s.append(suffix);
    s
}

impl ChangeRejection {
    /// The text of the refusal, if it does not show a value.
    pub fn message(&self) -> (r: Option<String>)
        ensures
            match r {
                Some(s) => rejection_text(*self) == Some(s@),
                None => rejection_text(*self) is None,
            },
    {
        match self {
            ChangeRejection::UnknownSetting { key, group } => {
                let mut s = String::from_str("Setting ");
                s.append(key.as_str());
                s.append(" cannot be found within setting group ");
                let g = group.to_text();
                s.append(g.as_str());
                Some(s)
            },
            ChangeRejection::InvalidValue { .. } => None,
            ChangeRejection::MissingValue { key } => {
                let mut s = String::from_str("Setting ");
                s.append(key.as_str());
                s.append(" has None value");
                Some(s)
            },
        }
    }
}

impl ServiceError {
    /// The message of the error, if it does not show setting values.
    pub fn message(&self) -> (r: Option<String>)
        ensures
            match r {
                Some(s) => reason_text(self.reason) == Some(s@),
                None => reason_text(self.reason) is None,
            },
    {
        match &self.reason {
            ErrorReason::MissingUser => Some(
                String::from_str("Invalid create user request, user field cannot be empty"),
            ),
            ErrorReason::UserIdInUse(id) => Some(number_text("User ID '", *id, "' is already in use")),
            ErrorReason::InvalidUserFlags(f) => Some(
                number_text("User flags ", *f, " is not a valid value"),
            ),
            ErrorReason::SelectedUserNotFound(id) => Some(
                number_text("User ID '", *id, "' does not exist"),
            ),
            ErrorReason::DeletedUserNotFound(id) => Some(number_text("User ", *id, " does not exist")),
            ErrorReason::UserInUse(id) => Some(
                number_text("Cannot delete User ", *id, " since it is in use"),
            ),
            ErrorReason::SettingsOfUnknownUser(id) => Some(
                number_text("user ", *id, " does not exist"),
            ),
            ErrorReason::ServiceFailure(m) => Some(m.clone()),
            ErrorReason::GroupNotFound(g) => Some(group_text("Settings group ", g, " not found")),
            ErrorReason::InvalidChange(c) => c.message(),
            ErrorReason::SubscribedGroupMissing(g) => Some(group_text("Settings ", g, " does not exist")),
            ErrorReason::UnsubscribedGroupMissing(g) => Some(
                group_text("Settings group ", g, " does not exist"),
            ),
            ErrorReason::MissingValues(_) => None,
        }
    }
}

} // verus!
