//! The HAR-SDV service's view of the HAR preferences: it subscribes to the
//! HAR settings group and forwards changed settings to HAR as vehicle data.

use crate::har_preferences::har_definitions;
use crate::integrations::topic_table;
use crate::keyed::has_key;
use crate::mapper::{insert_pairs, lemma_insert_pairs_has_key, SdvToHarMapper, TopicMapper, VehicleData, VehicleDataPointView, VehicleDataView};
use crate::user_preferences::setting::{SettingProto, SettingValue, SettingValueView};
use crate::user_preferences::settings_group_id::SettingsGroupId;
use vstd::prelude::*;

verus! {

/// The name of the settings group that holds the HAR preferences.
pub open spec fn har_group_name() -> Seq<char> {
    "HAR"@
}

/// The service that registers the HAR preferences.
pub open spec fn har_preferences_service() -> Seq<char> {
    "HarPreferencesService"@
}

/// The caller name under which the HAR-SDV service subscribes.
pub open spec fn har_preferences_client() -> Seq<char> {
    "HarPreferencesClient"@
}

/// What the HAR-SDV service asks for when it subscribes to the HAR preferences.
#[derive(Debug)]
pub struct HarSubscription {
    pub settings_group_id: SettingsGroupId,
    pub caller_fqin: String,
}

/// The subscription to the HAR settings group.
pub fn har_subscription() -> (s: HarSubscription)
    ensures
        s.settings_group_id@ == (har_preferences_service(), har_group_name()),
        s.caller_fqin@ == har_preferences_client(),
{
    HarSubscription {
        settings_group_id: SettingsGroupId::new(
            String::from_str("HarPreferencesService"),
            String::from_str("HAR"),
        ),
        caller_fqin: String::from_str("HarPreferencesClient"),
    }
}

/// A change notification is forwarded to HAR when it names a group and the
/// group is the HAR group.
pub fn is_har_settings_change(settings_group_id: &Option<SettingsGroupId>) -> (b: bool)
    ensures
        b == (settings_group_id matches Some(id) && id.name@ == har_group_name()),
{
    match settings_group_id {
        Some(id) => {
            let har = String::from_str("HAR");
            id.name == har
        },
        None => false,
    }
}

/// The fragment that HAR receives for a setting value, if the value's kind is
/// one HAR takes: booleans, floats, 32-bit integers and enum numbers.
pub open spec fn setting_fragment<M: TopicMapper>(
    mapper: SdvToHarMapper<M>,
    key: Seq<char>,
    value: SettingValueView,
) -> Option<VehicleDataView> {
    match value {
        SettingValueView::Bool(b) => Some(mapper.fragment(key, VehicleDataPointView::Bool(b))),
        SettingValueView::Float(f) => Some(mapper.fragment(key, VehicleDataPointView::F32(f))),
        SettingValueView::Int32(i) => Some(mapper.fragment(key, VehicleDataPointView::I32(i))),
        SettingValueView::Enum(e) => Some(mapper.fragment(key, VehicleDataPointView::I32(e))),
        SettingValueView::Int64(_) => None,
        SettingValueView::Blob(_) => None,
    }
}

/// The fragment for a setting value; 64-bit integers and blobs have none.
pub fn to_vehicle_data<M: TopicMapper>(
    mapper: &SdvToHarMapper<M>,
    key: String,
    setting_value: &SettingValue,
) -> (r: Option<VehicleData>)
    ensures
        match r {
            Some(d) => setting_fragment(*mapper, key@, setting_value@) == Some(d@),
            None => setting_fragment(*mapper, key@, setting_value@) is None,
        },
{
    match setting_value {
        SettingValue::Bool(value) => Some(mapper.map_bool(key, *value)),
        SettingValue::Float(value) => Some(mapper.map_f32(key, *value)),
        SettingValue::Int32(value) => Some(mapper.map_i32(key, *value)),
        SettingValue::Int64(_) => None,
        SettingValue::Blob(_) => None,
        SettingValue::Enum(value) => Some(mapper.map_i32(key, *value)),
    }
}

/// The fragments sent to HAR for a list of changed settings, in order:
/// settings without a value, or with a value HAR does not take, send nothing.
pub open spec fn settings_fragments<M: TopicMapper>(
    mapper: SdvToHarMapper<M>,
    settings: Seq<SettingProto>,
) -> Seq<VehicleDataView>
    decreases settings.len(),
{
    if settings.len() == 0 {
        Seq::empty()
    } else {
        let last = settings.last();
        let before = settings_fragments(mapper, settings.drop_last());
        match last.value {
            Some(v) => match setting_fragment(mapper, last.key@, v@) {
                Some(f) => before.push(f),
                None => before,
            },
            None => before,
        }
    }
}

/// The fragments to send to HAR for the changed settings.
pub fn settings_to_vehicle_data<M: TopicMapper>(
    mapper: &SdvToHarMapper<M>,
    settings: &Vec<SettingProto>,
) -> (r: Vec<VehicleData>)
    ensures
        r@.map_values(|d: VehicleData| d@) == settings_fragments(*mapper, settings@),
{
    let mut out: Vec<VehicleData> = Vec::new();
    let mut i: usize = 0;
    while i < settings.len()
        invariant
            i <= settings.len(),
            out@.map_values(|d: VehicleData| d@) == settings_fragments(
                *mapper,
                settings@.subrange(0, i as int),
            ),
        decreases settings.len() - i,
    {
        let setting = &settings[i];
        proof {
            assert(settings@.subrange(0, i + 1).drop_last() =~= settings@.subrange(0, i as int));
        }
        match &setting.value {
            Some(v) => {
                let key = setting.key.clone();
                match to_vehicle_data(mapper, key, v) {
                    Some(d) => {
                        out.push(d);
                    },
                    None => {},
                }
            },
            None => {},
        }
        i = i + 1;
        assert(out@.map_values(|d: VehicleData| d@) =~= settings_fragments(
            *mapper,
            settings@.subrange(0, i as int),
        ));
    }
    assert(settings@.subrange(0, settings.len() as int) =~= settings@);
    out
}

/// Every HAR setting has an entry in the topic table of the HAR-SDV process,
/// so HAR receives the HAR settings under HAR names.
pub proof fn law_har_settings_have_har_names(i: int)
    requires
        0 <= i < har_definitions().len(),
    ensures
        has_key(insert_pairs(Seq::empty(), topic_table()), har_definitions()[i].0),
{
    if i == 0 {
        lemma_insert_pairs_has_key(Seq::empty(), topic_table(), 31);
    } else {
        lemma_insert_pairs_has_key(Seq::empty(), topic_table(), 30);
    }
}

} // verus!
