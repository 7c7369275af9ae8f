use vstd::prelude::*;

verus! {

/// A subscribe offer: station `id` of the network at `network_href`, seen
/// with `free_bikes` free bikes, under the token `uuid`.
#[derive(Debug)]
pub struct StationReminderInfo {
    pub uuid: String,
    pub network_href: String,
    pub free_bikes: u32,
    pub id: String,
}

pub struct ReminderInfoView {
    pub uuid: Seq<char>,
    pub network_href: Seq<char>,
    pub free_bikes: u32,
    pub id: Seq<char>,
}

impl View for StationReminderInfo {
    type V = ReminderInfoView;

    open spec fn view(&self) -> ReminderInfoView {
        ReminderInfoView {
            uuid: self.uuid@,
            network_href: self.network_href@,
            free_bikes: self.free_bikes,
            id: self.id@,
        }
    }
}

impl StationReminderInfo {
    /// A copy of this offer.
    pub fn duplicate(&self) -> (r: StationReminderInfo)
        ensures
            r@ == self@,
    {
        StationReminderInfo {
            uuid: self.uuid.clone(),
            network_href: self.network_href.clone(),
            free_bikes: self.free_bikes,
            id: self.id.clone(),
        }
    }
}

/// A confirmed reminder: who to tell (`chat_id`, under message `message_id`)
/// about which station, since when, and when it was last checked. Times are
/// Unix seconds.
#[derive(Debug)]
pub struct StationWarn {
    pub uuid: String,
    pub message_id: i32,
    pub created_at: i64,
    pub updated_at: i64,
    pub chat_id: i64,
    pub station_info: StationReminderInfo,
}

pub struct StationWarnView {
    pub uuid: Seq<char>,
    pub message_id: i32,
    pub created_at: i64,
    pub updated_at: i64,
    pub chat_id: i64,
    pub station_info: ReminderInfoView,
}

impl StationWarnView {
    /// A reminder is never checked before it was created.
    pub open spec fn well_formed(&self) -> bool {
        self.created_at <= self.updated_at
    }
}

impl View for StationWarn {
    type V = StationWarnView;

    open spec fn view(&self) -> StationWarnView {
        StationWarnView {
            uuid: self.uuid@,
            message_id: self.message_id,
            created_at: self.created_at,
            updated_at: self.updated_at,
            chat_id: self.chat_id,
            station_info: self.station_info@,
        }
    }
}

impl StationWarn {
    /// A copy of this reminder.
    pub fn duplicate(&self) -> (r: StationWarn)
        ensures
            r@ == self@,
    {
        StationWarn {
            uuid: self.uuid.clone(),
            message_id: self.message_id,
            created_at: self.created_at,
            updated_at: self.updated_at,
            chat_id: self.chat_id,
            station_info: self.station_info.duplicate(),
        }
    }
}

/// What a subscribe button carries.
#[derive(Debug)]
pub enum CallbackData {
    StartStationReminder(StationReminderInfo),
}

impl CallbackData {
    /// Wraps an offer.
    pub fn from_reminder(info: StationReminderInfo) -> (r: CallbackData)
        ensures
            r == CallbackData::StartStationReminder(info),
    {
        CallbackData::StartStationReminder(info)
    }
}

} // verus!
