use crate::bike_service::Station;
use crate::decimal::{decimal, decimal_string};
use crate::markdown::{bold, bolded, escape, escaped};
use crate::models::{CallbackData, ReminderInfoView, StationReminderInfo, StationWarn, StationWarnView};
use crate::sources::{fresh_token, now_seconds};
use vstd::prelude::*;

verus! {

/// A station is offered for reminders when at most this share of its docks
/// holds a bike: `LOW_BIKES_NUMERATOR / LOW_BIKES_DENOMINATOR`.
pub const LOW_BIKES_NUMERATOR: u64 = 1;
pub const LOW_BIKES_DENOMINATOR: u64 = 5;
/// Seconds that must pass after a reminder was checked before it is checked
/// again: a little under the loop's period.
pub const WARN_INTERVAL_TIME: i64 = (60 * 5) - 5;
/// Seconds that an offer stays in the store.
pub const INLINE_KEYBOARD_DATA_TTL: usize = 60 * 60 * 6;
/// Seconds that a reminder lives after its confirmation.
pub const STATION_WARN_TTL: i64 = 60 * 30;

/// The prefix of the store keys of reminders.
pub open spec fn warn_key_prefix() -> Seq<char> {
    seq!['A', 'C', 'T', 'I', 'V', 'E', '_', 'S', 'T', 'A', 'T', 'I', 'O', 'N', 'S', '_', 'W', 'A', 'R', 'N']
}

/// The store key of the reminder with token `uuid`.
pub open spec fn warn_key(uuid: Seq<char>) -> Seq<char> {
    warn_key_prefix() + seq![':'] + uuid
}

/// The reminder is past its lifetime at time `now`.
pub open spec fn is_expired(w: StationWarnView, now: i64) -> bool {
    now - w.created_at > STATION_WARN_TTL
}

/// The reminder's last check is older than the guard window at time `now`.
pub open spec fn is_stale(w: StationWarnView, now: i64) -> bool {
    now - w.updated_at > WARN_INTERVAL_TIME
}

/// The reminder is to be checked at time `now`: alive and stale.
pub open spec fn is_due(w: StationWarnView, now: i64) -> bool {
    !is_expired(w, now) && is_stale(w, now)
}

/// The key prefix of reminders, as the store's key pattern needs it.
pub fn warn_key_pattern() -> (r: String)
    ensures
        r@ == warn_key_prefix() + seq!['*'],
{
    proof {
        reveal_strlit("ACTIVE_STATIONS_WARN*");
    }
    let r = String::from_str("ACTIVE_STATIONS_WARN*");
    assert(r@ =~= warn_key_prefix() + seq!['*']);
    r
}

impl StationWarn {
    /// The store key of this reminder.
    pub fn id(&self) -> (r: String)
        ensures
            r@ == warn_key(self.uuid@),
    {
        proof {
            reveal_strlit("ACTIVE_STATIONS_WARN:");
        }
        let mut r = String::from_str("ACTIVE_STATIONS_WARN:");
        r.append(self.uuid.as_str());
        assert(r@ =~= warn_key(self.uuid@));
        r
    }

    /// Whether the reminder's last check is older than the guard window.
    pub fn should_warn(&self, now: i64) -> (r: bool)
        ensures
            r == is_stale(self@, now),
    {
        (now as i128) - (self.updated_at as i128) > WARN_INTERVAL_TIME as i128
    }

    /// Whether the reminder has outlived its lifetime.
    pub fn should_delete(&self, now: i64) -> (r: bool)
        ensures
            r == is_expired(self@, now),
    {
        (now as i128) - (self.created_at as i128) > STATION_WARN_TTL as i128
    }
}

/// The keys of the expired reminders among `ws`, in order.
pub open spec fn expired_keys(ws: Seq<StationWarnView>, now: i64) -> Seq<Seq<char>>
    decreases ws.len(),
{
    if ws.len() == 0 {
        Seq::empty()
    } else {
        let rest = expired_keys(ws.drop_last(), now);
        if is_expired(ws.last(), now) {
            rest.push(warn_key(ws.last().uuid))
        } else {
            rest
        }
    }
}

/// The due reminders among `ws`, in order.
pub open spec fn due_warns(ws: Seq<StationWarnView>, now: i64) -> Seq<StationWarnView>
    decreases ws.len(),
{
    if ws.len() == 0 {
        Seq::empty()
    } else {
        let rest = due_warns(ws.drop_last(), now);
        if is_due(ws.last(), now) {
            rest.push(ws.last())
        } else {
            rest
        }
    }
}

/// The views of a sequence of reminders.
pub open spec fn warn_views(ws: Seq<StationWarn>) -> Seq<StationWarnView> {
    ws.map_values(|w: StationWarn| w@)
}

/// What one cycle does with the stored reminders: delete the expired ones
/// and check the due ones; the others stay as they are.
pub struct CyclePlan {
    pub now: i64,
    pub expired_keys: Vec<String>,
    pub due: Vec<StationWarn>,
}

/// Splits the stored reminders at time `now` into the keys to delete and
/// the reminders to check.
pub fn plan_cycle(warns: &Vec<StationWarn>, now: i64) -> (r: CyclePlan)
    ensures
        r.now == now,
        r.expired_keys@.map_values(|k: String| k@) == expired_keys(warn_views(warns@), now),
        warn_views(r.due@) == due_warns(warn_views(warns@), now),
{
    let mut keys: Vec<String> = Vec::new();
    let mut due: Vec<StationWarn> = Vec::new();
    let mut i: usize = 0;
    while i < warns.len()
        invariant
            i <= warns.len(),
            keys@.map_values(|k: String| k@) == expired_keys(warn_views(warns@.take(i as int)), now),
            warn_views(due@) == due_warns(warn_views(warns@.take(i as int)), now),
        decreases warns.len() - i,
    {
        let w = &warns[i];
        proof {
            assert(warn_views(warns@.take(i as int + 1)).drop_last()
                =~= warn_views(warns@.take(i as int)));
            assert(warn_views(warns@.take(i as int + 1)).last() == w@);
        }
        if w.should_delete(now) {
            keys.push(w.id());
        } else if w.should_warn(now) {
            due.push(w.duplicate());
        }
        assert(keys@.map_values(|k: String| k@)
            =~= expired_keys(warn_views(warns@.take(i as int + 1)), now));
        assert(warn_views(due@) =~= due_warns(warn_views(warns@.take(i as int + 1)), now));
        i = i + 1;
    }
    assert(warns@.take(warns.len() as int) =~= warns@);
    CyclePlan { now, expired_keys: keys, due }
}


/// What a change in a station's free-bike count calls for telling.
#[derive(Debug, Clone, Copy, PartialEq, Eq, Structural)]
pub enum Notice {
    /// The count fell by this many bikes.
    Lost(u32),
    /// The count rose by `count` bikes, to `now`.
    Gained { count: u32, now: u32 },
}

/// The notice owed when the count goes from `previous` to `live`.
pub open spec fn notice_for(previous: u32, live: u32) -> Option<Notice> {
    if live < previous {
        Some(Notice::Lost((previous - live) as u32))
    } else if live > previous {
        Some(Notice::Gained { count: (live - previous) as u32, now: live })
    } else {
        None
    }
}

/// Decides what to tell about a station whose count went from `previous` to
/// `live`: nothing when it did not change.
pub fn decide(previous: u32, live: u32) -> (r: Option<Notice>)
    ensures
        r == notice_for(previous, live),
{
    if live < previous {
        Some(Notice::Lost(previous - live))
    } else if live > previous {
        Some(Notice::Gained { count: live - previous, now: live })
    } else {
        None
    }
}

/// The decision is symmetric: going from `a` to `b` loses as many bikes as
/// going from `b` to `a` gains, and no change calls for no notice.
pub proof fn lemma_decision_symmetric(a: u32, b: u32)
    ensures
        notice_for(a, a).is_none(),
        a > b ==> notice_for(a, b) == Some(Notice::Lost((a - b) as u32)) && notice_for(b, a)
            == Some(Notice::Gained { count: (a - b) as u32, now: a }),
        a == b <==> notice_for(a, b).is_none(),
{
}

/// The text that tells `notice` about the station called `name`, in
/// Telegram's MarkdownV2 style.
pub open spec fn notice_text(notice: Notice, name: Seq<char>) -> Seq<char> {
    match notice {
        Notice::Lost(count) => "\u{1f494} `"@ + escaped(name) + "` has lost "@
            + bolded(decimal(count as nat)) + " bikes"@,
        Notice::Gained { count, now } => "\u{1f49a} "@ + bolded(decimal(count as nat))
            + " has appeard on `"@ + escaped(name) + "`!!! It now has "@
            + bolded(decimal(now as nat)) + " bikes."@,
    }
}

/// Writes the text that tells `notice` about the station called `name`.
pub fn notice_message(notice: Notice, name: &str) -> (r: String)
    ensures
        r@ == notice_text(notice, name@),
{
    match notice {
        Notice::Lost(count) => {
            let mut r = String::from_str("\u{1f494} `");
            r.append(escape(name).as_str());
            r.append("` has lost ");
            r.append(bold(decimal_string(count).as_str()).as_str());
            r.append(" bikes");
            assert(r@ =~= notice_text(notice, name@));
            r
        },
        Notice::Gained { count, now } => {
            let mut r = String::from_str("\u{1f49a} ");
            r.append(bold(decimal_string(count).as_str()).as_str());
            r.append(" has appeard on `");
            r.append(escape(name).as_str());
            r.append("`!!! It now has ");
            r.append(bold(decimal_string(now).as_str()).as_str());
            r.append(" bikes.");
            assert(r@ =~= notice_text(notice, name@));
            r
        },
    }
}

/// A message to send: `text` to chat `chat_id`, as a reply to message
/// `reply_to`.
#[derive(Debug)]
pub struct Notification {
    pub chat_id: i64,
    pub reply_to: i32,
    pub text: String,
}

pub struct NotificationView {
    pub chat_id: i64,
    pub reply_to: i32,
    pub text: Seq<char>,
}

impl View for Notification {
    type V = NotificationView;

    open spec fn view(&self) -> NotificationView {
        NotificationView { chat_id: self.chat_id, reply_to: self.reply_to, text: self.text@ }
    }
}

/// The free-bike count of a fetched station, if the fetch succeeded and the
/// station reports one.
pub open spec fn live_count(fetched: Option<Station>) -> Option<u32> {
    match fetched {
        Some(s) => s.free_bikes,
        None => None,
    }
}

/// The message owed to the owner of reminder `w` once its station reads `s`.
pub open spec fn warn_message(w: StationWarnView, s: Station) -> Option<NotificationView> {
    match s.free_bikes {
        None => None,
        Some(live) => match notice_for(w.station_info.free_bikes, live) {
            None => None,
            Some(n) => Some(
                NotificationView {
                    chat_id: w.chat_id,
                    reply_to: w.message_id,
                    text: notice_text(n, s.name@),
                },
            ),
        },
    }
}

/// The view of an optional message.
pub open spec fn opt_message_view(m: Option<Notification>) -> Option<NotificationView> {
    match m {
        Some(n) => Some(n@),
        None => None,
    }
}

/// Builds the message owed to the owner of `station_warn` now that its
/// station reads `updated_station`: none when the station reports no count
/// or the count did not change.
pub fn build_telegram_message(station_warn: &StationWarn, updated_station: &Station) -> (r:
    Option<Notification>)
    ensures
        opt_message_view(r) == warn_message(station_warn@, *updated_station),
{
    let live = match updated_station.free_bikes {
        Some(live) => live,
        None => return None,
    };
    match decide(station_warn.station_info.free_bikes, live) {
        None => None,
        Some(notice) => Some(
            Notification {
                chat_id: station_warn.chat_id,
                reply_to: station_warn.message_id,
                text: notice_message(notice, updated_station.name.as_str()),
            },
        ),
    }
}


/// Reminder `w` once its station was read with `live` free bikes at `now`.
pub open spec fn reconciled(w: StationWarnView, live: u32, now: i64) -> StationWarnView {
    StationWarnView {
        updated_at: now,
        station_info: ReminderInfoView { free_bikes: live, ..w.station_info },
        ..w
    }
}

/// The reminders to write back after the due reminders `due` were checked
/// at `now`, `fetched[i]` being what the provider gave for `due[i]` (`None`
/// when the fetch failed): those whose station reports a count, updated.
pub open spec fn cycle_saves(
    due: Seq<StationWarnView>,
    fetched: Seq<Option<Station>>,
    now: i64,
) -> Seq<StationWarnView>
    decreases due.len(),
{
    if due.len() == 0 {
        Seq::empty()
    } else {
        let rest = cycle_saves(due.drop_last(), fetched, now);
        match live_count(fetched[due.len() - 1]) {
            Some(live) => rest.push(reconciled(due.last(), live, now)),
            None => rest,
        }
    }
}

/// The messages owed after the due reminders `due` were checked against
/// `fetched`, in order.
pub open spec fn cycle_messages(
    due: Seq<StationWarnView>,
    fetched: Seq<Option<Station>>,
) -> Seq<NotificationView>
    decreases due.len(),
{
    if due.len() == 0 {
        Seq::empty()
    } else {
        let rest = cycle_messages(due.drop_last(), fetched);
        match fetched[due.len() - 1] {
            Some(s) => match warn_message(due.last(), s) {
                Some(m) => rest.push(m),
                None => rest,
            },
            None => rest,
        }
    }
}

/// What a cycle writes back and sends once the due reminders were checked.
pub struct CycleOutcome {
    pub saves: Vec<StationWarn>,
    pub messages: Vec<Notification>,
}

/// Compares each due reminder with what the provider gave for its station
/// (`fetched[i]` for `due[i]`, `None` for a failed fetch) at time `now`.
/// A reminder whose station reports a count takes that count and `now` as
/// its last check, and a message is owed when the count changed; the others
/// are left as they were, to be tried again next cycle.
pub fn reconcile_due(due: &Vec<StationWarn>, fetched: &Vec<Option<Station>>, now: i64) -> (r:
    CycleOutcome)
    requires
        due.len() == fetched.len(),
    ensures
        warn_views(r.saves@) == cycle_saves(warn_views(due@), fetched@, now),
        r.messages@.map_values(|m: Notification| m@) == cycle_messages(warn_views(due@), fetched@),
{
    let mut saves: Vec<StationWarn> = Vec::new();
    let mut messages: Vec<Notification> = Vec::new();
    let mut i: usize = 0;
    while i < due.len()
        invariant
            i <= due.len(),
            due.len() == fetched.len(),
            warn_views(saves@) == cycle_saves(warn_views(due@.take(i as int)), fetched@, now),
            messages@.map_values(|m: Notification| m@) == cycle_messages(
                warn_views(due@.take(i as int)),
                fetched@,
            ),
        decreases due.len() - i,
    {
        let w = &due[i];
        proof {
            assert(warn_views(due@.take(i as int + 1)).drop_last() =~= warn_views(
                due@.take(i as int),
            ));
            assert(warn_views(due@.take(i as int + 1)).last() == w@);
            assert(warn_views(due@.take(i as int + 1)).len() == i + 1);
        }
        match &fetched[i] {
            Some(station) => {
                match build_telegram_message(w, station) {
                    Some(m) => messages.push(m),
                    None => {},
                }
                match station.free_bikes {
                    Some(live) => {
                        let mut updated = w.duplicate();
                        updated.updated_at = now;
                        updated.station_info.free_bikes = live;
                        saves.push(updated);
                    },
                    None => {},
                }
            },
            None => {},
        }
        assert(warn_views(saves@) =~= cycle_saves(
            warn_views(due@.take(i as int + 1)),
            fetched@,
            now,
        ));
        assert(messages@.map_values(|m: Notification| m@) =~= cycle_messages(
            warn_views(due@.take(i as int + 1)),
            fetched@,
        ));
        i = i + 1;
    }
    assert(due@.take(due.len() as int) =~= due@);
    CycleOutcome { saves, messages }
}


/// Starts a cycle on the stored reminders at the current time: the plan for
/// whatever time the clock gave.
pub fn start_cycle(warns: &Vec<StationWarn>) -> (r: CyclePlan)
    ensures
        r.expired_keys@.map_values(|k: String| k@) == expired_keys(warn_views(warns@), r.now),
        warn_views(r.due@) == due_warns(warn_views(warns@), r.now),
{
    plan_cycle(warns, now_seconds())
}

/// Why a confirmation failed.
#[derive(Debug, Clone, Copy, PartialEq, Eq, Structural)]
pub enum ConfirmError {
    /// No offer is stored under the token: it expired or never existed.
    IntentNotFound,
}

/// The reminder that confirming offer `info` at `now` creates, to be
/// delivered to chat `chat_id` under message `message_id`.
pub open spec fn confirmed_warn(
    info: ReminderInfoView,
    chat_id: i64,
    message_id: i32,
    now: i64,
) -> StationWarnView {
    StationWarnView {
        uuid: info.uuid,
        message_id,
        created_at: now,
        updated_at: now,
        chat_id,
        station_info: info,
    }
}

/// Confirms the offer found under a token (`None` when the store held
/// none) at time `now`: the reminder it becomes, which keeps the offer's
/// token, station and count.
pub fn create_station_warn(intent: Option<CallbackData>, chat_id: i64, message_id: i32, now: i64) -> (r:
    Result<StationWarn, ConfirmError>)
    ensures
        intent.is_none() <==> r == Err::<StationWarn, ConfirmError>(ConfirmError::IntentNotFound),
        match intent {
            Some(CallbackData::StartStationReminder(info)) => r.is_ok() && r.unwrap()@
                == confirmed_warn(info@, chat_id, message_id, now) && r.unwrap()@.well_formed(),
            None => true,
        },
{
    match intent {
        None => Err(ConfirmError::IntentNotFound),
        Some(CallbackData::StartStationReminder(info)) => {
            let uuid = info.uuid.clone();
            Ok(
                StationWarn {
                    uuid,
                    message_id,
                    created_at: now,
                    updated_at: now,
                    chat_id,
                    station_info: info,
                },
            )
        },
    }
}

/// Confirms the offer found under a token at the current time.
pub fn confirm_station_warn(intent: Option<CallbackData>, chat_id: i64, message_id: i32) -> (r:
    Result<StationWarn, ConfirmError>)
    ensures
        intent.is_none() <==> r == Err::<StationWarn, ConfirmError>(ConfirmError::IntentNotFound),
        match intent {
            Some(CallbackData::StartStationReminder(info)) => r.is_ok() && r.unwrap()@
                == confirmed_warn(info@, chat_id, message_id, r.unwrap().created_at),
            None => true,
        },
{
    create_station_warn(intent, chat_id, message_id, now_seconds())
}

/// The answer shown to a user who pressed a subscribe button, by whether
/// the reminder was created.
pub fn confirmation_reply(created: bool) -> (r: &'static str)
    ensures
        created ==> r@ == "I will warn you if this station has any changes in the next 30 minutes"@,
        !created ==> r@ == "There was a problem. :("@,
{
    if created {
        "I will warn you if this station has any changes in the next 30 minutes"
    } else {
        "There was a problem. :("
    }
}

/// A station with `free` free bikes and `empty` empty docks is low on
/// bikes: it has docks, and at most the configured share hold a bike.
pub open spec fn low_on_bikes(free: u32, empty: u32) -> bool {
    free + empty > 0 && LOW_BIKES_DENOMINATOR * free <= LOW_BIKES_NUMERATOR * (free + empty)
}

/// Whether a station with these counts is low on bikes.
pub fn shows_warn(free: u32, empty: u32) -> (r: bool)
    ensures
        r == low_on_bikes(free, empty),
{
    let total = free as u64 + empty as u64;
    total > 0 && LOW_BIKES_DENOMINATOR * (free as u64) <= LOW_BIKES_NUMERATOR * total
}

/// The offer made for station `s` under `token`: only a station that
/// reports its network, its counts, and is low on bikes gets one.
pub open spec fn offer_for(s: Station, token: Seq<char>) -> Option<ReminderInfoView> {
    match (s.network_href, s.free_bikes, s.empty_slots) {
        (Some(href), Some(free), Some(empty)) => if low_on_bikes(free, empty) {
            Some(ReminderInfoView { uuid: token, network_href: href@, free_bikes: free, id: s.id@ })
        } else {
            None
        },
        _ => None,
    }
}

/// The view of an optional offer.
pub open spec fn opt_info_view(o: Option<StationReminderInfo>) -> Option<ReminderInfoView> {
    match o {
        Some(i) => Some(i@),
        None => None,
    }
}

/// The offer to attach to `station`, under `token`, if it gets one.
pub fn station_offer(station: &Station, token: String) -> (r: Option<StationReminderInfo>)
    ensures
        opt_info_view(r) == offer_for(*station, token@),
{
    match (&station.network_href, station.free_bikes, station.empty_slots) {
        (Some(href), Some(free), Some(empty)) => {
            if shows_warn(free, empty) {
                Some(
                    StationReminderInfo {
                        uuid: token,
                        network_href: href.clone(),
                        free_bikes: free,
                        id: station.id.clone(),
                    },
                )
            } else {
                None
            }
        },
        _ => None,
    }
}

/// The offers for a list of stations, one slot per station, each under a
/// fresh token of 32 characters.
pub fn reply_markups(stations: &Vec<Station>) -> (r: Vec<Option<StationReminderInfo>>)
    ensures
        r.len() == stations.len(),
        forall|i: int|
            0 <= i < stations.len() ==> match r[i] {
                Some(info) => info.uuid@.len() == 32 && offer_for(stations[i], info.uuid@)
                    == Some(info@),
                None => forall|t: Seq<char>| offer_for(#[trigger] stations[i], t).is_none(),
            },
{
    let mut r: Vec<Option<StationReminderInfo>> = Vec::new();
    let mut i: usize = 0;
    while i < stations.len()
        invariant
            i <= stations.len(),
            r.len() == i,
            forall|j: int|
                0 <= j < i ==> match r[j] {
                    Some(info) => info.uuid@.len() == 32 && offer_for(stations[j], info.uuid@)
                        == Some(info@),
                    None => forall|t: Seq<char>| offer_for(#[trigger] stations[j], t).is_none(),
                },
        decreases stations.len() - i,
    {
        let token = fresh_token();
        let offer = station_offer(&stations[i], token);
        r.push(offer);
        i = i + 1;
    }
    r
}


} // verus!
