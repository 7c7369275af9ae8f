//! What a reminder cycle guarantees over every store it may load: last
//! checks only move forward, expired reminders go, recent ones stay.
use crate::bike_service::Station;
use crate::models::StationWarnView;
use crate::station_low_warn::{
    cycle_saves, due_warns, expired_keys, is_due, is_expired, live_count, reconciled, warn_key,
    warn_key_prefix, WARN_INTERVAL_TIME,
};
use vstd::prelude::*;

verus! {

/// `w` is a reminder of `ws` that is due at `now`.
pub open spec fn is_due_in(ws: Seq<StationWarnView>, now: i64, w: StationWarnView) -> bool {
    exists|j: int| 0 <= j < ws.len() && w == ws[j] && is_due(ws[j], now)
}

proof fn lemma_due_warns_come_from(ws: Seq<StationWarnView>, now: i64)
    ensures
        forall|k: int|
            0 <= k < due_warns(ws, now).len() ==> is_due_in(ws, now, #[trigger] due_warns(ws, now)[k]),
    decreases ws.len(),
{
    if ws.len() > 0 {
        let init = ws.drop_last();
        lemma_due_warns_come_from(init, now);
        let d = due_warns(ws, now);
        let rest = due_warns(init, now);
        if is_due(ws.last(), now) {
            assert(d == rest.push(ws.last()));
        } else {
            assert(d == rest);
        }
        assert forall|k: int| 0 <= k < d.len() implies is_due_in(ws, now, #[trigger] d[k]) by {
            if k < rest.len() {
                assert(d[k] == rest[k]);
                assert(is_due_in(init, now, rest[k]));
                let j = choose|j: int| 0 <= j < init.len() && rest[k] == init[j] && is_due(init[j], now);
                assert(init[j] == ws[j]);
            } else {
                let j = ws.len() - 1;
                assert(d[k] == ws[j]);
            }
        }
    }
}

/// `key` is the key of a reminder of `ws` that is expired at `now`.
pub open spec fn is_expired_key_of(ws: Seq<StationWarnView>, now: i64, key: Seq<char>) -> bool {
    exists|j: int| 0 <= j < ws.len() && key == warn_key(ws[j].uuid) && is_expired(ws[j], now)
}

proof fn lemma_expired_keys_come_from(ws: Seq<StationWarnView>, now: i64)
    ensures
        forall|k: int|
            0 <= k < expired_keys(ws, now).len() ==> is_expired_key_of(
                ws,
                now,
                #[trigger] expired_keys(ws, now)[k],
            ),
    decreases ws.len(),
{
    if ws.len() > 0 {
        let init = ws.drop_last();
        lemma_expired_keys_come_from(init, now);
        let e = expired_keys(ws, now);
        let rest = expired_keys(init, now);
        if is_expired(ws.last(), now) {
            assert(e == rest.push(warn_key(ws.last().uuid)));
        } else {
            assert(e == rest);
        }
        assert forall|k: int| 0 <= k < e.len() implies is_expired_key_of(ws, now, #[trigger] e[k]) by {
            if k < rest.len() {
                assert(e[k] == rest[k]);
                assert(is_expired_key_of(init, now, rest[k]));
                let j = choose|j: int|
                    0 <= j < init.len() && rest[k] == warn_key(init[j].uuid) && is_expired(
                        init[j],
                        now,
                    );
                assert(init[j] == ws[j]);
                assert(e[k] == warn_key(ws[j].uuid));
            } else {
                let j = ws.len() - 1;
                assert(is_expired(ws[j], now));
                assert(e[k] == warn_key(ws[j].uuid));
            }
        }
    }
}

proof fn lemma_expired_keys_cover(ws: Seq<StationWarnView>, now: i64)
    ensures
        forall|j: int|
            0 <= j < ws.len() && is_expired(ws[j], now) ==> expired_keys(ws, now).contains(
                warn_key(#[trigger] ws[j].uuid),
            ),
    decreases ws.len(),
{
    if ws.len() > 0 {
        let init = ws.drop_last();
        lemma_expired_keys_cover(init, now);
        let e = expired_keys(ws, now);
        assert forall|j: int| 0 <= j < ws.len() && is_expired(ws[j], now) implies e.contains(
            warn_key(#[trigger] ws[j].uuid),
        ) by {
            if j < ws.len() - 1 {
                assert(init[j] == ws[j]);
                let k = choose|k: int|
                    0 <= k < expired_keys(init, now).len() && expired_keys(init, now)[k]
                        == warn_key(init[j].uuid);
                assert(e[k] == warn_key(ws[j].uuid));
            } else {
                assert(e[e.len() - 1] == warn_key(ws[j].uuid));
            }
        }
    }
}

/// `w` is a reminder of `due` with only its count and last check set, to
/// its own count and `now`.
pub open spec fn is_reconciled_from(due: Seq<StationWarnView>, now: i64, w: StationWarnView) -> bool {
    exists|i: int| 0 <= i < due.len() && w == reconciled(due[i], w.station_info.free_bikes, now)
}

proof fn lemma_saves_come_from(due: Seq<StationWarnView>, fetched: Seq<Option<Station>>, now: i64)
    requires
        due.len() <= fetched.len(),
    ensures
        forall|k: int|
            0 <= k < cycle_saves(due, fetched, now).len() ==> is_reconciled_from(
                due,
                now,
                #[trigger] cycle_saves(due, fetched, now)[k],
            ),
    decreases due.len(),
{
    if due.len() > 0 {
        let init = due.drop_last();
        lemma_saves_come_from(init, fetched, now);
        let s = cycle_saves(due, fetched, now);
        let rest = cycle_saves(init, fetched, now);
        match live_count(fetched[due.len() - 1]) {
            Some(live) => {
                assert(s == rest.push(reconciled(due.last(), live, now)));
            },
            None => {
                assert(s == rest);
            },
        }
        assert forall|k: int| 0 <= k < s.len() implies is_reconciled_from(due, now, #[trigger] s[k]) by {
            if k < rest.len() {
                assert(s[k] == rest[k]);
                assert(is_reconciled_from(init, now, rest[k]));
                let i = choose|i: int|
                    0 <= i < init.len() && rest[k] == reconciled(
                        init[i],
                        rest[k].station_info.free_bikes,
                        now,
                    );
                assert(init[i] == due[i]);
            } else {
                let i = due.len() - 1;
                assert(s[k] == reconciled(due[i], s[k].station_info.free_bikes, now));
            }
        }
    }
}

/// A cycle never moves a reminder's last check back: every reminder that a
/// cycle at `now` writes is a stored reminder with only its count and its
/// last check changed, that last check was earlier than `now`, and a
/// well-formed reminder stays well formed.
pub proof fn lemma_updated_at_never_decreases(
    warns: Seq<StationWarnView>,
    fetched: Seq<Option<Station>>,
    now: i64,
)
    requires
        fetched.len() == due_warns(warns, now).len(),
    ensures
        forall|k: int|
            0 <= k < cycle_saves(due_warns(warns, now), fetched, now).len() ==> {
                let w = #[trigger] cycle_saves(due_warns(warns, now), fetched, now)[k];
                exists|j: int|
                    0 <= j < warns.len() && w == reconciled(warns[j], w.station_info.free_bikes, now)
                        && warns[j].updated_at < w.updated_at && (warns[j].well_formed()
                        ==> w.well_formed())
            },
{
    let due = due_warns(warns, now);
    let s = cycle_saves(due, fetched, now);
    lemma_due_warns_come_from(warns, now);
    lemma_saves_come_from(due, fetched, now);
    assert forall|k: int| 0 <= k < s.len() implies exists|j: int|
        0 <= j < warns.len() && #[trigger] s[k] == reconciled(warns[j], s[k].station_info.free_bikes, now)
            && warns[j].updated_at < s[k].updated_at by {
        assert(is_reconciled_from(due, now, s[k]));
        let i = choose|i: int| 0 <= i < due.len() && s[k] == reconciled(due[i], s[k].station_info.free_bikes, now);
        assert(is_due_in(warns, now, due[i]));
        let j = choose|j: int| 0 <= j < warns.len() && due[i] == warns[j] && is_due(warns[j], now);
        assert(s[k] == reconciled(warns[j], s[k].station_info.free_bikes, now));
    }
}

/// A reminder past its lifetime at `now` is deleted by the cycle at `now`,
/// is not among the reminders it checks, and stays past its lifetime at
/// every later time.
pub proof fn lemma_expired_are_dropped(warns: Seq<StationWarnView>, now: i64, later: i64)
    requires
        now <= later,
    ensures
        forall|j: int|
            0 <= j < warns.len() && is_expired(#[trigger] warns[j], now) ==> {
                &&& expired_keys(warns, now).contains(warn_key(warns[j].uuid))
                &&& !due_warns(warns, now).contains(warns[j])
                &&& is_expired(warns[j], later)
            },
{
    lemma_expired_keys_cover(warns, now);
    lemma_due_warns_come_from(warns, now);
    assert forall|j: int| 0 <= j < warns.len() && is_expired(#[trigger] warns[j], now) implies
        !due_warns(warns, now).contains(warns[j]) by {
        if due_warns(warns, now).contains(warns[j]) {
            let k = choose|k: int|
                0 <= k < due_warns(warns, now).len() && due_warns(warns, now)[k] == warns[j];
            assert(is_due_in(warns, now, due_warns(warns, now)[k]));
        }
    }
}

proof fn lemma_warn_key_injective(a: Seq<char>, b: Seq<char>)
    requires
        warn_key(a) == warn_key(b),
    ensures
        a == b,
{
    let n = warn_key_prefix().len() + 1;
    assert(warn_key(a).subrange(n as int, warn_key(a).len() as int) =~= a);
    assert(warn_key(b).subrange(n as int, warn_key(b).len() as int) =~= b);
}

/// Distinct stored reminders have distinct tokens.
pub open spec fn tokens_unique(ws: Seq<StationWarnView>) -> bool {
    forall|a: int, b: int| 0 <= a < ws.len() && 0 <= b < ws.len() && a != b ==> ws[a].uuid != ws[b].uuid
}

/// A live reminder checked within the guard window is left alone by the
/// cycle at `now`: its key is not deleted, it is not checked, and nothing
/// is written under its token.
pub proof fn lemma_recent_left_alone(
    warns: Seq<StationWarnView>,
    fetched: Seq<Option<Station>>,
    now: i64,
    j: int,
)
    requires
        tokens_unique(warns),
        fetched.len() == due_warns(warns, now).len(),
        0 <= j < warns.len(),
        now - warns[j].updated_at <= WARN_INTERVAL_TIME,
        !is_expired(warns[j], now),
    ensures
        !expired_keys(warns, now).contains(warn_key(warns[j].uuid)),
        forall|k: int|
            0 <= k < due_warns(warns, now).len() ==> (#[trigger] due_warns(warns, now)[k]).uuid
                != warns[j].uuid,
        forall|k: int|
            0 <= k < cycle_saves(due_warns(warns, now), fetched, now).len() ==> (
            #[trigger] cycle_saves(due_warns(warns, now), fetched, now)[k]).uuid != warns[j].uuid,
{
    let due = due_warns(warns, now);
    lemma_expired_keys_come_from(warns, now);
    lemma_due_warns_come_from(warns, now);
    lemma_saves_come_from(due, fetched, now);
    if expired_keys(warns, now).contains(warn_key(warns[j].uuid)) {
        let k = choose|k: int|
            0 <= k < expired_keys(warns, now).len() && expired_keys(warns, now)[k] == warn_key(
                warns[j].uuid,
            );
        assert(is_expired_key_of(warns, now, expired_keys(warns, now)[k]));
        let i = choose|i: int|
            0 <= i < warns.len() && expired_keys(warns, now)[k] == warn_key(warns[i].uuid)
                && is_expired(warns[i], now);
        lemma_warn_key_injective(warns[i].uuid, warns[j].uuid);
    }
    assert forall|k: int| 0 <= k < due.len() implies (#[trigger] due[k]).uuid != warns[j].uuid by {
        assert(is_due_in(warns, now, due[k]));
        let i = choose|i: int| 0 <= i < warns.len() && due[k] == warns[i] && is_due(warns[i], now);
    }
    let s = cycle_saves(due, fetched, now);
    assert forall|k: int| 0 <= k < s.len() implies (#[trigger] s[k]).uuid != warns[j].uuid by {
        assert(is_reconciled_from(due, now, s[k]));
        let i = choose|i: int| 0 <= i < due.len() && s[k] == reconciled(due[i], s[k].station_info.free_bikes, now);
        assert(due[i].uuid != warns[j].uuid);
    }
}

} // verus!
