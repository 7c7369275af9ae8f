use crate::bike_service::{count_shown, count_text, Station};
use crate::markdown::{escape, escaped, italic, italicized, link, linked};
use vstd::prelude::*;

verus! {

/// At most this many bikes over the nearest stations counts as few.
pub const SMALL_BIKE_AMOUNT: u64 = 6;
/// Stations listed when the nearest ones have few bikes.
pub const STATION_MAX_TAKE: usize = 5;
/// Stations listed otherwise; also how many count for "few bikes".
pub const STATION_MIN_TAKE: usize = 3;

/// A station's free bikes, an unknown count counting as none.
pub open spec fn free_or_zero(s: Station) -> nat {
    match s.free_bikes {
        Some(k) => k as nat,
        None => 0,
    }
}

/// The free bikes of all stations of `ss`.
pub open spec fn free_sum(ss: Seq<Station>) -> nat
    decreases ss.len(),
{
    if ss.len() == 0 {
        0
    } else {
        free_sum(ss.drop_last()) + free_or_zero(ss.last())
    }
}

/// How many of `ss`, sorted nearest first, to list: more when the nearest
/// few hold few bikes.
pub open spec fn show_count(ss: Seq<Station>) -> usize {
    let first = if ss.len() < STATION_MIN_TAKE { ss } else { ss.take(STATION_MIN_TAKE as int) };
    if free_sum(first) <= SMALL_BIKE_AMOUNT {
        STATION_MAX_TAKE
    } else {
        STATION_MIN_TAKE
    }
}

/// How many of `stations`, sorted nearest first, to list.
pub fn stations_to_show(stations: &Vec<Station>) -> (r: usize)
    ensures
        r == show_count(stations@),
{
    let n = if stations.len() < STATION_MIN_TAKE { stations.len() } else { STATION_MIN_TAKE };
    let ghost first = if stations.len() < STATION_MIN_TAKE { stations@ } else { stations@.take(STATION_MIN_TAKE as int) };
    assert(first =~= stations@.take(n as int));
    let mut sum: u64 = 0;
    let mut i: usize = 0;
    while i < n
        invariant
            n <= stations.len(),
            n <= STATION_MIN_TAKE,
            i <= n,
            sum == free_sum(stations@.take(i as int)),
            sum <= i * 0xffff_ffffu64,
        decreases n - i,
    {
        assert(stations@.take(i as int + 1).drop_last() =~= stations@.take(i as int));
        let add: u64 = match stations[i].free_bikes {
            Some(k) => k as u64,
            None => 0,
        };
        sum = sum + add;
        i = i + 1;
    }
    if sum <= SMALL_BIKE_AMOUNT {
        STATION_MAX_TAKE
    } else {
        STATION_MIN_TAKE
    }
}


/// The description that a station's card shows: its description, else its
/// address, else nothing.
pub open spec fn description_of(s: Station) -> Seq<char> {
    match s.extra {
        Some(e) => match e.description {
            Some(d) => d@,
            None => match e.address {
                Some(a) => a@,
                None => Seq::empty(),
            },
        },
        None => Seq::empty(),
    }
}

/// The card of station `s`, whose name links to `map_url`.
pub open spec fn station_card(s: Station, map_url: Seq<char>) -> Seq<char> {
    "`Station   :` "@ + linked(map_url, escaped(s.name@)) + "\n`Bikes     :` "@ + count_shown(
        s.free_bikes,
    ) + "\n`Free slot :` "@ + count_shown(s.empty_slots) + "\n"@ + italicized(
        escaped(description_of(s)),
    )
}

impl Station {
    /// The card that lists this station: its name as a link to `map_url`
    /// (a map centred on it), its counts and its description.
    pub fn message(&self, map_url: &str) -> (r: String)
        ensures
            r@ == station_card(*self, map_url@),
    {
        let name = link(map_url, escape(self.name.as_str()).as_str());
        let description = self.description_text();
        assert(description@ == description_of(*self));
        let description = italic(escape(description.as_str()).as_str());
        let mut r = String::from_str("`Station   :` ");
        r.append(name.as_str());
        r.append("\n`Bikes     :` ");
        r.append(count_text(self.free_bikes).as_str());
        r.append("\n`Free slot :` ");
        r.append(count_text(self.empty_slots).as_str());
        r.append("\n");
        r.append(description.as_str());
        r
    }
}

} // verus!
