use crate::decimal::{decimal, decimal_string};
use vstd::prelude::*;

verus! {

/// Why a station list or a station could not be had.
#[derive(Debug, PartialEq, Eq)]
pub enum BikeServiceError {
    /// The network with this name has no link to its stations.
    InvalidBikeNetwork(String),
    /// No station of the network has this id.
    StationNotFound(String),
}

/// Free-text details that a network gives about a station.
#[derive(Debug)]
pub struct Extra {
    pub address: Option<String>,
    pub description: Option<String>,
}

/// A bike station as the provider describes it (its coordinates are kept by
/// the caller, who sorts by distance).
#[derive(Debug)]
pub struct Station {
    pub free_bikes: Option<u32>,
    pub empty_slots: Option<u32>,
    pub id: String,
    pub name: String,
    pub timestamp: String,
    pub extra: Option<Extra>,
    pub network_href: Option<String>,
}

/// A bike-sharing network; `href` is the link to its station list.
#[derive(Debug)]
pub struct Network {
    pub href: Option<String>,
    pub name: String,
    pub stations: Option<Vec<Station>>,
}


impl BikeServiceError {
    /// The error's text.
    pub fn message(&self) -> (r: String)
        ensures
            r@ == match self {
                BikeServiceError::InvalidBikeNetwork(name) => "Network with name:`"@ + name@
                    + "` does not have href value"@,
                BikeServiceError::StationNotFound(id) => "Station with id:`"@ + id@ + "` not found"@,
            },
    {
        match self {
            BikeServiceError::InvalidBikeNetwork(name) => {
                let mut r = String::from_str("Network with name:`");
                r.append(name.as_str());
                r.append("` does not have href value");
                r
            },
            BikeServiceError::StationNotFound(id) => {
                let mut r = String::from_str("Station with id:`");
                r.append(id.as_str());
                r.append("` not found");
                r
            },
        }
    }
}

impl Network {
    /// The link to this network's station list, or the error that says it
    /// has none.
    pub fn stations_href(&self) -> (r: Result<String, BikeServiceError>)
        ensures
            match self.href {
                Some(h) => r.is_ok() && r.unwrap()@ == h@,
                None => match r {
                    Err(BikeServiceError::InvalidBikeNetwork(name)) => name@ == self.name@,
                    _ => false,
                },
            },
    {
        match &self.href {
            Some(h) => Ok(h.clone()),
            None => Err(BikeServiceError::InvalidBikeNetwork(self.name.clone())),
        }
    }
}

impl Station {
    /// This station, marked as one of the network whose list is at `href`.
    pub fn with_network_href(self, href: &str) -> (r: Station)
        ensures
            r.network_href.is_some() && r.network_href.unwrap()@ == href@,
            r.free_bikes == self.free_bikes,
            r.empty_slots == self.empty_slots,
            r.id == self.id,
            r.name == self.name,
            r.timestamp == self.timestamp,
            r.extra == self.extra,
    {
        Station { network_href: Some(String::from_str(href)), ..self }
    }

    /// The station's description, else its address, else nothing.
    pub fn description_text(&self) -> (r: String)
        ensures
            r@ == match self.extra {
                Some(e) => match e.description {
                    Some(d) => d@,
                    None => match e.address {
                        Some(a) => a@,
                        None => Seq::empty(),
                    },
                },
                None => Seq::empty(),
            },
    {
        match &self.extra {
            Some(e) => match &e.description {
                Some(d) => d.clone(),
                None => match &e.address {
                    Some(a) => a.clone(),
                    None => String::new(),
                },
            },
            None => String::new(),
        }
    }
}

/// How a count is shown: its digits, or `??` when it is not known.
pub open spec fn count_shown(n: Option<u32>) -> Seq<char> {
    match n {
        Some(k) => decimal(k as nat),
        None => "??"@,
    }
}

/// Shows a count that may be unknown.
pub fn count_text(n: Option<u32>) -> (r: String)
    ensures
        r@ == count_shown(n),
{
    match n {
        Some(k) => decimal_string(k),
        None => String::from_str("??"),
    }
}

/// The station of `stations` with id `id` (the first, if several have it),
/// or the error that says none has it.
pub fn find_station(stations: Vec<Station>, id: &str) -> (r: Result<Station, BikeServiceError>)
    ensures
        match r {
            Ok(s) => exists|i: int|
                0 <= i < stations.len() && s == stations[i] && s.id@ == id@ && forall|j: int|
                    0 <= j < i ==> (#[trigger] stations[j]).id@ != id@,
            Err(BikeServiceError::StationNotFound(e)) => e@ == id@ && forall|j: int|
                0 <= j < stations.len() ==> (#[trigger] stations[j]).id@ != id@,
            Err(_) => false,
        },
{
    let ghost given = stations@;
    let mut list = stations;
    let wanted = String::from_str(id);
    let mut i: usize = 0;
    while i < list.len()
        invariant
            list@ == given,
            stations@ == given,
            i <= list.len(),
            wanted@ == id@,
            forall|j: int| 0 <= j < i ==> (#[trigger] given[j]).id@ != id@,
        decreases list.len() - i,
    {
        if list[i].id == wanted {
            let s = list.remove(i);
            assert(s == given[i as int]);
            assert(s == stations[i as int]);
            return Ok(s);
        }
        i = i + 1;
    }
    Err(BikeServiceError::StationNotFound(wanted))
}

} // verus!
