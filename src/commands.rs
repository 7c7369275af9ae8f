use vstd::prelude::*;

verus! {

/// What an incoming chat message asks for.
#[derive(Debug, Clone, Copy, PartialEq, Eq, Structural)]
pub enum Route {
    /// The greeting, with the button that shares a location.
    Start,
    /// Who made the bot and where its data comes from.
    About,
    /// The stations near the shared location.
    Location,
}

/// `p` is a prefix of `s`.
pub open spec fn has_prefix(s: Seq<char>, p: Seq<char>) -> bool {
    p.len() <= s.len() && s.take(p.len() as int) == p
}

/// The handler for a message with text `text` (empty when it has none) that
/// does or does not share a location: the commands first, then a shared
/// location, else the greeting.
pub open spec fn route_for(text: Seq<char>, has_location: bool) -> Route {
    if has_prefix(text, "/start"@) {
        Route::Start
    } else if has_prefix(text, "/about"@) {
        Route::About
    } else if has_location {
        Route::Location
    } else {
        Route::Start
    }
}

/// Whether `s` begins with `p`.
pub fn starts_with(s: &str, p: &str) -> (r: bool)
    ensures
        r == has_prefix(s@, p@),
{
    let n = p.unicode_len();
    if n > s.unicode_len() {
        return false;
    }
    let mut i: usize = 0;
    while i < n
        invariant
            n == p@.len(),
            n <= s@.len(),
            i <= n,
            forall|j: int| 0 <= j < i ==> s@[j] == p@[j],
        decreases n - i,
    {
        if s.get_char(i) != p.get_char(i) {
            assert(s@.take(n as int)[i as int] != p@[i as int]);
            return false;
        }
        i = i + 1;
    }
    assert(s@.take(n as int) =~= p@);
    true
}

/// Picks the handler for a message.
pub fn route_message(text: &str, has_location: bool) -> (r: Route)
    ensures
        r == route_for(text@, has_location),
{
    if starts_with(text, "/start") {
        Route::Start
    } else if starts_with(text, "/about") {
        Route::About
    } else if has_location {
        Route::Location
    } else {
        Route::Start
    }
}

} // verus!
