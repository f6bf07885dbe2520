//! Validated geographic query windows.
//!
//! A query names its area of interest as a textual view, four comma-separated
//! decimal tokens `lat1,lon1,lat2,lon2` giving two opposite corners of a
//! bounding box, and a lookback duration. Validation turns the view into a
//! [`Window`] of fixed-point nanodegree coordinates or rejects it as
//! [`DiscoveryError::InvalidInput`].

use vstd::prelude::*;
use crate::decimal::{first_index, lemma_first_index_is, parse_token_nanos, token_nanos};
use crate::error::DiscoveryError;

verus! {

/// Largest admissible latitude, in nanodegrees.
pub const MAX_LAT_NANOS: i64 = 90_000_000_000;

/// Largest admissible longitude, in nanodegrees.
pub const MAX_LON_NANOS: i64 = 180_000_000_000;

/// Ceiling on a standard query's corner-to-corner distance, in millimetres.
pub const MAX_DISPLAY_AREA_DIAGONAL_MM: u64 = 7_000_000;

/// Longest admissible lookback duration, in microseconds.
pub const MAX_DURATION_US: i64 = 60_000_000;

/// Whether `v` nanodegrees is an admissible latitude (`lat`) or longitude.
pub open spec fn coord_in_range(v: int, lat: bool) -> bool {
    if lat {
        -(MAX_LAT_NANOS as int) <= v <= MAX_LAT_NANOS as int
    } else {
        -(MAX_LON_NANOS as int) <= v <= MAX_LON_NANOS as int
    }
}

/// An area of interest: two opposite corners of a bounding box, in
/// nanodegrees.
#[derive(Debug, Clone, Copy, PartialEq, Eq, Structural)]
pub struct Window {
    pub lat1: i64,
    pub lon1: i64,
    pub lat2: i64,
    pub lon2: i64,
}

impl Window {
    /// Both corners carry admissible coordinates.
    pub open spec fn wf(&self) -> bool {
        &&& coord_in_range(self.lat1 as int, true)
        &&& coord_in_range(self.lat2 as int, true)
        &&& coord_in_range(self.lon1 as int, false)
        &&& coord_in_range(self.lon2 as int, false)
    }

    /// Decides [`Window::wf`] for a window assembled outside validation.
    pub fn check_bounds(&self) -> (ok: bool)
        ensures
            ok == self.wf(),
    {
        (-MAX_LAT_NANOS <= self.lat1 && self.lat1 <= MAX_LAT_NANOS)
            && (-MAX_LAT_NANOS <= self.lat2 && self.lat2 <= MAX_LAT_NANOS)
            && (-MAX_LON_NANOS <= self.lon1 && self.lon1 <= MAX_LON_NANOS)
            && (-MAX_LON_NANOS <= self.lon2 && self.lon2 <= MAX_LON_NANOS)
    }
}

/// Parses one coordinate token; a latitude must lie in `[-90, 90]` degrees,
/// a longitude in `[-180, 180]`, each corner independently.
///
/// Coordinates are quantized to nanodegrees, truncated toward zero: a token
/// within one nanodegree above a bound lands on the bound and is accepted,
/// and the range check reads the quantized value.
pub fn parse_coordinate(token: &str, lat: bool) -> (r: Result<i64, DiscoveryError>)
    ensures
        match r {
            Ok(v) => token_nanos(token@) == Some(v as int) && coord_in_range(v as int, lat),
            Err(e) => {
                &&& e == DiscoveryError::InvalidInput
                &&& (token_nanos(token@) matches Some(v) ==> !coord_in_range(v, lat))
            },
        },
{
    match parse_token_nanos(token) {
        None => Err(DiscoveryError::InvalidInput),
        Some(v) => {
            let limit = if lat {
                MAX_LAT_NANOS
            } else {
                MAX_LON_NANOS
            };
            if -limit <= v && v <= limit {
                Ok(v)
            } else {
                Err(DiscoveryError::InvalidInput)
            }
        },
    }
}

/// The parts of `s` split at every comma; `n` commas give `n + 1` parts.
pub open spec fn split_commas(s: Seq<char>) -> Seq<Seq<char>>
    decreases s.len(),
{
    let d = first_index(s, ',');
    if 0 <= d < s.len() {
        seq![s.take(d)] + split_commas(s.skip(d + 1))
    } else {
        seq![s]
    }
}

/// The views of a sequence of string slices.
pub open spec fn str_views(parts: Seq<&str>) -> Seq<Seq<char>> {
    parts.map_values(|p: &str| p@)
}

fn split_commas_exec<'a>(view: &'a str) -> (parts: Vec<&'a str>)
    ensures
        str_views(parts@) == split_commas(view@),
{
    let ghost s = view@;
    let n = view.unicode_len();
    let mut parts: Vec<&'a str> = Vec::new();
    let mut start: usize = 0;
    let mut i: usize = 0;
    proof {
        assert(s.skip(0) =~= s);
        assert(str_views(parts@) =~= Seq::<Seq<char>>::empty());
        assert(str_views(parts@) + split_commas(s) =~= split_commas(s));
    }
    while i < n
        invariant
            start <= i <= n,
            n == s.len(),
            s == view@,
            split_commas(s) == str_views(parts@) + split_commas(s.skip(start as int)),
            forall|k: int| start <= k < i ==> s[k] != ',',
        decreases n - i,
    {
        if view.get_char(i) == ',' {
            let part = view.substring_char(start, i);
            proof {
                let t = s.skip(start as int);
                assert forall|k: int| 0 <= k < i - start implies t[k] != ',' by {
                    assert(t[k] == s[start + k]);
                }
                assert(t[i - start] == s[i as int]);
                lemma_first_index_is(t, ',', i - start);
                assert(t.take(i - start) =~= s.subrange(start as int, i as int));
                assert(t.skip((i - start) + 1) =~= s.skip(i + 1));
                assert(split_commas(t) == seq![s.subrange(start as int, i as int)]
                    + split_commas(s.skip(i + 1)));
                let done = str_views(parts@);
                assert(str_views(parts@.push(part)) =~= done.push(part@));
                assert(done + (seq![part@] + split_commas(s.skip(i + 1)))
                    =~= done.push(part@) + split_commas(s.skip(i + 1)));
            }
            parts.push(part);
            start = i + 1;
        }
        i = i + 1;
    }
    let last = view.substring_char(start, n);
    proof {
        let t = s.skip(start as int);
        assert forall|k: int| 0 <= k < t.len() implies t[k] != ',' by {
            assert(t[k] == s[start + k]);
        }
        lemma_first_index_is(t, ',', t.len() as int);
        assert(t =~= s.subrange(start as int, n as int));
        assert(split_commas(t) == seq![last@]);
        let done = str_views(parts@);
        assert(str_views(parts@.push(last)) =~= done.push(last@));
        assert(done + seq![last@] =~= done.push(last@));
    }
    parts.push(last);
    parts
}

/// Whether token `t` denotes an admissible coordinate.
pub open spec fn coord_ok(t: Seq<char>, lat: bool) -> bool {
    token_nanos(t) matches Some(v) && coord_in_range(v, lat)
}

/// Whether `0 <= d <= 60` seconds, in microseconds.
pub open spec fn duration_valid(d: int) -> bool {
    0 <= d <= MAX_DURATION_US as int
}

/// Whether the view text denotes a valid window: exactly four tokens, in
/// order latitude, longitude, latitude, longitude, each in range.
pub open spec fn view_window_valid(view: Seq<char>) -> bool {
    let parts = split_commas(view);
    &&& parts.len() == 4
    &&& coord_ok(parts[0], true)
    &&& coord_ok(parts[1], false)
    &&& coord_ok(parts[2], true)
    &&& coord_ok(parts[3], false)
}

/// The window a valid view text denotes.
pub open spec fn view_window(view: Seq<char>) -> Window {
    let parts = split_commas(view);
    Window {
        lat1: token_nanos(parts[0]).unwrap() as i64,
        lon1: token_nanos(parts[1]).unwrap() as i64,
        lat2: token_nanos(parts[2]).unwrap() as i64,
        lon2: token_nanos(parts[3]).unwrap() as i64,
    }
}

/// A view that does not split into exactly four tokens never denotes a
/// window, whatever the tokens hold; with
/// [`validate_get_flights_request`]'s contract, every such view is rejected
/// as `InvalidInput`.
pub proof fn lemma_wrong_token_count_invalid(view: Seq<char>)
    requires
        split_commas(view).len() != 4,
    ensures
        !view_window_valid(view),
{
}

/// A token that parses but lies outside `[-90, 90]` degrees of latitude —
/// or `[-180, 180]` of longitude — poisons the whole view, at either corner
/// independently; with [`validate_get_flights_request`]'s contract, every
/// such view is rejected as `InvalidInput`.
pub proof fn lemma_out_of_range_coord_invalid(view: Seq<char>, i: int)
    requires
        0 <= i < 4,
        split_commas(view).len() == 4,
        token_nanos(split_commas(view)[i]) matches Some(v) && !coord_in_range(
            v,
            i == 0 || i == 2,
        ),
    ensures
        !view_window_valid(view),
{
}

/// Validates a flight query's inputs: the lookback duration must lie in
/// `[0, 60]` seconds, and the view must denote a valid window. Any other
/// input is rejected as `InvalidInput`; nothing else is consulted.
pub fn validate_get_flights_request(view: &str, duration_us: i64) -> (r: Result<
    Window,
    DiscoveryError,
>)
    ensures
        match r {
            Ok(w) => {
                &&& duration_valid(duration_us as int)
                &&& view_window_valid(view@)
                &&& w == view_window(view@)
                &&& w.wf()
            },
            Err(e) => {
                &&& e == DiscoveryError::InvalidInput
                &&& !(duration_valid(duration_us as int) && view_window_valid(view@))
            },
        },
{
    if duration_us < 0 || duration_us > MAX_DURATION_US {
        return Err(DiscoveryError::InvalidInput);
    }

    let parts = split_commas_exec(view);
    if parts.len() != 4 {
        return Err(DiscoveryError::InvalidInput);
    }
    proof {
        assert(str_views(parts@)[0] == parts@[0]@);
        assert(str_views(parts@)[1] == parts@[1]@);
        assert(str_views(parts@)[2] == parts@[2]@);
        assert(str_views(parts@)[3] == parts@[3]@);
    }

    let lat1 = match parse_coordinate(parts[0], true) {
        Ok(v) => v,
        Err(e) => {
            return Err(e);
        },
    };
    let lon1 = match parse_coordinate(parts[1], false) {
        Ok(v) => v,
        Err(e) => {
            return Err(e);
        },
    };
    let lat2 = match parse_coordinate(parts[2], true) {
        Ok(v) => v,
        Err(e) => {
            return Err(e);
        },
    };
    let lon2 = match parse_coordinate(parts[3], false) {
        Ok(v) => v,
        Err(e) => {
            return Err(e);
        },
    };
    Ok(Window { lat1, lon1, lat2, lon2 })
}

/// Enforces the maximum-display-area policy on a window's corner-to-corner
/// distance. With no threshold the check is waived; callers of that variant
/// accept unbounded areas.
pub fn enforce_area_limit(diagonal_mm: u64, limit_mm: Option<u64>) -> (r: Result<
    (),
    DiscoveryError,
>)
    ensures
        match limit_mm {
            Some(l) => r == if diagonal_mm > l {
                Err::<(), DiscoveryError>(DiscoveryError::AreaTooLarge)
            } else {
                Ok::<(), DiscoveryError>(())
            },
            None => r == Ok::<(), DiscoveryError>(()),
        },
{
    match limit_mm {
        Some(l) => {
            if diagonal_mm > l {
                Err(DiscoveryError::AreaTooLarge)
            } else {
                Ok(())
            }
        },
        None => Ok(()),
    }
}

} // verus!
