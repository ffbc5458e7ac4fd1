use vstd::prelude::*;

use crate::error::AppError;
use crate::pages::PageId;

verus! {

/// The wall-clock time of one tick.
#[derive(Debug, Clone, Copy)]
pub struct WorldTime {
    pub hour: u8,
    pub _minute: u8,
}

impl WorldTime {
    pub open spec fn spec_is_daytime(self) -> bool {
        6 <= self.hour && self.hour < 18
    }

    /// True when 6:00 <= hour < 18:00.
    pub fn is_daytime(&self) -> (r: bool)
        ensures
            r == self.spec_is_daytime(),
    {
        self.hour >= 6 && self.hour < 18
    }

    /// True when the hour is not daytime.
    pub fn is_night(&self) -> (r: bool)
        ensures
            r == !self.spec_is_daytime(),
    {
        !self.is_daytime()
    }

    /// True within an hour of dawn (6:00) or dusk (18:00).
    pub fn _is_twilight(&self) -> (r: bool)
        ensures
            r == ((5 <= self.hour < 7) || (17 <= self.hour < 19)),
    {
        (self.hour >= 5 && self.hour < 7) || (self.hour >= 17 && self.hour < 19)
    }
}

#[verifier::external_type_specification]
#[verifier::external_body]
pub struct ExSystemTime(std::time::SystemTime);

/// The month, 1 to 12, of the UTC calendar at `secs` seconds after the Unix
/// epoch; none where chrono cannot represent that instant.
pub uninterp spec fn utc_month_of(secs: i64) -> Option<u32>;

/// Relies on std::time::SystemTime::now: the current wall-clock time.
#[verifier::external_body]
fn system_now() -> (r: std::time::SystemTime) {
    std::time::SystemTime::now()
}

/// Relies on SystemTime::duration_since(UNIX_EPOCH): whole seconds since the
/// epoch, or its error for an instant before it.
#[verifier::external_body]
fn secs_since_epoch(t: &std::time::SystemTime) -> (r: Result<u64, std::time::SystemTimeError>) {
    t.duration_since(std::time::UNIX_EPOCH).map(|d| d.as_secs())
}

/// Relies on chrono's DateTime::<Utc>::from_timestamp and Datelike::month:
/// the UTC month of a timestamp, 1 to 12, or none out of chrono's range.
#[verifier::external_body]
fn utc_month(secs: i64) -> (r: Option<u32>)
    ensures
        r == utc_month_of(secs),
        r matches Some(m) ==> 1 <= m <= 12,
{
    chrono::DateTime::<chrono::Utc>::from_timestamp(secs, 0).map(|d| chrono::Datelike::month(&d))
}

/// The season of a month number; "Unknown" outside 1 to 12.
pub open spec fn season_name(month: u32) -> Seq<char> {
    if month == 12 || month == 1 || month == 2 {
        "Winter"@
    } else if 3 <= month <= 5 {
        "Spring"@
    } else if 6 <= month <= 8 {
        "Summer"@
    } else if 9 <= month <= 11 {
        "Autumn"@
    } else {
        "Unknown"@
    }
}

/// The season at `secs` seconds after the epoch, by the UTC month.
pub open spec fn season_at(secs: u64) -> Seq<char> {
    if secs <= i64::MAX {
        match utc_month_of(secs as i64) {
            Some(m) => season_name(m),
            None => "Unknown"@,
        }
    } else {
        "Unknown"@
    }
}

/// The weather at `secs` seconds after the epoch: it turns every minute
/// through Clear, Rainy, Cloudy and Windy.
pub open spec fn weather_at(secs: u64) -> Seq<char> {
    let idx = (secs / 60) % 4;
    if idx == 0 {
        "Clear"@
    } else if idx == 1 {
        "Rainy"@
    } else if idx == 2 {
        "Cloudy"@
    } else {
        "Windy"@
    }
}

/// The season of a month number.
pub fn season_of_month(month: u32) -> (r: String)
    ensures
        r@ == season_name(month),
{
    if month == 12 || month == 1 || month == 2 {
        "Winter".to_owned()
    } else if 3 <= month && month <= 5 {
        "Spring".to_owned()
    } else if 6 <= month && month <= 8 {
        "Summer".to_owned()
    } else if 9 <= month && month <= 11 {
        "Autumn".to_owned()
    } else {
        "Unknown".to_owned()
    }
}

/// The season at `secs` seconds after the epoch.
pub fn compute_season(secs: u64) -> (r: String)
    ensures
        r@ == season_at(secs),
{
    if secs <= 9223372036854775807 {
        match utc_month(secs as i64) {
            Some(m) => season_of_month(m),
            None => "Unknown".to_owned(),
        }
    } else {
        "Unknown".to_owned()
    }
}

/// The weather at `secs` seconds after the epoch.
pub fn random_weather(secs: u64) -> (r: String)
    ensures
        r@ == weather_at(secs),
{
    let idx = (secs / 60) % 4;
    if idx == 0 {
        "Clear".to_owned()
    } else if idx == 1 {
        "Rainy".to_owned()
    } else if idx == 2 {
        "Cloudy".to_owned()
    } else {
        "Windy".to_owned()
    }
}

/// Season and weather of a page, and when they were made (seconds since
/// the epoch).
#[derive(Debug)]
pub struct Environment {
    pub season: String,
    pub weather: String,
    pub timestamp: u64,
}

impl Environment {
    /// The environment at `secs` seconds after the epoch.
    pub open spec fn made_at(self, secs: u64) -> bool {
        &&& self.timestamp == secs
        &&& self.season@ == season_at(secs)
        &&& self.weather@ == weather_at(secs)
    }

    /// A copy of this environment.
    pub fn duplicate(&self) -> (r: Environment)
        ensures
            r == *self,
    {
        Environment {
            season: self.season.clone(),
            weather: self.weather.clone(),
            timestamp: self.timestamp,
        }
    }
}

/// The key of a cache entry.
pub open spec fn cache_keys(cache: Seq<(PageId, Environment)>) -> Seq<Seq<char>> {
    cache.map_values(|e: (PageId, Environment)| e.0@)
}

/// The environment of each page seen so far, made once and then kept.
pub struct EnvironmentManager {
    pub cache: Vec<(PageId, Environment)>,
}

impl EnvironmentManager {
    /// No page is cached twice.
    pub open spec fn wf(&self) -> bool {
        cache_keys(self.cache@).no_duplicates()
    }

    /// An empty cache.
    pub fn new() -> (r: EnvironmentManager)
        ensures
            r.cache@.len() == 0,
            r.wf(),
    {
        let r = EnvironmentManager { cache: Vec::new() };
        assert(cache_keys(r.cache@) =~= Seq::<Seq<char>>::empty());
        r
    }

    /// A fresh environment for the present moment; fails only when the clock
    /// stands before the epoch.
    fn generate_environment(&self, _page_id: &PageId) -> (r: Result<Environment, AppError>)
        ensures
            r matches Ok(env) ==> env.made_at(env.timestamp),
            r matches Err(e) ==> e is DateTimeError,
    {
        let now = system_now();
        match secs_since_epoch(&now) {
            Err(e) => Err(AppError::DateTimeError(e)),
            Ok(secs) => {
                let season = compute_season(secs);
                let weather = random_weather(secs);
                Ok(Environment { season, weather, timestamp: secs })
            },
        }
    }

    /// The cached environment of `page_id`, or a fresh one that is then
    /// cached; nothing is cached when making it fails.
    pub fn get_environment_for_page(&mut self, page_id: &PageId) -> (r: Result<Environment, AppError>)
        requires
            old(self).wf(),
        ensures
            final(self).wf(),
            match cache_keys(old(self).cache@).index_of_first(page_id@) {
                Some(i) => r == Ok::<Environment, AppError>(old(self).cache@[i].1) && final(self).cache@
                    == old(self).cache@,
                None => match r {
                    Ok(env) => env.made_at(env.timestamp) && final(self).cache@.len() == old(
                        self,
                    ).cache@.len() + 1 && final(self).cache@.drop_last() == old(self).cache@
                        && final(self).cache@.last().0@ == page_id@ && final(self).cache@.last().1
                        == env,
                    Err(e) => e is DateTimeError && final(self).cache@ == old(self).cache@,
                },
            },
    {
        let ghost keys = cache_keys(self.cache@);
        let mut i: usize = 0;
        while i < self.cache.len()
            invariant
                0 <= i <= self.cache@.len(),
                keys == cache_keys(self.cache@),
                self.cache@ == old(self).cache@,
                self.wf(),
                forall|k: int| 0 <= k < i ==> keys[k] != page_id@,
            decreases self.cache@.len() - i,
        {
            assert(keys[i as int] == self.cache@[i as int].0@);
            if self.cache[i].0.same(page_id) {
                proof {
                    keys.index_of_first_ensures(page_id@);
                }
                return Ok(self.cache[i].1.duplicate());
            }
            i = i + 1;
        }
        proof {
            keys.index_of_first_ensures(page_id@);
        }
        match self.generate_environment(page_id) {
            Err(e) => Err(e),
            Ok(env) => {
                let kept = env.duplicate();
                self.cache.push((PageId(page_id.0.clone()), kept));
                assert(self.cache@.drop_last() =~= old(self).cache@);
                assert(cache_keys(self.cache@) =~= keys.push(page_id@));
                assert(!keys.contains(page_id@));
                Ok(env)
            },
        }
    }
}

} // verus!
