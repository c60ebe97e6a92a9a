//! How much of the subscription limits is already spent.
//!
//! Two sources, in order of freshness: the harvest file, which a status line
//! rewrites on every render, and the command line tool's own configuration,
//! whose cache refreshes only on request and can sit unchanged for days.
use crate::number::{decimal, write_decimal};
use crate::path::{below, FilePath};
use crate::text::opt_view;
use vstd::prelude::*;
use vstd::utf8::encode_utf8;

verus! {

/// A window nobody has refreshed for this many nanoseconds is shown as such: the
/// numbers only move while a local session renders, and usage spent elsewhere
/// never reaches us at all.
pub const STALE_AFTER: i128 = 1_800_000_000_000;

/// The first and the last second of the calendar, counted from the epoch.
pub const CALENDAR_FIRST: i64 = -8_334_601_228_800;

pub const CALENDAR_LAST: i64 = 8_210_266_876_799;

pub const NANOS_PER_SECOND: i128 = 1_000_000_000;

/// A point in time: seconds since the epoch in UTC, and nanoseconds on top.
/// A leap second is told by a billion nanoseconds or more.
#[derive(Clone, Copy, Debug, PartialEq, Eq, Structural)]
pub struct Moment {
    pub secs: i64,
    pub nanos: u32,
}

impl Moment {
    /// Whether this is what a clock shows: clocks do not show leap seconds.
    pub open spec fn on_the_clock(self) -> bool {
        self.nanos < NANOS_PER_SECOND
    }

    /// Whether this point in time is no later than the other.
    pub open spec fn no_later_than(self, other: Moment) -> bool {
        self.secs < other.secs || self.secs == other.secs && self.nanos <= other.nanos
    }

    /// Takes a clock reading.
    pub fn new(secs: i64, nanos: u32) -> (reading: Option<Moment>)
        ensures
            reading == (if nanos < NANOS_PER_SECOND {
                Some(Moment { secs, nanos })
            } else {
                None
            }),
            reading matches Some(moment) ==> moment.on_the_clock(),
    {
        if (nanos as i128) < NANOS_PER_SECOND {
            Some(Moment { secs, nanos })
        } else {
            None
        }
    }

    /// Compares two points in time.
    pub fn is_no_later(&self, other: &Moment) -> (ordered: bool)
        ensures
            ordered == self.no_later_than(*other),
    {
        self.secs < other.secs || (self.secs == other.secs && self.nanos <= other.nanos)
    }
}

/// Whether the calendar reaches as far as this many seconds from the epoch.
pub open spec fn in_calendar(secs: i64) -> bool {
    CALENDAR_FIRST <= secs <= CALENDAR_LAST
}

/// Looks up seconds since the epoch in the calendar:
/// `chrono::DateTime::from_timestamp` without nanoseconds, then `timestamp` of
/// what it found. Claimed of it: the calendar runs from the first second of the
/// year -262143 to the last second of the year 262142; what lies within comes
/// back unchanged, and there is nothing beyond.
#[verifier::external_body]
fn from_timestamp(secs: i64) -> (found: Option<i64>)
    ensures
        found == (if in_calendar(secs) {
            Some(secs)
        } else {
            None
        }),
{
    chrono::DateTime::from_timestamp(secs, 0).map(|at| at.timestamp())
}

/// The point in time that an RFC 3339 text names, if it names one: seconds
/// since the epoch and nanoseconds.
pub uninterp spec fn rfc3339(text: Seq<char>) -> Option<(i64, u32)>;

/// Reads an RFC 3339 text: `chrono::DateTime::parse_from_rfc3339`, then
/// `timestamp` and `timestamp_subsec_nanos` of the result. Claimed of it: what
/// it finds, if anything, follows from the text alone.
#[verifier::external_body]
fn parse_from_rfc3339(text: &str) -> (found: Option<(i64, u32)>)
    ensures
        found == rfc3339(text@),
{
    chrono::DateTime::parse_from_rfc3339(text).ok().map(
        |at| (at.timestamp(), at.timestamp_subsec_nanos()),
    )
}

/// Percent of each window already spent, nothing for a window we cannot read.
#[derive(Clone, Copy, Debug, PartialEq, Eq, Structural)]
pub struct Usage {
    pub five_hour: Option<u8>,
    pub seven_day: Option<u8>,
    /// Nothing has refreshed the reading recently, so it may lag the truth.
    pub stale: bool,
}

/// Nothing known at all, which is not the same as stale.
pub open spec fn nothing_known() -> Usage {
    Usage { five_hour: None, seven_day: None, stale: false }
}

impl Default for Usage {
    fn default() -> (usage: Self)
        ensures
            usage == nothing_known(),
    {
        Usage { five_hour: None, seven_day: None, stale: false }
    }
}

/// Whether a window, where there is one, is a percentage.
pub open spec fn is_percent(window: Option<u8>) -> bool {
    window matches Some(percent) ==> percent <= 100
}

/// One window as text.
pub open spec fn window_text(percent: Option<u8>) -> Seq<char> {
    match percent {
        Some(percent) => decimal(percent as nat) + "%"@,
        None => "--"@,
    }
}

fn write_window(percent: Option<u8>) -> (text: String)
    ensures
        text@ == window_text(percent),
{
    match percent {
        Some(percent) => {
            let mut text = write_decimal(percent as u64);
            text.append("%");
            text
        },
        None => "--".to_owned(),
    }
}

impl Usage {
    /// Whether both windows are percentages.
    pub open spec fn in_percent(self) -> bool {
        is_percent(self.five_hour) && is_percent(self.seven_day)
    }

    /// Whether there is a reading in it.
    pub open spec fn known(self) -> bool {
        self.five_hour is Some || self.seven_day is Some
    }

    /// The reading as a log line spells it.
    pub open spec fn spelled(self) -> Seq<char> {
        "5h "@ + window_text(self.five_hour) + ", 7d "@ + window_text(self.seven_day)
            + if self.stale {
            " (stale)"@
        } else {
            Seq::empty()
        }
    }

    /// Spells the reading out for a log line.
    pub fn to_text(&self) -> (text: String)
        ensures
            text@ == self.spelled(),
    {
        let mut text = "5h ".to_owned();
        text.append(write_window(self.five_hour).as_str());
        text.append(", 7d ");
        text.append(write_window(self.seven_day).as_str());
        if self.stale {
            text.append(" (stale)");
        }
        assert(text@ =~= self.spelled());
        text
    }
}

/// The harvest: percentages plus the epoch second it was written at, which is
/// what tells us the reading has stopped moving.
#[derive(Clone, Copy, Debug, PartialEq, Eq, Structural)]
pub struct Harvest {
    pub five_hour: Option<HarvestWindow>,
    pub seven_day: Option<HarvestWindow>,
    pub written_at: Option<i64>,
}

#[derive(Clone, Copy, Debug, PartialEq, Eq, Structural)]
pub struct HarvestWindow {
    /// Whole percent, as the source has it.
    pub used_percentage: Option<i64>,
    /// Seconds since the epoch.
    pub resets_at: Option<i64>,
}

/// The part of the tool's configuration that is of interest here.
#[derive(Debug, PartialEq, Eq)]
pub struct Config {
    pub cached_usage_utilization: Option<Cached>,
}

#[derive(Debug, PartialEq, Eq)]
pub struct Cached {
    pub utilization: Option<Windows>,
}

#[derive(Debug, PartialEq, Eq)]
pub struct Windows {
    pub five_hour: Option<ConfigWindow>,
    pub seven_day: Option<ConfigWindow>,
}

#[derive(Debug, PartialEq, Eq)]
pub struct ConfigWindow {
    /// Whole percent, as the source has it.
    pub utilization: Option<i64>,
    /// An RFC 3339 text.
    pub resets_at: Option<String>,
}

/// A percentage that lands somewhere sane: below nothing counts as nothing, and
/// beyond a hundred as a hundred.
pub open spec fn sane(percent: int) -> int {
    if percent < 0 {
        0
    } else if percent > 100 {
        100
    } else {
        percent
    }
}

/// Brings a percentage into range.
pub fn percent(value: i64) -> (whole: u8)
    ensures
        whole == sane(value as int),
{
    if value < 0 {
        0
    } else if value > 100 {
        100
    } else {
        value as u8
    }
}

/// What a window shows: nothing spent once its reset time has passed, which is
/// what keeps a source that stopped refreshing from advertising a limit that
/// has since rolled over.
pub open spec fn shown(spent: Option<i64>, reset: Option<Moment>, now: Moment) -> Option<u8> {
    if reset matches Some(reset) && reset.no_later_than(now) {
        Some(0)
    } else {
        match spent {
            Some(percent) => Some(sane(percent as int) as u8),
            None => None,
        }
    }
}

/// Applies a window's reset time to what was spent of it.
pub fn percent_now(spent: Option<i64>, reset: Option<Moment>, now: Moment) -> (left: Option<u8>)
    ensures
        left == shown(spent, reset, now),
{
    if let Some(reset) = reset {
        if reset.is_no_later(&now) {
            return Some(0);
        }
    }
    match spent {
        Some(value) => Some(percent(value)),
        None => None,
    }
}

/// The reset time of a harvested window, as far as the calendar reaches.
pub open spec fn harvest_reset(resets_at: Option<i64>) -> Option<Moment> {
    match resets_at {
        Some(at) => if in_calendar(at) {
            Some(Moment { secs: at, nanos: 0 })
        } else {
            None
        },
        None => None,
    }
}

impl HarvestWindow {
    pub open spec fn shows(self, now: Moment) -> Option<u8> {
        shown(self.used_percentage, harvest_reset(self.resets_at), now)
    }

    /// What this window shows.
    pub fn percent(&self, now: Moment) -> (percent: Option<u8>)
        ensures
            percent == self.shows(now),
    {
        let reset = match self.resets_at {
            Some(at) => match from_timestamp(at) {
                Some(secs) => Some(Moment { secs, nanos: 0 }),
                None => None,
            },
            None => None,
        };
        percent_now(self.used_percentage, reset, now)
    }
}

/// The reset time of a cached window, where its text names one.
pub open spec fn config_reset(resets_at: Option<Seq<char>>) -> Option<Moment> {
    match resets_at {
        Some(text) => match rfc3339(text) {
            Some((secs, nanos)) => Some(Moment { secs, nanos }),
            None => None,
        },
        None => None,
    }
}

impl ConfigWindow {
    pub open spec fn shows(self, now: Moment) -> Option<u8> {
        shown(self.utilization, config_reset(opt_view(self.resets_at)), now)
    }

    /// What this window shows.
    pub fn percent(&self, now: Moment) -> (percent: Option<u8>)
        ensures
            percent == self.shows(now),
    {
        let reset = match &self.resets_at {
            Some(text) => match parse_from_rfc3339(text.as_str()) {
                Some((secs, nanos)) => Some(Moment { secs, nanos }),
                None => None,
            },
            None => None,
        };
        percent_now(self.utilization, reset, now)
    }
}

/// Whether a harvest has stopped moving: nobody knows when it was written, or
/// that was at least `STALE_AFTER` ago.
pub open spec fn stopped_moving(written_at: Option<i64>, now: Moment) -> bool {
    match written_at {
        Some(at) => !in_calendar(at) || (now.secs - at) * NANOS_PER_SECOND + now.nanos
            >= STALE_AFTER,
        None => true,
    }
}

/// What a harvest says, if the text in the file was one.
pub open spec fn harvest_usage(harvest: Option<Harvest>, now: Moment) -> Usage {
    match harvest {
        Some(harvest) => Usage {
            five_hour: match harvest.five_hour {
                Some(window) => window.shows(now),
                None => None,
            },
            seven_day: match harvest.seven_day {
                Some(window) => window.shows(now),
                None => None,
            },
            stale: stopped_moving(harvest.written_at, now),
        },
        None => nothing_known(),
    }
}

/// Reads a harvest. There is none where the file held no such thing.
pub fn parse_harvest(harvest: Option<Harvest>, now: Moment) -> (usage: Usage)
    requires
        now.on_the_clock(),
    ensures
        usage == harvest_usage(harvest, now),
{
    let harvest = match harvest {
        Some(harvest) => harvest,
        None => {
            return Usage::default();
        },
    };
    let stale = match harvest.written_at {
        Some(at) => match from_timestamp(at) {
            Some(at) => {
                let age: i128 = (now.secs as i128 - at as i128) * NANOS_PER_SECOND
                    + now.nanos as i128;
                age >= STALE_AFTER
            },
            None => true,
        },
        None => true,
    };
    Usage {
        five_hour: match &harvest.five_hour {
            Some(window) => window.percent(now),
            None => None,
        },
        seven_day: match &harvest.seven_day {
            Some(window) => window.percent(now),
            None => None,
        },
        stale,
    }
}

/// The windows in the tool's cache, where there is a cache with windows in it.
pub open spec fn cached_windows(config: Option<Config>) -> Option<Windows> {
    match config {
        Some(config) => match config.cached_usage_utilization {
            Some(cached) => cached.utilization,
            None => None,
        },
        None => None,
    }
}

/// What the tool's cache says, if the text in the file was its configuration.
pub open spec fn config_usage(config: Option<Config>, now: Moment) -> Usage {
    match cached_windows(config) {
        Some(windows) => Usage {
            five_hour: match windows.five_hour {
                Some(window) => window.shows(now),
                None => None,
            },
            seven_day: match windows.seven_day {
                Some(window) => window.shows(now),
                None => None,
            },
            stale: false,
        },
        None => nothing_known(),
    }
}

/// Reads the tool's cache. There is none where the file held no such thing.
pub fn parse_config(config: Option<Config>, now: Moment) -> (usage: Usage)
    ensures
        usage == config_usage(config, now),
{
    let cached = match config {
        Some(config) => config.cached_usage_utilization,
        None => None,
    };
    let windows = match cached {
        Some(cached) => cached.utilization,
        None => None,
    };
    match windows {
        Some(windows) => Usage {
            five_hour: match &windows.five_hour {
                Some(window) => window.percent(now),
                None => None,
            },
            seven_day: match &windows.seven_day {
                Some(window) => window.percent(now),
                None => None,
            },
            stale: false,
        },
        None => Usage::default(),
    }
}

/// What became of reading a file.
#[derive(Debug, PartialEq, Eq)]
pub enum Loaded<T> {
    /// It could not be read.
    Missing,
    /// It holds something else than expected, half a written file for one.
    Garbled,
    Parsed(T),
}

impl<T> Loaded<T> {
    pub open spec fn content(self) -> Option<T> {
        match self {
            Loaded::Parsed(content) => Some(content),
            _ => None,
        }
    }

    /// What the file held, if it held what was expected.
    pub fn into_content(self) -> (content: Option<T>)
        ensures
            content == self.content(),
    {
        match self {
            Loaded::Parsed(content) => Some(content),
            Loaded::Missing => None,
            Loaded::Garbled => None,
        }
    }
}

/// Where the two readings live.
#[derive(Debug, PartialEq, Eq)]
pub struct Sources {
    /// Written by the status line, on every render.
    pub harvest: FilePath,
    /// The tool's own configuration, refreshed only on request.
    pub config: FilePath,
}

/// What both sources together say. The harvest counts where it has a reading.
/// The cache is older by construction, so whatever it yields is stale until
/// proven otherwise.
pub open spec fn reading(
    harvest: Loaded<Harvest>,
    config: Loaded<Config>,
    now: Moment,
) -> Usage {
    let harvested = harvest_usage(harvest.content(), now);
    if harvested.known() {
        harvested
    } else if config is Missing {
        nothing_known()
    } else {
        Usage { stale: true, ..config_usage(config.content(), now) }
    }
}

/// The path that an environment variable names, or the given one.
pub open spec fn path_or(variable: Option<FilePath>, otherwise: Seq<u8>) -> Seq<u8> {
    match variable {
        Some(path) => path@,
        None => otherwise,
    }
}

impl Sources {
    /// Where to look, going by the environment: the runtime directory, the
    /// tool's configuration directory and the home directory, as far as they
    /// are set. The names of the two files come from whoever knows the tool.
    pub fn from_env(
        runtime: Option<FilePath>,
        config_dir: Option<FilePath>,
        home: Option<FilePath>,
        harvest_name: &str,
        config_name: &str,
    ) -> (sources: Sources)
        ensures
            sources.harvest@ == below(path_or(runtime, encode_utf8("/tmp"@)), harvest_name@),
            sources.config@ == below(
                path_or(config_dir, path_or(home, Seq::empty())),
                config_name@,
            ),
    {
        let runtime = match runtime {
            Some(path) => path,
            None => FilePath::of("/tmp"),
        };
        let base = match config_dir {
            Some(path) => path,
            None => match home {
                Some(path) => path,
                None => FilePath { bytes: Vec::new() },
            },
        };
        Sources { harvest: runtime.join(harvest_name), config: base.join(config_name) }
    }

    /// Whether the configuration has to be read as well, because the harvest
    /// has no reading in it.
    pub fn needs_config(&self, harvest: &Loaded<Harvest>, now: Moment) -> (needed: bool)
        requires
            now.on_the_clock(),
        ensures
            needed == !harvest_usage(harvest.content(), now).known(),
    {
        let harvested = match harvest {
            Loaded::Parsed(harvest) => parse_harvest(Some(*harvest), now),
            Loaded::Missing => Usage::default(),
            Loaded::Garbled => Usage::default(),
        };
        harvested.five_hour.is_none() && harvested.seven_day.is_none()
    }

    /// Reads both windows, preferring the harvest and falling back to the
    /// configuration.
    ///
    /// Anything unreadable is an unknown window rather than an error: a missing
    /// reading is a normal state of the world here.
    pub fn read(&self, harvest: Loaded<Harvest>, config: Loaded<Config>, now: Moment) -> (usage:
        Usage)
        requires
            now.on_the_clock(),
        ensures
            usage == reading(harvest, config, now),
    {
        let harvested = parse_harvest(harvest.into_content(), now);
        if harvested.five_hour.is_some() || harvested.seven_day.is_some() {
            return harvested;
        }
        if let Loaded::Missing = config {
            return Usage::default();
        }
        let cached = parse_config(config.into_content(), now);
        Usage { five_hour: cached.five_hour, seven_day: cached.seven_day, stale: true }
    }
}

/// A harvest with a reading in it is used as it is, whatever the configuration
/// holds.
pub proof fn law_the_harvest_comes_first(
    harvest: Loaded<Harvest>,
    config: Loaded<Config>,
    other: Loaded<Config>,
    now: Moment,
)
    requires
        harvest_usage(harvest.content(), now).known(),
    ensures
        reading(harvest, config, now) == reading(harvest, other, now),
        reading(harvest, config, now) == harvest_usage(harvest.content(), now),
{
}

/// A reading that comes from the configuration is marked as second-hand, and
/// where nothing could be read at all the usage is unknown, not stale.
pub proof fn law_a_second_hand_reading_is_stale(
    harvest: Loaded<Harvest>,
    config: Loaded<Config>,
    now: Moment,
)
    requires
        !harvest_usage(harvest.content(), now).known(),
    ensures
        reading(harvest, config, now).known() ==> reading(harvest, config, now).stale,
        config is Missing ==> reading(harvest, config, now) == nothing_known(),
        config !is Missing ==> reading(harvest, config, now).stale,
{
}

/// A window whose reset time has passed is empty, in either source, however
/// much of it had been spent.
pub proof fn law_a_window_past_its_reset_is_empty(
    harvested: HarvestWindow,
    cached: ConfigWindow,
    now: Moment,
)
    ensures
        harvest_reset(harvested.resets_at) matches Some(at) && at.no_later_than(now) ==> harvested.shows(now)
            == Some(0u8),
        config_reset(opt_view(cached.resets_at)) matches Some(at) && at.no_later_than(now)
            ==> cached.shows(now) == Some(0u8),
{
}

/// Once empty, a window stays empty as time goes on.
pub proof fn law_a_reset_window_stays_empty(
    spent: Option<i64>,
    reset: Moment,
    now: Moment,
    later: Moment,
)
    requires
        reset.no_later_than(now),
        now.no_later_than(later),
    ensures
        shown(spent, Some(reset), now) == Some(0u8),
        shown(spent, Some(reset), later) == Some(0u8),
{
}

/// A harvest that has stopped moving stays that way as time goes on.
pub proof fn law_a_stale_harvest_stays_stale(
    written_at: Option<i64>,
    now: Moment,
    later: Moment,
)
    requires
        now.on_the_clock(),
        later.on_the_clock(),
        now.no_later_than(later),
        stopped_moving(written_at, now),
    ensures
        stopped_moving(written_at, later),
{
}

/// No reading exceeds a hundred percent, whatever the files hold.
pub proof fn law_readings_stay_within_percent(
    harvest: Loaded<Harvest>,
    config: Loaded<Config>,
    now: Moment,
)
    ensures
        harvest_usage(harvest.content(), now).in_percent(),
        config_usage(config.content(), now).in_percent(),
        reading(harvest, config, now).in_percent(),
{
}

/// A harvest that nobody rewrites only ages: once stale it stays stale, and each
/// window goes on to show what it showed until its reset leaves it empty. One
/// that was known does not become unknown.
pub proof fn law_a_harvest_only_ages(harvest: Option<Harvest>, now: Moment, later: Moment)
    requires
        now.on_the_clock(),
        later.on_the_clock(),
        now.no_later_than(later),
    ensures
        ({
            let before = harvest_usage(harvest, now);
            let after = harvest_usage(harvest, later);
            &&& before.stale ==> after.stale
            &&& after.five_hour == before.five_hour || after.five_hour == Some(0u8)
            &&& after.seven_day == before.seven_day || after.seven_day == Some(0u8)
            &&& before.five_hour is Some ==> after.five_hour is Some
            &&& before.seven_day is Some ==> after.seven_day is Some
            &&& before.in_percent() && after.in_percent()
        }),
{
}

/// A percentage within its range is kept, and one outside is brought to the
/// nearer end of it.
pub proof fn law_percentages_are_brought_into_range(value: int)
    ensures
        0 <= sane(value) <= 100,
        0 <= value <= 100 ==> sane(value) == value,
        value < 0 ==> sane(value) == 0,
        value > 100 ==> sane(value) == 100,
{
}

/// A window shows what was spent of it until the second of its reset, and nothing
/// from then on. A reset that the calendar does not reach, or a text that names no
/// time, never comes.
pub proof fn law_a_window_shows_what_was_spent_until_its_reset(
    spent: Option<i64>,
    at: i64,
    text: String,
    now: Moment,
)
    requires
        now.on_the_clock(),
    ensures
        ({
            let passed = -8_334_601_228_800 <= at <= 8_210_266_876_799 && at <= now.secs;
            let window = HarvestWindow { used_percentage: spent, resets_at: Some(at) };
            &&& passed ==> window.shows(now) == Some(0u8)
            &&& !passed ==> shows_what_was_spent(window.shows(now), spent)
            &&& shows_what_was_spent(
                HarvestWindow { used_percentage: spent, resets_at: None }.shows(now),
                spent,
            )
        }),
        ({
            let window = ConfigWindow { utilization: spent, resets_at: Some(text) };
            match rfc3339(text@) {
                Some((secs, nanos)) => if secs < now.secs || (secs == now.secs && nanos
                    <= now.nanos) {
                    window.shows(now) == Some(0u8)
                } else {
                    shows_what_was_spent(window.shows(now), spent)
                },
                None => shows_what_was_spent(window.shows(now), spent),
            }
        }),
        shows_what_was_spent(
            ConfigWindow { utilization: spent, resets_at: None }.shows(now),
            spent,
        ),
{
}

/// Whether a reading is what was spent, brought into range, and unknown where
/// that is.
pub open spec fn shows_what_was_spent(shown: Option<u8>, spent: Option<i64>) -> bool {
    &&& shown is Some <==> spent is Some
    &&& spent is Some ==> {
        &&& 0 <= spent->0 <= 100 ==> shown->0 == spent->0
        &&& spent->0 < 0 ==> shown->0 == 0
        &&& spent->0 > 100 ==> shown->0 == 100
    }
}

/// A harvest is stale from half an hour after the second it was written at, and
/// right away where that is not known.
pub proof fn law_a_harvest_is_stale_after_half_an_hour(harvest: Harvest, now: Moment)
    requires
        now.on_the_clock(),
    ensures
        harvest_usage(Some(harvest), now).stale <==> (match harvest.written_at {
            Some(at) => at < -8_334_601_228_800 || at > 8_210_266_876_799 || now.secs - at >= 1800,
            None => true,
        }),
{
    if let Some(at) = harvest.written_at {
        let age = now.secs - at;
        assert(age * NANOS_PER_SECOND == age * 1_000_000_000);
    }
}

/// Each window is read by itself, in either source. A file that held something
/// else says nothing, and nothing is stale about that; the cache is never stale
/// by itself.
pub proof fn law_each_window_is_read_by_itself(harvest: Harvest, windows: Windows, now: Moment)
    ensures
        ({
            let usage = harvest_usage(Some(harvest), now);
            &&& harvest.five_hour is Some ==> usage.five_hour == harvest.five_hour->0.shows(now)
            &&& harvest.five_hour is None ==> usage.five_hour is None
            &&& harvest.seven_day is Some ==> usage.seven_day == harvest.seven_day->0.shows(now)
            &&& harvest.seven_day is None ==> usage.seven_day is None
        }),
        ({
            let cached = Some(Cached { utilization: Some(windows) });
            let usage = config_usage(Some(Config { cached_usage_utilization: cached }), now);
            &&& windows.five_hour is Some ==> usage.five_hour == windows.five_hour->0.shows(now)
            &&& windows.five_hour is None ==> usage.five_hour is None
            &&& windows.seven_day is Some ==> usage.seven_day == windows.seven_day->0.shows(now)
            &&& windows.seven_day is None ==> usage.seven_day is None
            &&& !usage.stale
        }),
        ({
            let nothing = Usage { five_hour: None, seven_day: None, stale: false };
            let uncached = Config { cached_usage_utilization: None };
            let empty = Config { cached_usage_utilization: Some(Cached { utilization: None }) };
            &&& harvest_usage(None, now) == nothing
            &&& config_usage(None, now) == nothing
            &&& config_usage(Some(uncached), now) == nothing
            &&& config_usage(Some(empty), now) == nothing
        }),
{
}

/// Both sources together: a harvest with either window in it is taken as it is;
/// without one, the windows of the configuration are, marked as stale; and with
/// neither file nothing is known.
pub proof fn law_the_sources_are_read_in_their_order(
    harvest: Loaded<Harvest>,
    config: Loaded<Config>,
    now: Moment,
)
    ensures
        ({
            let usage = reading(harvest, config, now);
            let harvested = match harvest {
                Loaded::Parsed(harvest) => harvest_usage(Some(harvest), now),
                _ => Usage { five_hour: None, seven_day: None, stale: false },
            };
            if harvested.five_hour is Some || harvested.seven_day is Some {
                usage == harvested
            } else {
                match config {
                    Loaded::Missing => usage.five_hour is None && usage.seven_day is None
                        && !usage.stale,
                    Loaded::Garbled => usage.five_hour is None && usage.seven_day is None
                        && usage.stale,
                    Loaded::Parsed(config) => usage.stale && usage.five_hour == config_usage(
                        Some(config),
                        now,
                    ).five_hour && usage.seven_day == config_usage(Some(config), now).seven_day,
                }
            }
        }),
{
}

/// A reading is told in words: both windows as a percentage or as unknown, and
/// that it is stale where it is.
pub proof fn law_a_reading_is_told_in_words(usage: Usage)
    ensures
        ({
            let five_hour = if usage.five_hour is Some {
                decimal(usage.five_hour->0 as nat) + "%"@
            } else {
                "--"@
            };
            let seven_day = if usage.seven_day is Some {
                decimal(usage.seven_day->0 as nat) + "%"@
            } else {
                "--"@
            };
            let told = "5h "@ + five_hour + ", 7d "@ + seven_day;
            usage.spelled() == (if usage.stale {
                told + " (stale)"@
            } else {
                told
            })
        }),
{
    assert(usage.spelled() =~= "5h "@ + window_text(usage.five_hour) + ", 7d "@ + window_text(
        usage.seven_day,
    ) + if usage.stale {
        " (stale)"@
    } else {
        Seq::empty()
    });
}

/// A variable that is set is the path, and only without it another one counts.
pub proof fn law_a_variable_comes_before_what_is_usual(path: FilePath, otherwise: Seq<u8>)
    ensures
        path_or(Some(path), otherwise) == path@,
        path_or(None, otherwise) == otherwise,
{
}

} // verus!
