//! The weather simulation: a probabilistic process that occasionally replaces
//! the current weather with one drawn uniformly from the five kinds. The
//! decision logic is a pure function of two dice rolls; the rolls themselves
//! come from the `rand` crate through a trusted wrapper, and the sleeping
//! loop that spaces the rolls out lives outside the library.
use vstd::prelude::*;

verus! {

/// Chance of a weather change on one roll of `change_die()`, in percent.
pub const WEATHER_CHANGE_PERCENT: u32 = 5;

/// The five kinds of weather.
#[derive(Debug, Clone, Copy, PartialEq, Eq, Structural)]
pub enum WeatherType {
    Sunny,
    Raining,
    Windy,
    Stormy,
    Snowing,
}

/// Current weather of the world.
#[derive(Debug, Clone, Copy, PartialEq, Eq, Structural)]
pub struct GameWeather {
    pub weather_type: WeatherType,
}

impl GameWeather {
    /// Fresh weather: sunny.
    pub fn new() -> (r: Self)
        ensures
            r == (GameWeather { weather_type: WeatherType::Sunny }),
    {
        Self { weather_type: WeatherType::Sunny }
    }
}

/// Whether a percent roll in `[1, 100]` triggers a weather change: exactly
/// the lowest `WEATHER_CHANGE_PERCENT` values do.
pub open spec fn spec_change_due(roll: u32) -> bool {
    roll <= WEATHER_CHANGE_PERCENT
}

/// Decides from a percent roll whether the weather changes this round.
pub fn weather_change_due(roll: u32) -> (r: bool)
    ensures
        r == spec_change_due(roll),
{
    roll <= WEATHER_CHANGE_PERCENT
}

/// The weather kind selected by a roll in `[1, 5]`, one kind per value.
pub open spec fn spec_weather_for_roll(roll: u32) -> WeatherType {
    if roll == 1 {
        WeatherType::Sunny
    } else if roll == 2 {
        WeatherType::Raining
    } else if roll == 3 {
        WeatherType::Windy
    } else if roll == 4 {
        WeatherType::Stormy
    } else {
        WeatherType::Snowing
    }
}

/// Maps a five-sided roll to its weather kind.
pub fn weather_for_roll(roll: u32) -> (r: WeatherType)
    ensures
        r == spec_weather_for_roll(roll),
{
    match roll {
        1 => WeatherType::Sunny,
        2 => WeatherType::Raining,
        3 => WeatherType::Windy,
        4 => WeatherType::Stormy,
        _ => WeatherType::Snowing,
    }
}

/// One round of the weather process, as a function of the current weather
/// and the two rolls: the percent roll decides whether anything changes, the
/// five-sided roll picks the new kind. A change may re-select the current
/// kind; that is not a no-op check but an ordinary outcome.
pub open spec fn spec_next_weather(current: WeatherType, change_roll: u32, kind_roll: u32) -> WeatherType {
    if spec_change_due(change_roll) {
        spec_weather_for_roll(kind_roll)
    } else {
        current
    }
}

/// Applies one round of the weather process to `current`, given the rolls.
pub fn next_weather(current: WeatherType, change_roll: u32, kind_roll: u32) -> (r: WeatherType)
    ensures
        r == spec_next_weather(current, change_roll, kind_roll),
{
    if weather_change_due(change_roll) {
        weather_for_roll(kind_roll)
    } else {
        current
    }
}

/// Relies on `rand::random_range` over the range `1..=dice_size`: the result
/// lies in that range. Nothing more is assumed of it; any caller must hold
/// for every outcome.
#[verifier::external_body]
fn roll_dice(dice_size: u32) -> (r: u32)
    requires
        dice_size >= 1,
    ensures
        1 <= r <= dice_size,
{
    rand::random_range(1..=dice_size)
}

/// One round of the weather process with fresh random rolls: the result is
/// what `spec_next_weather` yields for some pair of in-range rolls.
pub fn weather_tick(current: WeatherType) -> (r: WeatherType)
    ensures
        exists|change_roll: u32, kind_roll: u32|
            1 <= change_roll <= 100 && 1 <= kind_roll <= 5 && r == spec_next_weather(
                current,
                change_roll,
                kind_roll,
            ),
{
    let change_roll = roll_dice(100);
    let kind_roll = roll_dice(5);
    let r = next_weather(current, change_roll, kind_roll);
    proof {
        assert(1 <= change_roll <= 100 && 1 <= kind_roll <= 5 && r == spec_next_weather(
            current,
            change_roll,
            kind_roll,
        ));
    }
    r
}

/// Session-side model of the weather simulation: the latest snapshot and
/// whether the background loop should be running, mirroring `TimeManger`.
pub struct WeatherManager {
    pub weather: Option<GameWeather>,
    pub running: bool,
}

impl WeatherManager {
    /// A fresh manager: no weather yet, nothing running.
    pub fn new() -> (r: Self)
        ensures
            r.weather is None,
            !r.running,
    {
        Self { weather: None, running: false }
    }

    /// Seeds the weather and marks the simulation as running.
    pub fn start(&mut self, initial: GameWeather)
        ensures
            final(self).weather == Some(initial),
            final(self).running,
    {
        self.weather = Some(initial);
        self.running = true;
    }

    /// Marks the simulation as stopped; the last snapshot stays readable.
    pub fn stop(&mut self)
        ensures
            final(self).weather == old(self).weather,
            !final(self).running,
    {
        self.running = false;
    }

    /// Records a snapshot reported by the running simulation.
    pub fn sync(&mut self, w: GameWeather)
        ensures
            final(self).weather == Some(w),
            final(self).running == old(self).running,
    {
        self.weather = Some(w);
    }
}

} // verus!
