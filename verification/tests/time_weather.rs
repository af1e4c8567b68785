use town_explorer::time::{phase_of_tick, GameTime, Phase, TimeManger, TICKS_PER_DAY};
use town_explorer::weather::{
    next_weather, weather_change_due, weather_for_roll, weather_tick, GameWeather, WeatherManager,
    WeatherType,
};

#[test]
fn phase_boundaries() {
    assert_eq!(phase_of_tick(0), Phase::Dawn);
    assert_eq!(phase_of_tick(225), Phase::Dawn);
    assert_eq!(phase_of_tick(226), Phase::Day);
    assert_eq!(phase_of_tick(TICKS_PER_DAY / 2), Phase::Day);
    assert_eq!(phase_of_tick(451), Phase::Dusk);
    assert_eq!(phase_of_tick(TICKS_PER_DAY * 3 / 4), Phase::Dusk);
    assert_eq!(phase_of_tick(676), Phase::Night);
    assert_eq!(phase_of_tick(899), Phase::Night);
}

#[test]
fn day_rollover_at_full_day() {
    // one tick past the end of day one is dawn of day two
    let mut t = GameTime {
        tick: 899,
        day: 1,
        phase: phase_of_tick(899),
    };
    t.advance(1);
    assert_eq!(t.tick, 0);
    assert_eq!(t.day, 2);
    assert_eq!(t.phase, Phase::Dawn);
}

#[test]
fn advance_carries_whole_days() {
    let mut t = GameTime::new();
    t.advance(2 * TICKS_PER_DAY as u64 + 5);
    assert_eq!(t.tick, 5);
    assert_eq!(t.day, 3);
    assert_eq!(t.phase, Phase::Dawn);
}

#[test]
fn advance_within_day_keeps_day() {
    let mut t = GameTime::new();
    t.advance(500);
    assert_eq!(t.tick, 500);
    assert_eq!(t.day, 1);
    assert_eq!(t.phase, Phase::Dusk);
}

#[test]
fn time_manager_lifecycle() {
    let mut tm = TimeManger::new();
    assert!(tm.time.is_none());
    assert!(!tm.running);
    tm.start(GameTime::new());
    assert!(tm.running);
    assert_eq!(tm.time.as_ref().unwrap().day, 1);
    tm.sync(GameTime {
        tick: 10,
        day: 2,
        phase: phase_of_tick(10),
    });
    assert_eq!(tm.time.as_ref().unwrap().day, 2);
    tm.stop();
    assert!(!tm.running);
    assert_eq!(tm.time.as_ref().unwrap().day, 2);
}

#[test]
fn fresh_weather_is_sunny() {
    assert_eq!(GameWeather::new().weather_type, WeatherType::Sunny);
}

#[test]
fn weather_roll_mapping() {
    assert_eq!(weather_for_roll(1), WeatherType::Sunny);
    assert_eq!(weather_for_roll(2), WeatherType::Raining);
    assert_eq!(weather_for_roll(3), WeatherType::Windy);
    assert_eq!(weather_for_roll(4), WeatherType::Stormy);
    assert_eq!(weather_for_roll(5), WeatherType::Snowing);
}

#[test]
fn weather_change_decision() {
    // exactly the lowest five percent of rolls change the weather
    for roll in 1..=100u32 {
        assert_eq!(weather_change_due(roll), roll <= 5);
    }
    assert_eq!(next_weather(WeatherType::Sunny, 5, 3), WeatherType::Windy);
    assert_eq!(next_weather(WeatherType::Sunny, 6, 3), WeatherType::Sunny);
    // a change may re-select the current kind
    assert_eq!(next_weather(WeatherType::Windy, 1, 3), WeatherType::Windy);
}

#[test]
fn weather_change_frequency_near_five_percent() {
    // deterministic linear congruential generator standing in for dice
    let mut state: u64 = 0x2545F4914F6CDD1D;
    let mut changes: u64 = 0;
    let n: u64 = 100_000;
    for _ in 0..n {
        state = state
            .wrapping_mul(6364136223846793005)
            .wrapping_add(1442695040888963407);
        let roll = ((state >> 33) % 100 + 1) as u32;
        if weather_change_due(roll) {
            changes += 1;
        }
    }
    // binomial: mean 5000, standard deviation ~69; allow four sigma
    assert!(changes > 4700, "too few changes: {}", changes);
    assert!(changes < 5300, "too many changes: {}", changes);
}

#[test]
fn weather_tick_stays_in_range() {
    let mut current = WeatherType::Sunny;
    for _ in 0..200 {
        current = weather_tick(current);
        assert!(matches!(
            current,
            WeatherType::Sunny
                | WeatherType::Raining
                | WeatherType::Windy
                | WeatherType::Stormy
                | WeatherType::Snowing
        ));
    }
}

#[test]
fn weather_manager_lifecycle() {
    let mut wm = WeatherManager::new();
    assert!(wm.weather.is_none());
    assert!(!wm.running);
    wm.start(GameWeather::new());
    assert!(wm.running);
    wm.sync(GameWeather {
        weather_type: WeatherType::Stormy,
    });
    assert_eq!(wm.weather.as_ref().unwrap().weather_type, WeatherType::Stormy);
    wm.stop();
    assert!(!wm.running);
}
