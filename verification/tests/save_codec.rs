use town_explorer::player::Player;
use town_explorer::save::{parse_save, serialize_save, SaveData, SaveGameManager};
use town_explorer::time::{phase_of_tick, GameTime, Phase};
use town_explorer::weather::{GameWeather, WeatherType};

fn sample_player() -> Player {
    Player::new(666, "Theodred".to_string(), 59015, Some(3), None)
}

fn sample_time() -> GameTime {
    GameTime {
        tick: 450,
        day: 7,
        phase: phase_of_tick(450),
    }
}

#[test]
fn empty_document_text() {
    let text = serialize_save(&SaveData::new());
    assert_eq!(text, "{\"player\":null,\"time\":null,\"weather\":null}");
}

#[test]
fn empty_document_round_trip() {
    // saving an uninitialised session records every field as null and
    // loads back without error
    let text = serialize_save(&SaveData::new());
    let doc = parse_save(&text).unwrap();
    assert!(doc.player.is_none());
    assert!(doc.time.is_none());
    assert!(doc.weather.is_none());
}

#[test]
fn full_document_round_trip() {
    let d = SaveData {
        player: Some(sample_player()),
        time: Some(sample_time()),
        weather: Some(GameWeather {
            weather_type: WeatherType::Stormy,
        }),
    };
    let text = serialize_save(&d);
    let back = parse_save(&text).unwrap();
    let p = back.player.unwrap();
    assert_eq!(p.id, 666);
    assert_eq!(p.name, "Theodred");
    assert_eq!(p.current_town_id, 59015);
    assert_eq!(p.current_building_id, Some(3));
    assert_eq!(p.current_room_id, None);
    let t = back.time.unwrap();
    assert_eq!(t.tick, 450);
    assert_eq!(t.day, 7);
    assert_eq!(t.phase, Phase::Day);
    assert_eq!(back.weather.unwrap().weather_type, WeatherType::Stormy);
}

#[test]
fn name_with_escapes_round_trip() {
    let d = SaveData {
        player: Some(Player::new(
            1,
            "a\"b\\c\nd\te".to_string(),
            2,
            None,
            Some(9),
        )),
        time: None,
        weather: None,
    };
    let text = serialize_save(&d);
    let back = parse_save(&text).unwrap();
    assert_eq!(back.player.unwrap().name, "a\"b\\c\nd\te");
}

#[test]
fn parse_tolerates_whitespace_and_missing_fields() {
    let text = "{\n  \"time\": { \"tick\": 10, \"day\": 2, \"phase\": \"Dawn\" }\n}";
    let doc = parse_save(text).unwrap();
    assert!(doc.player.is_none());
    let t = doc.time.unwrap();
    assert_eq!(t.tick, 10);
    assert_eq!(t.day, 2);
    assert_eq!(t.phase, Phase::Dawn);
    assert!(doc.weather.is_none());

    let doc = parse_save("{}").unwrap();
    assert!(doc.player.is_none() && doc.time.is_none() && doc.weather.is_none());
}

#[test]
fn parse_decodes_scalar_escapes() {
    let text = "{\"player\":{\"id\":1,\"name\":\"\\u0041\\u00e9\",\"current_town_id\":2,\"current_building_id\":null,\"current_room_id\":null},\"time\":null,\"weather\":null}";
    let doc = parse_save(text).unwrap();
    assert_eq!(doc.player.unwrap().name, "A\u{e9}");
}

#[test]
fn parse_rejects_malformed_documents() {
    assert!(parse_save("").is_none());
    assert!(parse_save("not json").is_none());
    assert!(parse_save("{\"player\":}").is_none());
    assert!(parse_save("{\"unknown\":null}").is_none());
    // trailing text after the document
    assert!(parse_save("{} x").is_none());
    // a tick outside the day is rejected
    assert!(
        parse_save("{\"time\":{\"tick\":900,\"day\":1,\"phase\":\"Dawn\"}}").is_none()
    );
    // a day before the first is rejected
    assert!(
        parse_save("{\"time\":{\"tick\":0,\"day\":0,\"phase\":\"Dawn\"}}").is_none()
    );
    // an id beyond thirty-two bits is rejected
    assert!(parse_save(
        "{\"player\":{\"id\":4294967296,\"name\":\"x\",\"current_town_id\":1,\"current_building_id\":null,\"current_room_id\":null}}"
    )
    .is_none());
}

#[test]
fn parse_normalises_phase_from_tick() {
    // the stored phase is read for shape only; the tick decides
    let text = "{\"time\":{\"tick\":700,\"day\":3,\"phase\":\"Dawn\"}}";
    let t = parse_save(text).unwrap().time.unwrap();
    assert_eq!(t.phase, Phase::Night);
}

#[test]
fn save_manager_snapshots_and_loads() {
    let mut mgr = SaveGameManager::new();
    let text = mgr.save(
        &Some(sample_player()),
        &Some(sample_time()),
        &Some(GameWeather {
            weather_type: WeatherType::Raining,
        }),
    );
    assert_eq!(mgr.save_data.player.as_ref().unwrap().id, 666);
    let doc = mgr.load(&text).unwrap();
    assert_eq!(doc.player.unwrap().name, "Theodred");
    assert_eq!(doc.time.unwrap().day, 7);
    assert_eq!(doc.weather.unwrap().weather_type, WeatherType::Raining);
}
