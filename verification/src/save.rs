//! JSON persistence of the session aggregate: the player, the in-game time
//! and the weather, any of which may be absent. The document format is the
//! crate's own; this module renders it and parses it with verified code, and
//! file reading and writing stay outside the library.
//!
//! The grammar accepted by the parser is a small JSON subset: the one
//! object shape the renderer produces, with the three top-level fields
//! optional (an absent field loads as "not initialised"), whitespace
//! allowed between tokens, and the usual string escapes.
use vstd::prelude::*;
use crate::player::{Player, PlayerView};
use crate::text::{
    digit_end, digit_val, digits_val, is_dec_digit, lit_at, matches_at, scan_u32, spec_u32_dec,
};
use crate::time::{GameTime, Phase, spec_phase, phase_of_tick, TICKS_PER_DAY};
use crate::weather::{GameWeather, WeatherType};

verus! {

/// The persisted aggregate. An absent field means the corresponding part of
/// the session was never initialised.
#[derive(Debug, Clone)]
pub struct SaveData {
    pub player: Option<Player>,
    pub time: Option<GameTime>,
    pub weather: Option<GameWeather>,
}

/// Mathematical image of a `SaveData`.
pub struct SaveDataView {
    pub player: Option<PlayerView>,
    pub time: Option<GameTime>,
    pub weather: Option<GameWeather>,
}

impl View for SaveData {
    type V = SaveDataView;

    open spec fn view(&self) -> SaveDataView {
        SaveDataView {
            player: match self.player {
                Some(p) => Some(p@),
                None => None,
            },
            time: self.time,
            weather: self.weather,
        }
    }
}

impl SaveData {
    /// An empty document: nothing initialised.
    pub fn new() -> (r: Self)
        ensures
            r@.player is None,
            r@.time is None,
            r@.weather is None,
    {
        Self { player: None, time: None, weather: None }
    }
}

// ---------------------------------------------------------------------------
// The document text, as a function of the document.
// ---------------------------------------------------------------------------

/// The display name of a phase.
pub open spec fn phase_name(p: Phase) -> Seq<char> {
    match p {
        Phase::Dawn => seq!['D', 'a', 'w', 'n'],
        Phase::Day => seq!['D', 'a', 'y'],
        Phase::Dusk => seq!['D', 'u', 's', 'k'],
        Phase::Night => seq!['N', 'i', 'g', 'h', 't'],
    }
}

/// The display name of a weather kind.
pub open spec fn weather_name(w: WeatherType) -> Seq<char> {
    match w {
        WeatherType::Sunny => seq!['S', 'u', 'n', 'n', 'y'],
        WeatherType::Raining => seq!['R', 'a', 'i', 'n', 'i', 'n', 'g'],
        WeatherType::Windy => seq!['W', 'i', 'n', 'd', 'y'],
        WeatherType::Stormy => seq!['S', 't', 'o', 'r', 'm', 'y'],
        WeatherType::Snowing => seq!['S', 'n', 'o', 'w', 'i', 'n', 'g'],
    }
}

/// The hexadecimal digit character for a value in `[0, 15]`, lower case.
pub open spec fn hex_digit(d: int) -> char {
    if d < 10 {
        crate::text::spec_digit(d)
    } else if d == 10 {
        'a'
    } else if d == 11 {
        'b'
    } else if d == 12 {
        'c'
    } else if d == 13 {
        'd'
    } else if d == 14 {
        'e'
    } else {
        'f'
    }
}

/// How one character is written inside a quoted string: quotes and
/// backslashes escaped, control characters as four-digit escapes, everything
/// else as itself.
pub open spec fn esc_char(c: char) -> Seq<char> {
    if c == '"' {
        seq!['\\', '"']
    } else if c == '\\' {
        seq!['\\', '\\']
    } else if (c as u32) < 32 {
        seq!['\\', 'u', '0', '0', hex_digit(c as u32 as int / 16), hex_digit(c as u32 as int % 16)]
    } else {
        seq![c]
    }
}

/// How a character sequence is written inside a quoted string.
pub open spec fn esc_string(s: Seq<char>) -> Seq<char>
    decreases s.len(),
{
    if s.len() == 0 {
        Seq::empty()
    } else {
        esc_char(s[0]) + esc_string(s.drop_first())
    }
}

/// A number or `null`.
pub open spec fn ser_opt_u32(x: Option<u32>) -> Seq<char> {
    match x {
        Some(n) => spec_u32_dec(n as int),
        None => seq!['n', 'u', 'l', 'l'],
    }
}

/// The text of the `player` field's object, written as the chain of its
/// tokens.
pub open spec fn ser_player(p: PlayerView) -> Seq<char> {
    let tail = ser_opt_u32(p.current_room_id) + seq!['}'];
    let tail = (seq!['"'] + key_room() + seq!['"', ':']) + tail;
    let tail = seq![','] + tail;
    let tail = ser_opt_u32(p.current_building_id) + tail;
    let tail = (seq!['"'] + key_building() + seq!['"', ':']) + tail;
    let tail = seq![','] + tail;
    let tail = spec_u32_dec(p.current_town_id as int) + tail;
    let tail = (seq!['"'] + key_town() + seq!['"', ':']) + tail;
    let tail = seq![','] + tail;
    let tail = (esc_string(p.name) + seq!['"']) + tail;
    let tail = seq!['"'] + tail;
    let tail = (seq!['"'] + key_name() + seq!['"', ':']) + tail;
    let tail = seq![','] + tail;
    let tail = spec_u32_dec(p.id as int) + tail;
    let tail = (seq!['"'] + key_id() + seq!['"', ':']) + tail;
    seq!['{'] + tail
}

/// The text of the `time` field's object.
pub open spec fn ser_time(t: GameTime) -> Seq<char> {
    seq!['{', '"', 't', 'i', 'c', 'k', '"', ':'] + spec_u32_dec(t.tick as int) + seq![
        ',',
        '"',
        'd',
        'a',
        'y',
        '"',
        ':',
    ] + spec_u32_dec(t.day as int) + seq![',', '"', 'p', 'h', 'a', 's', 'e', '"', ':', '"']
        + phase_name(t.phase) + seq!['"', '}']
}

/// The text of the `weather` field's object.
pub open spec fn ser_weather(w: GameWeather) -> Seq<char> {
    seq!['{', '"'] + key_weather_type() + seq!['"', ':', '"'] + weather_name(w.weather_type)
        + seq!['"', '}']
}

/// A field value or `null`.
pub open spec fn ser_opt<A>(x: Option<A>, f: spec_fn(A) -> Seq<char>) -> Seq<char> {
    match x {
        Some(a) => f(a),
        None => seq!['n', 'u', 'l', 'l'],
    }
}

/// The whole document's text: one object with the three fields, in a fixed
/// order, without extra whitespace, written as the chain of its tokens.
pub open spec fn ser_save(d: SaveDataView) -> Seq<char> {
    let tail = ser_opt(d.weather, |w: GameWeather| ser_weather(w)) + seq!['}'];
    let tail = (seq!['"'] + key_weather() + seq!['"', ':']) + tail;
    let tail = seq![','] + tail;
    let tail = ser_opt(d.time, |t: GameTime| ser_time(t)) + tail;
    let tail = (seq!['"'] + key_time() + seq!['"', ':']) + tail;
    let tail = seq![','] + tail;
    let tail = ser_opt(d.player, |p: PlayerView| ser_player(p)) + tail;
    let tail = (seq!['"'] + key_player() + seq!['"', ':']) + tail;
    seq!['{'] + tail
}

/// The `player` key.
pub open spec fn key_player() -> Seq<char> {
    seq!['p', 'l', 'a', 'y', 'e', 'r']
}

/// The `time` key.
pub open spec fn key_time() -> Seq<char> {
    seq!['t', 'i', 'm', 'e']
}

/// The `weather` key.
pub open spec fn key_weather() -> Seq<char> {
    seq!['w', 'e', 'a', 't', 'h', 'e', 'r']
}

/// The `current_town_id` key.
pub open spec fn key_town() -> Seq<char> {
    seq![
        'c',
        'u',
        'r',
        'r',
        'e',
        'n',
        't',
        '_',
        't',
        'o',
        'w',
        'n',
        '_',
        'i',
        'd',
    ]
}

/// The `current_building_id` key.
pub open spec fn key_building() -> Seq<char> {
    seq![
        'c',
        'u',
        'r',
        'r',
        'e',
        'n',
        't',
        '_',
        'b',
        'u',
        'i',
        'l',
        'd',
        'i',
        'n',
        'g',
        '_',
        'i',
        'd',
    ]
}

/// The `current_room_id` key.
pub open spec fn key_room() -> Seq<char> {
    seq![
        'c',
        'u',
        'r',
        'r',
        'e',
        'n',
        't',
        '_',
        'r',
        'o',
        'o',
        'm',
        '_',
        'i',
        'd',
    ]
}

/// The `weather_type` key.
pub open spec fn key_weather_type() -> Seq<char> {
    seq!['w', 'e', 'a', 't', 'h', 'e', 'r', '_', 't', 'y', 'p', 'e']
}

// ---------------------------------------------------------------------------
// The documents accepted back, as a function of the text.
// ---------------------------------------------------------------------------

/// JSON whitespace.
pub open spec fn is_json_ws(c: char) -> bool {
    c == ' ' || c == '\t' || c == '\r' || c == '\n'
}

/// First position at or after `i` holding something other than whitespace.
pub open spec fn skip_jws(s: Seq<char>, i: int) -> int
    decreases s.len() - i,
{
    if 0 <= i < s.len() && is_json_ws(s[i]) {
        skip_jws(s, i + 1)
    } else {
        i
    }
}

/// Position `i` holds the character `c`.
pub open spec fn at_char(s: Seq<char>, i: int, c: char) -> bool {
    0 <= i < s.len() && s[i] == c
}

/// After whitespace, the token `c`; yields the position after it.
pub open spec fn tok(s: Seq<char>, i: int, c: char) -> Option<int> {
    let j = skip_jws(s, i);
    if at_char(s, j, c) {
        Some(j + 1)
    } else {
        None
    }
}

/// After whitespace, the quoted key `name` and its colon; yields the
/// position after the colon.
pub open spec fn key_colon(s: Seq<char>, i: int, name: Seq<char>) -> Option<int> {
    let j = skip_jws(s, i);
    if matches_at(s, j, seq!['"'] + name + seq!['"']) {
        tok(s, j + name.len() + 2, ':')
    } else {
        None
    }
}

/// Whether the next token is the quoted key `name`.
pub open spec fn key_is(s: Seq<char>, i: int, name: Seq<char>) -> bool {
    matches_at(s, skip_jws(s, i), seq!['"'] + name + seq!['"'])
}

/// After whitespace, the word `null`; yields the position after it.
pub open spec fn null_at(s: Seq<char>, i: int) -> Option<int> {
    let j = skip_jws(s, i);
    if matches_at(s, j, seq!['n', 'u', 'l', 'l']) {
        Some(j + 4)
    } else {
        None
    }
}

/// After whitespace, an unsigned number that fits in thirty-two bits.
pub open spec fn parse_u32_at(s: Seq<char>, i: int) -> Option<(u32, int)> {
    let j = skip_jws(s, i);
    let e = digit_end(s, j);
    if e == j || digits_val(s, j, e) > u32::MAX {
        None
    } else {
        Some((digits_val(s, j, e) as u32, e))
    }
}

/// After whitespace, a number or `null`.
pub open spec fn parse_opt_u32_at(s: Seq<char>, i: int) -> Option<(Option<u32>, int)> {
    match null_at(s, i) {
        Some(n) => Some((None, n)),
        None => match parse_u32_at(s, i) {
            Some(t) => Some((Some(t.0), t.1)),
            None => None,
        },
    }
}

/// Value of a hexadecimal digit character, in either case; negative for
/// anything else.
pub open spec fn hex_val(c: char) -> int {
    if is_dec_digit(c) {
        digit_val(c)
    } else if c == 'a' || c == 'A' {
        10
    } else if c == 'b' || c == 'B' {
        11
    } else if c == 'c' || c == 'C' {
        12
    } else if c == 'd' || c == 'D' {
        13
    } else if c == 'e' || c == 'E' {
        14
    } else if c == 'f' || c == 'F' {
        15
    } else {
        -1
    }
}

/// Value of four hexadecimal digits at `i`; negative when out of range or
/// not hexadecimal.
pub open spec fn hex4_val(s: Seq<char>, i: int) -> int {
    if 0 <= i && i + 4 <= s.len() && hex_val(s[i]) >= 0 && hex_val(s[i + 1]) >= 0 && hex_val(
        s[i + 2],
    ) >= 0 && hex_val(s[i + 3]) >= 0 {
        4096 * hex_val(s[i]) + 256 * hex_val(s[i + 1]) + 16 * hex_val(s[i + 2]) + hex_val(s[i + 3])
    } else {
        -1
    }
}

/// A value a `char` may hold: any code point except the surrogates.
pub open spec fn valid_scalar(x: int) -> bool {
    (0 <= x < 0xD800) || (0xE000 <= x <= 0x10FFFF)
}

/// The content of a quoted string from `i` (just inside the opening quote)
/// to its closing quote: plain characters as themselves, the escapes the
/// renderer writes plus the escaped slash, and four-digit scalar escapes.
pub open spec fn parse_str_body(s: Seq<char>, i: int) -> Option<(Seq<char>, int)>
    decreases s.len() - i,
{
    if !(0 <= i < s.len()) {
        None
    } else if s[i] == '"' {
        Some((Seq::empty(), i + 1))
    } else if s[i] == '\\' {
        if i + 1 < s.len() {
            let e = s[i + 1];
            if e == '"' || e == '\\' || e == '/' {
                match parse_str_body(s, i + 2) {
                    Some(t) => Some((seq![e] + t.0, t.1)),
                    None => None,
                }
            } else if e == 'u' {
                let x = hex4_val(s, i + 2);
                if x >= 0 && valid_scalar(x) {
                    match parse_str_body(s, i + 6) {
                        Some(t) => Some((seq![(x as u32) as char] + t.0, t.1)),
                        None => None,
                    }
                } else {
                    None
                }
            } else {
                None
            }
        } else {
            None
        }
    } else {
        match parse_str_body(s, i + 1) {
            Some(t) => Some((seq![s[i]] + t.0, t.1)),
            None => None,
        }
    }
}

/// After whitespace, a quoted string.
pub open spec fn parse_string_at(s: Seq<char>, i: int) -> Option<(Seq<char>, int)> {
    let j = skip_jws(s, i);
    if at_char(s, j, '"') {
        parse_str_body(s, j + 1)
    } else {
        None
    }
}

/// After whitespace, a quoted phase name.
pub open spec fn parse_phase_at(s: Seq<char>, i: int) -> Option<(Phase, int)> {
    let j = skip_jws(s, i);
    if matches_at(s, j, seq!['"'] + phase_name(Phase::Dawn) + seq!['"']) {
        Some((Phase::Dawn, j + 6))
    } else if matches_at(s, j, seq!['"'] + phase_name(Phase::Day) + seq!['"']) {
        Some((Phase::Day, j + 5))
    } else if matches_at(s, j, seq!['"'] + phase_name(Phase::Dusk) + seq!['"']) {
        Some((Phase::Dusk, j + 6))
    } else if matches_at(s, j, seq!['"'] + phase_name(Phase::Night) + seq!['"']) {
        Some((Phase::Night, j + 7))
    } else {
        None
    }
}

/// After whitespace, a quoted weather name.
pub open spec fn parse_weather_at(s: Seq<char>, i: int) -> Option<(WeatherType, int)> {
    let j = skip_jws(s, i);
    if matches_at(s, j, seq!['"'] + weather_name(WeatherType::Sunny) + seq!['"']) {
        Some((WeatherType::Sunny, j + 7))
    } else if matches_at(s, j, seq!['"'] + weather_name(WeatherType::Raining) + seq!['"']) {
        Some((WeatherType::Raining, j + 9))
    } else if matches_at(s, j, seq!['"'] + weather_name(WeatherType::Windy) + seq!['"']) {
        Some((WeatherType::Windy, j + 7))
    } else if matches_at(s, j, seq!['"'] + weather_name(WeatherType::Stormy) + seq!['"']) {
        Some((WeatherType::Stormy, j + 8))
    } else if matches_at(s, j, seq!['"'] + weather_name(WeatherType::Snowing) + seq!['"']) {
        Some((WeatherType::Snowing, j + 9))
    } else {
        None
    }
}

/// The `id` key.
pub open spec fn key_id() -> Seq<char> {
    seq!['i', 'd']
}

/// The `name` key.
pub open spec fn key_name() -> Seq<char> {
    seq!['n', 'a', 'm', 'e']
}

/// The `tick` key.
pub open spec fn key_tick() -> Seq<char> {
    seq!['t', 'i', 'c', 'k']
}

/// The `day` key.
pub open spec fn key_day() -> Seq<char> {
    seq!['d', 'a', 'y']
}

/// The `phase` key.
pub open spec fn key_phase() -> Seq<char> {
    seq!['p', 'h', 'a', 's', 'e']
}

/// A whole player object: its five fields, in the order the renderer writes
/// them.
pub open spec fn parse_player_at(s: Seq<char>, i: int) -> Option<(PlayerView, int)> {
    match tok(s, i, '{') {
        None => None,
        Some(i1) => match key_colon(s, i1, key_id()) {
            None => None,
            Some(i2) => match parse_u32_at(s, i2) {
                None => None,
                Some((id, i3)) => match tok(s, i3, ',') {
                    None => None,
                    Some(i4) => match key_colon(s, i4, key_name()) {
                        None => None,
                        Some(i5) => match parse_string_at(s, i5) {
                            None => None,
                            Some((name, i6)) => match tok(s, i6, ',') {
                                None => None,
                                Some(i7) => match key_colon(s, i7, key_town()) {
                                    None => None,
                                    Some(i8) => match parse_u32_at(s, i8) {
                                        None => None,
                                        Some((town, i9)) => match tok(s, i9, ',') {
                                            None => None,
                                            Some(i10) => match key_colon(s, i10, key_building()) {
                                                None => None,
                                                Some(i11) => match parse_opt_u32_at(s, i11) {
                                                    None => None,
                                                    Some((building, i12)) => match tok(s, i12, ',') {
                                                        None => None,
                                                        Some(i13) => match key_colon(
                                                            s,
                                                            i13,
                                                            key_room(),
                                                        ) {
                                                            None => None,
                                                            Some(i14) => match parse_opt_u32_at(
                                                                s,
                                                                i14,
                                                            ) {
                                                                None => None,
                                                                Some((room, i15)) => match tok(
                                                                    s,
                                                                    i15,
                                                                    '}',
                                                                ) {
                                                                    None => None,
                                                                    Some(end) => Some(
                                                                        (
                                                                            PlayerView {
                                                                                id,
                                                                                name,
                                                                                current_town_id: town,
                                                                                current_building_id:
                                                                                    building,
                                                                                current_room_id: room,
                                                                            },
                                                                            end,
                                                                        ),
                                                                    ),
                                                                },
                                                            },
                                                        },
                                                    },
                                                },
                                            },
                                        },
                                    },
                                },
                            },
                        },
                    },
                },
            },
        },
    }
}

/// A whole time object. The tick must lie inside one day and the day count
/// must have started; the phase name is read for shape but the phase is
/// derived from the tick, as everywhere else.
pub open spec fn parse_time_at(s: Seq<char>, i: int) -> Option<(GameTime, int)> {
    match tok(s, i, '{') {
        None => None,
        Some(i1) => match key_colon(s, i1, key_tick()) {
            None => None,
            Some(i2) => match parse_u32_at(s, i2) {
                None => None,
                Some((tick, i3)) => match tok(s, i3, ',') {
                    None => None,
                    Some(i4) => match key_colon(s, i4, key_day()) {
                        None => None,
                        Some(i5) => match parse_u32_at(s, i5) {
                            None => None,
                            Some((day, i6)) => match tok(s, i6, ',') {
                                None => None,
                                Some(i7) => match key_colon(s, i7, key_phase()) {
                                    None => None,
                                    Some(i8) => match parse_phase_at(s, i8) {
                                        None => None,
                                        Some((_ph, i9)) => match tok(s, i9, '}') {
                                            None => None,
                                            Some(end) => if tick < TICKS_PER_DAY && day >= 1 {
                                                Some(
                                                    (
                                                        GameTime {
                                                            tick,
                                                            day,
                                                            phase: spec_phase(tick),
                                                        },
                                                        end,
                                                    ),
                                                )
                                            } else {
                                                None
                                            },
                                        },
                                    },
                                },
                            },
                        },
                    },
                },
            },
        },
    }
}

/// A whole weather object.
pub open spec fn parse_weather_obj_at(s: Seq<char>, i: int) -> Option<(GameWeather, int)> {
    match tok(s, i, '{') {
        None => None,
        Some(i1) => match key_colon(s, i1, key_weather_type()) {
            None => None,
            Some(i2) => match parse_weather_at(s, i2) {
                None => None,
                Some((w, i3)) => match tok(s, i3, '}') {
                    None => None,
                    Some(end) => Some((GameWeather { weather_type: w }, end)),
                },
            },
        },
    }
}

/// After a member's value: a comma before a further member, or the closing
/// brace.
pub open spec fn sep_at(s: Seq<char>, i: int) -> Option<(bool, int)> {
    let j = skip_jws(s, i);
    if at_char(s, j, ',') {
        Some((true, j + 1))
    } else if at_char(s, j, '}') {
        Some((false, j + 1))
    } else {
        None
    }
}

/// The `player` member's value: an object or `null`.
pub open spec fn parse_player_value(s: Seq<char>, i: int) -> Option<(Option<PlayerView>, int)> {
    match null_at(s, i) {
        Some(n) => Some((None, n)),
        None => match parse_player_at(s, i) {
            Some(t) => Some((Some(t.0), t.1)),
            None => None,
        },
    }
}

/// The `time` member's value: an object or `null`.
pub open spec fn parse_time_value(s: Seq<char>, i: int) -> Option<(Option<GameTime>, int)> {
    match null_at(s, i) {
        Some(n) => Some((None, n)),
        None => match parse_time_at(s, i) {
            Some(t) => Some((Some(t.0), t.1)),
            None => None,
        },
    }
}

/// The `weather` member's value: an object or `null`.
pub open spec fn parse_weather_value(s: Seq<char>, i: int) -> Option<(Option<GameWeather>, int)> {
    match null_at(s, i) {
        Some(n) => Some((None, n)),
        None => match parse_weather_obj_at(s, i) {
            Some(t) => Some((Some(t.0), t.1)),
            None => None,
        },
    }
}

/// The member list of the document object, read from `i`, with `d` the
/// document assembled so far. The three known members may each be present or
/// absent, in the fixed order player before time before weather; `stage`
/// says which members may still come. Any other key is malformed.
pub open spec fn members_from(s: Seq<char>, i: int, d: SaveDataView, stage: int) -> Option<
    (SaveDataView, int),
>
    decreases 3 - stage,
{
    if stage == 0 {
        if key_is(s, i, key_player()) {
            match key_colon(s, i, key_player()) {
                None => None,
                Some(i1) => match parse_player_value(s, i1) {
                    None => None,
                    Some((p, i2)) => {
                        let d2 = SaveDataView { player: p, ..d };
                        match sep_at(s, i2) {
                            None => None,
                            Some((true, i3)) => members_from(s, i3, d2, 1),
                            Some((false, end)) => Some((d2, end)),
                        }
                    },
                },
            }
        } else {
            members_from(s, i, d, 1)
        }
    } else if stage == 1 {
        if key_is(s, i, key_time()) {
            match key_colon(s, i, key_time()) {
                None => None,
                Some(i1) => match parse_time_value(s, i1) {
                    None => None,
                    Some((t, i2)) => {
                        let d2 = SaveDataView { time: t, ..d };
                        match sep_at(s, i2) {
                            None => None,
                            Some((true, i3)) => members_from(s, i3, d2, 2),
                            Some((false, end)) => Some((d2, end)),
                        }
                    },
                },
            }
        } else {
            members_from(s, i, d, 2)
        }
    } else if stage == 2 {
        if key_is(s, i, key_weather()) {
            match key_colon(s, i, key_weather()) {
                None => None,
                Some(i1) => match parse_weather_value(s, i1) {
                    None => None,
                    Some((w, i2)) => {
                        let d2 = SaveDataView { weather: w, ..d };
                        match sep_at(s, i2) {
                            None => None,
                            Some((true, _)) => None,
                            Some((false, end)) => Some((d2, end)),
                        }
                    },
                },
            }
        } else {
            None
        }
    } else {
        None
    }
}

/// What a document text denotes: the parsed document, or nothing for any
/// text outside the accepted grammar.
pub open spec fn spec_parse_save(s: Seq<char>) -> Option<SaveDataView> {
    let empty = SaveDataView { player: None, time: None, weather: None };
    match tok(s, 0, '{') {
        None => None,
        Some(i1) => {
            let j = skip_jws(s, i1);
            if at_char(s, j, '}') {
                if skip_jws(s, j + 1) == s.len() {
                    Some(empty)
                } else {
                    None
                }
            } else {
                match members_from(s, i1, empty, 0) {
                    None => None,
                    Some((d, end)) => if skip_jws(s, end) == s.len() {
                        Some(d)
                    } else {
                        None
                    },
                }
            }
        },
    }
}

// ---------------------------------------------------------------------------
// Reading a document back.
// ---------------------------------------------------------------------------

/// Relies on `char::from_u32`: a character for every valid scalar value,
/// and nothing for surrogates and values beyond the last plane.
#[verifier::external_body]
fn char_from_u32(x: u32) -> (r: Option<char>)
    ensures
        match r {
            Some(c) => valid_scalar(x as int) && c == x as char,
            None => !valid_scalar(x as int),
        },
{
    char::from_u32(x)
}

/// First position at or after `i` holding something other than whitespace.
fn skip_jws_exec(v: &Vec<char>, i: usize) -> (r: usize)
    requires
        i <= v@.len(),
    ensures
        r == skip_jws(v@, i as int),
        i <= r <= v@.len(),
{
    let mut k: usize = i;
    while k < v.len() && (v[k] == ' ' || v[k] == '\t' || v[k] == '\r' || v[k] == '\n')
        invariant
            i <= k <= v@.len(),
            skip_jws(v@, i as int) == skip_jws(v@, k as int),
        decreases v@.len() - k,
    {
        k = k + 1;
    }
    k
}

/// After whitespace, the token `c`.
fn tok_exec(v: &Vec<char>, i: usize, c: char) -> (r: Option<usize>)
    requires
        i <= v@.len(),
    ensures
        match r {
            Some(n) => tok(v@, i as int, c) == Some(n as int) && n <= v@.len(),
            None => tok(v@, i as int, c) is None,
        },
{
    let j = skip_jws_exec(v, i);
    if j < v.len() && v[j] == c {
        Some(j + 1)
    } else {
        None
    }
}

/// The key `name` wrapped in its quotes.
fn quoted(name: &Vec<char>) -> (r: Vec<char>)
    ensures
        r@ == seq!['"'] + name@ + seq!['"'],
{
    let mut q: Vec<char> = Vec::new();
    q.push('"');
    push_seq(&mut q, name);
    q.push('"');
    proof {
        assert(q@ =~= seq!['"'] + name@ + seq!['"']);
    }
    q
}

/// Whether the next token is the quoted key `name`.
fn key_is_exec(v: &Vec<char>, i: usize, name: &Vec<char>) -> (r: bool)
    requires
        i <= v@.len(),
    ensures
        r == key_is(v@, i as int, name@),
{
    let j = skip_jws_exec(v, i);
    let q = quoted(name);
    lit_at(v, j, &q)
}

/// After whitespace, the quoted key `name` and its colon.
fn key_colon_exec(v: &Vec<char>, i: usize, name: &Vec<char>) -> (r: Option<usize>)
    requires
        i <= v@.len(),
    ensures
        match r {
            Some(n) => key_colon(v@, i as int, name@) == Some(n as int) && n <= v@.len(),
            None => key_colon(v@, i as int, name@) is None,
        },
{
    let j = skip_jws_exec(v, i);
    let q = quoted(name);
    if lit_at(v, j, &q) {
        proof {
            assert(v@.len() == v.len());
        }
        tok_exec(v, j + name.len() + 2, ':')
    } else {
        None
    }
}

/// After whitespace, the word `null`.
fn null_exec(v: &Vec<char>, i: usize) -> (r: Option<usize>)
    requires
        i <= v@.len(),
    ensures
        match r {
            Some(n) => null_at(v@, i as int) == Some(n as int) && n <= v@.len(),
            None => null_at(v@, i as int) is None,
        },
{
    let j = skip_jws_exec(v, i);
    let lit: Vec<char> = vec!['n', 'u', 'l', 'l'];
    if lit_at(v, j, &lit) {
        proof {
            assert(v@.len() == v.len());
            assert(lit@ =~= seq!['n', 'u', 'l', 'l']);
        }
        Some(j + 4)
    } else {
        proof {
            assert(lit@ =~= seq!['n', 'u', 'l', 'l']);
        }
        None
    }
}

/// After whitespace, an unsigned number that fits in thirty-two bits.
fn parse_u32_exec(v: &Vec<char>, i: usize) -> (r: Option<(u32, usize)>)
    requires
        i <= v@.len(),
    ensures
        match r {
            Some(t) => parse_u32_at(v@, i as int) == Some((t.0, t.1 as int)) && t.1 <= v@.len(),
            None => parse_u32_at(v@, i as int) is None,
        },
{
    let j = skip_jws_exec(v, i);
    let (o, e) = scan_u32(v, j);
    if e == j {
        None
    } else {
        match o {
            Some(x) => Some((x, e)),
            None => None,
        }
    }
}

/// After whitespace, a number or `null`.
fn parse_opt_u32_exec(v: &Vec<char>, i: usize) -> (r: Option<(Option<u32>, usize)>)
    requires
        i <= v@.len(),
    ensures
        match r {
            Some(t) => parse_opt_u32_at(v@, i as int) == Some((t.0, t.1 as int)) && t.1 <= v@.len(),
            None => parse_opt_u32_at(v@, i as int) is None,
        },
{
    match null_exec(v, i) {
        Some(n) => Some((None, n)),
        None => match parse_u32_exec(v, i) {
            Some(t) => Some((Some(t.0), t.1)),
            None => None,
        },
    }
}

/// Value of a hexadecimal digit character, in either case.
fn hexv(c: char) -> (r: Option<u32>)
    ensures
        match r {
            Some(x) => hex_val(c) == x,
            None => hex_val(c) < 0,
        },
{
    let x = c as u32;
    if 48 <= x && x <= 57 {
        Some(x - 48)
    } else if 97 <= x && x <= 102 {
        proof {
            assert(c == 'a' || c == 'b' || c == 'c' || c == 'd' || c == 'e' || c == 'f');
        }
        Some(x - 87)
    } else if 65 <= x && x <= 70 {
        proof {
            assert(c == 'A' || c == 'B' || c == 'C' || c == 'D' || c == 'E' || c == 'F');
        }
        Some(x - 55)
    } else {
        None
    }
}

/// The content of a quoted string, read from just inside the opening quote.
fn parse_str_body_exec(v: &Vec<char>, i: usize) -> (r: Option<(Vec<char>, usize)>)
    requires
        i <= v@.len(),
    ensures
        match r {
            Some(t) => parse_str_body(v@, i as int) == Some((t.0@, t.1 as int)) && t.1 <= v@.len(),
            None => parse_str_body(v@, i as int) is None,
        },
{
    let mut acc: Vec<char> = Vec::new();
    let mut pos: usize = i;
    loop
        invariant
            i <= pos <= v@.len(),
            v@.len() == v.len(),
            match parse_str_body(v@, pos as int) {
                Some(t) => parse_str_body(v@, i as int) == Some((acc@ + t.0, t.1)),
                None => parse_str_body(v@, i as int) is None,
            },
        decreases v@.len() - pos,
    {
        if pos >= v.len() {
            return None;
        }
        let c = v[pos];
        if c == '"' {
            proof {
                assert(acc@ + Seq::<char>::empty() =~= acc@);
            }
            return Some((acc, pos + 1));
        } else if c == '\\' {
            if pos + 1 >= v.len() {
                return None;
            }
            let e = v[pos + 1];
            if e == '"' || e == '\\' || e == '/' {
                let ghost before = acc@;
                acc.push(e);
                proof {
                    assert forall|t0: Seq<char>| true implies before + (seq![e] + t0) =~= acc@
                        + t0 by {}
                }
                pos = pos + 2;
            } else if e == 'u' {
                if v.len() - pos <= 5 {
                    proof {
                        assert(hex4_val(v@, pos as int + 2) == -1);
                    }
                    return None;
                }
                let h0 = hexv(v[pos + 2]);
                let h1 = hexv(v[pos + 3]);
                let h2 = hexv(v[pos + 4]);
                let h3 = hexv(v[pos + 5]);
                match (h0, h1, h2, h3) {
                    (Some(x0), Some(x1), Some(x2), Some(x3)) => {
                        let x = 4096 * x0 + 256 * x1 + 16 * x2 + x3;
                        proof {
                            assert(hex4_val(v@, pos as int + 2) == x);
                        }
                        match char_from_u32(x) {
                            Some(ch) => {
                                let ghost before = acc@;
                                acc.push(ch);
                                proof {
                                    assert forall|t0: Seq<char>| true implies before + (seq![ch]
                                        + t0) =~= acc@ + t0 by {}
                                }
                                pos = pos + 6;
                            },
                            None => {
                                return None;
                            },
                        }
                    },
                    _ => {
                        proof {
                            assert(hex4_val(v@, pos as int + 2) < 0);
                        }
                        return None;
                    },
                }
            } else {
                return None;
            }
        } else {
            let ghost before = acc@;
            acc.push(c);
            proof {
                assert forall|t0: Seq<char>| true implies before + (seq![c] + t0) =~= acc@
                    + t0 by {}
            }
            pos = pos + 1;
        }
    }
}

/// After whitespace, a quoted string.
fn parse_string_exec(v: &Vec<char>, i: usize) -> (r: Option<(Vec<char>, usize)>)
    requires
        i <= v@.len(),
    ensures
        match r {
            Some(t) => parse_string_at(v@, i as int) == Some((t.0@, t.1 as int)) && t.1 <= v@.len(),
            None => parse_string_at(v@, i as int) is None,
        },
{
    let j = skip_jws_exec(v, i);
    if j < v.len() && v[j] == '"' {
        parse_str_body_exec(v, j + 1)
    } else {
        None
    }
}

/// After whitespace, a quoted phase name.
fn parse_phase_exec(v: &Vec<char>, i: usize) -> (r: Option<(Phase, usize)>)
    requires
        i <= v@.len(),
    ensures
        match r {
            Some(t) => parse_phase_at(v@, i as int) == Some((t.0, t.1 as int)) && t.1 <= v@.len(),
            None => parse_phase_at(v@, i as int) is None,
        },
{
    let j = skip_jws_exec(v, i);
    proof {
        assert(v@.len() == v.len());
    }
    let dawn: Vec<char> = vec!['"', 'D', 'a', 'w', 'n', '"'];
    let day: Vec<char> = vec!['"', 'D', 'a', 'y', '"'];
    let dusk: Vec<char> = vec!['"', 'D', 'u', 's', 'k', '"'];
    let night: Vec<char> = vec!['"', 'N', 'i', 'g', 'h', 't', '"'];
    proof {
        assert(dawn@ =~= seq!['"'] + phase_name(Phase::Dawn) + seq!['"']);
        assert(day@ =~= seq!['"'] + phase_name(Phase::Day) + seq!['"']);
        assert(dusk@ =~= seq!['"'] + phase_name(Phase::Dusk) + seq!['"']);
        assert(night@ =~= seq!['"'] + phase_name(Phase::Night) + seq!['"']);
    }
    if lit_at(v, j, &dawn) {
        Some((Phase::Dawn, j + 6))
    } else if lit_at(v, j, &day) {
        Some((Phase::Day, j + 5))
    } else if lit_at(v, j, &dusk) {
        Some((Phase::Dusk, j + 6))
    } else if lit_at(v, j, &night) {
        Some((Phase::Night, j + 7))
    } else {
        None
    }
}

/// After whitespace, a quoted weather name.
fn parse_weather_kind_exec(v: &Vec<char>, i: usize) -> (r: Option<(WeatherType, usize)>)
    requires
        i <= v@.len(),
    ensures
        match r {
            Some(t) => parse_weather_at(v@, i as int) == Some((t.0, t.1 as int)) && t.1 <= v@.len(),
            None => parse_weather_at(v@, i as int) is None,
        },
{
    let j = skip_jws_exec(v, i);
    proof {
        assert(v@.len() == v.len());
    }
    let sunny: Vec<char> = vec!['"', 'S', 'u', 'n', 'n', 'y', '"'];
    let raining: Vec<char> = vec!['"', 'R', 'a', 'i', 'n', 'i', 'n', 'g', '"'];
    let windy: Vec<char> = vec!['"', 'W', 'i', 'n', 'd', 'y', '"'];
    let stormy: Vec<char> = vec!['"', 'S', 't', 'o', 'r', 'm', 'y', '"'];
    let snowing: Vec<char> = vec!['"', 'S', 'n', 'o', 'w', 'i', 'n', 'g', '"'];
    proof {
        assert(sunny@ =~= seq!['"'] + weather_name(WeatherType::Sunny) + seq!['"']);
        assert(raining@ =~= seq!['"'] + weather_name(WeatherType::Raining) + seq!['"']);
        assert(windy@ =~= seq!['"'] + weather_name(WeatherType::Windy) + seq!['"']);
        assert(stormy@ =~= seq!['"'] + weather_name(WeatherType::Stormy) + seq!['"']);
        assert(snowing@ =~= seq!['"'] + weather_name(WeatherType::Snowing) + seq!['"']);
    }
    if lit_at(v, j, &sunny) {
        Some((WeatherType::Sunny, j + 7))
    } else if lit_at(v, j, &raining) {
        Some((WeatherType::Raining, j + 9))
    } else if lit_at(v, j, &windy) {
        Some((WeatherType::Windy, j + 7))
    } else if lit_at(v, j, &stormy) {
        Some((WeatherType::Stormy, j + 8))
    } else if lit_at(v, j, &snowing) {
        Some((WeatherType::Snowing, j + 9))
    } else {
        None
    }
}

/// A whole player object.
fn parse_player_exec(v: &Vec<char>, i: usize) -> (r: Option<(Player, usize)>)
    requires
        i <= v@.len(),
    ensures
        match r {
            Some(t) => parse_player_at(v@, i as int) == Some((t.0@, t.1 as int)) && t.1 <= v@.len(),
            None => parse_player_at(v@, i as int) is None,
        },
{
    let i1 = match tok_exec(v, i, '{') {
        None => { return None; },
        Some(x) => x,
    };
    let kid: Vec<char> = vec!['i', 'd'];
    proof {
        assert(kid@ =~= key_id());
    }
    let i2 = match key_colon_exec(v, i1, &kid) {
        None => { return None; },
        Some(x) => x,
    };
    let (id, i3) = match parse_u32_exec(v, i2) {
        None => { return None; },
        Some(x) => x,
    };
    let i4 = match tok_exec(v, i3, ',') {
        None => { return None; },
        Some(x) => x,
    };
    let kname: Vec<char> = vec!['n', 'a', 'm', 'e'];
    proof {
        assert(kname@ =~= key_name());
    }
    let i5 = match key_colon_exec(v, i4, &kname) {
        None => { return None; },
        Some(x) => x,
    };
    let (name_chars, i6) = match parse_string_exec(v, i5) {
        None => { return None; },
        Some(x) => x,
    };
    let i7 = match tok_exec(v, i6, ',') {
        None => { return None; },
        Some(x) => x,
    };
    let ktown: Vec<char> = vec![
        'c',
        'u',
        'r',
        'r',
        'e',
        'n',
        't',
        '_',
        't',
        'o',
        'w',
        'n',
        '_',
        'i',
        'd',
    ];
    proof {
        assert(ktown@ =~= key_town());
    }
    let i8 = match key_colon_exec(v, i7, &ktown) {
        None => { return None; },
        Some(x) => x,
    };
    let (town, i9) = match parse_u32_exec(v, i8) {
        None => { return None; },
        Some(x) => x,
    };
    let i10 = match tok_exec(v, i9, ',') {
        None => { return None; },
        Some(x) => x,
    };
    let kbuilding: Vec<char> = vec![
        'c',
        'u',
        'r',
        'r',
        'e',
        'n',
        't',
        '_',
        'b',
        'u',
        'i',
        'l',
        'd',
        'i',
        'n',
        'g',
        '_',
        'i',
        'd',
    ];
    proof {
        assert(kbuilding@ =~= key_building());
    }
    let i11 = match key_colon_exec(v, i10, &kbuilding) {
        None => { return None; },
        Some(x) => x,
    };
    let (building, i12) = match parse_opt_u32_exec(v, i11) {
        None => { return None; },
        Some(x) => x,
    };
    let i13 = match tok_exec(v, i12, ',') {
        None => { return None; },
        Some(x) => x,
    };
    let kroom: Vec<char> = vec![
        'c',
        'u',
        'r',
        'r',
        'e',
        'n',
        't',
        '_',
        'r',
        'o',
        'o',
        'm',
        '_',
        'i',
        'd',
    ];
    proof {
        assert(kroom@ =~= key_room());
    }
    let i14 = match key_colon_exec(v, i13, &kroom) {
        None => { return None; },
        Some(x) => x,
    };
    let (room, i15) = match parse_opt_u32_exec(v, i14) {
        None => { return None; },
        Some(x) => x,
    };
    let end = match tok_exec(v, i15, '}') {
        None => { return None; },
        Some(x) => x,
    };
    let name = crate::text::chars_to_string(&name_chars);
    Some(
        (
            Player {
                id,
                name,
                current_town_id: town,
                current_building_id: building,
                current_room_id: room,
            },
            end,
        ),
    )
}

/// A whole time object.
fn parse_time_exec(v: &Vec<char>, i: usize) -> (r: Option<(GameTime, usize)>)
    requires
        i <= v@.len(),
    ensures
        match r {
            Some(t) => parse_time_at(v@, i as int) == Some((t.0, t.1 as int)) && t.1 <= v@.len(),
            None => parse_time_at(v@, i as int) is None,
        },
{
    let i1 = match tok_exec(v, i, '{') {
        None => { return None; },
        Some(x) => x,
    };
    let ktick: Vec<char> = vec!['t', 'i', 'c', 'k'];
    proof {
        assert(ktick@ =~= key_tick());
    }
    let i2 = match key_colon_exec(v, i1, &ktick) {
        None => { return None; },
        Some(x) => x,
    };
    let (tick, i3) = match parse_u32_exec(v, i2) {
        None => { return None; },
        Some(x) => x,
    };
    let i4 = match tok_exec(v, i3, ',') {
        None => { return None; },
        Some(x) => x,
    };
    let kday: Vec<char> = vec!['d', 'a', 'y'];
    proof {
        assert(kday@ =~= key_day());
    }
    let i5 = match key_colon_exec(v, i4, &kday) {
        None => { return None; },
        Some(x) => x,
    };
    let (day, i6) = match parse_u32_exec(v, i5) {
        None => { return None; },
        Some(x) => x,
    };
    let i7 = match tok_exec(v, i6, ',') {
        None => { return None; },
        Some(x) => x,
    };
    let kphase: Vec<char> = vec!['p', 'h', 'a', 's', 'e'];
    proof {
        assert(kphase@ =~= key_phase());
    }
    let i8 = match key_colon_exec(v, i7, &kphase) {
        None => { return None; },
        Some(x) => x,
    };
    let (_ph, i9) = match parse_phase_exec(v, i8) {
        None => { return None; },
        Some(x) => x,
    };
    let end = match tok_exec(v, i9, '}') {
        None => { return None; },
        Some(x) => x,
    };
    if tick < TICKS_PER_DAY && day >= 1 {
        let phase = phase_of_tick(tick);
        Some((GameTime { tick, day, phase }, end))
    } else {
        None
    }
}

/// A whole weather object.
fn parse_weather_obj_exec(v: &Vec<char>, i: usize) -> (r: Option<(GameWeather, usize)>)
    requires
        i <= v@.len(),
    ensures
        match r {
            Some(t) => parse_weather_obj_at(v@, i as int) == Some((t.0, t.1 as int)) && t.1
                <= v@.len(),
            None => parse_weather_obj_at(v@, i as int) is None,
        },
{
    let i1 = match tok_exec(v, i, '{') {
        None => { return None; },
        Some(x) => x,
    };
    let kwt: Vec<char> = vec!['w', 'e', 'a', 't', 'h', 'e', 'r', '_', 't', 'y', 'p', 'e'];
    proof {
        assert(kwt@ =~= key_weather_type());
    }
    let i2 = match key_colon_exec(v, i1, &kwt) {
        None => { return None; },
        Some(x) => x,
    };
    let (w, i3) = match parse_weather_kind_exec(v, i2) {
        None => { return None; },
        Some(x) => x,
    };
    let end = match tok_exec(v, i3, '}') {
        None => { return None; },
        Some(x) => x,
    };
    Some((GameWeather { weather_type: w }, end))
}

/// After a member's value: a comma before a further member, or the closing
/// brace.
fn sep_exec(v: &Vec<char>, i: usize) -> (r: Option<(bool, usize)>)
    requires
        i <= v@.len(),
    ensures
        match r {
            Some(t) => sep_at(v@, i as int) == Some((t.0, t.1 as int)) && t.1 <= v@.len(),
            None => sep_at(v@, i as int) is None,
        },
{
    let j = skip_jws_exec(v, i);
    if j < v.len() && v[j] == ',' {
        Some((true, j + 1))
    } else if j < v.len() && v[j] == '}' {
        Some((false, j + 1))
    } else {
        None
    }
}

/// The member list of the document object.
fn members_exec(v: &Vec<char>, i: usize) -> (r: Option<(SaveData, usize)>)
    requires
        i <= v@.len(),
    ensures
        ({
            let empty = SaveDataView { player: None, time: None, weather: None };
            match r {
                Some(t) => members_from(v@, i as int, empty, 0) == Some((t.0@, t.1 as int)) && t.1
                    <= v@.len(),
                None => members_from(v@, i as int, empty, 0) is None,
            }
        }),
{
    let ghost empty = SaveDataView { player: None, time: None, weather: None };
    let mut d = SaveData::new();
    let mut pos = i;
    let kp: Vec<char> = vec!['p', 'l', 'a', 'y', 'e', 'r'];
    let kt: Vec<char> = vec!['t', 'i', 'm', 'e'];
    let kw: Vec<char> = vec!['w', 'e', 'a', 't', 'h', 'e', 'r'];
    proof {
        assert(kp@ =~= key_player());
        assert(kt@ =~= key_time());
        assert(kw@ =~= key_weather());
        assert(d@ == empty);
    }
    // player member
    if key_is_exec(v, pos, &kp) {
        let i1 = match key_colon_exec(v, pos, &kp) {
            None => { return None; },
            Some(x) => x,
        };
        let (p, i2) = match null_exec(v, i1) {
            Some(n) => (None, n),
            None => match parse_player_exec(v, i1) {
                None => { return None; },
                Some((pl, n)) => (Some(pl), n),
            },
        };
        d.player = p;
        match sep_exec(v, i2) {
            None => { return None; },
            Some((false, end)) => { return Some((d, end)); },
            Some((true, i3)) => { pos = i3; },
        }
        proof {
            assert(members_from(v@, i as int, empty, 0) == members_from(v@, pos as int, d@, 1));
        }
    } else {
        proof {
            assert(members_from(v@, i as int, empty, 0) == members_from(v@, pos as int, d@, 1));
        }
    }
    let ghost d1 = d@;
    let ghost pos1 = pos as int;
    // time member
    if key_is_exec(v, pos, &kt) {
        let i1 = match key_colon_exec(v, pos, &kt) {
            None => { return None; },
            Some(x) => x,
        };
        let (t, i2) = match null_exec(v, i1) {
            Some(n) => (None, n),
            None => match parse_time_exec(v, i1) {
                None => { return None; },
                Some((tv, n)) => (Some(tv), n),
            },
        };
        d.time = t;
        match sep_exec(v, i2) {
            None => { return None; },
            Some((false, end)) => { return Some((d, end)); },
            Some((true, i3)) => { pos = i3; },
        }
        proof {
            assert(members_from(v@, pos1, d1, 1) == members_from(v@, pos as int, d@, 2));
        }
    } else {
        proof {
            assert(members_from(v@, pos1, d1, 1) == members_from(v@, pos as int, d@, 2));
        }
    }
    // weather member
    if key_is_exec(v, pos, &kw) {
        let i1 = match key_colon_exec(v, pos, &kw) {
            None => { return None; },
            Some(x) => x,
        };
        let (w, i2) = match null_exec(v, i1) {
            Some(n) => (None, n),
            None => match parse_weather_obj_exec(v, i1) {
                None => { return None; },
                Some((wv, n)) => (Some(wv), n),
            },
        };
        d.weather = w;
        match sep_exec(v, i2) {
            None => { return None; },
            Some((true, _)) => { return None; },
            Some((false, end)) => { return Some((d, end)); },
        }
    } else {
        return None;
    }
}

/// Reads a document out of its JSON text; nothing for any text outside the
/// accepted grammar.
pub fn parse_save(text: &str) -> (r: Option<SaveData>)
    ensures
        match r {
            Some(d) => spec_parse_save(text@) == Some(d@),
            None => spec_parse_save(text@) is None,
        },
{
    let v = crate::text::str_to_chars(text);
    let i1 = match tok_exec(&v, 0, '{') {
        None => { return None; },
        Some(x) => x,
    };
    let j = skip_jws_exec(&v, i1);
    if j < v.len() && v[j] == '}' {
        if skip_jws_exec(&v, j + 1) == v.len() {
            Some(SaveData::new())
        } else {
            None
        }
    } else {
        match members_exec(&v, i1) {
            None => None,
            Some((d, end)) => {
                if skip_jws_exec(&v, end) == v.len() {
                    Some(d)
                } else {
                    None
                }
            },
        }
    }
}

// ---------------------------------------------------------------------------
// Rendering a document.
// ---------------------------------------------------------------------------

/// Appends the characters of `lit` to `out`.
fn push_seq(out: &mut Vec<char>, lit: &Vec<char>)
    ensures
        final(out)@ == old(out)@ + lit@,
{
    let mut k: usize = 0;
    while k < lit.len()
        invariant
            k <= lit@.len(),
            out@ == old(out)@ + lit@.take(k as int),
        decreases lit@.len() - k,
    {
        out.push(lit[k]);
        k = k + 1;
        proof {
            assert(out@ =~= old(out)@ + lit@.take(k as int));
        }
    }
    proof {
        assert(out@ =~= old(out)@ + lit@);
    }
}

/// Appends the decimal rendering of `n` to `out`.
fn push_dec(out: &mut Vec<char>, n: u32)
    ensures
        final(out)@ == old(out)@ + spec_u32_dec(n as int),
{
    let digits = crate::text::u32_dec_chars(n);
    push_seq(out, &digits);
}

/// Appends a number or the word `null` to `out`.
fn push_opt_u32(out: &mut Vec<char>, x: &Option<u32>)
    ensures
        final(out)@ == old(out)@ + ser_opt_u32(*x),
{
    match x {
        Some(n) => push_dec(out, *n),
        None => {
            let lit: Vec<char> = vec!['n', 'u', 'l', 'l'];
            push_seq(out, &lit);
            proof {
                assert(lit@ =~= seq!['n', 'u', 'l', 'l']);
            }
        },
    }
}

/// The hexadecimal digit character for a value below sixteen.
fn hex_char(d: u32) -> (r: char)
    requires
        d < 16,
    ensures
        r == hex_digit(d as int),
{
    match d {
        0 => '0',
        1 => '1',
        2 => '2',
        3 => '3',
        4 => '4',
        5 => '5',
        6 => '6',
        7 => '7',
        8 => '8',
        9 => '9',
        10 => 'a',
        11 => 'b',
        12 => 'c',
        13 => 'd',
        14 => 'e',
        _ => 'f',
    }
}

/// Writing one more character extends the escaped text by that character's
/// escape.
proof fn lemma_esc_snoc(s: Seq<char>, c: char)
    ensures
        esc_string(s.push(c)) == esc_string(s) + esc_char(c),
    decreases s.len(),
{
    let whole = s.push(c);
    if s.len() == 0 {
        assert(whole[0] == c);
        assert(whole.drop_first() =~= Seq::<char>::empty());
        assert(esc_string(whole.drop_first()) =~= Seq::<char>::empty());
        assert(esc_string(whole) == esc_char(whole[0]) + esc_string(whole.drop_first()));
        assert(esc_string(whole) =~= esc_char(c));
        assert(esc_string(s) + esc_char(c) =~= esc_char(c));
    } else {
        lemma_esc_snoc(s.drop_first(), c);
        assert(whole[0] == s[0]);
        assert(whole.drop_first() =~= s.drop_first().push(c));
        assert(esc_string(whole) == esc_char(s[0]) + (esc_string(s.drop_first()) + esc_char(c)));
        assert(esc_char(s[0]) + (esc_string(s.drop_first()) + esc_char(c)) =~= (esc_char(s[0])
            + esc_string(s.drop_first())) + esc_char(c));
    }
}

/// Appends the escaped form of `s` to `out`.
fn push_escaped(out: &mut Vec<char>, s: &String)
    ensures
        final(out)@ == old(out)@ + esc_string(s@),
{
    let chars = crate::text::str_to_chars(s.as_str());
    let mut k: usize = 0;
    proof {
        assert(out@ =~= old(out)@ + esc_string(chars@.take(0)));
    }
    while k < chars.len()
        invariant
            k <= chars@.len(),
            chars@ == s@,
            out@ == old(out)@ + esc_string(chars@.take(k as int)),
        decreases chars@.len() - k,
    {
        let ghost before = out@;
        let c = chars[k];
        if c == '"' {
            out.push('\\');
            out.push('"');
        } else if c == '\\' {
            out.push('\\');
            out.push('\\');
        } else if (c as u32) < 32 {
            out.push('\\');
            out.push('u');
            out.push('0');
            out.push('0');
            out.push(hex_char(c as u32 / 16));
            out.push(hex_char(c as u32 % 16));
        } else {
            out.push(c);
        }
        proof {
            assert(out@ =~= before + esc_char(c));
            lemma_esc_snoc(chars@.take(k as int), c);
            assert(chars@.take(k as int).push(c) =~= chars@.take(k as int + 1));
            assert(out@ =~= old(out)@ + esc_string(chars@.take(k as int + 1)));
        }
        k = k + 1;
    }
    proof {
        assert(chars@.take(chars@.len() as int) =~= s@);
    }
}

/// Concatenation of character sequences is associative.
proof fn lemma_seq_assoc(a: Seq<char>, b: Seq<char>, c: Seq<char>)
    ensures
        (a + b) + c == a + (b + c),
{
    assert((a + b) + c =~= a + (b + c));
}

/// The player text equals its tokens assembled left to right.
proof fn lemma_player_chunks_assemble(p: PlayerView)
    ensures
        ({
            let c1 = seq!['{'];
            let c2 = seq!['"'] + key_id() + seq!['"', ':'];
            let c3 = spec_u32_dec(p.id as int);
            let c4 = seq![','];
            let c5 = seq!['"'] + key_name() + seq!['"', ':'];
            let c6 = seq!['"'];
            let c7 = esc_string(p.name) + seq!['"'];
            let c8 = seq![','];
            let c9 = seq!['"'] + key_town() + seq!['"', ':'];
            let c10 = spec_u32_dec(p.current_town_id as int);
            let c11 = seq![','];
            let c12 = seq!['"'] + key_building() + seq!['"', ':'];
            let c13 = ser_opt_u32(p.current_building_id);
            let c14 = seq![','];
            let c15 = seq!['"'] + key_room() + seq!['"', ':'];
            let c16 = ser_opt_u32(p.current_room_id);
            let c17 = seq!['}'];
            ser_player(p) == c1 + c2 + c3 + c4 + c5 + c6 + c7 + c8 + c9 + c10 + c11 + c12 + c13
                + c14 + c15 + c16 + c17
        }),
{
    let c1 = seq!['{'];
    let c2 = seq!['"'] + key_id() + seq!['"', ':'];
    let c3 = spec_u32_dec(p.id as int);
    let c4 = seq![','];
    let c5 = seq!['"'] + key_name() + seq!['"', ':'];
    let c6 = seq!['"'];
    let c7 = esc_string(p.name) + seq!['"'];
    let c8 = seq![','];
    let c9 = seq!['"'] + key_town() + seq!['"', ':'];
    let c10 = spec_u32_dec(p.current_town_id as int);
    let c11 = seq![','];
    let c12 = seq!['"'] + key_building() + seq!['"', ':'];
    let c13 = ser_opt_u32(p.current_building_id);
    let c14 = seq![','];
    let c15 = seq!['"'] + key_room() + seq!['"', ':'];
    let c16 = ser_opt_u32(p.current_room_id);
    let c17 = seq!['}'];
    let r16 = c16 + c17;
    let r15 = c15 + r16;
    let r14 = c14 + r15;
    let r13 = c13 + r14;
    let r12 = c12 + r13;
    let r11 = c11 + r12;
    let r10 = c10 + r11;
    let r9 = c9 + r10;
    let r8 = c8 + r9;
    let r7 = c7 + r8;
    let r6 = c6 + r7;
    let r5 = c5 + r6;
    let r4 = c4 + r5;
    let r3 = c3 + r4;
    let r2 = c2 + r3;
    assert(ser_player(p) == c1 + r2);
    lemma_seq_assoc(c1, c2, r3);
    lemma_seq_assoc(c1 + c2, c3, r4);
    lemma_seq_assoc(c1 + c2 + c3, c4, r5);
    lemma_seq_assoc(c1 + c2 + c3 + c4, c5, r6);
    lemma_seq_assoc(c1 + c2 + c3 + c4 + c5, c6, r7);
    lemma_seq_assoc(c1 + c2 + c3 + c4 + c5 + c6, c7, r8);
    lemma_seq_assoc(c1 + c2 + c3 + c4 + c5 + c6 + c7, c8, r9);
    lemma_seq_assoc(c1 + c2 + c3 + c4 + c5 + c6 + c7 + c8, c9, r10);
    lemma_seq_assoc(c1 + c2 + c3 + c4 + c5 + c6 + c7 + c8 + c9, c10, r11);
    lemma_seq_assoc(c1 + c2 + c3 + c4 + c5 + c6 + c7 + c8 + c9 + c10, c11, r12);
    lemma_seq_assoc(c1 + c2 + c3 + c4 + c5 + c6 + c7 + c8 + c9 + c10 + c11, c12, r13);
    lemma_seq_assoc(c1 + c2 + c3 + c4 + c5 + c6 + c7 + c8 + c9 + c10 + c11 + c12, c13, r14);
    lemma_seq_assoc(c1 + c2 + c3 + c4 + c5 + c6 + c7 + c8 + c9 + c10 + c11 + c12 + c13, c14, r15);
    lemma_seq_assoc(
        c1 + c2 + c3 + c4 + c5 + c6 + c7 + c8 + c9 + c10 + c11 + c12 + c13 + c14,
        c15,
        r16,
    );
    lemma_seq_assoc(
        c1 + c2 + c3 + c4 + c5 + c6 + c7 + c8 + c9 + c10 + c11 + c12 + c13 + c14 + c15,
        c16,
        c17,
    );
}

/// Appends the text of the `player` object to `out`.
#[verifier::rlimit(100)]
fn push_player(out: &mut Vec<char>, p: &Player)
    ensures
        final(out)@ == old(out)@ + ser_player(p@),
{
    let ghost start = out@;
    let ghost c1 = seq!['{'];
    let ghost c2 = seq!['"'] + key_id() + seq!['"', ':'];
    let ghost c5 = seq!['"'] + key_name() + seq!['"', ':'];
    let ghost c7 = esc_string(p.name@) + seq!['"'];
    let ghost c9 = seq!['"'] + key_town() + seq!['"', ':'];
    let ghost c12 = seq!['"'] + key_building() + seq!['"', ':'];
    let ghost c15 = seq!['"'] + key_room() + seq!['"', ':'];

    let l1: Vec<char> = vec!['{', '"', 'i', 'd', '"', ':'];
    push_seq(out, &l1);
    let ghost a1 = c1 + c2;
    proof {
        assert(l1@ =~= c1 + c2);
        assert(out@ =~= start + a1);
    }
    push_dec(out, p.id);
    let ghost a2 = a1 + spec_u32_dec(p.id as int);
    proof {
        assert(out@ =~= start + a2);
    }
    let l2: Vec<char> = vec![',', '"', 'n', 'a', 'm', 'e', '"', ':', '"'];
    push_seq(out, &l2);
    let ghost a3 = a2 + seq![','] + c5 + seq!['"'];
    proof {
        assert(l2@ =~= seq![','] + c5 + seq!['"']);
        assert(out@ =~= start + a3);
    }
    push_escaped(out, &p.name);
    let ghost a4 = a3 + esc_string(p.name@);
    proof {
        assert(out@ =~= start + a4);
    }
    let l3: Vec<char> = vec![
        '"',
        ',',
        '"',
        'c',
        'u',
        'r',
        'r',
        'e',
        'n',
        't',
        '_',
        't',
        'o',
        'w',
        'n',
        '_',
        'i',
        'd',
        '"',
        ':',
    ];
    push_seq(out, &l3);
    let ghost a5 = a3 + c7 + seq![','] + c9;
    proof {
        assert(l3@ =~= seq!['"'] + seq![','] + c9);
        assert(out@ =~= start + a5);
    }
    push_dec(out, p.current_town_id);
    let ghost a6 = a5 + spec_u32_dec(p.current_town_id as int);
    proof {
        assert(out@ =~= start + a6);
    }
    let l4: Vec<char> = vec![
        ',',
        '"',
        'c',
        'u',
        'r',
        'r',
        'e',
        'n',
        't',
        '_',
        'b',
        'u',
        'i',
        'l',
        'd',
        'i',
        'n',
        'g',
        '_',
        'i',
        'd',
        '"',
        ':',
    ];
    push_seq(out, &l4);
    let ghost a7 = a6 + seq![','] + c12;
    proof {
        assert(l4@ =~= seq![','] + c12);
        assert(out@ =~= start + a7);
    }
    push_opt_u32(out, &p.current_building_id);
    let ghost a8 = a7 + ser_opt_u32(p.current_building_id);
    proof {
        assert(out@ =~= start + a8);
    }
    let l5: Vec<char> = vec![
        ',',
        '"',
        'c',
        'u',
        'r',
        'r',
        'e',
        'n',
        't',
        '_',
        'r',
        'o',
        'o',
        'm',
        '_',
        'i',
        'd',
        '"',
        ':',
    ];
    push_seq(out, &l5);
    let ghost a9 = a8 + seq![','] + c15;
    proof {
        assert(l5@ =~= seq![','] + c15);
        assert(out@ =~= start + a9);
    }
    push_opt_u32(out, &p.current_room_id);
    let ghost a10 = a9 + ser_opt_u32(p.current_room_id);
    proof {
        assert(out@ =~= start + a10);
    }
    let l6: Vec<char> = vec!['}'];
    push_seq(out, &l6);
    let ghost a11 = a10 + seq!['}'];
    proof {
        assert(l6@ =~= seq!['}']);
        assert(out@ =~= start + a11);
        lemma_player_chunks_assemble(p@);
        assert(a11 == ser_player(p@));
    }
}

/// Appends the name of a phase to `out`.
fn push_phase(out: &mut Vec<char>, p: Phase)
    ensures
        final(out)@ == old(out)@ + phase_name(p),
{
    let lit: Vec<char> = match p {
        Phase::Dawn => vec!['D', 'a', 'w', 'n'],
        Phase::Day => vec!['D', 'a', 'y'],
        Phase::Dusk => vec!['D', 'u', 's', 'k'],
        Phase::Night => vec!['N', 'i', 'g', 'h', 't'],
    };
    push_seq(out, &lit);
    proof {
        assert(lit@ =~= phase_name(p));
    }
}

/// Appends the text of the `time` object to `out`.
fn push_time(out: &mut Vec<char>, t: &GameTime)
    ensures
        final(out)@ == old(out)@ + ser_time(*t),
{
    let l1: Vec<char> = vec!['{', '"', 't', 'i', 'c', 'k', '"', ':'];
    push_seq(out, &l1);
    push_dec(out, t.tick);
    let l2: Vec<char> = vec![',', '"', 'd', 'a', 'y', '"', ':'];
    push_seq(out, &l2);
    push_dec(out, t.day);
    let l3: Vec<char> = vec![',', '"', 'p', 'h', 'a', 's', 'e', '"', ':', '"'];
    push_seq(out, &l3);
    push_phase(out, t.phase);
    let l4: Vec<char> = vec!['"', '}'];
    push_seq(out, &l4);
    proof {
        assert(final(out)@ =~= old(out)@ + ser_time(*t));
    }
}

/// Appends the name of a weather kind to `out`.
fn push_weather_kind(out: &mut Vec<char>, w: WeatherType)
    ensures
        final(out)@ == old(out)@ + weather_name(w),
{
    let lit: Vec<char> = match w {
        WeatherType::Sunny => vec!['S', 'u', 'n', 'n', 'y'],
        WeatherType::Raining => vec!['R', 'a', 'i', 'n', 'i', 'n', 'g'],
        WeatherType::Windy => vec!['W', 'i', 'n', 'd', 'y'],
        WeatherType::Stormy => vec!['S', 't', 'o', 'r', 'm', 'y'],
        WeatherType::Snowing => vec!['S', 'n', 'o', 'w', 'i', 'n', 'g'],
    };
    push_seq(out, &lit);
    proof {
        assert(lit@ =~= weather_name(w));
    }
}

/// Appends the text of the `weather` object to `out`.
fn push_weather(out: &mut Vec<char>, w: &GameWeather)
    ensures
        final(out)@ == old(out)@ + ser_weather(*w),
{
    let l1: Vec<char> = vec![
        '{',
        '"',
        'w',
        'e',
        'a',
        't',
        'h',
        'e',
        'r',
        '_',
        't',
        'y',
        'p',
        'e',
        '"',
        ':',
        '"',
    ];
    push_seq(out, &l1);
    push_weather_kind(out, w.weather_type);
    let l2: Vec<char> = vec!['"', '}'];
    push_seq(out, &l2);
    proof {
        assert(final(out)@ =~= old(out)@ + ser_weather(*w));
    }
}

/// The document text equals its tokens assembled left to right.
proof fn lemma_save_chunks_assemble(d: SaveDataView)
    ensures
        ({
            let c1 = seq!['{'];
            let k1 = seq!['"'] + key_player() + seq!['"', ':'];
            let c2 = ser_opt(d.player, |p: PlayerView| ser_player(p));
            let c3 = seq![','];
            let k2 = seq!['"'] + key_time() + seq!['"', ':'];
            let c4 = ser_opt(d.time, |t: GameTime| ser_time(t));
            let c5 = seq![','];
            let k3 = seq!['"'] + key_weather() + seq!['"', ':'];
            let c6 = ser_opt(d.weather, |w: GameWeather| ser_weather(w));
            let c7 = seq!['}'];
            ser_save(d) == c1 + k1 + c2 + c3 + k2 + c4 + c5 + k3 + c6 + c7
        }),
{
    let c1 = seq!['{'];
    let k1 = seq!['"'] + key_player() + seq!['"', ':'];
    let c2 = ser_opt(d.player, |p: PlayerView| ser_player(p));
    let c3 = seq![','];
    let k2 = seq!['"'] + key_time() + seq!['"', ':'];
    let c4 = ser_opt(d.time, |t: GameTime| ser_time(t));
    let c5 = seq![','];
    let k3 = seq!['"'] + key_weather() + seq!['"', ':'];
    let c6 = ser_opt(d.weather, |w: GameWeather| ser_weather(w));
    let c7 = seq!['}'];
    let r8 = c6 + c7;
    let r7 = k3 + r8;
    let r6 = c5 + r7;
    let r5 = c4 + r6;
    let r4 = k2 + r5;
    let r3 = c3 + r4;
    let r2 = c2 + r3;
    let r1 = k1 + r2;
    assert(ser_save(d) == c1 + r1);
    lemma_seq_assoc(c1, k1, r2);
    lemma_seq_assoc(c1 + k1, c2, r3);
    lemma_seq_assoc(c1 + k1 + c2, c3, r4);
    lemma_seq_assoc(c1 + k1 + c2 + c3, k2, r5);
    lemma_seq_assoc(c1 + k1 + c2 + c3 + k2, c4, r6);
    lemma_seq_assoc(c1 + k1 + c2 + c3 + k2 + c4, c5, r7);
    lemma_seq_assoc(c1 + k1 + c2 + c3 + k2 + c4 + c5, k3, r8);
    lemma_seq_assoc(c1 + k1 + c2 + c3 + k2 + c4 + c5 + k3, c6, c7);
}

/// Renders a document as its JSON text.
#[verifier::rlimit(100)]
pub fn serialize_save(d: &SaveData) -> (r: String)
    ensures
        r@ == ser_save(d@),
{
    let ghost c1 = seq!['{'];
    let ghost k1 = seq!['"'] + key_player() + seq!['"', ':'];
    let ghost c2 = ser_opt(d@.player, |p: PlayerView| ser_player(p));
    let ghost k2 = seq!['"'] + key_time() + seq!['"', ':'];
    let ghost c4 = ser_opt(d@.time, |t: GameTime| ser_time(t));
    let ghost k3 = seq!['"'] + key_weather() + seq!['"', ':'];
    let ghost c6 = ser_opt(d@.weather, |w: GameWeather| ser_weather(w));
    let mut out: Vec<char> = Vec::new();
    let l1: Vec<char> = vec!['{', '"', 'p', 'l', 'a', 'y', 'e', 'r', '"', ':'];
    push_seq(&mut out, &l1);
    let ghost a1 = c1 + k1;
    proof {
        assert(l1@ =~= c1 + k1);
        assert(out@ =~= a1);
    }
    match &d.player {
        Some(p) => push_player(&mut out, p),
        None => {
            let lit: Vec<char> = vec!['n', 'u', 'l', 'l'];
            push_seq(&mut out, &lit);
            proof {
                assert(lit@ =~= seq!['n', 'u', 'l', 'l']);
            }
        },
    }
    let ghost a2 = a1 + c2;
    proof {
        assert(out@ =~= a2);
    }
    let l2: Vec<char> = vec![',', '"', 't', 'i', 'm', 'e', '"', ':'];
    push_seq(&mut out, &l2);
    let ghost a3 = a2 + seq![','] + k2;
    proof {
        assert(l2@ =~= seq![','] + k2);
        assert(out@ =~= a3);
    }
    match &d.time {
        Some(t) => push_time(&mut out, t),
        None => {
            let lit: Vec<char> = vec!['n', 'u', 'l', 'l'];
            push_seq(&mut out, &lit);
            proof {
                assert(lit@ =~= seq!['n', 'u', 'l', 'l']);
            }
        },
    }
    let ghost a4 = a3 + c4;
    proof {
        assert(out@ =~= a4);
    }
    let l3: Vec<char> = vec![',', '"', 'w', 'e', 'a', 't', 'h', 'e', 'r', '"', ':'];
    push_seq(&mut out, &l3);
    let ghost a5 = a4 + seq![','] + k3;
    proof {
        assert(l3@ =~= seq![','] + k3);
        assert(out@ =~= a5);
    }
    match &d.weather {
        Some(w) => push_weather(&mut out, w),
        None => {
            let lit: Vec<char> = vec!['n', 'u', 'l', 'l'];
            push_seq(&mut out, &lit);
            proof {
                assert(lit@ =~= seq!['n', 'u', 'l', 'l']);
            }
        },
    }
    let ghost a6 = a5 + c6;
    proof {
        assert(out@ =~= a6);
    }
    let l4: Vec<char> = vec!['}'];
    push_seq(&mut out, &l4);
    proof {
        assert(l4@ =~= seq!['}']);
        assert(out@ =~= a6 + seq!['}']);
        lemma_save_chunks_assemble(d@);
        assert(out@ == ser_save(d@));
    }
    crate::text::chars_to_string(&out)
}

/// Owner of the last document snapshot, and the renderer/parser pair for
/// the save file; reading and writing the file itself happens outside the
/// library.
pub struct SaveGameManager {
    pub save_data: SaveData,
}

impl SaveGameManager {
    /// A manager holding an empty document.
    pub fn new() -> (r: Self)
        ensures
            r.save_data@.player is None,
            r.save_data@.time is None,
            r.save_data@.weather is None,
    {
        Self { save_data: SaveData::new() }
    }

    /// Snapshots the given parts of the session into the held document and
    /// renders it; a part that was never initialised is recorded as absent,
    /// not treated as an error.
    pub fn save(
        &mut self,
        player: &Option<Player>,
        time: &Option<GameTime>,
        weather: &Option<GameWeather>,
    ) -> (r: String)
        ensures
            final(self).save_data@.player == match *player {
                Some(p) => Some(p@),
                None => None::<PlayerView>,
            },
            final(self).save_data@.time == *time,
            final(self).save_data@.weather == *weather,
            r@ == ser_save(final(self).save_data@),
    {
        let player_copy: Option<Player> = match player {
            Some(p) => Some(
                Player {
                    id: p.id,
                    name: p.name.clone(),
                    current_town_id: p.current_town_id,
                    current_building_id: p.current_building_id,
                    current_room_id: p.current_room_id,
                },
            ),
            None => None,
        };
        self.save_data = SaveData { player: player_copy, time: *time, weather: *weather };
        serialize_save(&self.save_data)
    }

    /// Reads a document out of the save file's text; nothing for malformed
    /// text.
    pub fn load(&self, text: &str) -> (r: Option<SaveData>)
        ensures
            match r {
                Some(d) => spec_parse_save(text@) == Some(d@),
                None => spec_parse_save(text@) is None,
            },
    {
        parse_save(text)
    }
}

// ---------------------------------------------------------------------------
// Reading back what was rendered: the round trip.
// ---------------------------------------------------------------------------

/// Splitting an occurrence of a concatenation: each half occurs at its own
/// position.
proof fn lemma_matches_split(s: Seq<char>, i: int, a: Seq<char>, b: Seq<char>)
    requires
        matches_at(s, i, a + b),
    ensures
        matches_at(s, i, a),
        matches_at(s, i + a.len(), b),
{
    assert(s.subrange(i, i + a.len()) =~= (a + b).subrange(0, a.len() as int));
    assert((a + b).subrange(0, a.len() as int) =~= a);
    assert(s.subrange(i + a.len(), i + a.len() + b.len()) =~= (a + b).subrange(
        a.len() as int,
        (a + b).len() as int,
    ));
    assert((a + b).subrange(a.len() as int, (a + b).len() as int) =~= b);
}

/// A character inside an occurrence is the literal's character.
proof fn lemma_matches_index(s: Seq<char>, i: int, lit: Seq<char>, k: int)
    requires
        matches_at(s, i, lit),
        0 <= k < lit.len(),
    ensures
        s[i + k] == lit[k],
{
    assert(s.subrange(i, i + lit.len())[k] == s[i + k]);
}

/// The value of a digit's character is the digit.
proof fn lemma_digit_char_val(d: int)
    requires
        0 <= d < 10,
    ensures
        is_dec_digit(crate::text::spec_digit(d)),
        digit_val(crate::text::spec_digit(d)) == d,
{
}

/// Every character of a decimal rendering is a digit.
proof fn lemma_dec_all_digits(n: int)
    requires
        n >= 0,
    ensures
        spec_u32_dec(n).len() >= 1,
        forall|k: int| 0 <= k < spec_u32_dec(n).len() ==> is_dec_digit(#[trigger] spec_u32_dec(n)[k]),
    decreases n,
{
    if n < 10 {
        lemma_digit_char_val(n);
    } else {
        lemma_dec_all_digits(n / 10);
        lemma_digit_char_val(n % 10);
        assert forall|k: int| 0 <= k < spec_u32_dec(n).len() implies is_dec_digit(
            #[trigger] spec_u32_dec(n)[k],
        ) by {
            if k < spec_u32_dec(n / 10).len() {
                assert(spec_u32_dec(n)[k] == spec_u32_dec(n / 10)[k]);
            } else {
                assert(spec_u32_dec(n)[k] == crate::text::spec_digit(n % 10));
            }
        }
    }
}

/// A run of digits, bounded by a non-digit or the end, is exactly what
/// `digit_end` finds.
proof fn lemma_digit_end_run(s: Seq<char>, i: int, j: int)
    requires
        0 <= i <= j <= s.len(),
        forall|k: int| i <= k < j ==> is_dec_digit(#[trigger] s[k]),
        j == s.len() || !is_dec_digit(s[j]),
    ensures
        digit_end(s, i) == j,
    decreases j - i,
{
    if i < j {
        lemma_digit_end_run(s, i + 1, j);
    }
}

/// The digits of a rendered number read back as its value.
proof fn lemma_digits_val_of_dec(s: Seq<char>, i: int, n: int)
    requires
        n >= 0,
        matches_at(s, i, spec_u32_dec(n)),
    ensures
        digits_val(s, i, i + spec_u32_dec(n).len()) == n,
    decreases n,
{
    let dec = spec_u32_dec(n);
    if n < 10 {
        lemma_digit_char_val(n);
        lemma_matches_index(s, i, dec, 0);
        assert(digits_val(s, i, i) == 0);
        assert(digits_val(s, i, i + 1) == digit_val(s[i]));
    } else {
        let head = spec_u32_dec(n / 10);
        assert(dec =~= head + seq![crate::text::spec_digit(n % 10)]);
        lemma_matches_split(s, i, head, seq![crate::text::spec_digit(n % 10)]);
        lemma_digits_val_of_dec(s, i, n / 10);
        lemma_matches_index(s, i + head.len(), seq![crate::text::spec_digit(n % 10)], 0);
        lemma_digit_char_val(n % 10);
        assert(digits_val(s, i, i + dec.len()) == digits_val(s, i, i + dec.len() - 1) * 10
            + digit_val(s[i + dec.len() - 1]));
    }
}

/// A rendered number, bounded by a non-digit, parses back as its value.
proof fn lemma_parse_u32_of_dec(s: Seq<char>, i: int, n: u32)
    requires
        matches_at(s, i, spec_u32_dec(n as int)),
        i + spec_u32_dec(n as int).len() < s.len(),
        !is_dec_digit(s[i + spec_u32_dec(n as int).len()]),
    ensures
        parse_u32_at(s, i) == Some((n, i + spec_u32_dec(n as int).len())),
{
    let dec = spec_u32_dec(n as int);
    lemma_dec_all_digits(n as int);
    lemma_matches_index(s, i, dec, 0);
    assert(is_dec_digit(s[i]));
    assert(!is_json_ws(s[i]));
    assert(skip_jws(s, i) == i);
    assert forall|k: int| i <= k < i + dec.len() implies is_dec_digit(#[trigger] s[k]) by {
        lemma_matches_index(s, i, dec, k - i);
    }
    lemma_digit_end_run(s, i, i + dec.len());
    lemma_digits_val_of_dec(s, i, n as int);
}

/// The word `null`, where it occurs, is found.
proof fn lemma_null_at(s: Seq<char>, i: int)
    requires
        matches_at(s, i, seq!['n', 'u', 'l', 'l']),
    ensures
        null_at(s, i) == Some(i + 4),
{
    lemma_matches_index(s, i, seq!['n', 'u', 'l', 'l'], 0);
    assert(!is_json_ws(s[i]));
    assert(skip_jws(s, i) == i);
}

/// Where something other than `n` stands, `null` is not found.
proof fn lemma_not_null(s: Seq<char>, i: int)
    requires
        0 <= i < s.len(),
        s[i] != 'n',
        !is_json_ws(s[i]),
    ensures
        null_at(s, i) is None,
{
    assert(skip_jws(s, i) == i);
    if matches_at(s, i, seq!['n', 'u', 'l', 'l']) {
        lemma_matches_index(s, i, seq!['n', 'u', 'l', 'l'], 0);
    }
}

/// A rendered key with its colon is found, and yields the position after
/// the colon.
proof fn lemma_key_colon(s: Seq<char>, i: int, name: Seq<char>)
    requires
        matches_at(s, i, seq!['"'] + name + seq!['"', ':']),
    ensures
        key_is(s, i, name),
        key_colon(s, i, name) == Some(i + name.len() + 3),
{
    let quoted = seq!['"'] + name + seq!['"'];
    assert((seq!['"'] + name + seq!['"', ':']) =~= quoted + seq![':']);
    lemma_matches_split(s, i, quoted, seq![':']);
    lemma_matches_index(s, i, quoted, 0);
    assert(s[i] == '"');
    assert(!is_json_ws(s[i]));
    assert(skip_jws(s, i) == i);
    lemma_matches_index(s, i + quoted.len(), seq![':'], 0);
    assert(s[i + name.len() + 2] == ':');
    assert(!is_json_ws(s[i + name.len() + 2]));
    assert(skip_jws(s, i + name.len() + 2) == i + name.len() + 2);
}

/// A single token character, where it stands unquoted and unspaced, is
/// found.
proof fn lemma_tok(s: Seq<char>, i: int, c: char)
    requires
        0 <= i < s.len(),
        s[i] == c,
        !is_json_ws(c),
    ensures
        tok(s, i, c) == Some(i + 1),
{
    assert(skip_jws(s, i) == i);
}

/// The value of a hexadecimal digit's character is the digit.
proof fn lemma_hex_digit_val(d: int)
    requires
        0 <= d < 16,
    ensures
        hex_val(hex_digit(d)) == d,
{
    if d < 10 {
        lemma_digit_char_val(d);
    }
}

/// An escaped string followed by its closing quote parses back as the
/// original characters, ending after the quote.
proof fn lemma_parse_str_body_esc(s: Seq<char>, i: int, name: Seq<char>)
    requires
        matches_at(s, i, esc_string(name) + seq!['"']),
    ensures
        parse_str_body(s, i) == Some((name, i + esc_string(name).len() + 1)),
    decreases name.len(),
{
    if name.len() == 0 {
        assert(esc_string(name) + seq!['"'] =~= seq!['"']);
        lemma_matches_index(s, i, seq!['"'], 0);
    } else {
        let c = name[0];
        let rest = name.drop_first();
        let ec = esc_char(c);
        assert(esc_string(name) == ec + esc_string(rest));
        assert(esc_string(name) + seq!['"'] =~= ec + (esc_string(rest) + seq!['"']));
        lemma_matches_split(s, i, ec, esc_string(rest) + seq!['"']);
        lemma_parse_str_body_esc(s, i + ec.len(), rest);
        assert(seq![c] + rest =~= name);
        if c == '"' {
            lemma_matches_index(s, i, ec, 0);
            lemma_matches_index(s, i, ec, 1);
            assert(s[i] == '\\' && s[i + 1] == '"');
        } else if c == '\\' {
            lemma_matches_index(s, i, ec, 0);
            lemma_matches_index(s, i, ec, 1);
            assert(s[i] == '\\' && s[i + 1] == '\\');
        } else if (c as u32) < 32 {
            lemma_matches_index(s, i, ec, 0);
            lemma_matches_index(s, i, ec, 1);
            lemma_matches_index(s, i, ec, 2);
            lemma_matches_index(s, i, ec, 3);
            lemma_matches_index(s, i, ec, 4);
            lemma_matches_index(s, i, ec, 5);
            lemma_digit_char_val(0);
            lemma_hex_digit_val(c as u32 as int / 16);
            lemma_hex_digit_val(c as u32 as int % 16);
            assert(hex_val(s[i + 2]) == 0);
            assert(hex_val(s[i + 3]) == 0);
            let x = hex4_val(s, i + 2);
            assert(x == 16 * (c as u32 as int / 16) + (c as u32 as int % 16));
            assert(x == c as u32) by (nonlinear_arith)
                requires
                    x == 16 * (c as u32 as int / 16) + (c as u32 as int % 16),
            ;
            assert(valid_scalar(x));
            assert((x as u32) == c as u32);
            vstd::utf8::char_u32_cast(c, x as u32);
            assert(((x as u32) as char) == c);
        } else {
            lemma_matches_index(s, i, ec, 0);
            assert(s[i] == c);
        }
    }
}

/// A rendered phase name in its quotes parses back as the phase.
proof fn lemma_parse_phase(s: Seq<char>, i: int, ph: Phase)
    requires
        matches_at(s, i, seq!['"'] + phase_name(ph) + seq!['"']),
    ensures
        parse_phase_at(s, i) == Some((ph, i + phase_name(ph).len() + 2)),
{
    let quoted = seq!['"'] + phase_name(ph) + seq!['"'];
    lemma_matches_index(s, i, quoted, 0);
    assert(skip_jws(s, i) == i);
    lemma_matches_index(s, i, quoted, 1);
    lemma_matches_index(s, i, quoted, 2);
    lemma_matches_index(s, i, quoted, 3);
    match ph {
        Phase::Dawn => {},
        Phase::Day => {
            if matches_at(s, i, seq!['"'] + phase_name(Phase::Dawn) + seq!['"']) {
                lemma_matches_index(s, i, seq!['"'] + phase_name(Phase::Dawn) + seq!['"'], 3);
            }
        },
        Phase::Dusk => {
            if matches_at(s, i, seq!['"'] + phase_name(Phase::Dawn) + seq!['"']) {
                lemma_matches_index(s, i, seq!['"'] + phase_name(Phase::Dawn) + seq!['"'], 2);
            }
            if matches_at(s, i, seq!['"'] + phase_name(Phase::Day) + seq!['"']) {
                lemma_matches_index(s, i, seq!['"'] + phase_name(Phase::Day) + seq!['"'], 2);
            }
        },
        Phase::Night => {
            if matches_at(s, i, seq!['"'] + phase_name(Phase::Dawn) + seq!['"']) {
                lemma_matches_index(s, i, seq!['"'] + phase_name(Phase::Dawn) + seq!['"'], 1);
            }
            if matches_at(s, i, seq!['"'] + phase_name(Phase::Day) + seq!['"']) {
                lemma_matches_index(s, i, seq!['"'] + phase_name(Phase::Day) + seq!['"'], 1);
            }
            if matches_at(s, i, seq!['"'] + phase_name(Phase::Dusk) + seq!['"']) {
                lemma_matches_index(s, i, seq!['"'] + phase_name(Phase::Dusk) + seq!['"'], 1);
            }
        },
    }
}

/// A rendered weather name in its quotes parses back as the weather kind.
proof fn lemma_parse_weather(s: Seq<char>, i: int, w: WeatherType)
    requires
        matches_at(s, i, seq!['"'] + weather_name(w) + seq!['"']),
    ensures
        parse_weather_at(s, i) == Some((w, i + weather_name(w).len() + 2)),
{
    let quoted = seq!['"'] + weather_name(w) + seq!['"'];
    lemma_matches_index(s, i, quoted, 0);
    assert(skip_jws(s, i) == i);
    lemma_matches_index(s, i, quoted, 1);
    lemma_matches_index(s, i, quoted, 2);
    lemma_matches_index(s, i, quoted, 3);
    let sunny = seq!['"'] + weather_name(WeatherType::Sunny) + seq!['"'];
    let raining = seq!['"'] + weather_name(WeatherType::Raining) + seq!['"'];
    let windy = seq!['"'] + weather_name(WeatherType::Windy) + seq!['"'];
    let stormy = seq!['"'] + weather_name(WeatherType::Stormy) + seq!['"'];
    match w {
        WeatherType::Sunny => {},
        WeatherType::Raining => {
            if matches_at(s, i, sunny) {
                lemma_matches_index(s, i, sunny, 1);
            }
        },
        WeatherType::Windy => {
            if matches_at(s, i, sunny) {
                lemma_matches_index(s, i, sunny, 1);
            }
            if matches_at(s, i, raining) {
                lemma_matches_index(s, i, raining, 1);
            }
        },
        WeatherType::Stormy => {
            if matches_at(s, i, sunny) {
                lemma_matches_index(s, i, sunny, 2);
            }
            if matches_at(s, i, raining) {
                lemma_matches_index(s, i, raining, 1);
            }
            if matches_at(s, i, windy) {
                lemma_matches_index(s, i, windy, 1);
            }
        },
        WeatherType::Snowing => {
            if matches_at(s, i, sunny) {
                lemma_matches_index(s, i, sunny, 2);
            }
            if matches_at(s, i, raining) {
                lemma_matches_index(s, i, raining, 1);
            }
            if matches_at(s, i, windy) {
                lemma_matches_index(s, i, windy, 1);
            }
            if matches_at(s, i, stormy) {
                lemma_matches_index(s, i, stormy, 2);
            }
        },
    }
}

/// A rendered number-or-null, bounded by a non-digit, parses back as the
/// value.
proof fn lemma_parse_opt_u32(s: Seq<char>, i: int, x: Option<u32>)
    requires
        matches_at(s, i, ser_opt_u32(x)),
        i + ser_opt_u32(x).len() < s.len(),
        !is_dec_digit(s[i + ser_opt_u32(x).len()]),
    ensures
        parse_opt_u32_at(s, i) == Some((x, i + ser_opt_u32(x).len())),
{
    match x {
        None => {
            lemma_null_at(s, i);
        },
        Some(n) => {
            lemma_dec_all_digits(n as int);
            lemma_matches_index(s, i, spec_u32_dec(n as int), 0);
            assert(!is_json_ws(s[i]) && s[i] != 'n');
            lemma_not_null(s, i);
            lemma_parse_u32_of_dec(s, i, n);
        },
    }
}

/// The tail of a rendered player object, from the comma before the town
/// key to the closing brace, parses back field by field.
#[verifier::rlimit(100)]
proof fn lemma_player_obj_tail(s: Seq<char>, i7: int, p: PlayerView)
    requires
        ({
            let r16 = ser_opt_u32(p.current_room_id) + seq!['}'];
            let r15 = (seq!['"'] + key_room() + seq!['"', ':']) + r16;
            let r14 = seq![','] + r15;
            let r13 = ser_opt_u32(p.current_building_id) + r14;
            let r12 = (seq!['"'] + key_building() + seq!['"', ':']) + r13;
            let r11 = seq![','] + r12;
            let r10 = spec_u32_dec(p.current_town_id as int) + r11;
            let r9 = (seq!['"'] + key_town() + seq!['"', ':']) + r10;
            matches_at(s, i7, seq![','] + r9)
        }),
    ensures
        ({
            let town_dec = spec_u32_dec(p.current_town_id as int);
            let b_opt = ser_opt_u32(p.current_building_id);
            let r_opt = ser_opt_u32(p.current_room_id);
            let i8 = i7 + 1;
            let i9 = i8 + 18;
            let i10 = i9 + town_dec.len();
            let i11 = i10 + 1;
            let i12 = i11 + 22;
            let i13 = i12 + b_opt.len();
            let i14 = i13 + 1;
            let i15 = i14 + 18;
            let i16 = i15 + r_opt.len();
            &&& tok(s, i7, ',') == Some(i8)
            &&& key_colon(s, i8, key_town()) == Some(i9)
            &&& parse_u32_at(s, i9) == Some((p.current_town_id, i10))
            &&& tok(s, i10, ',') == Some(i11)
            &&& key_colon(s, i11, key_building()) == Some(i12)
            &&& parse_opt_u32_at(s, i12) == Some((p.current_building_id, i13))
            &&& tok(s, i13, ',') == Some(i14)
            &&& key_colon(s, i14, key_room()) == Some(i15)
            &&& parse_opt_u32_at(s, i15) == Some((p.current_room_id, i16))
            &&& tok(s, i16, '}') == Some(i16 + 1)
        }),
{
    let town_dec = spec_u32_dec(p.current_town_id as int);
    let b_opt = ser_opt_u32(p.current_building_id);
    let r_opt = ser_opt_u32(p.current_room_id);
    let t8 = seq![','];
    let t9 = seq!['"'] + key_town() + seq!['"', ':'];
    let t11 = seq![','];
    let t12 = seq!['"'] + key_building() + seq!['"', ':'];
    let t14 = seq![','];
    let t15 = seq!['"'] + key_room() + seq!['"', ':'];
    let t17 = seq!['}'];
    let r16 = r_opt + t17;
    let r15 = t15 + r16;
    let r14 = t14 + r15;
    let r13 = b_opt + r14;
    let r12 = t12 + r13;
    let r11 = t11 + r12;
    let r10 = town_dec + r11;
    let r9 = t9 + r10;

    lemma_matches_split(s, i7, t8, r9);
    lemma_matches_index(s, i7, t8, 0);
    lemma_tok(s, i7, ',');
    let i8 = i7 + 1;
    lemma_matches_split(s, i8, t9, r10);
    lemma_key_colon(s, i8, key_town());
    let i9 = i8 + 18;
    lemma_matches_split(s, i9, town_dec, r11);
    let i10 = i9 + town_dec.len();
    lemma_matches_split(s, i10, t11, r12);
    lemma_matches_index(s, i10, t11, 0);
    lemma_parse_u32_of_dec(s, i9, p.current_town_id);
    lemma_tok(s, i10, ',');
    let i11 = i10 + 1;
    lemma_matches_split(s, i11, t12, r13);
    lemma_key_colon(s, i11, key_building());
    let i12 = i11 + 22;
    lemma_matches_split(s, i12, b_opt, r14);
    let i13 = i12 + b_opt.len();
    lemma_matches_split(s, i13, t14, r15);
    lemma_matches_index(s, i13, t14, 0);
    lemma_parse_opt_u32(s, i12, p.current_building_id);
    lemma_tok(s, i13, ',');
    let i14 = i13 + 1;
    lemma_matches_split(s, i14, t15, r16);
    lemma_key_colon(s, i14, key_room());
    let i15 = i14 + 18;
    lemma_matches_split(s, i15, r_opt, t17);
    let i16 = i15 + r_opt.len();
    lemma_matches_index(s, i16, t17, 0);
    lemma_parse_opt_u32(s, i15, p.current_room_id);
    lemma_tok(s, i16, '}');
}

/// A rendered player object parses back as the player.
#[verifier::rlimit(100)]
proof fn lemma_parse_player_obj(s: Seq<char>, i: int, p: PlayerView)
    requires
        matches_at(s, i, ser_player(p)),
    ensures
        parse_player_at(s, i) == Some((p, i + ser_player(p).len())),
{
    let id_dec = spec_u32_dec(p.id as int);
    let town_dec = spec_u32_dec(p.current_town_id as int);
    let b_opt = ser_opt_u32(p.current_building_id);
    let r_opt = ser_opt_u32(p.current_room_id);
    let name_esc = esc_string(p.name);
    let t1 = seq!['{'];
    let t2 = seq!['"'] + key_id() + seq!['"', ':'];
    let t4 = seq![','];
    let t5 = seq!['"'] + key_name() + seq!['"', ':'];
    let t6 = seq!['"'];
    let t7 = name_esc + seq!['"'];
    let t8 = seq![','];
    let t9 = seq!['"'] + key_town() + seq!['"', ':'];
    let t11 = seq![','];
    let t12 = seq!['"'] + key_building() + seq!['"', ':'];
    let t14 = seq![','];
    let t15 = seq!['"'] + key_room() + seq!['"', ':'];
    let t17 = seq!['}'];

    let r16 = r_opt + t17;
    let r15 = t15 + r16;
    let r14 = t14 + r15;
    let r13 = b_opt + r14;
    let r12 = t12 + r13;
    let r11 = t11 + r12;
    let r10 = town_dec + r11;
    let r9 = t9 + r10;
    let r8 = t8 + r9;
    let r7 = t7 + r8;
    let r6 = t6 + r7;
    let r5 = t5 + r6;
    let r4 = t4 + r5;
    let r3 = id_dec + r4;
    let r2 = t2 + r3;
    assert(ser_player(p) == t1 + r2);

    // the opening brace
    lemma_matches_split(s, i, t1, r2);
    lemma_matches_index(s, i, t1, 0);
    lemma_tok(s, i, '{');
    let i1 = i + 1;
    // the id key and value, bounded by the comma after it
    lemma_matches_split(s, i1, t2, r3);
    lemma_key_colon(s, i1, key_id());
    let i2 = i1 + 5;
    lemma_matches_split(s, i2, id_dec, r4);
    let i3 = i2 + id_dec.len();
    lemma_matches_split(s, i3, t4, r5);
    lemma_matches_index(s, i3, t4, 0);
    lemma_parse_u32_of_dec(s, i2, p.id);
    lemma_tok(s, i3, ',');
    let i4 = i3 + 1;
    // the name key and quoted value
    lemma_matches_split(s, i4, t5, r6);
    lemma_key_colon(s, i4, key_name());
    let i5 = i4 + 7;
    lemma_matches_split(s, i5, t6, r7);
    lemma_matches_index(s, i5, t6, 0);
    assert(skip_jws(s, i5) == i5);
    let i6 = i5 + 1;
    lemma_matches_split(s, i6, t7, r8);
    lemma_parse_str_body_esc(s, i6, p.name);
    let i7 = i6 + name_esc.len() + 1;
    // the remaining fields
    lemma_player_obj_tail(s, i7, p);
}

/// A rendered time object parses back as the time, given the time is well
/// formed.
#[verifier::rlimit(100)]
proof fn lemma_parse_time_obj(s: Seq<char>, i: int, t: GameTime)
    requires
        matches_at(s, i, ser_time(t)),
        t.wf(),
    ensures
        parse_time_at(s, i) == Some((t, i + ser_time(t).len())),
{
    let tick_dec = spec_u32_dec(t.tick as int);
    let day_dec = spec_u32_dec(t.day as int);
    let pname = seq!['"'] + phase_name(t.phase) + seq!['"'];
    let t1 = seq!['{'];
    let t2 = seq!['"'] + key_tick() + seq!['"', ':'];
    let t4 = seq![','];
    let t5 = seq!['"'] + key_day() + seq!['"', ':'];
    let t7 = seq![','];
    let t8 = seq!['"'] + key_phase() + seq!['"', ':'];
    let t10 = seq!['}'];

    let r9 = pname + t10;
    let r8 = t8 + r9;
    let r7 = t7 + r8;
    let r6 = day_dec + r7;
    let r5 = t5 + r6;
    let r4 = t4 + r5;
    let r3 = tick_dec + r4;
    let r2 = t2 + r3;
    assert(ser_time(t) =~= t1 + r2);

    lemma_matches_split(s, i, t1, r2);
    lemma_matches_index(s, i, t1, 0);
    lemma_tok(s, i, '{');
    let i1 = i + 1;
    lemma_matches_split(s, i1, t2, r3);
    lemma_key_colon(s, i1, key_tick());
    let i2 = i1 + 7;
    lemma_matches_split(s, i2, tick_dec, r4);
    let i3 = i2 + tick_dec.len();
    lemma_matches_split(s, i3, t4, r5);
    lemma_matches_index(s, i3, t4, 0);
    lemma_parse_u32_of_dec(s, i2, t.tick);
    lemma_tok(s, i3, ',');
    let i4 = i3 + 1;
    lemma_matches_split(s, i4, t5, r6);
    lemma_key_colon(s, i4, key_day());
    let i5 = i4 + 6;
    lemma_matches_split(s, i5, day_dec, r7);
    let i6 = i5 + day_dec.len();
    lemma_matches_split(s, i6, t7, r8);
    lemma_matches_index(s, i6, t7, 0);
    lemma_parse_u32_of_dec(s, i5, t.day);
    lemma_tok(s, i6, ',');
    let i7 = i6 + 1;
    lemma_matches_split(s, i7, t8, r9);
    lemma_key_colon(s, i7, key_phase());
    let i8 = i7 + 8;
    lemma_matches_split(s, i8, pname, t10);
    lemma_parse_phase(s, i8, t.phase);
    let i9 = i8 + pname.len();
    lemma_matches_index(s, i9, t10, 0);
    lemma_tok(s, i9, '}');
}

/// A rendered weather object parses back as the weather.
proof fn lemma_parse_weather_obj(s: Seq<char>, i: int, w: GameWeather)
    requires
        matches_at(s, i, ser_weather(w)),
    ensures
        parse_weather_obj_at(s, i) == Some((w, i + ser_weather(w).len())),
{
    let wname = seq!['"'] + weather_name(w.weather_type) + seq!['"'];
    let t1 = seq!['{'];
    let t2 = seq!['"'] + key_weather_type() + seq!['"', ':'];
    let t4 = seq!['}'];

    let r3 = wname + t4;
    let r2 = t2 + r3;
    assert(ser_weather(w) =~= t1 + r2);
    lemma_matches_split(s, i, t1, r2);
    lemma_matches_index(s, i, t1, 0);
    lemma_tok(s, i, '{');
    let i1 = i + 1;
    lemma_matches_split(s, i1, t2, r3);
    lemma_key_colon(s, i1, key_weather_type());
    let i2 = i1 + 15;
    lemma_matches_split(s, i2, wname, t4);
    lemma_parse_weather(s, i2, w.weather_type);
    let i3 = i2 + wname.len();
    lemma_matches_index(s, i3, t4, 0);
    lemma_tok(s, i3, '}');
}

/// A rendered player member value parses back as the optional player.
proof fn lemma_parse_player_value_ser(s: Seq<char>, i: int, pv: Option<PlayerView>)
    requires
        matches_at(s, i, ser_opt(pv, |p: PlayerView| ser_player(p))),
    ensures
        parse_player_value(s, i) == Some((pv, i + ser_opt(pv, |p: PlayerView| ser_player(p)).len())),
{
    match pv {
        None => {
            assert(ser_opt(pv, |p: PlayerView| ser_player(p)) == seq!['n', 'u', 'l', 'l']);
            lemma_null_at(s, i);
        },
        Some(p) => {
            assert(ser_opt(pv, |p: PlayerView| ser_player(p)) == ser_player(p));
            lemma_matches_index(s, i, ser_player(p), 0);
            assert(s[i] == '{');
            lemma_not_null(s, i);
            lemma_parse_player_obj(s, i, p);
        },
    }
}

/// A rendered time member value parses back as the optional time.
proof fn lemma_parse_time_value_ser(s: Seq<char>, i: int, tv: Option<GameTime>)
    requires
        matches_at(s, i, ser_opt(tv, |t: GameTime| ser_time(t))),
        match tv {
            Some(t) => t.wf(),
            None => true,
        },
    ensures
        parse_time_value(s, i) == Some((tv, i + ser_opt(tv, |t: GameTime| ser_time(t)).len())),
{
    match tv {
        None => {
            assert(ser_opt(tv, |t: GameTime| ser_time(t)) == seq!['n', 'u', 'l', 'l']);
            lemma_null_at(s, i);
        },
        Some(t) => {
            assert(ser_opt(tv, |t: GameTime| ser_time(t)) == ser_time(t));
            lemma_matches_index(s, i, ser_time(t), 0);
            assert(s[i] == '{');
            lemma_not_null(s, i);
            lemma_parse_time_obj(s, i, t);
        },
    }
}

/// A rendered weather member value parses back as the optional weather.
proof fn lemma_parse_weather_value_ser(s: Seq<char>, i: int, wv: Option<GameWeather>)
    requires
        matches_at(s, i, ser_opt(wv, |w: GameWeather| ser_weather(w))),
    ensures
        parse_weather_value(s, i) == Some(
            (wv, i + ser_opt(wv, |w: GameWeather| ser_weather(w)).len()),
        ),
{
    match wv {
        None => {
            assert(ser_opt(wv, |w: GameWeather| ser_weather(w)) == seq!['n', 'u', 'l', 'l']);
            lemma_null_at(s, i);
        },
        Some(w) => {
            assert(ser_opt(wv, |w: GameWeather| ser_weather(w)) == ser_weather(w));
            lemma_matches_index(s, i, ser_weather(w), 0);
            assert(s[i] == '{');
            lemma_not_null(s, i);
            lemma_parse_weather_obj(s, i, w);
        },
    }
}

/// The token shape of a rendered document: where each brace, key, member
/// value and separator stands in the text.
#[verifier::rlimit(100)]
proof fn lemma_save_shape(d: SaveDataView)
    ensures
        ({
            let s = ser_save(d);
            let pv = ser_opt(d.player, |p: PlayerView| ser_player(p));
            let tv = ser_opt(d.time, |t: GameTime| ser_time(t));
            let wv = ser_opt(d.weather, |w: GameWeather| ser_weather(w));
            let i2 = 10 + pv.len() as int;
            let i3 = i2 + 1;
            let i4 = i3 + 7;
            let i5 = i4 + tv.len() as int;
            let i6 = i5 + 1;
            let i7 = i6 + 10;
            let i8 = i7 + wv.len() as int;
            &&& tok(s, 0, '{') == Some(1int)
            &&& skip_jws(s, 1) == 1
            &&& !at_char(s, 1, '}')
            &&& key_is(s, 1, key_player())
            &&& key_colon(s, 1, key_player()) == Some(10int)
            &&& matches_at(s, 10, pv)
            &&& sep_at(s, i2) == Some((true, i3))
            &&& key_is(s, i3, key_time())
            &&& key_colon(s, i3, key_time()) == Some(i4)
            &&& matches_at(s, i4, tv)
            &&& sep_at(s, i5) == Some((true, i6))
            &&& key_is(s, i6, key_weather())
            &&& key_colon(s, i6, key_weather()) == Some(i7)
            &&& matches_at(s, i7, wv)
            &&& sep_at(s, i8) == Some((false, i8 + 1))
            &&& i8 + 1 == s.len()
            &&& skip_jws(s, s.len() as int) == s.len()
        }),
{
    let s = ser_save(d);
    let pv = ser_opt(d.player, |p: PlayerView| ser_player(p));
    let tv = ser_opt(d.time, |t: GameTime| ser_time(t));
    let wv = ser_opt(d.weather, |w: GameWeather| ser_weather(w));
    let t1 = seq!['{'];
    let k1 = seq!['"'] + key_player() + seq!['"', ':'];
    let k2 = seq!['"'] + key_time() + seq!['"', ':'];
    let k3 = seq!['"'] + key_weather() + seq!['"', ':'];
    let t2 = seq!['}'];
    let r7 = wv + t2;
    let r6 = k3 + r7;
    let r5 = seq![','] + r6;
    let r4 = tv + r5;
    let r3 = k2 + r4;
    let r2 = seq![','] + r3;
    let r1 = pv + r2;
    let r0 = k1 + r1;
    assert(s == t1 + r0);
    assert(matches_at(s, 0, t1 + r0)) by {
        assert(s.subrange(0, s.len() as int) =~= s);
    }
    lemma_matches_split(s, 0, t1, r0);
    lemma_matches_index(s, 0, t1, 0);
    lemma_tok(s, 0, '{');
    lemma_matches_split(s, 1, k1, r1);
    lemma_key_colon(s, 1, key_player());
    lemma_matches_index(s, 1, k1, 0);
    assert(skip_jws(s, 1) == 1);
    assert(!at_char(s, 1, '}'));
    lemma_matches_split(s, 10, pv, r2);
    let i2: int = 10 + pv.len() as int;
    lemma_matches_split(s, i2, seq![','], r3);
    lemma_matches_index(s, i2, seq![','], 0);
    assert(skip_jws(s, i2) == i2);
    assert(sep_at(s, i2) == Some((true, i2 + 1)));
    let i3: int = i2 + 1;
    lemma_matches_split(s, i3, k2, r4);
    lemma_key_colon(s, i3, key_time());
    let i4: int = i3 + 7;
    lemma_matches_split(s, i4, tv, r5);
    let i5: int = i4 + tv.len() as int;
    lemma_matches_split(s, i5, seq![','], r6);
    lemma_matches_index(s, i5, seq![','], 0);
    assert(skip_jws(s, i5) == i5);
    assert(sep_at(s, i5) == Some((true, i5 + 1)));
    let i6: int = i5 + 1;
    lemma_matches_split(s, i6, k3, r7);
    lemma_key_colon(s, i6, key_weather());
    let i7: int = i6 + 10;
    lemma_matches_split(s, i7, wv, t2);
    let i8: int = i7 + wv.len() as int;
    lemma_matches_index(s, i8, t2, 0);
    assert(skip_jws(s, i8) == i8);
    assert(sep_at(s, i8) == Some((false, i8 + 1)));
    assert(i8 + 1 == s.len());
    assert(skip_jws(s, s.len() as int) == s.len());
}

/// Saving and loading round-trips: reading a rendered document back yields
/// the document itself, every present field equal, absent fields absent.
/// The one assumption is that a stored time snapshot is well formed, which
/// every time value the engine produces is.
#[verifier::rlimit(100)]
pub proof fn lemma_save_round_trip(d: SaveDataView)
    requires
        match d.time {
            Some(t) => t.wf(),
            None => true,
        },
    ensures
        spec_parse_save(ser_save(d)) == Some(d),
{
    let s = ser_save(d);
    let pv = ser_opt(d.player, |p: PlayerView| ser_player(p));
    let tv = ser_opt(d.time, |t: GameTime| ser_time(t));
    let wv = ser_opt(d.weather, |w: GameWeather| ser_weather(w));
    lemma_save_shape(d);
    let i3: int = 11 + pv.len() as int;
    let i4: int = i3 + 7;
    let i6: int = i4 + tv.len() as int + 1;
    let i7: int = i6 + 10;
    let i8: int = i7 + wv.len() as int;
    lemma_parse_player_value_ser(s, 10, d.player);
    lemma_parse_time_value_ser(s, i4, d.time);
    lemma_parse_weather_value_ser(s, i7, d.weather);

    let empty = SaveDataView { player: None, time: None, weather: None };
    let d1 = SaveDataView { player: d.player, ..empty };
    let d2 = SaveDataView { time: d.time, ..d1 };
    let d3 = SaveDataView { weather: d.weather, ..d2 };
    assert(d3 == d);
    assert(members_from(s, i6, d2, 2) == Some((d3, i8 + 1)));
    assert(members_from(s, i3, d1, 1) == Some((d3, i8 + 1)));
    assert(members_from(s, 1, empty, 0) == Some((d3, i8 + 1)));
}

/// A member list only ever writes a well-formed time into the document./// A member list only ever writes a well-formed time into the document./// A member list only ever writes a well-formed time into the document.
proof fn lemma_members_from_time_wf(s: Seq<char>, i: int, d: SaveDataView, stage: int)
    requires
        match d.time {
            Some(t) => t.wf(),
            None => true,
        },
    ensures
        match members_from(s, i, d, stage) {
            Some(t2) => match t2.0.time {
                Some(t) => t.wf(),
                None => true,
            },
            None => true,
        },
    decreases 3 - stage,
{
    if stage == 0 {
        if key_is(s, i, key_player()) {
            match key_colon(s, i, key_player()) {
                None => {},
                Some(i1) => match parse_player_value(s, i1) {
                    None => {},
                    Some((p, i2)) => {
                        let d2 = SaveDataView { player: p, ..d };
                        match sep_at(s, i2) {
                            None => {},
                            Some((true, i3)) => {
                                lemma_members_from_time_wf(s, i3, d2, 1);
                            },
                            Some((false, end)) => {},
                        }
                    },
                },
            }
        } else {
            lemma_members_from_time_wf(s, i, d, 1);
        }
    } else if stage == 1 {
        if key_is(s, i, key_time()) {
            match key_colon(s, i, key_time()) {
                None => {},
                Some(i1) => match parse_time_value(s, i1) {
                    None => {},
                    Some((t, i2)) => {
                        let d2 = SaveDataView { time: t, ..d };
                        assert(match d2.time {
                            Some(t) => t.wf(),
                            None => true,
                        });
                        match sep_at(s, i2) {
                            None => {},
                            Some((true, i3)) => {
                                lemma_members_from_time_wf(s, i3, d2, 2);
                            },
                            Some((false, end)) => {},
                        }
                    },
                },
            }
        } else {
            lemma_members_from_time_wf(s, i, d, 2);
        }
    }
}

/// A parsed document only ever holds a well-formed time.
pub proof fn lemma_parse_save_time_wf(s: Seq<char>)
    ensures
        match spec_parse_save(s) {
            Some(d) => match d.time {
                Some(t) => t.wf(),
                None => true,
            },
            None => true,
        },
{
    let empty = SaveDataView { player: None, time: None, weather: None };
    match tok(s, 0, '{') {
        None => {},
        Some(i1) => {
            lemma_members_from_time_wf(s, i1, empty, 0);
        },
    }
}

} // verus!
