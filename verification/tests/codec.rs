use wtftw_config::Config;
use wtftw_config::DecodeError;
use wtftw_config::Field;
use wtftw_config::JsonValue;

fn sample() -> Config {
    Config {
        focus_follows_mouse: false,
        focus_border_color: 0x00112233,
        border_color: u32::MAX,
        border_width: 0,
        spacing: 7,
        terminal: ("urxvt".to_string(), "-e \"tmux\"".to_string()),
        terminal_key: "t".to_string(),
        logfile: "/tmp/w\\m.log".to_string(),
        tags: vec!["α".to_string(), "line\nbreak".to_string(), String::new()],
        launcher: "dmenu_run".to_string(),
        launch_key: "d".to_string(),
    }
}

const FULL: &str = "{\"focus_follows_mouse\":false,\"focus_border_color\":1,\"border_color\":2,\
    \"border_width\":3,\"spacing\":4,\"terminal\":[\"st\",\"-f mono\"],\"terminal_key\":\"Return\",\
    \"logfile\":\"/var/log/wm\",\"tags\":[\"a\",\"b\"],\"launcher\":\"rofi\",\"launch_key\":\"r\"}";

fn full() -> Config {
    Config {
        focus_follows_mouse: false,
        focus_border_color: 1,
        border_color: 2,
        border_width: 3,
        spacing: 4,
        terminal: ("st".to_string(), "-f mono".to_string()),
        terminal_key: "Return".to_string(),
        logfile: "/var/log/wm".to_string(),
        tags: vec!["a".to_string(), "b".to_string()],
        launcher: "rofi".to_string(),
        launch_key: "r".to_string(),
    }
}

fn without(field: &str) -> String {
    let mut members: Vec<String> = Vec::new();
    for (name, value) in [
        ("focus_follows_mouse", "true"),
        ("focus_border_color", "1"),
        ("border_color", "2"),
        ("border_width", "3"),
        ("spacing", "4"),
        ("terminal", "[\"st\",\"\"]"),
        ("terminal_key", "\"k\""),
        ("logfile", "\"l\""),
        ("tags", "[]"),
        ("launcher", "\"m\""),
        ("launch_key", "\"n\""),
    ] {
        if name != field {
            members.push(format!("\"{}\":{}", name, value));
        }
    }
    format!("{{{}}}", members.join(","))
}

fn with(field: &str, value: &str) -> String {
    let rest = without(field);
    format!("{{\"{}\":{},{}", field, value, &rest[1..])
}

#[test]
fn encode_writes_the_fallback_as_one_compact_object() {
    let text = Config::fallback("/home/u").encode();
    assert_eq!(
        text,
        "{\"border_color\":16758448,\"border_width\":2,\"focus_border_color\":11993008,\
         \"focus_follows_mouse\":true,\"launch_key\":\"p\",\"launcher\":\"gmrun\",\
         \"logfile\":\"/home/u/.wtftw.log\",\"spacing\":10,\
         \"tags\":[\"1: term\",\"2: web\",\"3: code\",\"4 media\"],\
         \"terminal\":[\"xterm\",\"-fg White -bg Black\"],\"terminal_key\":\"Return\"}"
    );
}

#[test]
fn decode_reads_back_what_encode_wrote() {
    let fallback = Config::fallback("/home/u");
    assert_eq!(Config::decode(&fallback.encode()), Ok(fallback));
    let other = sample();
    assert_eq!(Config::decode(&other.encode()), Ok(other));
}

#[test]
fn from_json_reads_back_what_to_json_built() {
    let other = sample();
    assert_eq!(Config::from_json(&other.to_json()), Ok(other));
    let fallback = Config::fallback("");
    assert_eq!(Config::from_json(&fallback.to_json()), Ok(fallback));
}

#[test]
fn decode_reads_every_field() {
    assert_eq!(Config::decode(FULL), Ok(full()));
}

#[test]
fn decode_takes_members_in_any_order_and_layout() {
    let text = " {\n \"tags\" : [ \"a\" , \"b\" ],\n \"launch_key\":\"r\", \"launcher\":\"rofi\",\
        \"logfile\":\"/var/log/wm\", \"terminal_key\":\"Return\", \"terminal\":[\"st\",\"-f mono\"],\
        \"spacing\":4, \"border_width\":3, \"border_color\":2, \"focus_border_color\":1,\
        \"focus_follows_mouse\":false } ";
    assert_eq!(Config::decode(text), Ok(full()));
}

#[test]
fn decode_passes_over_members_it_does_not_know() {
    let text = format!("{{\"theme\":{{\"dark\":[1.5,null]}},{}", &FULL[1..]);
    assert_eq!(Config::decode(&text), Ok(full()));
}

#[test]
fn decode_takes_the_later_of_two_members_with_one_name() {
    let text = format!("{{\"spacing\":\"wide\",{},\"spacing\":9}}", &without("spacing")[1..without("spacing").len() - 1]);
    assert_eq!(Config::decode(&text).map(|c| c.spacing), Ok(9));
    let text = format!("{},\"spacing\":\"wide\"}}", &FULL[..FULL.len() - 1]);
    assert_eq!(Config::decode(&text), Err(DecodeError::WrongShape(Field::Spacing)));
}

#[test]
fn decode_rejects_text_that_is_not_json() {
    for text in ["", "   ", "{", &FULL[..40], "{\"spacing\":}", "not json", "[1,2", "{} {}", "{'a':1}"] {
        assert_eq!(Config::decode(text), Err(DecodeError::Syntax), "{:?}", text);
    }
    let doubled = format!("{}{}", FULL, FULL);
    assert_eq!(Config::decode(&doubled), Err(DecodeError::Syntax));
}

#[test]
fn decode_turns_away_texts_beyond_the_limits() {
    let deep = format!("{}{}", "[".repeat(129), "]".repeat(129));
    assert_eq!(Config::decode(&deep), Err(DecodeError::OverLimit));
    let exponent = format!("{{\"extra\":1e12345678901,{}", &FULL[1..]);
    assert_eq!(Config::decode(&exponent), Err(DecodeError::OverLimit));
    let string = format!("{{\"extra\":\"1e12345678901[[[\",{}", &FULL[1..]);
    assert_eq!(Config::decode(&string), Ok(full()));
}

#[test]
fn decode_rejects_json_that_is_no_object() {
    for text in ["null", "true", "12", "-1", "2.5", "\"spacing\"", "[]", "[{}]"] {
        assert_eq!(Config::decode(text), Err(DecodeError::NotAnObject), "{:?}", text);
    }
}

#[test]
fn decode_names_the_missing_field() {
    for (name, field) in [
        ("focus_follows_mouse", Field::FocusFollowsMouse),
        ("focus_border_color", Field::FocusBorderColor),
        ("border_color", Field::BorderColor),
        ("border_width", Field::BorderWidth),
        ("spacing", Field::Spacing),
        ("terminal", Field::Terminal),
        ("terminal_key", Field::TerminalKey),
        ("logfile", Field::Logfile),
        ("tags", Field::Tags),
        ("launcher", Field::Launcher),
        ("launch_key", Field::LaunchKey),
    ] {
        assert_eq!(Config::decode(&without(name)), Err(DecodeError::MissingField(field)));
    }
    assert_eq!(Config::decode("{}"), Err(DecodeError::MissingField(Field::FocusFollowsMouse)));
}

#[test]
fn decode_rejects_a_string_where_a_number_is_expected() {
    assert_eq!(
        Config::decode(&with("border_width", "\"2\"")),
        Err(DecodeError::WrongShape(Field::BorderWidth))
    );
}

#[test]
fn decode_rejects_numbers_out_of_range() {
    assert_eq!(Config::decode(&with("spacing", "4294967295")).map(|c| c.spacing), Ok(u32::MAX));
    for value in ["4294967296", "-1", "18446744073709551615", "1.0", "1e2", "-0.5"] {
        assert_eq!(
            Config::decode(&with("spacing", value)),
            Err(DecodeError::WrongShape(Field::Spacing)),
            "{}",
            value
        );
    }
}

#[test]
fn decode_rejects_each_wrong_shape() {
    for (name, value, field) in [
        ("focus_follows_mouse", "1", Field::FocusFollowsMouse),
        ("focus_follows_mouse", "\"true\"", Field::FocusFollowsMouse),
        ("focus_follows_mouse", "null", Field::FocusFollowsMouse),
        ("focus_border_color", "true", Field::FocusBorderColor),
        ("border_color", "[1]", Field::BorderColor),
        ("border_width", "null", Field::BorderWidth),
        ("spacing", "{}", Field::Spacing),
        ("terminal", "\"xterm\"", Field::Terminal),
        ("terminal", "[]", Field::Terminal),
        ("terminal", "[\"xterm\"]", Field::Terminal),
        ("terminal", "[\"xterm\",\"-a\",\"-b\"]", Field::Terminal),
        ("terminal", "[\"xterm\",1]", Field::Terminal),
        ("terminal", "[null,\"-a\"]", Field::Terminal),
        ("terminal", "{\"0\":\"xterm\",\"1\":\"\"}", Field::Terminal),
        ("terminal_key", "1", Field::TerminalKey),
        ("logfile", "null", Field::Logfile),
        ("tags", "\"1\"", Field::Tags),
        ("tags", "[\"1\",2]", Field::Tags),
        ("tags", "[[\"1\"]]", Field::Tags),
        ("tags", "{}", Field::Tags),
        ("launcher", "[\"gmrun\"]", Field::Launcher),
        ("launch_key", "false", Field::LaunchKey),
    ] {
        assert_eq!(
            Config::decode(&with(name, value)),
            Err(DecodeError::WrongShape(field)),
            "{} = {}",
            name,
            value
        );
    }
}

#[test]
fn decode_reports_the_first_fault_in_the_order_of_the_fields() {
    let text = "{\"focus_follows_mouse\":true,\"focus_border_color\":1,\"border_color\":\"red\",\
        \"spacing\":\"wide\"}";
    assert_eq!(Config::decode(text), Err(DecodeError::WrongShape(Field::BorderColor)));
    let text = "{\"launch_key\":1,\"focus_follows_mouse\":true,\"focus_border_color\":1,\
        \"border_color\":2}";
    assert_eq!(Config::decode(text), Err(DecodeError::MissingField(Field::BorderWidth)));
}

#[test]
fn decode_accepts_empty_texts_and_lists() {
    let text = "{\"focus_follows_mouse\":true,\"focus_border_color\":0,\"border_color\":0,\
        \"border_width\":0,\"spacing\":0,\"terminal\":[\"\",\"\"],\"terminal_key\":\"\",\
        \"logfile\":\"\",\"tags\":[],\"launcher\":\"\",\"launch_key\":\"\"}";
    let conf = Config::decode(text).unwrap();
    assert_eq!(conf.tags, Vec::<String>::new());
    assert_eq!(conf.terminal, (String::new(), String::new()));
    assert_eq!(conf.encode().len(), text.len());
    assert_eq!(Config::decode(&conf.encode()), Ok(conf));
}

#[test]
fn from_json_takes_a_signed_number_in_range() {
    let mut v = sample().to_json();
    if let JsonValue::Object(pairs) = &mut v {
        pairs.push(("spacing".to_string(), JsonValue::I64(12)));
    }
    assert_eq!(Config::from_json(&v).map(|c| c.spacing), Ok(12));
    if let JsonValue::Object(pairs) = &mut v {
        pairs.push(("spacing".to_string(), JsonValue::I64(-12)));
    }
    assert_eq!(Config::from_json(&v), Err(DecodeError::WrongShape(Field::Spacing)));
    if let JsonValue::Object(pairs) = &mut v {
        pairs.push(("spacing".to_string(), JsonValue::I64(1 << 32)));
    }
    assert_eq!(Config::from_json(&v), Err(DecodeError::WrongShape(Field::Spacing)));
    if let JsonValue::Object(pairs) = &mut v {
        pairs.push(("spacing".to_string(), JsonValue::Fraction(0)));
    }
    assert_eq!(Config::from_json(&v), Err(DecodeError::WrongShape(Field::Spacing)));
}

#[test]
fn from_json_rejects_what_is_no_object() {
    for v in [
        JsonValue::Null,
        JsonValue::Boolean(true),
        JsonValue::U64(1),
        JsonValue::String("{}".to_string()),
        JsonValue::Array(vec![]),
    ] {
        assert_eq!(Config::from_json(&v), Err(DecodeError::NotAnObject));
    }
    assert_eq!(
        Config::from_json(&JsonValue::Object(vec![])),
        Err(DecodeError::MissingField(Field::FocusFollowsMouse))
    );
}

#[test]
fn to_json_holds_one_member_for_each_field() {
    let v = Config::fallback("/root").to_json();
    let expected = JsonValue::Object(vec![
        ("focus_follows_mouse".to_string(), JsonValue::Boolean(true)),
        ("focus_border_color".to_string(), JsonValue::U64(0x00B6FFB0)),
        ("border_color".to_string(), JsonValue::U64(0x00FFB6B0)),
        ("border_width".to_string(), JsonValue::U64(2)),
        ("spacing".to_string(), JsonValue::U64(10)),
        (
            "terminal".to_string(),
            JsonValue::Array(vec![
                JsonValue::String("xterm".to_string()),
                JsonValue::String("-fg White -bg Black".to_string()),
            ]),
        ),
        ("terminal_key".to_string(), JsonValue::String("Return".to_string())),
        ("logfile".to_string(), JsonValue::String("/root/.wtftw.log".to_string())),
        (
            "tags".to_string(),
            JsonValue::Array(vec![
                JsonValue::String("1: term".to_string()),
                JsonValue::String("2: web".to_string()),
                JsonValue::String("3: code".to_string()),
                JsonValue::String("4 media".to_string()),
            ]),
        ),
        ("launcher".to_string(), JsonValue::String("gmrun".to_string())),
        ("launch_key".to_string(), JsonValue::String("p".to_string())),
    ]);
    assert_eq!(v, expected);
}

#[test]
fn field_names_are_the_member_names() {
    let names: Vec<String> = [
        Field::FocusFollowsMouse,
        Field::FocusBorderColor,
        Field::BorderColor,
        Field::BorderWidth,
        Field::Spacing,
        Field::Terminal,
        Field::TerminalKey,
        Field::Logfile,
        Field::Tags,
        Field::Launcher,
        Field::LaunchKey,
    ]
    .iter()
    .map(|f| f.name())
    .collect();
    assert_eq!(
        names,
        [
            "focus_follows_mouse",
            "focus_border_color",
            "border_color",
            "border_width",
            "spacing",
            "terminal",
            "terminal_key",
            "logfile",
            "tags",
            "launcher",
            "launch_key"
        ]
    );
    for i in 0..names.len() {
        for j in 0..i {
            assert_ne!(names[i], names[j]);
        }
    }
}

struct Dice(u64);

impl Dice {
    fn roll(&mut self, sides: u64) -> u64 {
        self.0 = self.0.wrapping_mul(6364136223846793005).wrapping_add(1442695040888963407);
        (self.0 >> 33) % sides
    }

    fn text(&mut self) -> String {
        let pool = [
            "a", "Z", "0", "9", " ", "\"", "\\", "/", "\n", "\t", "\r", "\u{0}", "\u{1f}", "\u{7f}", "é", "ß",
            "€", "𝄞", "{", "}", "[", "]", ",", ":", "e", "E", "+", "-", ".", "null", "true", "\\u0041", "1e1234567890",
        ];
        let length = self.roll(12);
        let mut text = String::new();
        for _ in 0..length {
            text.push_str(pool[self.roll(pool.len() as u64) as usize]);
        }
        text
    }

    fn number(&mut self) -> u32 {
        match self.roll(4) {
            0 => 0,
            1 => u32::MAX,
            2 => self.roll(100) as u32,
            _ => self.roll(1 << 32) as u32,
        }
    }

    fn config(&mut self) -> Config {
        let count = self.roll(6);
        Config {
            focus_follows_mouse: self.roll(2) == 0,
            focus_border_color: self.number(),
            border_color: self.number(),
            border_width: self.number(),
            spacing: self.number(),
            terminal: (self.text(), self.text()),
            terminal_key: self.text(),
            logfile: self.text(),
            tags: (0..count).map(|_| self.text()).collect(),
            launcher: self.text(),
            launch_key: self.text(),
        }
    }
}

#[test]
fn decode_reads_back_many_snapshots() {
    let mut dice = Dice(2014);
    for _ in 0..3000 {
        let conf = dice.config();
        let text = conf.encode();
        assert_eq!(Config::decode(&text), Ok(conf.clone()), "{}", text);
        assert_eq!(Config::from_json(&conf.to_json()), Ok(conf.clone()));
        assert_eq!(Config::decode(&text).unwrap().encode(), text);
    }
}

#[test]
fn decode_reads_back_long_texts_and_many_tags() {
    let mut conf = sample();
    conf.launcher = "x\"".repeat(200_000);
    conf.tags = (0..20_000).map(|i| format!("[{{tag {}}}]", i)).collect();
    conf.terminal.1 = "\\".repeat(70_000);
    let text = conf.encode();
    assert!(text.len() > 1_000_000);
    assert_eq!(Config::decode(&text), Ok(conf));
}
