//! How a snapshot is written as a JSON object and read back from one.
//!
//! A snapshot is one object with a member for each field, under the
//! field's own name. The colours, the border width and the spacing are
//! whole numbers, the terminal is an array of two strings (program,
//! arguments), the tags are an array of strings, and the rest are
//! strings, but for the one boolean. Reading is all or nothing: the
//! first field, in the order of their declaration, that is missing or
//! of the wrong shape fails the whole. Members under other names are
//! passed over.

use crate::config::texts;
use crate::config::Config;
use crate::config::ConfigView;
use crate::json::compact_text;
use crate::json::find_member;
use crate::json::lemma_item_models;
use crate::json::members;
use crate::json::members_writable;
use crate::json::pair_models;
use crate::json::parse;
use crate::json::render;
use crate::json::text_tree;
use crate::json::writable;
use crate::json::JsonModel;
use crate::json::JsonValue;
use crate::json::ParseError;
use vstd::prelude::*;

verus! {

/// The fields of a snapshot, in the order of their declaration.
#[derive(Clone, Copy, Debug, PartialEq, Eq, Structural)]
pub enum Field {
    FocusFollowsMouse,
    FocusBorderColor,
    BorderColor,
    BorderWidth,
    Spacing,
    Terminal,
    TerminalKey,
    Logfile,
    Tags,
    Launcher,
    LaunchKey,
}

/// Why a text or a JSON value is no snapshot.
#[derive(Clone, Copy, Debug, PartialEq, Eq, Structural)]
pub enum DecodeError {
    /// The text is beyond the limits within which texts are read.
    OverLimit,
    /// The text is not well-formed JSON.
    Syntax,
    /// The value is not an object.
    NotAnObject,
    /// The object has no member for this field.
    MissingField(Field),
    /// The member for this field has the wrong shape.
    WrongShape(Field),
}

/// The shapes that the fields of a snapshot have.
pub enum Shape {
    /// A boolean.
    Flag,
    /// A whole number that fits in 32 bits.
    Number,
    /// A string.
    Text,
    /// An array of two strings.
    Pair,
    /// An array of strings.
    List,
}

impl Field {
    /// The name of the member that holds this field.
    pub open spec fn key(self) -> Seq<char> {
        match self {
            Field::FocusFollowsMouse => "focus_follows_mouse"@,
            Field::FocusBorderColor => "focus_border_color"@,
            Field::BorderColor => "border_color"@,
            Field::BorderWidth => "border_width"@,
            Field::Spacing => "spacing"@,
            Field::Terminal => "terminal"@,
            Field::TerminalKey => "terminal_key"@,
            Field::Logfile => "logfile"@,
            Field::Tags => "tags"@,
            Field::Launcher => "launcher"@,
            Field::LaunchKey => "launch_key"@,
        }
    }

    /// The name of the member that holds this field.
    pub fn name(self) -> (name: String)
        ensures
            name@ == self.key(),
    {
        match self {
            Field::FocusFollowsMouse => String::from_str("focus_follows_mouse"),
            Field::FocusBorderColor => String::from_str("focus_border_color"),
            Field::BorderColor => String::from_str("border_color"),
            Field::BorderWidth => String::from_str("border_width"),
            Field::Spacing => String::from_str("spacing"),
            Field::Terminal => String::from_str("terminal"),
            Field::TerminalKey => String::from_str("terminal_key"),
            Field::Logfile => String::from_str("logfile"),
            Field::Tags => String::from_str("tags"),
            Field::Launcher => String::from_str("launcher"),
            Field::LaunchKey => String::from_str("launch_key"),
        }
    }

    /// The shape of the value that holds this field.
    pub open spec fn shape(self) -> Shape {
        match self {
            Field::FocusFollowsMouse => Shape::Flag,
            Field::FocusBorderColor | Field::BorderColor | Field::BorderWidth | Field::Spacing =>
                Shape::Number,
            Field::Terminal => Shape::Pair,
            Field::Tags => Shape::List,
            Field::TerminalKey | Field::Logfile | Field::Launcher | Field::LaunchKey => Shape::Text,
        }
    }

    /// Whether a value has the shape that this field asks for.
    pub open spec fn fits(self, tree: JsonModel) -> bool {
        match self.shape() {
            Shape::Flag => flag_of(tree) is Some,
            Shape::Number => number_of(tree) is Some,
            Shape::Text => text_of(tree) is Some,
            Shape::Pair => pair_of(tree) is Some,
            Shape::List => list_of(tree) is Some,
        }
    }

    /// What is wrong with this field in an object, if anything.
    pub open spec fn fault(self, object: Map<Seq<char>, JsonModel>) -> Option<DecodeError> {
        if !object.dom().contains(self.key()) {
            Some(DecodeError::MissingField(self))
        } else if !self.fits(object[self.key()]) {
            Some(DecodeError::WrongShape(self))
        } else {
            None
        }
    }
}

/// The boolean that a value is, if it is one.
pub open spec fn flag_of(tree: JsonModel) -> Option<bool> {
    match tree {
        JsonModel::Boolean(b) => Some(b),
        _ => None,
    }
}

/// The 32-bit number that a value is, if it is a whole number in range.
pub open spec fn number_of(tree: JsonModel) -> Option<u32> {
    match tree {
        JsonModel::U64(n) => if n <= u32::MAX {
            Some(n as u32)
        } else {
            None
        },
        JsonModel::I64(n) => if 0 <= n <= u32::MAX {
            Some(n as u32)
        } else {
            None
        },
        _ => None,
    }
}

/// The text that a value is, if it is a string.
pub open spec fn text_of(tree: JsonModel) -> Option<Seq<char>> {
    match tree {
        JsonModel::String(s) => Some(s),
        _ => None,
    }
}

/// The two texts that a value is, if it is an array of two strings.
pub open spec fn pair_of(tree: JsonModel) -> Option<(Seq<char>, Seq<char>)> {
    match tree {
        JsonModel::Array(items) => if items.len() == 2 && items[0] is String && items[1] is String {
            Some((items[0]->String_0, items[1]->String_0))
        } else {
            None
        },
        _ => None,
    }
}

/// The texts that a value is, if it is an array of strings.
pub open spec fn list_of(tree: JsonModel) -> Option<Seq<Seq<char>>> {
    match tree {
        JsonModel::Array(items) => if forall|i: int|
            0 <= i < items.len() ==> (#[trigger] items[i]) is String {
            Some(Seq::new(items.len(), |i: int| items[i]->String_0))
        } else {
            None
        },
        _ => None,
    }
}

/// The first thing wrong with an object, going through the fields in
/// the order of their declaration.
pub open spec fn first_fault(object: Map<Seq<char>, JsonModel>) -> Option<DecodeError> {
    if Field::FocusFollowsMouse.fault(object) is Some {
        Field::FocusFollowsMouse.fault(object)
    } else if Field::FocusBorderColor.fault(object) is Some {
        Field::FocusBorderColor.fault(object)
    } else if Field::BorderColor.fault(object) is Some {
        Field::BorderColor.fault(object)
    } else if Field::BorderWidth.fault(object) is Some {
        Field::BorderWidth.fault(object)
    } else if Field::Spacing.fault(object) is Some {
        Field::Spacing.fault(object)
    } else if Field::Terminal.fault(object) is Some {
        Field::Terminal.fault(object)
    } else if Field::TerminalKey.fault(object) is Some {
        Field::TerminalKey.fault(object)
    } else if Field::Logfile.fault(object) is Some {
        Field::Logfile.fault(object)
    } else if Field::Tags.fault(object) is Some {
        Field::Tags.fault(object)
    } else if Field::Launcher.fault(object) is Some {
        Field::Launcher.fault(object)
    } else {
        Field::LaunchKey.fault(object)
    }
}

/// The snapshot that an object with no fault holds.
pub open spec fn gather(object: Map<Seq<char>, JsonModel>) -> ConfigView {
    ConfigView {
        focus_follows_mouse: flag_of(object[Field::FocusFollowsMouse.key()])->0,
        focus_border_color: number_of(object[Field::FocusBorderColor.key()])->0,
        border_color: number_of(object[Field::BorderColor.key()])->0,
        border_width: number_of(object[Field::BorderWidth.key()])->0,
        spacing: number_of(object[Field::Spacing.key()])->0,
        terminal: pair_of(object[Field::Terminal.key()])->0,
        terminal_key: text_of(object[Field::TerminalKey.key()])->0,
        logfile: text_of(object[Field::Logfile.key()])->0,
        tags: list_of(object[Field::Tags.key()])->0,
        launcher: text_of(object[Field::Launcher.key()])->0,
        launch_key: text_of(object[Field::LaunchKey.key()])->0,
    }
}

/// The snapshot that a JSON value holds, or why it holds none.
pub open spec fn decode_tree(tree: JsonModel) -> Result<ConfigView, DecodeError> {
    match tree {
        JsonModel::Object(object) => match first_fault(object) {
            Some(fault) => Err(fault),
            None => Ok(gather(object)),
        },
        _ => Err(DecodeError::NotAnObject),
    }
}

/// The snapshot that a text holds, or why it holds none.
pub open spec fn decode_text(text: Seq<char>) -> Result<ConfigView, DecodeError> {
    match text_tree(text) {
        Ok(tree) => decode_tree(tree),
        Err(ParseError::OverLimit) => Err(DecodeError::OverLimit),
        Err(ParseError::Syntax) => Err(DecodeError::Syntax),
    }
}

/// What a decoding came to, with the snapshot taken by its view.
pub open spec fn outcome(r: Result<Config, DecodeError>) -> Result<ConfigView, DecodeError> {
    match r {
        Ok(conf) => Ok(conf@),
        Err(fault) => Err(fault),
    }
}

/// Finds the member that holds a field.
fn member<'a>(pairs: &'a Vec<(String, JsonValue)>, field: Field) -> (r: Result<
    &'a JsonValue,
    DecodeError,
>)
    ensures
        r is Ok <==> members(pair_models(pairs@)).dom().contains(field.key()),
        r matches Ok(v) ==> v@ == members(pair_models(pairs@))[field.key()],
        r matches Err(fault) ==> fault == DecodeError::MissingField(field),
{
    let key = field.name();
    match find_member(pairs, &key) {
        Some(v) => Ok(v),
        None => Err(DecodeError::MissingField(field)),
    }
}

/// Reads a field that is a boolean.
fn read_flag(pairs: &Vec<(String, JsonValue)>, field: Field) -> (r: Result<bool, DecodeError>)
    requires
        field.shape() is Flag,
    ensures
        r is Ok <==> field.fault(members(pair_models(pairs@))) is None,
        r matches Ok(flag) ==> flag_of(members(pair_models(pairs@))[field.key()]) == Some(flag),
        r matches Err(fault) ==> field.fault(members(pair_models(pairs@))) == Some(fault),
{
    match member(pairs, field) {
        Ok(JsonValue::Boolean(flag)) => Ok(*flag),
        Ok(_) => Err(DecodeError::WrongShape(field)),
        Err(fault) => Err(fault),
    }
}

/// Reads a field that is a whole number of 32 bits.
fn read_number(pairs: &Vec<(String, JsonValue)>, field: Field) -> (r: Result<u32, DecodeError>)
    requires
        field.shape() is Number,
    ensures
        r is Ok <==> field.fault(members(pair_models(pairs@))) is None,
        r matches Ok(n) ==> number_of(members(pair_models(pairs@))[field.key()]) == Some(n),
        r matches Err(fault) ==> field.fault(members(pair_models(pairs@))) == Some(fault),
{
    match member(pairs, field) {
        Ok(JsonValue::U64(n)) => {
            if *n <= u32::MAX as u64 {
                Ok(*n as u32)
            } else {
                Err(DecodeError::WrongShape(field))
            }
        },
        Ok(JsonValue::I64(n)) => {
            if 0 <= *n && *n <= u32::MAX as i64 {
                Ok(*n as u32)
            } else {
                Err(DecodeError::WrongShape(field))
            }
        },
        Ok(_) => Err(DecodeError::WrongShape(field)),
        Err(fault) => Err(fault),
    }
}

/// Reads a field that is a string.
fn read_text(pairs: &Vec<(String, JsonValue)>, field: Field) -> (r: Result<String, DecodeError>)
    requires
        field.shape() is Text,
    ensures
        r is Ok <==> field.fault(members(pair_models(pairs@))) is None,
        r matches Ok(text) ==> text_of(members(pair_models(pairs@))[field.key()]) == Some(text@),
        r matches Err(fault) ==> field.fault(members(pair_models(pairs@))) == Some(fault),
{
    match member(pairs, field) {
        Ok(JsonValue::String(text)) => Ok(text.clone()),
        Ok(_) => Err(DecodeError::WrongShape(field)),
        Err(fault) => Err(fault),
    }
}

/// The strings of an array of strings; `None` where an item is no string.
fn strings_of(items: &Vec<JsonValue>) -> (r: Option<Vec<String>>)
    ensures
        r is Some <==> list_of(JsonValue::Array(*items)@) is Some,
        r matches Some(list) ==> list_of(JsonValue::Array(*items)@) == Some(texts(list@)),
{
    let mut list: Vec<String> = Vec::new();
    let mut i: usize = 0;
    while i < items.len()
        invariant
            i <= items.len(),
            list.len() == i,
            forall|k: int| 0 <= k < i ==> (#[trigger] items[k]@) == JsonModel::String(list[k]@),
        decreases items.len() - i,
    {
        match &items[i] {
            JsonValue::String(text) => {
                list.push(text.clone());
            },
            _ => {
                assert(!(items[i as int]@ is String));
                assert(!(JsonValue::Array(*items)@->Array_0[i as int] is String));
                return None;
            },
        }
        i += 1;
    }
    proof {
        let models = JsonValue::Array(*items)@->Array_0;
        assert forall|k: int| 0 <= k < models.len() implies (#[trigger] models[k]) is String by {
            assert(items[k]@ == JsonModel::String(list[k]@));
        }
        assert(list_of(JsonValue::Array(*items)@)->0 =~= texts(list@)) by {
            assert forall|k: int| 0 <= k < models.len() implies models[k]->String_0 == list[k]@ by {
                assert(items[k]@ == JsonModel::String(list[k]@));
            }
        }
    }
    Some(list)
}

/// Reads a field that is an array of strings.
fn read_list(pairs: &Vec<(String, JsonValue)>, field: Field) -> (r: Result<
    Vec<String>,
    DecodeError,
>)
    requires
        field.shape() is List,
    ensures
        r is Ok <==> field.fault(members(pair_models(pairs@))) is None,
        r matches Ok(list) ==> list_of(members(pair_models(pairs@))[field.key()]) == Some(
            texts(list@),
        ),
        r matches Err(fault) ==> field.fault(members(pair_models(pairs@))) == Some(fault),
{
    match member(pairs, field) {
        Ok(JsonValue::Array(items)) => match strings_of(items) {
            Some(list) => Ok(list),
            None => Err(DecodeError::WrongShape(field)),
        },
        Ok(_) => Err(DecodeError::WrongShape(field)),
        Err(fault) => Err(fault),
    }
}

/// Reads a field that is an array of two strings.
fn read_pair(pairs: &Vec<(String, JsonValue)>, field: Field) -> (r: Result<
    (String, String),
    DecodeError,
>)
    requires
        field.shape() is Pair,
    ensures
        r is Ok <==> field.fault(members(pair_models(pairs@))) is None,
        r matches Ok(pair) ==> pair_of(members(pair_models(pairs@))[field.key()]) == Some(
            (pair.0@, pair.1@),
        ),
        r matches Err(fault) ==> field.fault(members(pair_models(pairs@))) == Some(fault),
{
    match member(pairs, field) {
        Ok(JsonValue::Array(items)) => {
            proof {
                lemma_item_models(items@);
            }
            if items.len() != 2 {
                return Err(DecodeError::WrongShape(field));
            }
            match (&items[0], &items[1]) {
                (JsonValue::String(first), JsonValue::String(second)) => Ok(
                    (first.clone(), second.clone()),
                ),
                _ => Err(DecodeError::WrongShape(field)),
            }
        },
        Ok(_) => Err(DecodeError::WrongShape(field)),
        Err(fault) => Err(fault),
    }
}

/// The array of strings that holds a list of texts.
pub open spec fn text_array(items: Seq<Seq<char>>) -> JsonModel {
    JsonModel::Array(Seq::new(items.len(), |i: int| JsonModel::String(items[i])))
}

/// The JSON object that holds a snapshot: one member for each field.
pub open spec fn config_tree(conf: ConfigView) -> JsonModel {
    JsonModel::Object(
        Map::empty().insert(
            Field::FocusFollowsMouse.key(),
            JsonModel::Boolean(conf.focus_follows_mouse),
        ).insert(
            Field::FocusBorderColor.key(),
            JsonModel::U64(conf.focus_border_color as u64),
        ).insert(Field::BorderColor.key(), JsonModel::U64(conf.border_color as u64)).insert(
            Field::BorderWidth.key(),
            JsonModel::U64(conf.border_width as u64),
        ).insert(Field::Spacing.key(), JsonModel::U64(conf.spacing as u64)).insert(
            Field::Terminal.key(),
            text_array(seq![conf.terminal.0, conf.terminal.1]),
        ).insert(Field::TerminalKey.key(), JsonModel::String(conf.terminal_key)).insert(
            Field::Logfile.key(),
            JsonModel::String(conf.logfile),
        ).insert(Field::Tags.key(), text_array(conf.tags)).insert(
            Field::Launcher.key(),
            JsonModel::String(conf.launcher),
        ).insert(Field::LaunchKey.key(), JsonModel::String(conf.launch_key)),
    )
}

/// The text that holds a snapshot.
pub open spec fn encode_text(conf: ConfigView) -> Seq<char> {
    compact_text(config_tree(conf))
}

/// Appends the member that holds a field.
fn put(pairs: &mut Vec<(String, JsonValue)>, field: Field, value: JsonValue)
    requires
        members_writable(old(pairs)@),
        writable(value),
    ensures
        members(pair_models(final(pairs)@)) == members(pair_models(old(pairs)@)).insert(
            field.key(),
            value@,
        ),
        members_writable(final(pairs)@),
{
    let ghost before = pairs@;
    pairs.push((field.name(), value));
    assert(pair_models(pairs@).drop_last() =~= pair_models(before));
}

/// The array of strings that holds a list of texts.
fn strings_value(items: &Vec<String>) -> (v: JsonValue)
    ensures
        v@ == text_array(texts(items@)),
        writable(v),
{
    let mut values: Vec<JsonValue> = Vec::new();
    let mut i: usize = 0;
    while i < items.len()
        invariant
            i <= items.len(),
            values.len() == i,
            forall|k: int| 0 <= k < i ==> (#[trigger] values[k]) == JsonValue::String(items[k]),
        decreases items.len() - i,
    {
        values.push(JsonValue::String(items[i].clone()));
        i += 1;
    }
    proof {
        lemma_item_models(values@);
        assert(JsonValue::Array(values)@->Array_0 =~= text_array(texts(items@))->Array_0);
        assert forall|k: int| 0 <= k < values@.len() implies writable(#[trigger] values@[k]) by {
            assert(values[k] == JsonValue::String(items[k]));
        }
    }
    JsonValue::Array(values)
}

impl Config {
    /// Reads a snapshot from a JSON value: all of it, or none.
    pub fn from_json(v: &JsonValue) -> (r: Result<Config, DecodeError>)
        ensures
            outcome(r) == decode_tree(v@),
    {
        let pairs = match v {
            JsonValue::Object(pairs) => pairs,
            _ => {
                return Err(DecodeError::NotAnObject);
            },
        };
        let focus_follows_mouse = match read_flag(pairs, Field::FocusFollowsMouse) {
            Ok(x) => x,
            Err(fault) => {
                return Err(fault);
            },
        };
        let focus_border_color = match read_number(pairs, Field::FocusBorderColor) {
            Ok(x) => x,
            Err(fault) => {
                return Err(fault);
            },
        };
        let border_color = match read_number(pairs, Field::BorderColor) {
            Ok(x) => x,
            Err(fault) => {
                return Err(fault);
            },
        };
        let border_width = match read_number(pairs, Field::BorderWidth) {
            Ok(x) => x,
            Err(fault) => {
                return Err(fault);
            },
        };
        let spacing = match read_number(pairs, Field::Spacing) {
            Ok(x) => x,
            Err(fault) => {
                return Err(fault);
            },
        };
        let terminal = match read_pair(pairs, Field::Terminal) {
            Ok(x) => x,
            Err(fault) => {
                return Err(fault);
            },
        };
        let terminal_key = match read_text(pairs, Field::TerminalKey) {
            Ok(x) => x,
            Err(fault) => {
                return Err(fault);
            },
        };
        let logfile = match read_text(pairs, Field::Logfile) {
            Ok(x) => x,
            Err(fault) => {
                return Err(fault);
            },
        };
        let tags = match read_list(pairs, Field::Tags) {
            Ok(x) => x,
            Err(fault) => {
                return Err(fault);
            },
        };
        let launcher = match read_text(pairs, Field::Launcher) {
            Ok(x) => x,
            Err(fault) => {
                return Err(fault);
            },
        };
        let launch_key = match read_text(pairs, Field::LaunchKey) {
            Ok(x) => x,
            Err(fault) => {
                return Err(fault);
            },
        };
        Ok(
            Config {
                focus_follows_mouse,
                focus_border_color,
                border_color,
                border_width,
                spacing,
                terminal,
                terminal_key,
                logfile,
                tags,
                launcher,
                launch_key,
            },
        )
    }

    /// Builds the JSON value that holds this snapshot.
    pub fn to_json(&self) -> (v: JsonValue)
        ensures
            v@ == config_tree(self@),
            writable(v),
    {
        let mut terminal: Vec<String> = Vec::new();
        terminal.push(self.terminal.0.clone());
        terminal.push(self.terminal.1.clone());
        assert(texts(terminal@) =~= seq![self.terminal.0@, self.terminal.1@]);
        let mut pairs: Vec<(String, JsonValue)> = Vec::new();
        put(&mut pairs, Field::FocusFollowsMouse, JsonValue::Boolean(self.focus_follows_mouse));
        put(&mut pairs, Field::FocusBorderColor, JsonValue::U64(self.focus_border_color as u64));
        put(&mut pairs, Field::BorderColor, JsonValue::U64(self.border_color as u64));
        put(&mut pairs, Field::BorderWidth, JsonValue::U64(self.border_width as u64));
        put(&mut pairs, Field::Spacing, JsonValue::U64(self.spacing as u64));
        put(&mut pairs, Field::Terminal, strings_value(&terminal));
        put(&mut pairs, Field::TerminalKey, JsonValue::String(self.terminal_key.clone()));
        put(&mut pairs, Field::Logfile, JsonValue::String(self.logfile.clone()));
        put(&mut pairs, Field::Tags, strings_value(&self.tags));
        put(&mut pairs, Field::Launcher, JsonValue::String(self.launcher.clone()));
        put(&mut pairs, Field::LaunchKey, JsonValue::String(self.launch_key.clone()));
        JsonValue::Object(pairs)
    }

    /// Reads a snapshot from a text: all of it, or none.
    pub fn decode(text: &str) -> (r: Result<Config, DecodeError>)
        ensures
            outcome(r) == decode_text(text@),
    {
        match parse(text) {
            Ok(v) => Config::from_json(&v),
            Err(ParseError::OverLimit) => Err(DecodeError::OverLimit),
            Err(ParseError::Syntax) => Err(DecodeError::Syntax),
        }
    }

    /// Writes this snapshot as a text.
    pub fn encode(&self) -> (text: String)
        ensures
            text@ == encode_text(self@),
    {
        let v = self.to_json();
        match render(&v) {
            Some(text) => text,
            None => unreached(),
        }
    }
}

/// No two fields share a name.
pub proof fn lemma_keys_differ()
    ensures
        forall|f: Field, g: Field| f != g ==> #[trigger] f.key() != #[trigger] g.key(),
{
    reveal_strlit("focus_follows_mouse");
    reveal_strlit("focus_border_color");
    reveal_strlit("border_color");
    reveal_strlit("border_width");
    reveal_strlit("spacing");
    reveal_strlit("terminal");
    reveal_strlit("terminal_key");
    reveal_strlit("logfile");
    reveal_strlit("tags");
    reveal_strlit("launcher");
    reveal_strlit("launch_key");
    assert forall|f: Field, g: Field| f != g implies #[trigger] f.key() != #[trigger] g.key() by {
        // Two names differ in length, in the first letter or in the eighth.
        assert(f.key().len() != g.key().len() || f.key()[0] != g.key()[0] || f.key()[7]
            != g.key()[7]);
    }
}

/// What is written can be read back: the object that holds a snapshot
/// decodes to that snapshot.
pub proof fn lemma_round_trip(conf: ConfigView)
    ensures
        decode_tree(config_tree(conf)) == Ok::<ConfigView, DecodeError>(conf),
{
    lemma_keys_differ();
    assert(list_of(text_array(conf.tags))->0 =~= conf.tags);
}

/// Where the text of a snapshot is read back as the object that the
/// text was written from, the text decodes to that snapshot.
pub proof fn lemma_round_trip_text(conf: ConfigView)
    ensures
        text_tree(encode_text(conf)) == Ok::<JsonModel, ParseError>(config_tree(conf))
            ==> decode_text(encode_text(conf)) == Ok::<ConfigView, DecodeError>(conf),
{
    lemma_round_trip(conf);
}

} // verus!
