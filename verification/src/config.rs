//! The configuration snapshot: one complete set of settings.

use vstd::prelude::*;

verus! {

/// Common configuration options for the window manager.
///
/// A snapshot is a plain value. It is built whole, from the built-in
/// defaults or from a stored text, and never changed in place.
#[derive(Debug)]
pub struct Config {
    /// Whether focus follows mouse movements or
    /// only click events and keyboard movements.
    pub focus_follows_mouse: bool,
    /// Border color for focused windows.
    pub focus_border_color: u32,
    /// Border color for unfocused windows.
    pub border_color: u32,
    /// Border width. This is the same for both, focused and unfocused.
    pub border_width: u32,
    /// Default spacing between windows.
    pub spacing: u32,
    /// Default terminal to start: the program and its arguments.
    pub terminal: (String, String),
    /// Keybind for the terminal.
    pub terminal_key: String,
    /// Path to the logfile.
    pub logfile: String,
    /// Default tags for workspaces.
    pub tags: Vec<String>,
    /// Default launcher application.
    pub launcher: String,
    /// Keybind for the launcher and configuration reloading.
    pub launch_key: String,
}

/// What a snapshot holds, as mathematical values.
pub struct ConfigView {
    pub focus_follows_mouse: bool,
    pub focus_border_color: u32,
    pub border_color: u32,
    pub border_width: u32,
    pub spacing: u32,
    pub terminal: (Seq<char>, Seq<char>),
    pub terminal_key: Seq<char>,
    pub logfile: Seq<char>,
    pub tags: Seq<Seq<char>>,
    pub launcher: Seq<char>,
    pub launch_key: Seq<char>,
}

/// The texts that a list of strings holds.
pub open spec fn texts(items: Seq<String>) -> Seq<Seq<char>> {
    Seq::new(items.len(), |i: int| items[i]@)
}

impl View for Config {
    type V = ConfigView;

    open spec fn view(&self) -> ConfigView {
        ConfigView {
            focus_follows_mouse: self.focus_follows_mouse,
            focus_border_color: self.focus_border_color,
            border_color: self.border_color,
            border_width: self.border_width,
            spacing: self.spacing,
            terminal: (self.terminal.0@, self.terminal.1@),
            terminal_key: self.terminal_key@,
            logfile: self.logfile@,
            tags: texts(self.tags@),
            launcher: self.launcher@,
            launch_key: self.launch_key@,
        }
    }
}

/// Copies a list of strings.
fn copy_texts(items: &Vec<String>) -> (copy: Vec<String>)
    ensures
        texts(copy@) == texts(items@),
{
    let mut copy: Vec<String> = Vec::new();
    let mut i: usize = 0;
    while i < items.len()
        invariant
            i <= items.len(),
            copy.len() == i,
            forall|k: int| 0 <= k < i ==> copy[k]@ == items[k]@,
        decreases items.len() - i,
    {
        copy.push(items[i].clone());
        i += 1;
    }
    assert(texts(copy@) =~= texts(items@));
    copy
}

/// Whether two lists of strings hold the same texts.
fn same_texts(a: &Vec<String>, b: &Vec<String>) -> (same: bool)
    ensures
        same == (texts(a@) == texts(b@)),
{
    if a.len() != b.len() {
        return false;
    }
    let mut i: usize = 0;
    while i < a.len()
        invariant
            i <= a.len(),
            a.len() == b.len(),
            forall|k: int| 0 <= k < i ==> a[k]@ == b[k]@,
        decreases a.len() - i,
    {
        if a[i] != b[i] {
            assert(texts(a@)[i as int] != texts(b@)[i as int]);
            return false;
        }
        i += 1;
    }
    assert(texts(a@) =~= texts(b@));
    true
}

impl Config {
    /// The built-in settings, for a user whose home directory is `home`.
    pub open spec fn fallback_view(home: Seq<char>) -> ConfigView {
        ConfigView {
            focus_follows_mouse: true,
            focus_border_color: 0x00B6FFB0,
            border_color: 0x00FFB6B0,
            border_width: 2,
            spacing: 10,
            terminal: ("xterm"@, "-fg White -bg Black"@),
            terminal_key: "Return"@,
            logfile: home + "/.wtftw.log"@,
            tags: seq!["1: term"@, "2: web"@, "3: code"@, "4 media"@],
            launcher: "gmrun"@,
            launch_key: "p"@,
        }
    }

    /// Builds the settings to fall back on when no stored ones can be
    /// used. Only the logfile depends on `home`: it lies directly in it.
    pub fn fallback(home: &str) -> (conf: Config)
        ensures
            conf@ == Config::fallback_view(home@),
    {
        let mut tags: Vec<String> = Vec::new();
        tags.push(String::from_str("1: term"));
        tags.push(String::from_str("2: web"));
        tags.push(String::from_str("3: code"));
        tags.push(String::from_str("4 media"));
        let conf = Config {
            focus_follows_mouse: true,
            focus_border_color: 0x00B6FFB0,
            border_color: 0x00FFB6B0,
            border_width: 2,
            spacing: 10,
            terminal: (String::from_str("xterm"), String::from_str("-fg White -bg Black")),
            terminal_key: String::from_str("Return"),
            logfile: String::from_str(home).concat("/.wtftw.log"),
            tags,
            launcher: String::from_str("gmrun"),
            launch_key: String::from_str("p"),
        };
        assert(conf@.tags =~= Config::fallback_view(home@).tags);
        conf
    }
}

impl Clone for Config {
    fn clone(&self) -> (copy: Config)
        ensures
            copy@ == self@,
    {
        Config {
            focus_follows_mouse: self.focus_follows_mouse,
            focus_border_color: self.focus_border_color,
            border_color: self.border_color,
            border_width: self.border_width,
            spacing: self.spacing,
            terminal: (self.terminal.0.clone(), self.terminal.1.clone()),
            terminal_key: self.terminal_key.clone(),
            logfile: self.logfile.clone(),
            tags: copy_texts(&self.tags),
            launcher: self.launcher.clone(),
            launch_key: self.launch_key.clone(),
        }
    }
}

impl PartialEq for Config {
    fn eq(&self, other: &Config) -> (same: bool) {
        self.focus_follows_mouse == other.focus_follows_mouse
            && self.focus_border_color == other.focus_border_color
            && self.border_color == other.border_color
            && self.border_width == other.border_width
            && self.spacing == other.spacing
            && self.terminal.0 == other.terminal.0
            && self.terminal.1 == other.terminal.1
            && self.terminal_key == other.terminal_key
            && self.logfile == other.logfile
            && same_texts(&self.tags, &other.tags)
            && self.launcher == other.launcher
            && self.launch_key == other.launch_key
    }
}

impl vstd::std_specs::cmp::PartialEqSpecImpl for Config {
    open spec fn obeys_eq_spec() -> bool {
        true
    }

    open spec fn eq_spec(&self, other: &Config) -> bool {
        self@ == other@
    }
}

} // verus!
