//! Start-up: from what was found on disk to the store, and to what has
//! to be written back.

use crate::codec::config_tree;
use crate::codec::decode_text;
use crate::codec::encode_text;
use crate::codec::lemma_round_trip_text;
use crate::codec::DecodeError;
use crate::config::Config;
use crate::config::ConfigView;
use crate::json::text_tree;
use crate::json::JsonModel;
use crate::json::ParseError;
use crate::store::ConfigLock;
use vstd::prelude::*;

verus! {

/// Why the stored settings cannot be used.
#[derive(Clone, Copy, Debug, PartialEq, Eq, Structural)]
pub enum LoadError {
    /// The file could not be read as text.
    Unreadable,
    /// The file's text is no snapshot.
    Corrupt(DecodeError),
}

/// What to do about stored settings that cannot be used.
pub struct Repair {
    /// Why the stored settings were passed over: what the diagnostic
    /// is about.
    pub cause: LoadError,
    /// The text to put in their place: the built-in settings.
    pub text: String,
}

/// What start-up comes to.
pub struct Startup {
    /// The store, holding the snapshot to run with.
    pub store: ConfigLock,
    /// The repair to attempt on the file, where its content was not
    /// used. The store does not depend on how that attempt ends.
    pub repair: Option<Repair>,
}

/// The text that was read, if any was.
pub open spec fn text_read(stored: Option<&str>) -> Option<Seq<char>> {
    match stored {
        Some(text) => Some(text@),
        None => None,
    }
}

/// The snapshot that the stored settings hold, or why they hold none.
pub open spec fn load(stored: Option<Seq<char>>) -> Result<ConfigView, LoadError> {
    match stored {
        Some(text) => match decode_text(text) {
            Ok(conf) => Ok(conf),
            Err(fault) => Err(LoadError::Corrupt(fault)),
        },
        None => Err(LoadError::Unreadable),
    }
}

impl Config {
    /// Creates the store from what the settings file held.
    ///
    /// `home` is the user's home directory and `stored` the text of the
    /// settings file, or `None` where it could not be read. Stored
    /// settings that decode are the ones to run with, and the file is
    /// left alone. Otherwise the built-in settings are, and the file is
    /// to be overwritten with their text. This never fails.
    pub fn initialize(home: &str, stored: Option<&str>) -> (start: Startup)
        ensures
            match load(text_read(stored)) {
                Ok(conf) => start.store@ == conf && start.repair is None,
                Err(cause) => {
                    &&& start.store@ == Config::fallback_view(home@)
                    &&& start.repair matches Some(repair)
                    &&& repair.cause == cause
                    &&& repair.text@ == encode_text(Config::fallback_view(home@))
                },
            },
    {
        let conf = Config::fallback(home);
        let cause = match stored {
            Some(text) => match Config::decode(text) {
                Ok(stored_conf) => {
                    return Startup { store: ConfigLock::new(stored_conf), repair: None };
                },
                Err(fault) => LoadError::Corrupt(fault),
            },
            None => LoadError::Unreadable,
        };
        let text = conf.encode();
        Startup { store: ConfigLock::new(conf), repair: Some(Repair { cause, text }) }
    }
}

/// Where the text of a snapshot is read back as the object that the
/// text was written from, a file that holds the text loads as that
/// snapshot: start-up then runs with it and asks for no repair. This
/// holds of the text that a repair writes as of any other.
pub proof fn lemma_written_file_loads(conf: ConfigView)
    ensures
        text_tree(encode_text(conf)) == Ok::<JsonModel, ParseError>(config_tree(conf)) ==> load(
            Some(encode_text(conf)),
        ) == Ok::<ConfigView, LoadError>(conf),
{
    lemma_round_trip_text(conf);
}

} // verus!
