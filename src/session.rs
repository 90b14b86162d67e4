//! The handoff between an extraction run and a later encoding run: the
//! directory that the last extraction wrote its frames to.
use vstd::prelude::*;

use crate::error::DragonflyError;
use crate::text::{decimal_text, nat_text};

verus! {

/// The name of the file, in the temporary directory, that holds the record.
pub const SESSION_FILE_NAME: &'static str = ".dragonfly";

/// What loading a slot that holds `slot` gives.
pub open spec fn load_result(slot: Option<Seq<char>>) -> Result<Seq<char>, DragonflyError> {
    match slot {
        Some(p) => Ok(p),
        None => Err(DragonflyError::SessionNotFound),
    }
}

/// A single slot that holds the last extraction directory; each save
/// overwrites it.
pub struct SessionStore {
    record: Option<String>,
}

impl View for SessionStore {
    type V = Option<Seq<char>>;

    closed spec fn view(&self) -> Option<Seq<char>> {
        match self.record {
            Some(s) => Some(s@),
            None => None,
        }
    }
}

impl SessionStore {
    /// A store in which nothing was saved.
    pub fn new() -> (r: SessionStore)
        ensures
            r@ is None,
    {
        SessionStore { record: None }
    }

    /// A store that holds what was read back from where records are kept, if anything.
    pub fn from_record(record: Option<String>) -> (r: SessionStore)
        ensures
            r@ == (match record {
                Some(s) => Some(s@),
                None => None::<Seq<char>>,
            }),
    {
        SessionStore { record }
    }

    pub fn save(&mut self, path: &str)
        ensures
            final(self)@ == Some(path@),
    {
        self.record = Some(String::from_str(path));
    }

    /// The saved path, or `SessionNotFound` where nothing was saved.
    pub fn load(&self) -> (r: Result<String, DragonflyError>)
        ensures
            match r {
                Ok(s) => load_result(self@) == Ok::<Seq<char>, DragonflyError>(s@),
                Err(e) => load_result(self@) == Err::<Seq<char>, DragonflyError>(e),
            },
    {
        match &self.record {
            Some(s) => Ok(s.clone()),
            None => Err(DragonflyError::SessionNotFound),
        }
    }
}

/// Loading right after saving `path` gives `path`, whatever the store held
/// before; loading from a store where nothing was saved gives `SessionNotFound`.
pub proof fn lemma_save_then_load(path: Seq<char>)
    ensures
        load_result(Some(path)) == Ok::<Seq<char>, DragonflyError>(path),
        load_result(None) == Err::<Seq<char>, DragonflyError>(DragonflyError::SessionNotFound),
{
}

/// The name of a fresh extraction directory made at `secs` seconds since the epoch.
pub open spec fn extract_dir_name_text(secs: nat) -> Seq<char> {
    "com.jshrake.dragonfly-"@ + nat_text(secs)
}

pub fn extract_dir_name(secs: u64) -> (r: String)
    ensures
        r@ == extract_dir_name_text(secs as nat),
{
    let mut s = String::from_str("com.jshrake.dragonfly-");
    s.append(decimal_text(secs as u128).as_str());
    s
}

} // verus!
