use vstd::prelude::*;

use crate::codec::error::io_error_text;
use crate::text::{push_str, string_of};

verus! {

#[verifier::external_type_specification]
#[verifier::external_body]
pub struct ExTomlDeError(toml::de::Error);

#[verifier::external_type_specification]
#[verifier::external_body]
pub struct ExTomlSerError(toml::ser::Error);

#[verifier::external_type_specification]
#[verifier::external_body]
pub struct ExSqliteError(rusqlite::Error);

/// Why saved data could not be read or written.
#[derive(Debug)]
pub enum PersistError {
    Io(std::io::Error),
    Parse(toml::de::Error),
    Serialize(toml::ser::Error),
    Sqlite(rusqlite::Error),
    /// A stored row that does not describe a valid value.
    StateDecode(String),
}

/// `toml::de::Error`'s `Display` text. Nothing is stated of it.
#[verifier::external_body]
fn toml_de_text(e: &toml::de::Error) -> String {
    format!("{e}")
}

/// `toml::ser::Error`'s `Display` text. Nothing is stated of it.
#[verifier::external_body]
fn toml_ser_text(e: &toml::ser::Error) -> String {
    format!("{e}")
}

/// `rusqlite::Error`'s `Display` text. Nothing is stated of it.
#[verifier::external_body]
fn sqlite_text(e: &rusqlite::Error) -> String {
    format!("{e}")
}

/// `text` is how `e` is shown: a prefix naming the failing part, then the
/// cause.
pub open spec fn persist_message_ok(e: PersistError, text: Seq<char>) -> bool {
    match e {
        PersistError::Io(_) => text.len() >= 4 && text.take(4) == "io: "@,
        PersistError::Parse(_) => text.len() >= 7 && text.take(7) == "parse: "@,
        PersistError::Serialize(_) => text.len() >= 11 && text.take(11) == "serialize: "@,
        PersistError::Sqlite(_) => text.len() >= 8 && text.take(8) == "sqlite: "@,
        PersistError::StateDecode(m) => text == "state decode: "@ + m@,
    }
}

impl PersistError {
    /// The text the error is shown with.
    pub fn message(&self) -> (r: String)
        ensures
            persist_message_ok(*self, r@),
    {
        proof {
            reveal_strlit("io: ");
            reveal_strlit("parse: ");
            reveal_strlit("serialize: ");
            reveal_strlit("sqlite: ");
        }
        match self {
            PersistError::Io(e) => {
                let mut s = string_of("io: ");
                let t = io_error_text(e);
                push_str(&mut s, t.as_str());
                assert(s@.take(4) =~= "io: "@);
                s
            },
            PersistError::Parse(e) => {
                let mut s = string_of("parse: ");
                let t = toml_de_text(e);
                push_str(&mut s, t.as_str());
                assert(s@.take(7) =~= "parse: "@);
                s
            },
            PersistError::Serialize(e) => {
                let mut s = string_of("serialize: ");
                let t = toml_ser_text(e);
                push_str(&mut s, t.as_str());
                assert(s@.take(11) =~= "serialize: "@);
                s
            },
            PersistError::Sqlite(e) => {
                let mut s = string_of("sqlite: ");
                let t = sqlite_text(e);
                push_str(&mut s, t.as_str());
                assert(s@.take(8) =~= "sqlite: "@);
                s
            },
            PersistError::StateDecode(m) => {
                let mut s = string_of("state decode: ");
                push_str(&mut s, m.as_str());
                s
            },
        }
    }
}

} // verus!
