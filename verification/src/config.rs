//! What the service is told at startup: where its settings are, where its
//! database is, and what to say when the settings cannot be had.

use vstd::prelude::*;
use vstd::string::StringExecFns;

verus! {

/// The settings file that is read when the command line names none.
pub const DEFAULT_CONFIG: &'static str = "config.toml";

/// The database file that is opened when the settings name none.
pub const DEFAULT_DB: &'static str = "db.sqlite";

/// The command line.
pub struct Cli {
    config: String,
}

impl View for Cli {
    type V = Seq<char>;

    /// The path of the settings file.
    closed spec fn view(&self) -> Seq<char> {
        self.config@
    }
}

impl Cli {
    /// A command line that names `config` as the settings file.
    pub fn new(config: String) -> (cli: Cli)
        ensures
            cli@ == config@,
    {
        Cli { config }
    }

    /// The path of the settings file.
    pub fn conf_path(&self) -> (path: &str)
        ensures
            path@ == self@,
    {
        self.config.as_str()
    }
}

/// The settings of the database.
pub struct Db {
    path: Option<String>,
}

impl View for Db {
    type V = Option<Seq<char>>;

    /// The path that the settings name, if they name one.
    closed spec fn view(&self) -> Option<Seq<char>> {
        match self.path {
            Some(p) => Some(p@),
            None => None,
        }
    }
}

impl Db {
    /// Settings that name `path` as the database file, or name none.
    pub fn new(path: Option<String>) -> (db: Db)
        ensures
            db@ == match path {
                Some(p) => Some(p@),
                None => None,
            },
    {
        Db { path }
    }

    /// The path of the database file: the one that the settings name, else
    /// `DEFAULT_DB`.
    pub fn path(&self) -> (path: &str)
        ensures
            path@ == match self@ {
                Some(named) => named,
                None => DEFAULT_DB@,
            },
    {
        match &self.path {
            Some(p) => p.as_str(),
            None => DEFAULT_DB,
        }
    }
}

impl Default for Db {
    /// Settings that name no database file.
    fn default() -> (db: Db)
        ensures
            db@ == None::<Seq<char>>,
    {
        Db { path: None }
    }
}

/// The port that the server listens on when the settings name none.
pub const DEFAULT_PORT: u16 = 3000;

/// An internet address as a number: the four bytes of a version 4 address,
/// or the sixteen of a version 6 address, the first byte highest.
#[derive(Debug, Clone, Copy, PartialEq, Eq, Structural)]
pub enum Ip {
    V4(u32),
    V6(u128),
}

/// Where the server listens.
#[derive(Debug, Clone, Copy, PartialEq, Eq, Structural)]
pub struct Net {
    pub ip: Ip,
    pub port: u16,
}

impl Default for Net {
    /// The loopback address `127.0.0.1`, port `DEFAULT_PORT`.
    fn default() -> (net: Net)
        ensures
            net == (Net { ip: Ip::V4(0x7f00_0001), port: DEFAULT_PORT }),
    {
        Net { ip: Ip::V4(0x7f00_0001), port: DEFAULT_PORT }
    }
}

/// Why the settings could not be had.
#[derive(Debug, PartialEq, Eq)]
pub enum Error {
    /// The file at this path could not be read.
    Read(String),
    /// The file at this path was read but is no valid settings file, for the
    /// reason given.
    Parse(String, String),
}

impl Error {
    /// The message of an error, as a value.
    pub open spec fn text(self) -> Seq<char> {
        match self {
            Error::Read(path) => "failed to read "@ + path@ + " file"@,
            Error::Parse(path, reason) => "failed to parse config "@ + path@ + ": "@ + reason@,
        }
    }

    /// The message to show for this error.
    pub fn message(&self) -> (text: String)
        ensures
            text@ == self.text(),
    {
        match self {
            Error::Read(path) => {
                let mut text = String::from_str("failed to read ");
                text.append(path.as_str());
                text.append(" file");
                text
            },
            Error::Parse(path, reason) => {
                let mut text = String::from_str("failed to parse config ");
                text.append(path.as_str());
                text.append(": ");
                text.append(reason.as_str());
                text
            },
        }
    }
}

} // verus!
