//! The bot's settings: login credentials and where its data lives.
use vstd::prelude::*;

verus! {

/// Login credentials.
pub struct CredsConfig {
    homeserver: String,
    username: String,
    password: String,
}

pub struct CredsView {
    pub homeserver: Seq<char>,
    pub username: Seq<char>,
    pub password: Seq<char>,
}

impl View for CredsConfig {
    type V = CredsView;

    closed spec fn view(&self) -> CredsView {
        CredsView { homeserver: self.homeserver@, username: self.username@, password: self.password@ }
    }
}

impl Default for CredsConfig {
    /// Placeholder credentials, written out for the operator to fill in.
    fn default() -> (res: Self)
        ensures
            res@.homeserver == "https://example.com"@,
            res@.username == "yourname"@,
            res@.password == "XXX"@,
    {
        CredsConfig {
            homeserver: String::from_str("https://example.com"),
            username: String::from_str("yourname"),
            password: String::from_str("XXX"),
        }
    }
}

impl CredsConfig {
    /// A configuration holding the given values.
    pub fn new(homeserver: String, username: String, password: String) -> (res: Self)
        ensures
            res@.homeserver == homeserver@,
            res@.username == username@,
            res@.password == password@,
    {
        CredsConfig { homeserver, username, password }
    }

    /// The homeserver to log in to.
    pub fn homeserver(&self) -> (res: &str)
        ensures
            res@ == self@.homeserver,
    {
        self.homeserver.as_str()
    }

    /// The user name to log in with.
    pub fn username(&self) -> (res: &str)
        ensures
            res@ == self@.username,
    {
        self.username.as_str()
    }

    /// The password to log in with.
    pub fn password(&self) -> (res: &str)
        ensures
            res@ == self@.password,
    {
        self.password.as_str()
    }
}

/// Where the bot keeps its data.
pub struct DataConfig {
    sqlite_db_path: String,
}

impl View for DataConfig {
    /// The path of the SQLite database.
    type V = Seq<char>;

    closed spec fn view(&self) -> Seq<char> {
        self.sqlite_db_path@
    }
}

impl Default for DataConfig {
    /// The database next to the bot.
    fn default() -> (res: Self)
        ensures
            res@ == "./database.sqlite"@,
    {
        DataConfig { sqlite_db_path: String::from_str("./database.sqlite") }
    }
}

impl DataConfig {
    /// A configuration holding the given values.
    pub fn new(sqlite_db_path: String) -> (res: Self)
        ensures
            res@ == sqlite_db_path@,
    {
        DataConfig { sqlite_db_path }
    }

    /// Where the database file lies.
    pub fn sqlite_db_path(&self) -> (res: &str)
        ensures
            res@ == self@,
    {
        self.sqlite_db_path.as_str()
    }
}

} // verus!
