//! Configuration values the program runs with. Loading them from disk
//! and parsing them belong to the surrounding application; the types,
//! their defaults and their accessors are here.

use vstd::prelude::*;
use vstd::string::StrSliceExecFns;

verus! {

/// What a client's configured password looks like after cleaning: its
/// text with leading and trailing whitespace removed.
pub uninterp spec fn trim_of(s: Seq<char>) -> Seq<char>;

/// Relies on str::trim: returns the slice with leading and trailing
/// whitespace removed — never longer than its input, and a function of
/// the characters alone.
#[verifier::external_body]
fn trim_str<'a>(s: &'a str) -> (r: &'a str)
    ensures
        r@ == trim_of(s@),
        r@.len() <= s@.len(),
{
    s.trim()
}

/// The session file used when the configuration names none.
pub fn default_session_file_path() -> (r: String)
    ensures
        r@ == "configs/client.session"@,
{
    String::from_str("configs/client.session")
}

/// The logging directives used when the configuration names none.
pub fn default_logging_directives() -> (r: String)
    ensures
        r@ == "info"@,
{
    String::from_str("info")
}

/// The phone number as dialled: a leading plus sign, if any, is
/// dropped.
pub open spec fn spec_phone_digits(s: Seq<char>) -> Seq<char> {
    if s.len() > 0 && s[0] == '+' {
        s.skip(1)
    } else {
        s
    }
}

/// Client credentials and session settings.
pub struct Client {
    pub api_id: i32,
    pub api_hash: String,
    password: Option<String>,
    session_file_path: String,
    phone_number: String,
}

impl Client {
    pub closed spec fn spec_api_id(self) -> i32 {
        self.api_id
    }

    pub closed spec fn spec_api_hash(self) -> String {
        self.api_hash
    }

    pub closed spec fn spec_password(self) -> Option<String> {
        self.password
    }

    pub closed spec fn spec_session_file_path(self) -> String {
        self.session_file_path
    }

    pub closed spec fn spec_phone_number(self) -> String {
        self.phone_number
    }

    pub fn new(
        api_id: i32,
        api_hash: String,
        password: Option<String>,
        session_file_path: String,
        phone_number: String,
    ) -> (c: Client)
        ensures
            c.spec_api_id() == api_id,
            c.spec_api_hash() == api_hash,
            c.spec_password() == password,
            c.spec_session_file_path() == session_file_path,
            c.spec_phone_number() == phone_number,
    {
        Client { api_id, api_hash, password, session_file_path, phone_number }
    }

    /// The configured two-factor password, trimmed of surrounding
    /// whitespace; `None` where none is configured.
    pub fn password(&self) -> (r: Option<&str>)
        ensures
            (r is Some <==> self.spec_password() is Some),
            (r matches Option::Some(p) ==> p@ == trim_of(self.spec_password().unwrap()@)),
    {
        match &self.password {
            Option::Some(password) => Option::Some(trim_str(password.as_str())),
            Option::None => Option::None,
        }
    }

    /// Where the session is persisted.
    pub fn session_file_path(&self) -> (r: &str)
        ensures
            r@ == self.spec_session_file_path()@,
    {
        self.session_file_path.as_str()
    }

    /// The phone number to log in with, without its leading plus sign
    /// if the configuration wrote one.
    pub fn phone_number(&self) -> (r: &str)
        ensures
            r@ == spec_phone_digits(self.spec_phone_number()@),
    {
        let s = self.phone_number.as_str();
        let n = s.unicode_len();
        if n > 0 && s.get_char(0) == '+' {
            let r = s.substring_char(1, n);
            proof {
                assert(r@ =~= self.phone_number@.skip(1));
            }
            r
        } else {
            s
        }
    }
}

/// Logging settings.
pub struct Logging {
    pub directives: String,
}

/// The whole configuration.
pub struct Config {
    pub client: Client,
    pub logging: Logging,
}

} // verus!
