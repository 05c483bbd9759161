//! The controller's configuration: entries read from the environment,
//! parsed and validated here from a plain key-value snapshot.

use vstd::prelude::*;
use vstd::string::StrSliceExecFns;

use crate::app_error::AppError;
use crate::clock;
use crate::clock::is_known_zone;

verus! {

/// What a lookup in the snapshot yields: the value of the entry inserted
/// last under the key.
pub open spec fn spec_lookup(s: Seq<(String, String)>, key: Seq<char>) -> Option<Seq<char>>
    decreases s.len(),
{
    if s.len() == 0 {
        None
    } else if s.last().0@ == key {
        Some(s.last().1@)
    } else {
        spec_lookup(s.drop_last(), key)
    }
}

/// A snapshot of environment entries, in insertion order; a later entry
/// shadows an earlier one under the same key.
#[derive(Debug, Clone)]
pub struct EnvMap {
    entries: Vec<(String, String)>,
}

impl View for EnvMap {
    type V = Seq<(String, String)>;

    closed spec fn view(&self) -> Seq<(String, String)> {
        self.entries@
    }
}

impl EnvMap {
    /// An empty snapshot.
    pub fn new() -> (r: EnvMap)
        ensures
            r@ == Seq::<(String, String)>::empty(),
    {
        EnvMap { entries: Vec::new() }
    }

    /// Record an entry; it shadows any earlier entry under the same key.
    pub fn insert(&mut self, key: String, value: String)
        ensures
            final(self)@ == old(self)@.push((key, value)),
    {
        self.entries.push((key, value));
    }

    /// Look a key up in the snapshot.
    pub fn get(&self, key: &str) -> (r: Option<&String>)
        ensures
            match r {
                Some(v) => spec_lookup(self@, key@) == Some(v@),
                None => spec_lookup(self@, key@) is None,
            },
    {
        let key_owned = key.to_owned();
        let mut i: usize = self.entries.len();
        proof {
            assert(self@.take(self@.len() as int) =~= self@);
        }
        while i > 0
            invariant
                i <= self@.len(),
                key_owned@ == key@,
                spec_lookup(self@, key@) == spec_lookup(self@.take(i as int), key@),
            decreases i,
        {
            let pair = &self.entries[i - 1];
            let hit = pair.0 == key_owned;
            proof {
                let s1 = self@.take(i as int);
                assert(s1.drop_last() =~= self@.take(i - 1));
                assert(s1.last() == self@[i - 1]);
            }
            if hit {
                return Some(&pair.1);
            }
            i = i - 1;
        }
        proof {
            assert(self@.take(0) =~= Seq::<(String, String)>::empty());
        }
        None
    }
}

/// An IANA zone name checked against the timezone database; an unknown name
/// falls back to UTC.
#[derive(Debug, Clone)]
pub struct EnvTimeZone(pub String);

impl EnvTimeZone {
    /// Keep the name if the timezone database knows it, else fall back.
    pub fn new(x: String) -> (r: EnvTimeZone)
        ensures
            r.0@ == (if is_known_zone(x@) {
                x@
            } else {
                "Etc/UTC"@
            }),
    {
        if clock::zone_exists(x.as_str()) {
            EnvTimeZone(x)
        } else {
            EnvTimeZone("Etc/UTC".to_owned())
        }
    }
}

/// How much the controller logs.
#[derive(Debug, Clone, Copy, PartialEq, Eq, Structural)]
pub enum LogLevel {
    Info,
    Debug,
    Trace,
}

/// The file name of a path: what follows the last separator.
pub open spec fn file_name_of(s: Seq<char>) -> Seq<char>
    decreases s.len(),
{
    if s.len() == 0 {
        s
    } else if s.last() == '/' {
        Seq::empty()
    } else {
        file_name_of(s.drop_last()).push(s.last())
    }
}

/// Does the path name a database file: its file name carries the extension
/// `db`, compared without regard to ASCII case. The extension is what
/// follows the last dot of the file name, and only counts when something
/// stands before that dot.
pub open spec fn valid_db_name(s: Seq<char>) -> bool {
    let f = file_name_of(s);
    &&& f.len() >= 4
    &&& f[f.len() - 3] == '.'
    &&& (f[f.len() - 2] == 'd' || f[f.len() - 2] == 'D')
    &&& (f[f.len() - 1] == 'b' || f[f.len() - 1] == 'B')
}

/// The file name is the suffix that follows the last separator: if nothing
/// at or after position `k` is a separator, and `k` sits just after one (or
/// at the start), the file name is the suffix from `k`.
proof fn lemma_file_name_suffix(s: Seq<char>, k: int)
    requires
        0 <= k <= s.len(),
        k > 0 ==> s[k - 1] == '/',
        forall|q: int| k <= q < s.len() ==> s[q] != '/',
    ensures
        file_name_of(s) == s.subrange(k, s.len() as int),
    decreases s.len(),
{
    if s.len() == 0 {
        assert(file_name_of(s) =~= s.subrange(k, s.len() as int));
    } else if s.last() == '/' {
        assert(k == s.len());
        assert(file_name_of(s) =~= s.subrange(k, s.len() as int));
    } else {
        assert(k < s.len());
        lemma_file_name_suffix(s.drop_last(), k);
        assert(s.drop_last().subrange(k, s.len() - 1) =~= s.subrange(k, s.len() - 1));
        assert(file_name_of(s) =~= s.subrange(k, s.len() as int));
    }
}

/// The configuration the controller boots with. The websocket entries only
/// steer the remote-control transport; the tokens are handed through to the
/// push transport.
#[derive(Debug, Clone)]
pub struct AppEnv {
    pub location_sqlite: String,
    pub log_level: LogLevel,
    pub start_time: u64,
    pub token_app: String,
    pub token_user: String,
    pub timezone: EnvTimeZone,
    pub ws_address: String,
    pub ws_apikey: String,
    pub ws_password: String,
    pub ws_token_address: String,
}

/// The zone name the configuration asks for: the `TZ` entry, or the empty
/// name when unset.
pub open spec fn spec_env_zone(m: Seq<(String, String)>) -> Seq<char> {
    match spec_lookup(m, "TZ"@) {
        Some(z) => z,
        None => Seq::<char>::empty(),
    }
}

/// The log level the configuration asks for.
pub open spec fn spec_parse_log(m: Seq<(String, String)>) -> LogLevel {
    if spec_lookup(m, "LOG_TRACE"@) == Some("true"@) {
        LogLevel::Trace
    } else if spec_lookup(m, "LOG_DEBUG"@) == Some("true"@) {
        LogLevel::Debug
    } else {
        LogLevel::Info
    }
}

/// Is the database location entry present and valid.
pub open spec fn spec_location_ok(m: Seq<(String, String)>) -> bool {
    spec_lookup(m, "LOCATION_SQLITE"@) matches Some(v) && valid_db_name(v)
}

impl AppEnv {
    /// Is the entry the word `true`; anything else, or absence, is false.
    pub fn parse_boolean(key: &str, map: &EnvMap) -> (r: bool)
        ensures
            r == (spec_lookup(map@, key@) == Some("true"@)),
    {
        match map.get(key) {
            Some(value) => *value == "true".to_owned(),
            None => false,
        }
    }

    /// Fetch an entry that must be present.
    pub fn parse_string(key: &str, map: &EnvMap) -> (r: Result<String, AppError>)
        ensures
            r matches Ok(v) ==> spec_lookup(map@, key@) == Some(v@),
            r is Ok <==> spec_lookup(map@, key@) is Some,
            r matches Err(e) ==> (e matches AppError::MissingEnv(k) && k@ == key@),
    {
        match map.get(key) {
            Some(value) => Ok(value.clone()),
            None => Err(AppError::MissingEnv(key.to_owned())),
        }
    }

    /// Fetch the database file entry; it must be present and name a `.db`
    /// file.
    pub fn parse_db_name(key: &str, map: &EnvMap) -> (r: Result<String, AppError>)
        ensures
            r matches Ok(v) ==> spec_lookup(map@, key@) == Some(v@) && valid_db_name(v@),
            r is Ok <==> (spec_lookup(map@, key@) matches Some(v) && valid_db_name(v)),
            spec_lookup(map@, key@) is None ==> (r matches Err(e) && e matches
                AppError::MissingEnv(k) && k@ == key@),
            (spec_lookup(map@, key@) matches Some(v) && !valid_db_name(v)) ==> (r matches Err(e)
                && e matches AppError::DbNameInvalid(k) && k@ == key@),
    {
        match map.get(key) {
            None => Err(AppError::MissingEnv(key.to_owned())),
            Some(value) => {
                if Self::db_extension_ok(value) {
                    Ok(value.clone())
                } else {
                    Err(AppError::DbNameInvalid(key.to_owned()))
                }
            },
        }
    }

    /// Does the value name a `.db` file.
    fn db_extension_ok(value: &String) -> (r: bool)
        ensures
            r == valid_db_name(value@),
    {
        let s = value.as_str();
        let len: usize = s.unicode_len();
        // Find the position right after the last separator.
        let mut start: usize = len;
        while start > 0
            invariant
                start <= len,
                len == s@.len(),
                forall|q: int| start <= q < len ==> s@[q] != '/',
            ensures
                start <= len,
                forall|q: int| start <= q < len ==> s@[q] != '/',
                start > 0 ==> s@[start - 1] == '/',
            decreases start,
        {
            if s.get_char(start - 1) == '/' {
                break ;
            }
            start = start - 1;
        }
        proof {
            lemma_file_name_suffix(s@, start as int);
        }
        let name_len: usize = len - start;
        if name_len < 4 {
            return false;
        }
        let dot = s.get_char(len - 3);
        let d = s.get_char(len - 2);
        let b = s.get_char(len - 1);
        dot == '.' && (d == 'd' || d == 'D') && (b == 'b' || b == 'B')
    }

    /// The zone the configuration asks for, checked against the timezone
    /// database; unknown or absent falls back.
    pub fn parse_timezone(map: &EnvMap) -> (r: EnvTimeZone)
        ensures
            r.0@ == (if is_known_zone(spec_env_zone(map@)) {
                spec_env_zone(map@)
            } else {
                "Etc/UTC"@
            }),
    {
        let zone = match map.get("TZ") {
            Some(value) => value.clone(),
            None => String::new(),
        };
        EnvTimeZone::new(zone)
    }

    /// Parse the debug and trace switches into a log level.
    pub fn parse_log(map: &EnvMap) -> (r: LogLevel)
        ensures
            r == spec_parse_log(map@),
    {
        if Self::parse_boolean("LOG_TRACE", map) {
            LogLevel::Trace
        } else if Self::parse_boolean("LOG_DEBUG", map) {
            LogLevel::Debug
        } else {
            LogLevel::Info
        }
    }

    /// Build the configuration from an environment snapshot and the boot
    /// instant. Fails on the first entry, in field order, that is absent
    /// (or, for the database location, invalid).
    pub fn generate(map: &EnvMap, start_time: u64) -> (r: Result<AppEnv, AppError>)
        ensures
            r is Ok <==> {
                &&& spec_location_ok(map@)
                &&& spec_lookup(map@, "TOKEN_APP"@) is Some
                &&& spec_lookup(map@, "TOKEN_USER"@) is Some
                &&& spec_lookup(map@, "WS_ADDRESS"@) is Some
                &&& spec_lookup(map@, "WS_APIKEY"@) is Some
                &&& spec_lookup(map@, "WS_PASSWORD"@) is Some
                &&& spec_lookup(map@, "WS_TOKEN_ADDRESS"@) is Some
            },
            r matches Ok(a) ==> {
                &&& spec_lookup(map@, "LOCATION_SQLITE"@) == Some(a.location_sqlite@)
                &&& valid_db_name(a.location_sqlite@)
                &&& a.log_level == spec_parse_log(map@)
                &&& a.start_time == start_time
                &&& a.timezone.0@ == (if is_known_zone(spec_env_zone(map@)) {
                    spec_env_zone(map@)
                } else {
                    "Etc/UTC"@
                })
                &&& spec_lookup(map@, "TOKEN_APP"@) == Some(a.token_app@)
                &&& spec_lookup(map@, "TOKEN_USER"@) == Some(a.token_user@)
                &&& spec_lookup(map@, "WS_ADDRESS"@) == Some(a.ws_address@)
                &&& spec_lookup(map@, "WS_APIKEY"@) == Some(a.ws_apikey@)
                &&& spec_lookup(map@, "WS_PASSWORD"@) == Some(a.ws_password@)
                &&& spec_lookup(map@, "WS_TOKEN_ADDRESS"@) == Some(a.ws_token_address@)
            },
            spec_lookup(map@, "LOCATION_SQLITE"@) is None ==> (r matches Err(e) && e matches
                AppError::MissingEnv(k) && k@ == "LOCATION_SQLITE"@),
            (spec_lookup(map@, "LOCATION_SQLITE"@) matches Some(v) && !valid_db_name(v)) ==> (
            r matches Err(e) && e matches AppError::DbNameInvalid(k) && k@ == "LOCATION_SQLITE"@),
            (spec_location_ok(map@) && spec_lookup(map@, "TOKEN_APP"@) is None) ==> (r matches Err(
                e,
            ) && e matches AppError::MissingEnv(k) && k@ == "TOKEN_APP"@),
            (spec_location_ok(map@) && spec_lookup(map@, "TOKEN_APP"@) is Some && spec_lookup(
                map@,
                "TOKEN_USER"@,
            ) is None) ==> (r matches Err(e) && e matches AppError::MissingEnv(k) && k@
                == "TOKEN_USER"@),
    {
        let location_sqlite = match Self::parse_db_name("LOCATION_SQLITE", map) {
            Ok(v) => v,
            Err(e) => { return Err(e) },
        };
        let log_level = Self::parse_log(map);
        let timezone = Self::parse_timezone(map);
        let token_app = match Self::parse_string("TOKEN_APP", map) {
            Ok(v) => v,
            Err(e) => { return Err(e) },
        };
        let token_user = match Self::parse_string("TOKEN_USER", map) {
            Ok(v) => v,
            Err(e) => { return Err(e) },
        };
        let ws_address = match Self::parse_string("WS_ADDRESS", map) {
            Ok(v) => v,
            Err(e) => { return Err(e) },
        };
        let ws_apikey = match Self::parse_string("WS_APIKEY", map) {
            Ok(v) => v,
            Err(e) => { return Err(e) },
        };
        let ws_password = match Self::parse_string("WS_PASSWORD", map) {
            Ok(v) => v,
            Err(e) => { return Err(e) },
        };
        let ws_token_address = match Self::parse_string("WS_TOKEN_ADDRESS", map) {
            Ok(v) => v,
            Err(e) => { return Err(e) },
        };
        Ok(
            AppEnv {
                location_sqlite,
                log_level,
                start_time,
                token_app,
                token_user,
                timezone,
                ws_address,
                ws_apikey,
                ws_password,
                ws_token_address,
            },
        )
    }
}

} // verus!
