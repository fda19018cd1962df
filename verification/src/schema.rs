//! The configuration schema: the typed sections of the document, their
//! required and defaulted fields, and the verified decoders that turn a
//! parsed value tree into schema values.

use vstd::prelude::*;

use crate::client::TTClient;
use crate::error::DecodeError;
use crate::parse::{parse_toml, toml_tree_of};
use crate::sets::{
    all_area, all_routing, all_u16s, has_area, has_routing, has_str, has_u16, nodup_area,
    nodup_routing, nodup_str, nodup_u16, seq_has_area, seq_has_routing, seq_has_str, seq_has_u16,
    take_opt_area_set, take_opt_str_set, take_opt_u16_set, take_routing_set,
};
use crate::value::{
    all_strs, eq_str, lookup, lookup_entry, missing_err, take_bool_or, take_i64_or, take_opt_bool,
    take_opt_str, take_opt_str_list, take_opt_u16, take_opt_usize, take_req_bool, take_req_str,
    take_u64_or, wrong_type_err, TomlValue,
};

verus! {

/// A kind of routing work, named in the document by the feed it belongs
/// to. The enumeration itself is owned by a collaborator module; only its
/// set-element role matters here.
#[derive(Clone, Copy, PartialEq, Eq, Structural, Debug, Hash)]
pub enum RoutingType {
    /// Routing over the bus feed.
    Bus,
    /// Routing over the rail feed.
    Rail,
}

/// A service area kind, named in the document by its text form. The
/// enumeration itself is owned by a collaborator module; only its
/// set-element role matters here.
#[derive(Clone, Copy, PartialEq, Eq, Structural, Debug, Hash)]
pub enum AreaType {
    /// An extraurban service area.
    Extraurban,
    /// An urban service area.
    Urban,
}

/// The routing type a string names, if any.
pub open spec fn spec_routing_type_of(s: Seq<char>) -> Option<RoutingType> {
    if s == "bus"@ {
        Some(RoutingType::Bus)
    } else if s == "rail"@ {
        Some(RoutingType::Rail)
    } else {
        None
    }
}

/// Parses the text form of a routing type.
pub fn routing_type_of(s: &String) -> (r: Option<RoutingType>)
    ensures
        r == spec_routing_type_of(s@),
{
    if eq_str(s, "bus") {
        Some(RoutingType::Bus)
    } else if eq_str(s, "rail") {
        Some(RoutingType::Rail)
    } else {
        None
    }
}

/// The area type a string names, if any.
pub open spec fn spec_area_type_of(s: Seq<char>) -> Option<AreaType> {
    if s == "extraurban"@ {
        Some(AreaType::Extraurban)
    } else if s == "urban"@ {
        Some(AreaType::Urban)
    } else {
        None
    }
}

/// Parses the text form of an area type.
pub fn area_type_of(s: &String) -> (r: Option<AreaType>)
    ensures
        r == spec_area_type_of(s@),
{
    if eq_str(s, "extraurban") {
        Some(AreaType::Extraurban)
    } else if eq_str(s, "urban") {
        Some(AreaType::Urban)
    } else {
        None
    }
}

/// The default of `ApiConfig::default_limit`.
pub const DEFAULT_API_DEFAULT_LIMIT: i64 = 20;

/// The default of `ApiConfig::max_rt_age`.
pub const DEFAULT_API_MAX_RT_AGE: u64 = 0;

/// Default applied to `ApiConfig::default_limit` when the field is absent.
pub fn get_default_api_default_limit() -> (r: i64)
    ensures
        r == DEFAULT_API_DEFAULT_LIMIT,
{
    DEFAULT_API_DEFAULT_LIMIT
}

/// Default applied to `ApiConfig::max_rt_age` when the field is absent.
pub fn get_default_api_max_rt_age() -> (r: u64)
    ensures
        r == DEFAULT_API_MAX_RT_AGE,
{
    DEFAULT_API_MAX_RT_AGE
}

/// Default applied to `RoutingConfig::exit_on_err` when the field is absent.
pub fn get_true() -> (r: bool)
    ensures
        r == true,
{
    true
}

/// `key` holds a string in `t`.
pub open spec fn str_field_ok(t: Seq<(String, TomlValue)>, key: Seq<char>) -> bool {
    lookup(t, key) matches Some(v) && v is Str
}

/// The characters of the string under `key`.
pub open spec fn str_field(t: Seq<(String, TomlValue)>, key: Seq<char>) -> Seq<char> {
    lookup(t, key)->Some_0->Str_0@
}

/// `key` holds a boolean in `t`.
pub open spec fn req_bool_ok(t: Seq<(String, TomlValue)>, key: Seq<char>) -> bool {
    lookup(t, key) matches Some(v) && v is Bool
}

/// The error reported for a required field: missing when absent, wrongly
/// typed otherwise, in either case at `path`.
pub open spec fn field_err(
    t: Seq<(String, TomlValue)>,
    key: Seq<char>,
    path: Seq<char>,
    e: DecodeError,
) -> bool {
    match lookup(t, key) {
        None => missing_err(e, path),
        Some(_) => wrong_type_err(e, path),
    }
}

/// `key` is absent or holds an integer that fits a `u16`.
pub open spec fn opt_u16_field_ok(t: Seq<(String, TomlValue)>, key: Seq<char>) -> bool {
    match lookup(t, key) {
        None => true,
        Some(v) => v matches TomlValue::Int(i) && 0 <= i <= u16::MAX,
    }
}

/// The `u16` under `key`, if present.
pub open spec fn opt_u16_field(t: Seq<(String, TomlValue)>, key: Seq<char>) -> Option<u16> {
    match lookup(t, key) {
        None => None,
        Some(v) => Some(v->Int_0 as u16),
    }
}

/// `key` is absent or holds an integer that fits a `usize`.
pub open spec fn opt_usize_field_ok(t: Seq<(String, TomlValue)>, key: Seq<char>) -> bool {
    match lookup(t, key) {
        None => true,
        Some(v) => v matches TomlValue::Int(i) && 0 <= i <= usize::MAX,
    }
}

/// The `usize` under `key`, if present.
pub open spec fn opt_usize_field(t: Seq<(String, TomlValue)>, key: Seq<char>) -> Option<usize> {
    match lookup(t, key) {
        None => None,
        Some(v) => Some(v->Int_0 as usize),
    }
}

/// `key` is absent or holds a boolean.
pub open spec fn opt_bool_field_ok(t: Seq<(String, TomlValue)>, key: Seq<char>) -> bool {
    match lookup(t, key) {
        None => true,
        Some(v) => v is Bool,
    }
}

/// `b` is the boolean under `key`, or `default` when the key is absent.
pub open spec fn bool_or_matches(
    b: bool,
    t: Seq<(String, TomlValue)>,
    key: Seq<char>,
    default: bool,
) -> bool {
    match lookup(t, key) {
        None => b == default,
        Some(v) => v == TomlValue::Bool(b),
    }
}

/// `key` is absent or holds an integer.
pub open spec fn i64_field_ok(t: Seq<(String, TomlValue)>, key: Seq<char>) -> bool {
    match lookup(t, key) {
        None => true,
        Some(v) => v is Int,
    }
}

/// `n` is the integer under `key`, or `default` when the key is absent.
pub open spec fn i64_or_matches(
    n: i64,
    t: Seq<(String, TomlValue)>,
    key: Seq<char>,
    default: i64,
) -> bool {
    match lookup(t, key) {
        None => n == default,
        Some(v) => v == TomlValue::Int(n),
    }
}

/// `key` is absent or holds a nonnegative integer.
pub open spec fn u64_field_ok(t: Seq<(String, TomlValue)>, key: Seq<char>) -> bool {
    match lookup(t, key) {
        None => true,
        Some(v) => v matches TomlValue::Int(i) && 0 <= i,
    }
}

/// `n` is the integer under `key`, or `default` when the key is absent.
pub open spec fn u64_or_matches(
    n: u64,
    t: Seq<(String, TomlValue)>,
    key: Seq<char>,
    default: u64,
) -> bool {
    match lookup(t, key) {
        None => n == default,
        Some(v) => v matches TomlValue::Int(i) && n == i as u64,
    }
}

/// `key` is absent or holds a string.
pub open spec fn opt_str_field_ok(t: Seq<(String, TomlValue)>, key: Seq<char>) -> bool {
    match lookup(t, key) {
        None => true,
        Some(v) => v is Str,
    }
}

/// `o` carries the string under `key`, or nothing when the key is absent.
pub open spec fn opt_str_matches(
    o: Option<String>,
    t: Seq<(String, TomlValue)>,
    key: Seq<char>,
) -> bool {
    match lookup(t, key) {
        None => o is None,
        Some(v) => o matches Some(s) && s@ == v->Str_0@,
    }
}

/// `key` is absent or holds an array of strings.
pub open spec fn opt_str_list_ok(t: Seq<(String, TomlValue)>, key: Seq<char>) -> bool {
    match lookup(t, key) {
        None => true,
        Some(v) => v matches TomlValue::Arr(items) && all_strs(items@),
    }
}

/// `o` carries the strings under `key` in order, or nothing when the key
/// is absent.
pub open spec fn opt_str_list_matches(
    o: Option<Vec<String>>,
    t: Seq<(String, TomlValue)>,
    key: Seq<char>,
) -> bool {
    match lookup(t, key) {
        None => o is None,
        Some(v) => o matches Some(ss) && ss@.len() == v->Arr_0@.len() && (forall|j: int|
            0 <= j < ss@.len() ==> ss@[j]@ == v->Arr_0@[j]->Str_0@),
    }
}

/// The elements of the array under `key`; an absent key reads as the
/// empty array.
pub open spec fn set_elems(t: Seq<(String, TomlValue)>, key: Seq<char>) -> Seq<TomlValue> {
    match lookup(t, key) {
        None => Seq::empty(),
        Some(v) => v->Arr_0@,
    }
}

/// Configuration of the database connection.
#[derive(Debug)]
pub struct DBConfig {
    pub(crate) host: String,
    pub(crate) db: String,
    pub(crate) user: String,
    pub(crate) password: String,
    pub(crate) port: Option<u16>,
}

impl DBConfig {
    /// The configured host name.
    pub closed spec fn spec_host(&self) -> Seq<char> {
        self.host@
    }

    /// The configured logical database name.
    pub closed spec fn spec_db(&self) -> Seq<char> {
        self.db@
    }

    /// The configured user name.
    pub closed spec fn spec_user(&self) -> Seq<char> {
        self.user@
    }

    /// The configured password.
    pub closed spec fn spec_password(&self) -> Seq<char> {
        self.password@
    }

    /// The configured port, if any.
    pub closed spec fn spec_port(&self) -> Option<u16> {
        self.port
    }

    /// The configured logical database name, for namespace selection.
    pub fn get_db(&self) -> (r: &str)
        ensures
            r@ == self.spec_db(),
    {
        self.db.as_str()
    }
}

/// The shape a `db` section must have.
pub open spec fn db_ok(t: Seq<(String, TomlValue)>) -> bool {
    &&& str_field_ok(t, "host"@)
    &&& str_field_ok(t, "db"@)
    &&& str_field_ok(t, "user"@)
    &&& str_field_ok(t, "password"@)
    &&& opt_u16_field_ok(t, "port"@)
}

/// `c` carries exactly the fields of the `db` section `t`.
pub open spec fn db_matches(c: DBConfig, t: Seq<(String, TomlValue)>) -> bool {
    &&& c.spec_host() == str_field(t, "host"@)
    &&& c.spec_db() == str_field(t, "db"@)
    &&& c.spec_user() == str_field(t, "user"@)
    &&& c.spec_password() == str_field(t, "password"@)
    &&& c.spec_port() == opt_u16_field(t, "port"@)
}

/// The error a malformed `db` section decodes to: the first offending
/// field in declaration order.
pub open spec fn db_err(t: Seq<(String, TomlValue)>, e: DecodeError) -> bool {
    if !str_field_ok(t, "host"@) {
        field_err(t, "host"@, "db.host"@, e)
    } else if !str_field_ok(t, "db"@) {
        field_err(t, "db"@, "db.db"@, e)
    } else if !str_field_ok(t, "user"@) {
        field_err(t, "user"@, "db.user"@, e)
    } else if !str_field_ok(t, "password"@) {
        field_err(t, "password"@, "db.password"@, e)
    } else {
        wrong_type_err(e, "db.port"@)
    }
}

impl DBConfig {
    /// Decodes a `db` section: succeeds exactly on well-shaped tables and
    /// then carries their fields verbatim.
    pub fn from_table(t: &Vec<(String, TomlValue)>) -> (r: Result<DBConfig, DecodeError>)
        ensures
            r is Ok <==> db_ok(t@),
            r matches Ok(c) ==> db_matches(c, t@),
            r matches Err(e) ==> db_err(t@, e),
    {
        let host = match take_req_str(t, "host", "db.host") {
            Ok(v) => v,
            Err(e) => {
                return Err(e);
            },
        };
        let db = match take_req_str(t, "db", "db.db") {
            Ok(v) => v,
            Err(e) => {
                return Err(e);
            },
        };
        let user = match take_req_str(t, "user", "db.user") {
            Ok(v) => v,
            Err(e) => {
                return Err(e);
            },
        };
        let password = match take_req_str(t, "password", "db.password") {
            Ok(v) => v,
            Err(e) => {
                return Err(e);
            },
        };
        let port = match take_opt_u16(t, "port", "db.port") {
            Ok(v) => v,
            Err(e) => {
                return Err(e);
            },
        };
        Ok(DBConfig { host, db, user, password, port })
    }
}

/// Configuration of the external transit-data client.
#[derive(Debug)]
pub struct TTConfig {
    pub(crate) secret: String,
    pub(crate) base_url: String,
}

impl TTConfig {
    /// The configured shared secret.
    pub closed spec fn spec_secret(&self) -> Seq<char> {
        self.secret@
    }

    /// The configured base URL.
    pub closed spec fn spec_base_url(&self) -> Seq<char> {
        self.base_url@
    }
}

/// The shape a `tt` section must have.
pub open spec fn tt_ok(t: Seq<(String, TomlValue)>) -> bool {
    &&& str_field_ok(t, "secret"@)
    &&& str_field_ok(t, "base_url"@)
}

/// `c` carries exactly the fields of the `tt` section `t`.
pub open spec fn tt_matches(c: TTConfig, t: Seq<(String, TomlValue)>) -> bool {
    &&& c.spec_secret() == str_field(t, "secret"@)
    &&& c.spec_base_url() == str_field(t, "base_url"@)
}

/// The error a malformed `tt` section decodes to.
pub open spec fn tt_err(t: Seq<(String, TomlValue)>, e: DecodeError) -> bool {
    if !str_field_ok(t, "secret"@) {
        field_err(t, "secret"@, "tt.secret"@, e)
    } else {
        field_err(t, "base_url"@, "tt.base_url"@, e)
    }
}

impl TTConfig {
    /// Decodes a `tt` section: succeeds exactly on well-shaped tables and
    /// then carries their fields verbatim.
    pub fn from_table(t: &Vec<(String, TomlValue)>) -> (r: Result<TTConfig, DecodeError>)
        ensures
            r is Ok <==> tt_ok(t@),
            r matches Ok(c) ==> tt_matches(c, t@),
            r matches Err(e) ==> tt_err(t@, e),
    {
        let secret = match take_req_str(t, "secret", "tt.secret") {
            Ok(v) => v,
            Err(e) => {
                return Err(e);
            },
        };
        let base_url = match take_req_str(t, "base_url", "tt.base_url") {
            Ok(v) => v,
            Err(e) => {
                return Err(e);
            },
        };
        Ok(TTConfig { secret, base_url })
    }
}

/// Configuration of the HTTP API layer. Every field is optional or
/// defaulted; the CORS fields are mutually independent.
#[derive(Debug)]
pub struct ApiConfig {
    pub cors_allowed_origin: Option<String>,
    pub cors_allowed_methods: Option<Vec<String>>,
    pub cors_allowed_headers: Option<Vec<String>>,
    pub cors_allow_credentials: Option<bool>,
    pub default_limit: i64,
    pub max_rt_age: u64,
}

/// The shape an `api` section must have.
pub open spec fn api_ok(t: Seq<(String, TomlValue)>) -> bool {
    &&& opt_str_field_ok(t, "cors_allowed_origin"@)
    &&& opt_str_list_ok(t, "cors_allowed_methods"@)
    &&& opt_str_list_ok(t, "cors_allowed_headers"@)
    &&& opt_bool_field_ok(t, "cors_allow_credentials"@)
    &&& i64_field_ok(t, "default_limit"@)
    &&& u64_field_ok(t, "max_rt_age"@)
}

/// `c` carries exactly the fields of the `api` section `t`, with the
/// documented defaults where a field is absent.
pub open spec fn api_matches(c: ApiConfig, t: Seq<(String, TomlValue)>) -> bool {
    &&& opt_str_matches(c.cors_allowed_origin, t, "cors_allowed_origin"@)
    &&& opt_str_list_matches(c.cors_allowed_methods, t, "cors_allowed_methods"@)
    &&& opt_str_list_matches(c.cors_allowed_headers, t, "cors_allowed_headers"@)
    &&& (match lookup(t, "cors_allow_credentials"@) {
        None => c.cors_allow_credentials is None,
        Some(v) => v matches TomlValue::Bool(b) && c.cors_allow_credentials == Some(b),
    })
    &&& i64_or_matches(c.default_limit, t, "default_limit"@, DEFAULT_API_DEFAULT_LIMIT)
    &&& u64_or_matches(c.max_rt_age, t, "max_rt_age"@, DEFAULT_API_MAX_RT_AGE)
}

/// The error a malformed `api` section decodes to: the first offending
/// field in declaration order.
pub open spec fn api_err(t: Seq<(String, TomlValue)>, e: DecodeError) -> bool {
    if !opt_str_field_ok(t, "cors_allowed_origin"@) {
        wrong_type_err(e, "api.cors_allowed_origin"@)
    } else if !opt_str_list_ok(t, "cors_allowed_methods"@) {
        wrong_type_err(e, "api.cors_allowed_methods"@)
    } else if !opt_str_list_ok(t, "cors_allowed_headers"@) {
        wrong_type_err(e, "api.cors_allowed_headers"@)
    } else if !opt_bool_field_ok(t, "cors_allow_credentials"@) {
        wrong_type_err(e, "api.cors_allow_credentials"@)
    } else if !i64_field_ok(t, "default_limit"@) {
        wrong_type_err(e, "api.default_limit"@)
    } else {
        wrong_type_err(e, "api.max_rt_age"@)
    }
}

impl ApiConfig {
    /// Decodes an `api` section: succeeds exactly on well-shaped tables,
    /// carrying their fields and the documented defaults.
    pub fn from_table(t: &Vec<(String, TomlValue)>) -> (r: Result<ApiConfig, DecodeError>)
        ensures
            r is Ok <==> api_ok(t@),
            r matches Ok(c) ==> api_matches(c, t@),
            r matches Err(e) ==> api_err(t@, e),
    {
        let cors_allowed_origin = match take_opt_str(
            t,
            "cors_allowed_origin",
            "api.cors_allowed_origin",
        ) {
            Ok(v) => v,
            Err(e) => {
                return Err(e);
            },
        };
        let cors_allowed_methods = match take_opt_str_list(
            t,
            "cors_allowed_methods",
            "api.cors_allowed_methods",
        ) {
            Ok(v) => v,
            Err(e) => {
                return Err(e);
            },
        };
        let cors_allowed_headers = match take_opt_str_list(
            t,
            "cors_allowed_headers",
            "api.cors_allowed_headers",
        ) {
            Ok(v) => v,
            Err(e) => {
                return Err(e);
            },
        };
        let cors_allow_credentials = match take_opt_bool(
            t,
            "cors_allow_credentials",
            "api.cors_allow_credentials",
        ) {
            Ok(v) => v,
            Err(e) => {
                return Err(e);
            },
        };
        let default_limit = match take_i64_or(
            t,
            "default_limit",
            "api.default_limit",
            get_default_api_default_limit(),
        ) {
            Ok(v) => v,
            Err(e) => {
                return Err(e);
            },
        };
        let max_rt_age = match take_u64_or(
            t,
            "max_rt_age",
            "api.max_rt_age",
            get_default_api_max_rt_age(),
        ) {
            Ok(v) => v,
            Err(e) => {
                return Err(e);
            },
        };
        Ok(
            ApiConfig {
                cors_allowed_origin,
                cors_allowed_methods,
                cors_allowed_headers,
                cors_allow_credentials,
                default_limit,
                max_rt_age,
            },
        )
    }
}

/// `key` is absent or holds an array of routing-type names.
pub open spec fn routing_set_field_ok(t: Seq<(String, TomlValue)>, key: Seq<char>) -> bool {
    match lookup(t, key) {
        None => true,
        Some(v) => v matches TomlValue::Arr(items) && all_routing(items@),
    }
}

/// `xs` is, without duplicates, exactly the set of routing types the
/// array under `key` names; an absent key names none.
pub open spec fn routing_set_matches(
    xs: Seq<RoutingType>,
    t: Seq<(String, TomlValue)>,
    key: Seq<char>,
) -> bool {
    nodup_routing(xs) && (forall|x: RoutingType|
        #[trigger] seq_has_routing(xs, x) <==> has_routing(set_elems(t, key), x))
}

/// `key` is absent or holds an array of integers that fit a `u16`.
pub open spec fn opt_u16_set_ok(t: Seq<(String, TomlValue)>, key: Seq<char>) -> bool {
    match lookup(t, key) {
        None => true,
        Some(v) => v matches TomlValue::Arr(items) && all_u16s(items@),
    }
}

/// `o` is, without duplicates, exactly the set of integers under `key`,
/// or nothing when the key is absent.
pub open spec fn opt_u16_set_matches(
    o: Option<Vec<u16>>,
    t: Seq<(String, TomlValue)>,
    key: Seq<char>,
) -> bool {
    match lookup(t, key) {
        None => o is None,
        Some(v) => o matches Some(xs) && nodup_u16(xs@) && (forall|x: u16|
            #[trigger] seq_has_u16(xs@, x) <==> has_u16(v->Arr_0@, x)),
    }
}

/// `key` is absent or holds an array of area-type names.
pub open spec fn opt_area_set_ok(t: Seq<(String, TomlValue)>, key: Seq<char>) -> bool {
    match lookup(t, key) {
        None => true,
        Some(v) => v matches TomlValue::Arr(items) && all_area(items@),
    }
}

/// `o` is, without duplicates, exactly the set of area types the array
/// under `key` names, or nothing when the key is absent.
pub open spec fn opt_area_set_matches(
    o: Option<Vec<AreaType>>,
    t: Seq<(String, TomlValue)>,
    key: Seq<char>,
) -> bool {
    match lookup(t, key) {
        None => o is None,
        Some(v) => o matches Some(xs) && nodup_area(xs@) && (forall|x: AreaType|
            #[trigger] seq_has_area(xs@, x) <==> has_area(v->Arr_0@, x)),
    }
}

/// `key` is absent or holds an array of strings.
pub open spec fn opt_str_set_ok(t: Seq<(String, TomlValue)>, key: Seq<char>) -> bool {
    opt_str_list_ok(t, key)
}

/// `o` is, with no two elements reading the same, exactly the set of
/// strings under `key`, or nothing when the key is absent.
pub open spec fn opt_str_set_matches(
    o: Option<Vec<String>>,
    t: Seq<(String, TomlValue)>,
    key: Seq<char>,
) -> bool {
    match lookup(t, key) {
        None => o is None,
        Some(v) => o matches Some(ss) && nodup_str(ss@) && (forall|s: Seq<char>|
            #[trigger] seq_has_str(ss@, s) <==> has_str(v->Arr_0@, s)),
    }
}

/// Configuration of the routing and ingestion pipeline. The set-valued
/// fields carry no duplicates; no rule ties one field to another.
#[derive(Debug)]
pub struct RoutingConfig {
    pub host: String,
    pub port: Option<u16>,
    pub url_bus: String,
    pub url_rail: String,
    pub exit_on_err: bool,
    pub get_trips: bool,
    pub skip_routing_types: Vec<RoutingType>,
    pub deep_trip_check: bool,
    pub parallel_downloads: Option<usize>,
    pub dry_run: bool,
    pub filter_area: Option<Vec<u16>>,
    pub filter_area_type: Option<Vec<AreaType>>,
    pub filter_code: Option<Vec<String>>,
    pub max_trip_requests: Option<usize>,
}

impl RoutingConfig {
    /// Well-formedness: the set-valued fields carry no duplicates.
    pub open spec fn wf(&self) -> bool {
        &&& nodup_routing(self.skip_routing_types@)
        &&& (self.filter_area matches Some(xs) ==> nodup_u16(xs@))
        &&& (self.filter_area_type matches Some(xs) ==> nodup_area(xs@))
        &&& (self.filter_code matches Some(ss) ==> nodup_str(ss@))
    }
}

/// The shape a `routing` section must have.
pub open spec fn routing_ok(t: Seq<(String, TomlValue)>) -> bool {
    &&& str_field_ok(t, "host"@)
    &&& opt_u16_field_ok(t, "port"@)
    &&& str_field_ok(t, "url_bus"@)
    &&& str_field_ok(t, "url_rail"@)
    &&& opt_bool_field_ok(t, "exit_on_err"@)
    &&& req_bool_ok(t, "get_trips"@)
    &&& routing_set_field_ok(t, "skip_routing_types"@)
    &&& opt_bool_field_ok(t, "deep_trip_check"@)
    &&& opt_usize_field_ok(t, "parallel_downloads"@)
    &&& opt_bool_field_ok(t, "dry_run"@)
    &&& opt_u16_set_ok(t, "filter_area"@)
    &&& opt_area_set_ok(t, "filter_area_type"@)
    &&& opt_str_set_ok(t, "filter_code"@)
    &&& opt_usize_field_ok(t, "max_trip_requests"@)
}

/// `c` carries exactly the fields of the `routing` section `t`, with the
/// documented defaults where a defaulted field is absent.
pub open spec fn routing_matches(c: RoutingConfig, t: Seq<(String, TomlValue)>) -> bool {
    &&& c.host@ == str_field(t, "host"@)
    &&& c.port == opt_u16_field(t, "port"@)
    &&& c.url_bus@ == str_field(t, "url_bus"@)
    &&& c.url_rail@ == str_field(t, "url_rail"@)
    &&& bool_or_matches(c.exit_on_err, t, "exit_on_err"@, true)
    &&& lookup(t, "get_trips"@) == Some(TomlValue::Bool(c.get_trips))
    &&& routing_set_matches(c.skip_routing_types@, t, "skip_routing_types"@)
    &&& bool_or_matches(c.deep_trip_check, t, "deep_trip_check"@, false)
    &&& c.parallel_downloads == opt_usize_field(t, "parallel_downloads"@)
    &&& bool_or_matches(c.dry_run, t, "dry_run"@, false)
    &&& opt_u16_set_matches(c.filter_area, t, "filter_area"@)
    &&& opt_area_set_matches(c.filter_area_type, t, "filter_area_type"@)
    &&& opt_str_set_matches(c.filter_code, t, "filter_code"@)
    &&& c.max_trip_requests == opt_usize_field(t, "max_trip_requests"@)
}

/// The error a malformed `routing` section decodes to: the first
/// offending field in declaration order.
pub open spec fn routing_err(t: Seq<(String, TomlValue)>, e: DecodeError) -> bool {
    if !str_field_ok(t, "host"@) {
        field_err(t, "host"@, "routing.host"@, e)
    } else if !opt_u16_field_ok(t, "port"@) {
        wrong_type_err(e, "routing.port"@)
    } else if !str_field_ok(t, "url_bus"@) {
        field_err(t, "url_bus"@, "routing.url_bus"@, e)
    } else if !str_field_ok(t, "url_rail"@) {
        field_err(t, "url_rail"@, "routing.url_rail"@, e)
    } else if !opt_bool_field_ok(t, "exit_on_err"@) {
        wrong_type_err(e, "routing.exit_on_err"@)
    } else if !req_bool_ok(t, "get_trips"@) {
        field_err(t, "get_trips"@, "routing.get_trips"@, e)
    } else if !routing_set_field_ok(t, "skip_routing_types"@) {
        wrong_type_err(e, "routing.skip_routing_types"@)
    } else if !opt_bool_field_ok(t, "deep_trip_check"@) {
        wrong_type_err(e, "routing.deep_trip_check"@)
    } else if !opt_usize_field_ok(t, "parallel_downloads"@) {
        wrong_type_err(e, "routing.parallel_downloads"@)
    } else if !opt_bool_field_ok(t, "dry_run"@) {
        wrong_type_err(e, "routing.dry_run"@)
    } else if !opt_u16_set_ok(t, "filter_area"@) {
        wrong_type_err(e, "routing.filter_area"@)
    } else if !opt_area_set_ok(t, "filter_area_type"@) {
        wrong_type_err(e, "routing.filter_area_type"@)
    } else if !opt_str_set_ok(t, "filter_code"@) {
        wrong_type_err(e, "routing.filter_code"@)
    } else {
        wrong_type_err(e, "routing.max_trip_requests"@)
    }
}

impl RoutingConfig {
    /// Decodes a `routing` section: succeeds exactly on well-shaped
    /// tables, carrying their fields, the documented defaults, and the
    /// deduplicated sets.
    pub fn from_table(t: &Vec<(String, TomlValue)>) -> (r: Result<RoutingConfig, DecodeError>)
        ensures
            r is Ok <==> routing_ok(t@),
            r matches Ok(c) ==> routing_matches(c, t@) && c.wf(),
            r matches Err(e) ==> routing_err(t@, e),
    {
        let host = match take_req_str(t, "host", "routing.host") {
            Ok(v) => v,
            Err(e) => {
                return Err(e);
            },
        };
        let port = match take_opt_u16(t, "port", "routing.port") {
            Ok(v) => v,
            Err(e) => {
                return Err(e);
            },
        };
        let url_bus = match take_req_str(t, "url_bus", "routing.url_bus") {
            Ok(v) => v,
            Err(e) => {
                return Err(e);
            },
        };
        let url_rail = match take_req_str(t, "url_rail", "routing.url_rail") {
            Ok(v) => v,
            Err(e) => {
                return Err(e);
            },
        };
        let exit_on_err = match take_bool_or(t, "exit_on_err", "routing.exit_on_err", get_true()) {
            Ok(v) => v,
            Err(e) => {
                return Err(e);
            },
        };
        let get_trips = match take_req_bool(t, "get_trips", "routing.get_trips") {
            Ok(v) => v,
            Err(e) => {
                return Err(e);
            },
        };
        let skip_routing_types = match take_routing_set(
            t,
            "skip_routing_types",
            "routing.skip_routing_types",
        ) {
            Ok(v) => v,
            Err(e) => {
                return Err(e);
            },
        };
        let deep_trip_check = match take_bool_or(t, "deep_trip_check", "routing.deep_trip_check", false) {
            Ok(v) => v,
            Err(e) => {
                return Err(e);
            },
        };
        let parallel_downloads = match take_opt_usize(
            t,
            "parallel_downloads",
            "routing.parallel_downloads",
        ) {
            Ok(v) => v,
            Err(e) => {
                return Err(e);
            },
        };
        let dry_run = match take_bool_or(t, "dry_run", "routing.dry_run", false) {
            Ok(v) => v,
            Err(e) => {
                return Err(e);
            },
        };
        let filter_area = match take_opt_u16_set(t, "filter_area", "routing.filter_area") {
            Ok(v) => v,
            Err(e) => {
                return Err(e);
            },
        };
        let filter_area_type = match take_opt_area_set(
            t,
            "filter_area_type",
            "routing.filter_area_type",
        ) {
            Ok(v) => v,
            Err(e) => {
                return Err(e);
            },
        };
        let filter_code = match take_opt_str_set(t, "filter_code", "routing.filter_code") {
            Ok(v) => v,
            Err(e) => {
                return Err(e);
            },
        };
        let max_trip_requests = match take_opt_usize(
            t,
            "max_trip_requests",
            "routing.max_trip_requests",
        ) {
            Ok(v) => v,
            Err(e) => {
                return Err(e);
            },
        };
        Ok(
            RoutingConfig {
                host,
                port,
                url_bus,
                url_rail,
                exit_on_err,
                get_trips,
                skip_routing_types,
                deep_trip_check,
                parallel_downloads,
                dry_run,
                filter_area,
                filter_area_type,
                filter_code,
                max_trip_requests,
            },
        )
    }
}

/// The whole configuration: one value per section of the document.
#[derive(Debug)]
pub struct BrussConfig {
    pub db: DBConfig,
    pub tt: TTConfig,
    pub routing: RoutingConfig,
    pub api: ApiConfig,
}

/// `key` holds a table in `es`.
pub open spec fn sect_ok(es: Seq<(String, TomlValue)>, key: Seq<char>) -> bool {
    lookup(es, key) matches Some(v) && v is Table
}

/// The entries of the table under `key`.
pub open spec fn sect(es: Seq<(String, TomlValue)>, key: Seq<char>) -> Seq<(String, TomlValue)> {
    lookup(es, key)->Some_0->Table_0@
}

/// The shape a whole document must have: all four sections present, each
/// a well-shaped table.
pub open spec fn bruss_ok(es: Seq<(String, TomlValue)>) -> bool {
    &&& sect_ok(es, "db"@) && db_ok(sect(es, "db"@))
    &&& sect_ok(es, "tt"@) && tt_ok(sect(es, "tt"@))
    &&& sect_ok(es, "routing"@) && routing_ok(sect(es, "routing"@))
    &&& sect_ok(es, "api"@) && api_ok(sect(es, "api"@))
}

/// `c` carries exactly the content of the document `es`.
pub open spec fn bruss_matches(c: BrussConfig, es: Seq<(String, TomlValue)>) -> bool {
    &&& db_matches(c.db, sect(es, "db"@))
    &&& tt_matches(c.tt, sect(es, "tt"@))
    &&& routing_matches(c.routing, sect(es, "routing"@))
    &&& api_matches(c.api, sect(es, "api"@))
}

/// The error a malformed document decodes to: the first offending
/// section in order, and within it the first offending field.
pub open spec fn bruss_err(es: Seq<(String, TomlValue)>, e: DecodeError) -> bool {
    if !sect_ok(es, "db"@) {
        field_err(es, "db"@, "db"@, e)
    } else if !db_ok(sect(es, "db"@)) {
        db_err(sect(es, "db"@), e)
    } else if !sect_ok(es, "tt"@) {
        field_err(es, "tt"@, "tt"@, e)
    } else if !tt_ok(sect(es, "tt"@)) {
        tt_err(sect(es, "tt"@), e)
    } else if !sect_ok(es, "routing"@) {
        field_err(es, "routing"@, "routing"@, e)
    } else if !routing_ok(sect(es, "routing"@)) {
        routing_err(sect(es, "routing"@), e)
    } else if !sect_ok(es, "api"@) {
        field_err(es, "api"@, "api"@, e)
    } else {
        api_err(sect(es, "api"@), e)
    }
}

impl BrussConfig {
    /// Decodes a whole document from its parsed entries: succeeds exactly
    /// on well-shaped documents and then carries their content verbatim.
    pub fn from_table(es: &Vec<(String, TomlValue)>) -> (r: Result<BrussConfig, DecodeError>)
        ensures
            r is Ok <==> bruss_ok(es@),
            r matches Ok(c) ==> bruss_matches(c, es@) && c.routing.wf(),
            r matches Err(e) ==> bruss_err(es@, e),
    {
        let db = match lookup_entry(es, "db") {
            Some(TomlValue::Table(t)) => match DBConfig::from_table(t) {
                Ok(v) => v,
                Err(e) => {
                    return Err(e);
                },
            },
            Some(_) => {
                return Err(DecodeError::WrongType("db".to_owned()));
            },
            None => {
                return Err(DecodeError::MissingField("db".to_owned()));
            },
        };
        let tt = match lookup_entry(es, "tt") {
            Some(TomlValue::Table(t)) => match TTConfig::from_table(t) {
                Ok(v) => v,
                Err(e) => {
                    return Err(e);
                },
            },
            Some(_) => {
                return Err(DecodeError::WrongType("tt".to_owned()));
            },
            None => {
                return Err(DecodeError::MissingField("tt".to_owned()));
            },
        };
        let routing = match lookup_entry(es, "routing") {
            Some(TomlValue::Table(t)) => match RoutingConfig::from_table(t) {
                Ok(v) => v,
                Err(e) => {
                    return Err(e);
                },
            },
            Some(_) => {
                return Err(DecodeError::WrongType("routing".to_owned()));
            },
            None => {
                return Err(DecodeError::MissingField("routing".to_owned()));
            },
        };
        let api = match lookup_entry(es, "api") {
            Some(TomlValue::Table(t)) => match ApiConfig::from_table(t) {
                Ok(v) => v,
                Err(e) => {
                    return Err(e);
                },
            },
            Some(_) => {
                return Err(DecodeError::WrongType("api".to_owned()));
            },
            None => {
                return Err(DecodeError::MissingField("api".to_owned()));
            },
        };
        Ok(BrussConfig { db, tt, routing, api })
    }

    /// Decodes a whole document from its text: a parse failure is a
    /// syntax error carrying the parser's message, a document whose root
    /// is not a table is a syntax error too, and a parsed table decodes
    /// exactly as `from_table` says.
    pub fn from_toml_str(s: &str) -> (r: Result<BrussConfig, DecodeError>)
        ensures
            match toml_tree_of(s@) {
                Err(m) => r matches Err(e) && (e matches DecodeError::Syntax(m2) && m2 == m),
                Ok(tree) => match tree {
                    TomlValue::Table(es) => {
                        &&& (r is Ok <==> bruss_ok(es@))
                        &&& (r matches Ok(c) ==> bruss_matches(c, es@) && c.routing.wf())
                        &&& (r matches Err(e) ==> bruss_err(es@, e))
                    },
                    _ => r matches Err(e) && (e matches DecodeError::Syntax(m) && m@
                        == "document root is not a table"@),
                },
            },
    {
        match parse_toml(s) {
            Err(m) => Err(DecodeError::Syntax(m)),
            Ok(TomlValue::Table(es)) => BrussConfig::from_table(&es),
            // the parser can hand back a value other than a table at the
            // root (it decodes its reserved datetime encoding there, for
            // one); such a document does not fit the schema's shape
            Ok(_) => Err(DecodeError::Syntax("document root is not a table".to_owned())),
        }
    }
}

/// LAW. A document that omits every defaulted field decodes to the
/// documented defaults: `exit_on_err` is true, `skip_routing_types` is
/// the empty set, `deep_trip_check` and `dry_run` are false,
/// `default_limit` is 20 and `max_rt_age` is 0.
pub proof fn lemma_defaults(c: BrussConfig, es: Seq<(String, TomlValue)>)
    requires
        bruss_matches(c, es),
        lookup(sect(es, "routing"@), "exit_on_err"@) is None,
        lookup(sect(es, "routing"@), "skip_routing_types"@) is None,
        lookup(sect(es, "routing"@), "deep_trip_check"@) is None,
        lookup(sect(es, "routing"@), "dry_run"@) is None,
        lookup(sect(es, "api"@), "default_limit"@) is None,
        lookup(sect(es, "api"@), "max_rt_age"@) is None,
    ensures
        c.routing.exit_on_err == true,
        c.routing.skip_routing_types@.len() == 0,
        c.routing.deep_trip_check == false,
        c.routing.dry_run == false,
        c.api.default_limit == DEFAULT_API_DEFAULT_LIMIT,
        c.api.max_rt_age == DEFAULT_API_MAX_RT_AGE,
{
    if c.routing.skip_routing_types@.len() > 0 {
        let x = c.routing.skip_routing_types@[0];
        assert(seq_has_routing(c.routing.skip_routing_types@, x));
        assert(set_elems(sect(es, "routing"@), "skip_routing_types"@).len() == 0);
        assert(false);
    }
}

/// A document omits some required, non-defaulted field: a section is
/// absent, or a section table lacks one of its required keys.
pub open spec fn omits_required_field(es: Seq<(String, TomlValue)>) -> bool {
    ||| lookup(es, "db"@) is None
    ||| lookup(es, "tt"@) is None
    ||| lookup(es, "routing"@) is None
    ||| lookup(es, "api"@) is None
    ||| (sect_ok(es, "db"@) && (lookup(sect(es, "db"@), "host"@) is None || lookup(
        sect(es, "db"@),
        "db"@,
    ) is None || lookup(sect(es, "db"@), "user"@) is None || lookup(
        sect(es, "db"@),
        "password"@,
    ) is None))
    ||| (sect_ok(es, "tt"@) && (lookup(sect(es, "tt"@), "secret"@) is None || lookup(
        sect(es, "tt"@),
        "base_url"@,
    ) is None))
    ||| (sect_ok(es, "routing"@) && (lookup(sect(es, "routing"@), "host"@) is None || lookup(
        sect(es, "routing"@),
        "url_bus"@,
    ) is None || lookup(sect(es, "routing"@), "url_rail"@) is None || lookup(
        sect(es, "routing"@),
        "get_trips"@,
    ) is None))
}

/// LAW. A document that omits a required, non-defaulted field is not
/// well-shaped, so `BrussConfig::from_table`, whose success is exactly
/// `bruss_ok`, rejects it with a decode error.
pub proof fn lemma_omitted_required_field_fails(es: Seq<(String, TomlValue)>)
    requires
        omits_required_field(es),
    ensures
        !bruss_ok(es),
{
}

impl TTConfig {
    /// Builds a fresh client bound to the configured base URL and
    /// secret; every call yields a new, independently owned value.
    pub fn client(&self) -> (r: TTClient)
        ensures
            r.spec_base_url() == self.spec_base_url(),
            r.spec_secret() == self.spec_secret(),
    {
        TTClient::new(self.base_url.clone(), self.secret.clone())
    }
}

} // verus!
