//! The response data model of the ProGet API, and the verified
//! deserialization of the health endpoint's JSON body.

use vstd::prelude::*;

use crate::Error;
use crate::json::{
    JsonModel, json_model, json_of, json_parse, json_get, json_as_text, json_is_null,
    json_obj_entries,
};

verus! {

/// A status reported by the health endpoint. Exactly two tokens are valid
/// on the wire: `"OK"` and `"Error"`; any other token fails
/// deserialization.
#[derive(Debug, PartialEq, Eq, Structural, Clone, Copy)]
pub enum Status {
    /// The wire token `"OK"`.
    Okay,
    /// The wire token `"Error"`.
    Error,
}

/// A semantic version: the MAJOR.MINOR.PATCH convention parsed into
/// comparable numeric fields, ordered by major, then minor, then patch.
#[derive(Debug, PartialEq, Eq, Structural, PartialOrd, Ord, Clone, Copy)]
pub struct Version {
    pub major: u64,
    pub minor: u64,
    pub patch: u64,
}

/// The status token a text maps to, if any.
pub open spec fn status_of_token(t: Seq<char>) -> Option<Status> {
    if t == "OK"@ {
        Some(Status::Okay)
    } else if t == "Error"@ {
        Some(Status::Error)
    } else {
        None
    }
}

/// `s` consists of decimal digits only.
pub open spec fn is_dec_digits(s: Seq<char>) -> bool {
    forall|i: int| 0 <= i < s.len() ==> '0' <= #[trigger] s[i] <= '9'
}

/// The value of a decimal digit string.
pub open spec fn dec_val(s: Seq<char>) -> int
    decreases s.len(),
{
    if s.len() == 0 {
        0
    } else {
        dec_val(s.drop_last()) * 10 + (s.last() as int - '0' as int)
    }
}

/// A numeric identifier of the semantic-versioning grammar: nonempty
/// decimal digits without a leading zero.
pub open spec fn is_numeric_ident(s: Seq<char>) -> bool {
    s.len() > 0 && is_dec_digits(s) && (s.len() > 1 ==> s[0] != '0')
}

/// `s` splits as `a.b.c` where each part is a numeric identifier whose
/// value fits in a `u64`.
pub open spec fn is_plain_triple_split(s: Seq<char>, a: Seq<char>, b: Seq<char>, c: Seq<char>) -> bool {
    &&& s == a + "."@ + b + "."@ + c
    &&& is_numeric_ident(a)
    &&& is_numeric_ident(b)
    &&& is_numeric_ident(c)
    &&& dec_val(a) <= u64::MAX
    &&& dec_val(b) <= u64::MAX
    &&& dec_val(c) <= u64::MAX
}

/// The major, minor and patch numbers of a bare `MAJOR.MINOR.PATCH`
/// version string, `None` for every string with any other shape (such as
/// one with pre-release or build parts).
pub open spec fn plain_triple_of(s: Seq<char>) -> Option<(u64, u64, u64)> {
    if exists|a: Seq<char>, b: Seq<char>, c: Seq<char>| is_plain_triple_split(s, a, b, c) {
        let (a, b, c) = choose|a: Seq<char>, b: Seq<char>, c: Seq<char>|
            is_plain_triple_split(s, a, b, c);
        Some((dec_val(a) as u64, dec_val(b) as u64, dec_val(c) as u64))
    } else {
        None
    }
}

/// The major, minor and patch numbers `semver::Version::parse` reads out
/// of a string, `None` exactly when it rejects the string.
pub uninterp spec fn semver_of(s: Seq<char>) -> Option<(u64, u64, u64)>;

/// Relies on `semver::Version::parse`: a function of the string alone. It
/// documents that a version is exactly three dot-separated numeric
/// components, optionally followed by pre-release or build parts, that a
/// leading zero is rejected and that a component past `u64::MAX` is
/// rejected; so on a bare `MAJOR.MINOR.PATCH` string it returns exactly
/// those three numbers.
#[verifier::external_body]
fn parse_semver(s: &str) -> (r: Option<Version>)
    ensures
        (r is Some) == (semver_of(s@) is Some),
        r matches Some(v) ==> semver_of(s@) == Some((v.major, v.minor, v.patch)),
        r is None ==> plain_triple_of(s@) is None,
        r matches Some(v) ==> (plain_triple_of(s@) is Some ==> plain_triple_of(s@) == Some(
            (v.major, v.minor, v.patch),
        )),
{
    match semver::Version::parse(s) {
        Ok(v) => Some(Version { major: v.major, minor: v.minor, patch: v.patch }),
        Err(_) => None,
    }
}

/// The field `k` of `j`, when `j` is an object that has it.
pub open spec fn jm_field(j: JsonModel, k: Seq<char>) -> Option<JsonModel> {
    match j {
        JsonModel::Object(m) => if m.dom().contains(k) {
            Some(m[k])
        } else {
            None
        },
        _ => None,
    }
}

/// The text of field `k` of `j`, when present and a string.
pub open spec fn jm_text_field(j: JsonModel, k: Seq<char>) -> Option<Seq<char>> {
    match jm_field(j, k) {
        Some(JsonModel::Text(t)) => Some(t),
        _ => None,
    }
}

/// The status of field `k` of `j`, when present and a valid token.
pub open spec fn jm_status_field(j: JsonModel, k: Seq<char>) -> Option<Status> {
    match jm_text_field(j, k) {
        Some(t) => status_of_token(t),
        None => None,
    }
}

/// An optional free-text detail field: tolerated absent or null (both read
/// as no detail) and read as text otherwise; a value of any other kind is
/// a shape error (`None`).
pub open spec fn jm_detail_field(j: JsonModel, k: Seq<char>) -> Option<Option<Seq<char>>> {
    match jm_field(j, k) {
        None => Some(None),
        Some(JsonModel::Null) => Some(None),
        Some(JsonModel::Text(t)) => Some(Some(t)),
        Some(_) => None,
    }
}

/// The parsed version of text field `k` of `j`.
pub open spec fn jm_version_field(j: JsonModel, k: Seq<char>) -> Option<(u64, u64, u64)> {
    match jm_text_field(j, k) {
        Some(t) => semver_of(t),
        None => None,
    }
}

/// Field `k` of `j` is an object every one of whose values is a string
/// that parses as a version.
pub open spec fn jm_extensions_ok(j: JsonModel, k: Seq<char>) -> bool {
    match jm_field(j, k) {
        Some(JsonModel::Object(m)) => forall|name: Seq<char>|
            #[trigger] m.dom().contains(name) ==> m[name] is Text && semver_of(m[name]->Text_0) is Some,
        _ => false,
    }
}

/// The health record deserializes from `j` without error.
pub open spec fn health_shape_ok(j: JsonModel) -> bool {
    &&& j is Object
    &&& jm_text_field(j, "applicationName"@) is Some
    &&& jm_status_field(j, "databaseStatus"@) is Some
    &&& jm_detail_field(j, "databaseStatusDetail"@) is Some
    &&& jm_extensions_ok(j, "extensionsInstalled"@)
    &&& jm_status_field(j, "licenseStatus"@) is Some
    &&& jm_detail_field(j, "licenseStatusDetail"@) is Some
    &&& jm_text_field(j, "versionNumber"@) is Some
    &&& jm_version_field(j, "releaseNumber"@) is Some
    &&& jm_status_field(j, "serviceStatus"@) is Some
    &&& jm_detail_field(j, "serviceStatusDetail"@) is Some
}

/// An optional owned string agrees with an optional text.
pub open spec fn opt_text_matches(o: Option<String>, t: Option<Seq<char>>) -> bool {
    match (o, t) {
        (Option::None, Option::None) => true,
        (Option::Some(a), Option::Some(b)) => a@ == b,
        _ => false,
    }
}

/// The extension list holds each key of `m` exactly once, paired with the
/// parsed version of its string value; the order of the entries is not
/// significant and is not specified.
pub open spec fn extensions_match(es: Seq<(String, Version)>, m: Map<Seq<char>, JsonModel>) -> bool {
    &&& forall|i: int, j: int| 0 <= i < j < es.len() ==> es[i].0@ != es[j].0@
    &&& forall|i: int|
        0 <= i < es.len() ==> #[trigger] m.dom().contains(es[i].0@) && m[es[i].0@] is Text
            && semver_of(m[es[i].0@]->Text_0) == Some(
            (es[i].1.major, es[i].1.minor, es[i].1.patch),
        )
    &&& forall|k: Seq<char>|
        #[trigger] m.dom().contains(k) ==> exists|i: int| 0 <= i < es.len() && es[i].0@ == k
}

/// The health/status record of a ProGet instance.
///
/// The detail fields are optional in all cases: in practice the server
/// sends them only when the matching status is `Error`, but the model
/// tolerates their absence (or a JSON `null`) regardless of the status.
#[derive(Debug, Clone)]
pub struct Health {
    pub application_name: String,
    pub database_status: Status,
    pub database_status_detail: Option<String>,
    /// Installed extension name to its version; keys are unique, insertion
    /// order follows the response body's object and is not significant.
    pub extensions_installed: Vec<(String, Version)>,
    pub license_status: Status,
    pub license_status_detail: Option<String>,
    pub version_number: String,
    pub release_number: Version,
    pub service_status: Status,
    pub service_status_detail: Option<String>,
}

/// `h` is exactly what deserializing `j` yields.
pub open spec fn health_matches(h: Health, j: JsonModel) -> bool {
    &&& health_shape_ok(j)
    &&& Some(h.application_name@) == jm_text_field(j, "applicationName"@)
    &&& Some(h.database_status) == jm_status_field(j, "databaseStatus"@)
    &&& opt_text_matches(h.database_status_detail, jm_detail_field(j, "databaseStatusDetail"@)->Some_0)
    &&& jm_field(j, "extensionsInstalled"@) matches Some(JsonModel::Object(m))
        && extensions_match(h.extensions_installed@, m)
    &&& Some(h.license_status) == jm_status_field(j, "licenseStatus"@)
    &&& opt_text_matches(h.license_status_detail, jm_detail_field(j, "licenseStatusDetail"@)->Some_0)
    &&& Some(h.version_number@) == jm_text_field(j, "versionNumber"@)
    &&& jm_version_field(j, "releaseNumber"@) == Some(
        (h.release_number.major, h.release_number.minor, h.release_number.patch),
    )
    &&& Some(h.service_status) == jm_status_field(j, "serviceStatus"@)
    &&& opt_text_matches(h.service_status_detail, jm_detail_field(j, "serviceStatusDetail"@)->Some_0)
}

impl Health {
    /// The extension list never repeats a name.
    pub open spec fn extensions_wf(&self) -> bool {
        forall|i: int, j: int|
            0 <= i < j < self.extensions_installed@.len()
                ==> self.extensions_installed@[i].0@ != self.extensions_installed@[j].0@
    }

    /// The version recorded for an installed extension, if any.
    pub open spec fn spec_extension_version(&self, name: Seq<char>) -> Option<Version> {
        if exists|i: int|
            0 <= i < self.extensions_installed@.len() && self.extensions_installed@[i].0@ == name {
            let i = choose|i: int|
                0 <= i < self.extensions_installed@.len() && self.extensions_installed@[i].0@
                    == name;
            Some(self.extensions_installed@[i].1)
        } else {
            None
        }
    }

    /// Looks an installed extension up by name.
    pub fn extension_version(&self, name: &str) -> (r: Option<Version>)
        requires
            self.extensions_wf(),
        ensures
            r == self.spec_extension_version(name@),
    {
        let key = String::from_str(name);
        let n = self.extensions_installed.len();
        let mut i: usize = 0;
        while i < n
            invariant
                n == self.extensions_installed@.len(),
                i <= n,
                self.extensions_wf(),
                key@ == name@,
                forall|l: int| 0 <= l < i ==> self.extensions_installed@[l].0@ != name@,
            decreases n - i,
        {
            if self.extensions_installed[i].0 == key {
                return Some(self.extensions_installed[i].1);
            }
            i += 1;
        }
        None
    }
}

fn deser_error() -> (r: Error)
    ensures
        r is Deserialization,
{
    Error::Deserialization(String::from_str("response body does not have the expected shape"))
}

fn field_text(v: &serde_json::Value, key: &str) -> (r: Option<String>)
    ensures
        (r is Some) == (jm_text_field(json_model(*v), key@) is Some),
        r matches Some(s) ==> jm_text_field(json_model(*v), key@) == Some(s@),
{
    match json_get(v, key) {
        Some(f) => json_as_text(f),
        None => None,
    }
}

fn field_status(v: &serde_json::Value, key: &str) -> (r: Option<Status>)
    ensures
        r == jm_status_field(json_model(*v), key@),
{
    match field_text(v, key) {
        None => None,
        Some(s) => {
            if s == String::from_str("OK") {
                Some(Status::Okay)
            } else if s == String::from_str("Error") {
                Some(Status::Error)
            } else {
                None
            }
        },
    }
}

fn field_detail(v: &serde_json::Value, key: &str) -> (r: Option<Option<String>>)
    ensures
        (r is Some) == (jm_detail_field(json_model(*v), key@) is Some),
        r matches Some(o) ==> opt_text_matches(o, jm_detail_field(json_model(*v), key@)->Some_0),
{
    match json_get(v, key) {
        None => Some(None),
        Some(f) => {
            if json_is_null(f) {
                Some(None)
            } else {
                match json_as_text(f) {
                    Some(s) => Some(Some(s)),
                    None => None,
                }
            }
        },
    }
}

fn field_version(v: &serde_json::Value, key: &str) -> (r: Option<Version>)
    ensures
        (r is Some) == (jm_version_field(json_model(*v), key@) is Some),
        r matches Some(ver) ==> jm_version_field(json_model(*v), key@) == Some(
            (ver.major, ver.minor, ver.patch),
        ),
{
    match field_text(v, key) {
        None => None,
        Some(s) => parse_semver(s.as_str()),
    }
}

fn field_extensions(v: &serde_json::Value, key: &str) -> (r: Option<Vec<(String, Version)>>)
    ensures
        (r is Some) == jm_extensions_ok(json_model(*v), key@),
        r matches Some(es) ==> jm_field(json_model(*v), key@) matches Some(JsonModel::Object(m))
            && extensions_match(es@, m),
{
    let f = match json_get(v, key) {
        Some(f) => f,
        None => {
            return None;
        },
    };
    let entries = match json_obj_entries(f) {
        Some(e) => e,
        None => {
            return None;
        },
    };
    let ghost m = json_model(*f)->Object_0;
    let n = entries.len();
    let mut out: Vec<(String, Version)> = Vec::new();
    let mut i: usize = 0;
    while i < n
        invariant
            n == entries@.len(),
            i <= n,
            jm_field(json_model(*v), key@) == Some(json_model(*f)),
            json_model(*f) == JsonModel::Object(m),
            forall|a: int, b: int| 0 <= a < b < entries@.len() ==> entries@[a].0@ != entries@[b].0@,
            forall|a: int|
                0 <= a < entries@.len() ==> #[trigger] m.dom().contains(entries@[a].0@)
                    && json_model(entries@[a].1) == m[entries@[a].0@],
            forall|k: Seq<char>|
                #[trigger] m.dom().contains(k) ==> exists|a: int|
                    0 <= a < entries@.len() && entries@[a].0@ == k,
            out@.len() == i as int,
            forall|l: int| 0 <= l < i ==> out@[l].0@ == entries@[l].0@,
            forall|l: int|
                0 <= l < i ==> #[trigger] m.dom().contains(out@[l].0@) && m[out@[l].0@] is Text
                    && semver_of(m[out@[l].0@]->Text_0) == Some(
                    (out@[l].1.major, out@[l].1.minor, out@[l].1.patch),
                ),
        decreases n - i,
    {
        let entry = &entries[i];
        let text = match json_as_text(&entry.1) {
            Some(t) => t,
            None => {
                proof {
                    assert(m.dom().contains(entries@[i as int].0@));
                    assert(!(m[entries@[i as int].0@] is Text));
                }
                return None;
            },
        };
        let ver = match parse_semver(text.as_str()) {
            Some(ver) => ver,
            None => {
                proof {
                    assert(m.dom().contains(entries@[i as int].0@));
                    assert(m[entries@[i as int].0@] == json_model(entries@[i as int].1));
                    assert(semver_of(m[entries@[i as int].0@]->Text_0) is None);
                }
                return None;
            },
        };
        out.push((entry.0.clone(), ver));
        i += 1;
    }
    Some(out)
}

/// Deserializes the health record out of an already parsed JSON value.
/// Succeeds exactly when the value has the expected shape; any other value
/// is rejected with a deserialization error, never defaulted.
pub fn health_from_value(v: &serde_json::Value) -> (r: Result<Health, Error>)
    ensures
        (r is Ok) == health_shape_ok(json_model(*v)),
        r matches Ok(h) ==> health_matches(h, json_model(*v)),
        r matches Err(e) ==> e is Deserialization,
{
    let application_name = match field_text(v, "applicationName") {
        Some(s) => s,
        None => {
            return Err(deser_error());
        },
    };
    let database_status = match field_status(v, "databaseStatus") {
        Some(s) => s,
        None => {
            return Err(deser_error());
        },
    };
    let database_status_detail = match field_detail(v, "databaseStatusDetail") {
        Some(o) => o,
        None => {
            return Err(deser_error());
        },
    };
    let extensions_installed = match field_extensions(v, "extensionsInstalled") {
        Some(es) => es,
        None => {
            return Err(deser_error());
        },
    };
    let license_status = match field_status(v, "licenseStatus") {
        Some(s) => s,
        None => {
            return Err(deser_error());
        },
    };
    let license_status_detail = match field_detail(v, "licenseStatusDetail") {
        Some(o) => o,
        None => {
            return Err(deser_error());
        },
    };
    let version_number = match field_text(v, "versionNumber") {
        Some(s) => s,
        None => {
            return Err(deser_error());
        },
    };
    let release_number = match field_version(v, "releaseNumber") {
        Some(ver) => ver,
        None => {
            return Err(deser_error());
        },
    };
    let service_status = match field_status(v, "serviceStatus") {
        Some(s) => s,
        None => {
            return Err(deser_error());
        },
    };
    let service_status_detail = match field_detail(v, "serviceStatusDetail") {
        Some(o) => o,
        None => {
            return Err(deser_error());
        },
    };
    Ok(
        Health {
            application_name,
            database_status,
            database_status_detail,
            extensions_installed,
            license_status,
            license_status_detail,
            version_number,
            release_number,
            service_status,
            service_status_detail,
        },
    )
}

/// Deserializes the health record out of a response body. Succeeds exactly
/// when the body is valid JSON of the expected shape; every failure is a
/// deserialization error carrying diagnostic text.
pub fn parse_health(body: &str) -> (r: Result<Health, Error>)
    ensures
        (r is Ok) == (json_of(body@) matches Some(j) && health_shape_ok(j)),
        r matches Ok(h) ==> health_matches(h, json_of(body@)->Some_0),
        r matches Err(e) ==> e is Deserialization,
{
    match json_parse(body) {
        Err(msg) => Err(Error::Deserialization(msg)),
        Ok(val) => health_from_value(&val),
    }
}

/// A status token other than `"OK"` or `"Error"` (for example `"Unknown"`)
/// in any of the three status fields fails the health record's shape
/// check: deserialization rejects it rather than defaulting.
pub proof fn lemma_unknown_status_token_rejected(j: JsonModel, field: Seq<char>, t: Seq<char>)
    requires
        field == "databaseStatus"@ || field == "licenseStatus"@ || field == "serviceStatus"@,
        jm_text_field(j, field) == Some(t),
        t != "OK"@,
        t != "Error"@,
    ensures
        !health_shape_ok(j),
{
}

} // verus!

