//! The configuration catalog: named formats, each owning an ordered list of
//! file aliases, read from a JSON document or synthesized as a built-in
//! default when no configuration is available.

use vstd::prelude::*;
use crate::json::{
    JsonValue, array_field, bool_field_or, field_is_array, field_is_bool, field_is_string,
    field_is_uint, json_get, json_of, parse_json_text, string_field, string_field_or,
    uint_field_or,
};

verus! {

/// The JSON type a misused required field was expected to have.
#[derive(Clone, Copy, Debug, PartialEq, Eq, Structural)]
pub enum Expected {
    StringType,
    UIntType,
    BoolType,
    ArrayType,
}

/// Why a configuration document was rejected.
#[derive(Debug)]
pub enum ConfigError {
    /// The text is not well-formed JSON.
    Syntax,
    /// A required field is absent or of the wrong JSON type.
    WrongType { field: String, expected: Expected },
    /// A required string field is present but empty.
    EmptyField { field: String },
}

/// Whether `e` rejects `field` for not being of type `expected`.
pub open spec fn wrong_type(e: ConfigError, field: Seq<char>, expected: Expected) -> bool {
    match e {
        ConfigError::WrongType { field: f, expected: x } => f@ == field && x == expected,
        _ => false,
    }
}

/// Whether `e` rejects `field` for being empty.
pub open spec fn empty_field(e: ConfigError, field: Seq<char>) -> bool {
    match e {
        ConfigError::EmptyField { field: f } => f@ == field,
        _ => false,
    }
}

/// One aliased file inside a format.
#[derive(Debug)]
pub struct ConfigFile {
    pub alias: String,
    pub path: String,
}

/// One named format: parsing rules plus the files that use them.
#[derive(Debug)]
pub struct ConfigFormat {
    pub name: String,
    pub sep: String,
    pub fields_no: u16,
    pub key_pos: u16,
    pub strip: bool,
    pub comment: String,
    pub files: Vec<ConfigFile>,
}

/// The whole catalog, formats in their order of appearance.
#[derive(Debug)]
pub struct Config {
    pub formats: Vec<ConfigFormat>,
}

/// Reads the string field `key` of object `v`. A required field that is
/// absent or not a string is an error naming the field; an optional one
/// falls back to `default` in that case.
pub fn get_string_value(key: &str, v: &JsonValue, required: bool, default: &str) -> (r: Result<
    String,
    ConfigError,
>)
    ensures
        match r {
            Ok(s) => {
                &&& required ==> field_is_string(*v, key@)
                &&& s@ == string_field_or(*v, key@, default@)
            },
            Err(e) => {
                &&& required
                &&& !field_is_string(*v, key@)
                &&& wrong_type(e, key@, Expected::StringType)
            },
        },
{
    match json_get(v, key) {
        Some(x) => match x {
            JsonValue::Str(s) => Ok(s.clone()),
            _ => {
                if required {
                    Err(
                        ConfigError::WrongType {
                            field: String::from_str(key),
                            expected: Expected::StringType,
                        },
                    )
                } else {
                    Ok(String::from_str(default))
                }
            },
        },
        None => {
            if required {
                Err(
                    ConfigError::WrongType {
                        field: String::from_str(key),
                        expected: Expected::StringType,
                    },
                )
            } else {
                Ok(String::from_str(default))
            }
        },
    }
}

/// Reads the unsigned-integer field `key` of object `v`, with the same
/// required/optional policy as `get_string_value`.
pub fn get_int_value(key: &str, v: &JsonValue, required: bool, default: u64) -> (r: Result<
    u64,
    ConfigError,
>)
    ensures
        match r {
            Ok(n) => {
                &&& required ==> field_is_uint(*v, key@)
                &&& n == uint_field_or(*v, key@, default as int)
            },
            Err(e) => {
                &&& required
                &&& !field_is_uint(*v, key@)
                &&& wrong_type(e, key@, Expected::UIntType)
            },
        },
{
    match json_get(v, key) {
        Some(x) => match x {
            JsonValue::UInt(n) => Ok(*n),
            _ => {
                if required {
                    Err(
                        ConfigError::WrongType {
                            field: String::from_str(key),
                            expected: Expected::UIntType,
                        },
                    )
                } else {
                    Ok(default)
                }
            },
        },
        None => {
            if required {
                Err(
                    ConfigError::WrongType {
                        field: String::from_str(key),
                        expected: Expected::UIntType,
                    },
                )
            } else {
                Ok(default)
            }
        },
    }
}

/// Reads the boolean field `key` of object `v`, with the same
/// required/optional policy as `get_string_value`.
pub fn get_bool_value(key: &str, v: &JsonValue, required: bool, default: bool) -> (r: Result<
    bool,
    ConfigError,
>)
    ensures
        match r {
            Ok(b) => {
                &&& required ==> field_is_bool(*v, key@)
                &&& b == bool_field_or(*v, key@, default)
            },
            Err(e) => {
                &&& required
                &&& !field_is_bool(*v, key@)
                &&& wrong_type(e, key@, Expected::BoolType)
            },
        },
{
    match json_get(v, key) {
        Some(x) => match x {
            JsonValue::Bool(b) => Ok(*b),
            _ => {
                if required {
                    Err(
                        ConfigError::WrongType {
                            field: String::from_str(key),
                            expected: Expected::BoolType,
                        },
                    )
                } else {
                    Ok(default)
                }
            },
        },
        None => {
            if required {
                Err(
                    ConfigError::WrongType {
                        field: String::from_str(key),
                        expected: Expected::BoolType,
                    },
                )
            } else {
                Ok(default)
            }
        },
    }
}

/// The separator a format object resolves to: `sep` where that is a
/// string, else `separator` where that is a string, else tab.
pub open spec fn sep_of(v: JsonValue) -> Seq<char> {
    if field_is_string(v, "sep"@) {
        string_field(v, "sep"@)
    } else {
        string_field_or(v, "separator"@, "\t"@)
    }
}

/// A well-typed file object: non-empty string `alias` and `path`.
pub open spec fn file_json_ok(v: JsonValue) -> bool {
    &&& field_is_string(v, "alias"@)
    &&& string_field(v, "alias"@).len() > 0
    &&& field_is_string(v, "path"@)
    &&& string_field(v, "path"@).len() > 0
}

/// `f` is the record that file object `v` denotes.
pub open spec fn file_matches(f: ConfigFile, v: JsonValue) -> bool {
    &&& f.alias@ == string_field(v, "alias"@)
    &&& f.path@ == string_field(v, "path"@)
}

/// The error a bad file object produces: the first offence among a missing
/// or non-string `alias`, an empty `alias`, a missing or non-string
/// `path`, an empty `path`.
pub open spec fn file_err(v: JsonValue, e: ConfigError) -> bool {
    if !field_is_string(v, "alias"@) {
        wrong_type(e, "alias"@, Expected::StringType)
    } else if string_field(v, "alias"@).len() == 0 {
        empty_field(e, "alias"@)
    } else if !field_is_string(v, "path"@) {
        wrong_type(e, "path"@, Expected::StringType)
    } else if string_field(v, "path"@).len() == 0 {
        empty_field(e, "path"@)
    } else {
        false
    }
}

/// A well-typed format object: non-empty string `name`, array `files`
/// whose elements are all well-typed file objects.
pub open spec fn format_json_ok(v: JsonValue) -> bool {
    &&& field_is_string(v, "name"@)
    &&& string_field(v, "name"@).len() > 0
    &&& field_is_array(v, "files"@)
    &&& forall|j: int|
        0 <= j < array_field(v, "files"@).len() ==> file_json_ok(#[trigger] array_field(v, "files"@)[j])
}

/// `f` is the record that format object `v` denotes: explicit fields kept,
/// omitted or wrong-typed optional fields replaced by their defaults (tab
/// separator, 2 fields, key position 1, no stripping, `#` comments), the
/// two counters reduced to `u16` range, files in order.
pub open spec fn format_matches(f: ConfigFormat, v: JsonValue) -> bool {
    &&& f.name@ == string_field(v, "name"@)
    &&& f.sep@ == sep_of(v)
    &&& f.fields_no == uint_field_or(v, "fields-no"@, 2) % 0x10000
    &&& f.key_pos == uint_field_or(v, "key-pos"@, 1) % 0x10000
    &&& f.strip == bool_field_or(v, "strip"@, false)
    &&& f.comment@ == string_field_or(v, "comment"@, "#"@)
    &&& f.files@.len() == array_field(v, "files"@).len()
    &&& forall|j: int|
        0 <= j < f.files@.len() ==> file_matches(#[trigger] f.files@[j], array_field(v, "files"@)[j])
}

/// The error a bad format object produces: a bad `name` first, then a bad
/// `files` array, then the first bad file object.
pub open spec fn format_err(v: JsonValue, e: ConfigError) -> bool {
    if !field_is_string(v, "name"@) {
        wrong_type(e, "name"@, Expected::StringType)
    } else if string_field(v, "name"@).len() == 0 {
        empty_field(e, "name"@)
    } else if !field_is_array(v, "files"@) {
        wrong_type(e, "files"@, Expected::ArrayType)
    } else {
        exists|j: int|
            0 <= j < array_field(v, "files"@).len() && (forall|k: int|
                0 <= k < j ==> file_json_ok(#[trigger] array_field(v, "files"@)[k])) && file_err(
                #[trigger] array_field(v, "files"@)[j],
                e,
            )
    }
}

/// A well-typed configuration document: an object with a `formats` array
/// of well-typed format objects.
pub open spec fn config_json_ok(v: JsonValue) -> bool {
    &&& field_is_array(v, "formats"@)
    &&& forall|i: int|
        0 <= i < array_field(v, "formats"@).len() ==> format_json_ok(
            #[trigger] array_field(v, "formats"@)[i],
        )
}

/// `c` is the catalog that document `v` denotes, formats in order.
pub open spec fn config_matches(c: Config, v: JsonValue) -> bool {
    &&& c.formats@.len() == array_field(v, "formats"@).len()
    &&& forall|i: int|
        0 <= i < c.formats@.len() ==> format_matches(
            #[trigger] c.formats@[i],
            array_field(v, "formats"@)[i],
        )
}

/// The error a bad document produces: a missing or non-array `formats`
/// first, else the error of the first bad format object.
pub open spec fn config_err(v: JsonValue, e: ConfigError) -> bool {
    if !field_is_array(v, "formats"@) {
        wrong_type(e, "formats"@, Expected::ArrayType)
    } else {
        exists|i: int|
            0 <= i < array_field(v, "formats"@).len() && (forall|k: int|
                0 <= k < i ==> format_json_ok(#[trigger] array_field(v, "formats"@)[k]))
                && format_err(#[trigger] array_field(v, "formats"@)[i], e)
    }
}

/// Builds the file record a file object denotes, or the error rejecting
/// it.
pub fn parse_file(v: &JsonValue) -> (r: Result<ConfigFile, ConfigError>)
    ensures
        match r {
            Ok(f) => file_json_ok(*v) && file_matches(f, *v),
            Err(e) => !file_json_ok(*v) && file_err(*v, e),
        },
{
    let alias = match get_string_value("alias", v, true, "") {
        Ok(s) => s,
        Err(e) => {
            return Err(e);
        },
    };
    if alias.as_str().is_empty() {
        return Err(ConfigError::EmptyField { field: String::from_str("alias") });
    }
    let path = match get_string_value("path", v, true, "") {
        Ok(s) => s,
        Err(e) => {
            return Err(e);
        },
    };
    if path.as_str().is_empty() {
        return Err(ConfigError::EmptyField { field: String::from_str("path") });
    }
    Ok(ConfigFile { alias, path })
}

/// Builds the format record a format object denotes, or the error
/// rejecting it.
pub fn parse_format(v: &JsonValue) -> (r: Result<ConfigFormat, ConfigError>)
    ensures
        match r {
            Ok(f) => format_json_ok(*v) && format_matches(f, *v),
            Err(e) => !format_json_ok(*v) && format_err(*v, e),
        },
{
    let name = match get_string_value("name", v, true, "") {
        Ok(s) => s,
        Err(e) => {
            return Err(e);
        },
    };
    if name.as_str().is_empty() {
        return Err(ConfigError::EmptyField { field: String::from_str("name") });
    }
    let sep_fallback = match get_string_value("separator", v, false, "\t") {
        Ok(s) => s,
        Err(e) => {
            return Err(e);
        },
    };
    let sep = match get_string_value("sep", v, false, sep_fallback.as_str()) {
        Ok(s) => s,
        Err(e) => {
            return Err(e);
        },
    };
    let fields_no_wide = match get_int_value("fields-no", v, false, 2) {
        Ok(n) => n,
        Err(e) => {
            return Err(e);
        },
    };
    let key_pos_wide = match get_int_value("key-pos", v, false, 1) {
        Ok(n) => n,
        Err(e) => {
            return Err(e);
        },
    };
    let strip = match get_bool_value("strip", v, false, false) {
        Ok(b) => b,
        Err(e) => {
            return Err(e);
        },
    };
    let comment = match get_string_value("comment", v, false, "#") {
        Ok(s) => s,
        Err(e) => {
            return Err(e);
        },
    };
    let files_j: &Vec<JsonValue> = match json_get(v, "files") {
        Some(x) => match x {
            JsonValue::Arr(a) => a,
            _ => {
                return Err(
                    ConfigError::WrongType {
                        field: String::from_str("files"),
                        expected: Expected::ArrayType,
                    },
                );
            },
        },
        None => {
            return Err(
                ConfigError::WrongType {
                    field: String::from_str("files"),
                    expected: Expected::ArrayType,
                },
            );
        },
    };
    let ghost fj = array_field(*v, "files"@);
    assert(fj == files_j@);
    let mut files: Vec<ConfigFile> = Vec::new();
    let n = files_j.len();
    let mut i: usize = 0;
    while i < n
        invariant
            i <= n,
            n == files_j@.len(),
            fj == files_j@,
            field_is_string(*v, "name"@),
            string_field(*v, "name"@).len() > 0,
            field_is_array(*v, "files"@),
            fj == array_field(*v, "files"@),
            files@.len() == i,
            forall|k: int|
                0 <= k < i ==> file_json_ok(#[trigger] fj[k]) && file_matches(files@[k], fj[k]),
        decreases n - i,
    {
        let fv = &files_j[i];
        match parse_file(fv) {
            Ok(cf) => {
                files.push(cf);
            },
            Err(e) => {
                proof {
                    let ii = i as int;
                    assert(0 <= ii < fj.len() && (forall|k: int|
                        0 <= k < ii ==> file_json_ok(#[trigger] fj[k])) && file_err(fj[ii], e));
                }
                return Err(e);
            },
        }
        i = i + 1;
    }
    let fields_no: u16 = (fields_no_wide % 0x10000) as u16;
    let key_pos: u16 = (key_pos_wide % 0x10000) as u16;
    Ok(ConfigFormat { name, sep, fields_no, key_pos, strip, comment, files })
}

/// Builds the catalog a configuration document denotes, or the error
/// rejecting it.
pub fn parse_config(v: &JsonValue) -> (r: Result<Config, ConfigError>)
    ensures
        match r {
            Ok(c) => config_json_ok(*v) && config_matches(c, *v),
            Err(e) => !config_json_ok(*v) && config_err(*v, e),
        },
{
    let formats_j: &Vec<JsonValue> = match json_get(v, "formats") {
        Some(x) => match x {
            JsonValue::Arr(a) => a,
            _ => {
                return Err(
                    ConfigError::WrongType {
                        field: String::from_str("formats"),
                        expected: Expected::ArrayType,
                    },
                );
            },
        },
        None => {
            return Err(
                ConfigError::WrongType {
                    field: String::from_str("formats"),
                    expected: Expected::ArrayType,
                },
            );
        },
    };
    let ghost fj = array_field(*v, "formats"@);
    assert(fj == formats_j@);
    let mut formats: Vec<ConfigFormat> = Vec::new();
    let n = formats_j.len();
    let mut i: usize = 0;
    while i < n
        invariant
            i <= n,
            n == formats_j@.len(),
            fj == formats_j@,
            field_is_array(*v, "formats"@),
            fj == array_field(*v, "formats"@),
            formats@.len() == i,
            forall|k: int|
                0 <= k < i ==> format_json_ok(#[trigger] fj[k]) && format_matches(
                    formats@[k],
                    fj[k],
                ),
        decreases n - i,
    {
        let fv = &formats_j[i];
        match parse_format(fv) {
            Ok(cf) => {
                formats.push(cf);
            },
            Err(e) => {
                proof {
                    let ii = i as int;
                    assert(0 <= ii < fj.len() && (forall|k: int|
                        0 <= k < ii ==> format_json_ok(#[trigger] fj[k])) && format_err(
                        fj[ii],
                        e,
                    ));
                }
                return Err(e);
            },
        }
        i = i + 1;
    }
    Ok(Config { formats })
}

/// The built-in format used when no configuration file is available.
pub open spec fn is_default_format(f: ConfigFormat) -> bool {
    &&& f.name@ == "key-value"@
    &&& f.sep@ == "\t"@
    &&& f.fields_no == 2
    &&& f.key_pos == 1
    &&& f.strip == false
    &&& f.comment@ == "#"@
    &&& f.files@.len() == 0
}

/// The built-in catalog: exactly one default format.
pub open spec fn is_default_config(c: Config) -> bool {
    c.formats@.len() == 1 && is_default_format(c.formats@[0])
}

/// Synthesizes the built-in catalog: a single format named `key-value`
/// with tab separator, 2 fields, key position 1, no stripping, `#`
/// comments and no files. Never fails.
pub fn get_default_config() -> (r: Result<Config, ConfigError>)
    ensures
        match r {
            Ok(c) => is_default_config(c),
            Err(_) => false,
        },
{
    let format = ConfigFormat {
        name: String::from_str("key-value"),
        sep: String::from_str("\t"),
        fields_no: 2,
        key_pos: 1,
        strip: false,
        comment: String::from_str("#"),
        files: Vec::new(),
    };
    let mut formats: Vec<ConfigFormat> = Vec::new();
    formats.push(format);
    Ok(Config { formats })
}

/// Parses configuration text: a JSON syntax error is `Syntax`, a
/// well-formed document is then held to the catalog schema.
pub fn parse_config_str(s: &str) -> (r: Result<Config, ConfigError>)
    ensures
        match json_of(s@) {
            None => r matches Err(e) && e is Syntax,
            Some(v) => match r {
                Ok(c) => config_json_ok(v) && config_matches(c, v),
                Err(e) => !config_json_ok(v) && config_err(v, e),
            },
        },
{
    match parse_json_text(s) {
        Some(v) => parse_config(&v),
        None => Err(ConfigError::Syntax),
    }
}

/// Resolves the catalog for a run, from the text of the configuration file
/// at the default path where one could be read. An unreadable file
/// (`None`), broken JSON or a document failing the schema all fall back to
/// the built-in default catalog; this loader never fails.
pub fn get_config(contents: Option<&str>) -> (r: Result<Config, ConfigError>)
    ensures
        match r {
            Ok(c) => match contents {
                None => is_default_config(c),
                Some(s) => match json_of(s@) {
                    Some(v) => if config_json_ok(v) {
                        config_matches(c, v)
                    } else {
                        is_default_config(c)
                    },
                    None => is_default_config(c),
                },
            },
            Err(_) => false,
        },
{
    match contents {
        None => get_default_config(),
        Some(s) => match parse_config_str(s) {
            Ok(c) => Ok(c),
            Err(_) => get_default_config(),
        },
    }
}

} // verus!
