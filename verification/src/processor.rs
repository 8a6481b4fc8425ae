//! Resolving the target file (explicit path or alias lookup) and the
//! per-line processing rules: whitespace stripping and comment exclusion.

use vstd::prelude::*;
use crate::cmd::CmdArgs;
use crate::config::{Config, ConfigFile, ConfigFormat};

verus! {

/// Why no file path could be resolved.
#[derive(Clone, Copy, Debug, PartialEq, Eq, Structural)]
pub enum ResolveError {
    /// Neither the file flag nor the alias flag was supplied.
    FileOrAliasRequired,
    /// The requested alias matches no file of any format.
    AliasNotFound,
}

/// The path of the first file with the given alias in a format's file
/// list, in declared order.
pub open spec fn files_lookup(files: Seq<ConfigFile>, alias: Seq<char>) -> Option<Seq<char>>
    decreases files.len(),
{
    if files.len() == 0 {
        None
    } else if files[0].alias@ == alias {
        Some(files[0].path@)
    } else {
        files_lookup(files.drop_first(), alias)
    }
}

/// The path of the first matching alias over all formats: formats in
/// declared order, files in declared order within each.
pub open spec fn formats_lookup(formats: Seq<ConfigFormat>, alias: Seq<char>) -> Option<Seq<char>>
    decreases formats.len(),
{
    if formats.len() == 0 {
        None
    } else {
        match files_lookup(formats[0].files@, alias) {
            Some(p) => Some(p),
            None => formats_lookup(formats.drop_first(), alias),
        }
    }
}

/// Scans the catalog for `alias` and returns the path of the first entry
/// (format order, then file order) whose alias matches exactly; fails with
/// `AliasNotFound` when no entry does.
pub fn get_file_name_by_alias(alias: &String, config: &Config) -> (r: Result<String, ResolveError>)
    ensures
        match r {
            Ok(p) => formats_lookup(config.formats@, alias@) == Some(p@),
            Err(e) => formats_lookup(config.formats@, alias@) is None && e
                == ResolveError::AliasNotFound,
        },
{
    let nf = config.formats.len();
    let mut i: usize = 0;
    assert(config.formats@.skip(0) =~= config.formats@);
    while i < nf
        invariant
            i <= nf,
            nf == config.formats@.len(),
            formats_lookup(config.formats@, alias@) == formats_lookup(
                config.formats@.skip(i as int),
                alias@,
            ),
        decreases nf - i,
    {
        let format = &config.formats[i];
        proof {
            assert(config.formats@.skip(i as int)[0] == config.formats@[i as int]);
            assert(config.formats@.skip(i as int).drop_first() =~= config.formats@.skip(i + 1));
        }
        let nfl = format.files.len();
        let mut j: usize = 0;
        assert(format.files@.skip(0) =~= format.files@);
        while j < nfl
            invariant
                j <= nfl,
                nfl == format.files@.len(),
                i < nf,
                nf == config.formats@.len(),
                *format == config.formats@[i as int],
                formats_lookup(config.formats@, alias@) == formats_lookup(
                    config.formats@.skip(i as int),
                    alias@,
                ),
                config.formats@.skip(i as int)[0] == config.formats@[i as int],
                files_lookup(format.files@, alias@) == files_lookup(
                    format.files@.skip(j as int),
                    alias@,
                ),
            decreases nfl - j,
        {
            let file = &format.files[j];
            proof {
                assert(format.files@.skip(j as int)[0] == format.files@[j as int]);
                assert(format.files@.skip(j as int).drop_first() =~= format.files@.skip(j + 1));
            }
            if *alias == file.alias {
                return Ok(file.path.clone());
            }
            j = j + 1;
        }
        assert(format.files@.skip(nfl as int) =~= Seq::<ConfigFile>::empty());
        i = i + 1;
    }
    assert(config.formats@.skip(nf as int) =~= Seq::<ConfigFormat>::empty());
    Err(ResolveError::AliasNotFound)
}

/// Picks the target path: an explicitly set file name verbatim, bypassing
/// the catalog entirely; otherwise the alias lookup over the catalog.
pub fn get_file_name(args: &CmdArgs, config: &Config) -> (r: Result<String, ResolveError>)
    ensures
        args.is_file_name_set ==> (r matches Ok(p) && p@ == args.file_name@),
        !args.is_file_name_set ==> match r {
            Ok(p) => formats_lookup(config.formats@, args.file_alias@) == Some(p@),
            Err(e) => formats_lookup(config.formats@, args.file_alias@) is None && e
                == ResolveError::AliasNotFound,
        },
{
    if args.is_file_name_set() {
        Ok(args.file_name.clone())
    } else {
        get_file_name_by_alias(&args.file_alias, config)
    }
}

/// Resolves the target path for a run. Fails fast with
/// `FileOrAliasRequired` when neither the file flag nor the alias flag was
/// supplied; an explicitly set file name is returned verbatim regardless
/// of the catalog; otherwise the alias is looked up in the catalog.
pub fn resolve_file(args: &CmdArgs, config: &Config) -> (r: Result<String, ResolveError>)
    ensures
        !args.is_file_name_set && !args.is_file_alias_set ==> (r matches Err(e) && e
            == ResolveError::FileOrAliasRequired),
        args.is_file_name_set ==> (r matches Ok(p) && p@ == args.file_name@),
        !args.is_file_name_set && args.is_file_alias_set ==> match r {
            Ok(p) => formats_lookup(config.formats@, args.file_alias@) == Some(p@),
            Err(e) => formats_lookup(config.formats@, args.file_alias@) is None && e
                == ResolveError::AliasNotFound,
        },
{
    if !args.is_file_name_set() && !args.is_file_alias_set() {
        return Err(ResolveError::FileOrAliasRequired);
    }
    get_file_name(args, config)
}

/// Finds the first format with the given name, by its position in the
/// catalog, scanning in declared order.
pub fn find_format(config: &Config, name: &String) -> (r: Option<usize>)
    ensures
        match r {
            Some(i) => {
                &&& i < config.formats@.len()
                &&& config.formats@[i as int].name@ == name@
                &&& forall|k: int| 0 <= k < i ==> (#[trigger] config.formats@[k]).name@ != name@
            },
            None => forall|k: int|
                0 <= k < config.formats@.len() ==> (#[trigger] config.formats@[k]).name@ != name@,
        },
{
    let n = config.formats.len();
    let mut i: usize = 0;
    while i < n
        invariant
            i <= n,
            n == config.formats@.len(),
            forall|k: int| 0 <= k < i ==> (#[trigger] config.formats@[k]).name@ != name@,
        decreases n - i,
    {
        if config.formats[i].name == *name {
            return Some(i);
        }
        i = i + 1;
    }
    None
}

/// The parsing rules actually in force for a run: per field, the
/// explicitly supplied CLI value overrides the base format's value, and a
/// field the caller did not set keeps the base format's. The file list is
/// carried over from the base format.
pub fn effective_format(args: &CmdArgs, base: &ConfigFormat) -> (r: ConfigFormat)
    ensures
        r.name@ == (if args.is_format_name_set {
            args.format_name@
        } else {
            base.name@
        }),
        r.sep@ == (if args.is_separator_set {
            args.separator@
        } else {
            base.sep@
        }),
        r.fields_no == (if args.is_field_no_set {
            args.field_no as u16
        } else {
            base.fields_no
        }),
        r.key_pos == (if args.is_key_pos_set {
            args.key_pos as u16
        } else {
            base.key_pos
        }),
        r.strip == (if args.is_strip_set {
            args.strip
        } else {
            base.strip
        }),
        r.comment@ == (if args.is_comment_set {
            args.comment@
        } else {
            base.comment@
        }),
        r.files@.len() == base.files@.len(),
        forall|k: int|
            0 <= k < base.files@.len() ==> (#[trigger] r.files@[k]).alias@ == base.files@[k].alias@
                && r.files@[k].path@ == base.files@[k].path@,
{
    let name = if args.is_format_name_set() {
        args.format_name.clone()
    } else {
        base.name.clone()
    };
    let sep = if args.is_separator_set() {
        args.separator.clone()
    } else {
        base.sep.clone()
    };
    let fields_no: u16 = if args.is_field_no_set() {
        args.field_no as u16
    } else {
        base.fields_no
    };
    let key_pos: u16 = if args.is_key_pos_set() {
        args.key_pos as u16
    } else {
        base.key_pos
    };
    let strip = if args.is_strip_set() {
        args.strip
    } else {
        base.strip
    };
    let comment = if args.is_comment_set() {
        args.comment.clone()
    } else {
        base.comment.clone()
    };
    let n = base.files.len();
    let mut files: Vec<ConfigFile> = Vec::new();
    let mut i: usize = 0;
    while i < n
        invariant
            i <= n,
            n == base.files@.len(),
            files@.len() == i,
            forall|k: int|
                0 <= k < i ==> (#[trigger] files@[k]).alias@ == base.files@[k].alias@
                    && files@[k].path@ == base.files@[k].path@,
        decreases n - i,
    {
        let f = &base.files[i];
        files.push(ConfigFile { alias: f.alias.clone(), path: f.path.clone() });
        i = i + 1;
    }
    ConfigFormat { name, sep, fields_no, key_pos, strip, comment, files }
}

/// One character of the whitespace that stripping removes.
pub open spec fn is_ws(c: char) -> bool {
    c == ' ' || c == '\t' || c == '\n' || c == '\r'
}

/// `s` without its leading whitespace.
pub open spec fn trim_left(s: Seq<char>) -> Seq<char>
    decreases s.len(),
{
    if s.len() > 0 && is_ws(s[0]) {
        trim_left(s.drop_first())
    } else {
        s
    }
}

/// `s` without its trailing whitespace.
pub open spec fn trim_right(s: Seq<char>) -> Seq<char>
    decreases s.len(),
{
    if s.len() > 0 && is_ws(s.last()) {
        trim_right(s.drop_last())
    } else {
        s
    }
}

/// `s` without leading and trailing whitespace.
pub open spec fn spec_trim(s: Seq<char>) -> Seq<char> {
    trim_right(trim_left(s))
}

proof fn lemma_trim_left_skip(s: Seq<char>, i: int)
    requires
        0 <= i <= s.len(),
        forall|k: int| 0 <= k < i ==> is_ws(s[k]),
    ensures
        trim_left(s) == trim_left(s.skip(i)),
    decreases i,
{
    if i > 0 {
        assert(s.skip(0) =~= s);
        assert(s.drop_first() =~= s.skip(1));
        assert(s.skip(1).skip(i - 1) =~= s.skip(i));
        lemma_trim_left_skip(s.skip(1), i - 1);
    } else {
        assert(s.skip(0) =~= s);
    }
}

proof fn lemma_trim_right_take(s: Seq<char>, j: int)
    requires
        0 <= j <= s.len(),
        forall|k: int| j <= k < s.len() ==> is_ws(s[k]),
    ensures
        trim_right(s) == trim_right(s.take(j)),
    decreases s.len() - j,
{
    if j < s.len() {
        assert(s.take(s.len() as int) =~= s);
        assert(s.drop_last() =~= s.take(s.len() - 1));
        assert(s.take(s.len() - 1).take(j) =~= s.take(j));
        lemma_trim_right_take(s.take(s.len() - 1), j);
    } else {
        assert(s.take(j) =~= s);
    }
}

/// Removes leading and trailing whitespace (space, tab, newline, carriage
/// return).
pub fn trim(s: &str) -> (r: String)
    ensures
        r@ == spec_trim(s@),
{
    let len = s.unicode_len();
    let mut i: usize = 0;
    let mut at_content = false;
    while !at_content && i < len
        invariant
            0 <= i <= len,
            len == s@.len(),
            forall|k: int| 0 <= k < i ==> is_ws(s@[k]),
            at_content ==> i < len && !is_ws(s@[i as int]),
        decreases len - i, (if at_content { 0int } else { 1int }),
    {
        let c = s.get_char(i);
        if c == ' ' || c == '\t' || c == '\n' || c == '\r' {
            i = i + 1;
        } else {
            at_content = true;
        }
    }
    proof {
        lemma_trim_left_skip(s@, i as int);
        if i < s@.len() {
            assert(!is_ws(s@.skip(i as int)[0]));
        }
        assert(trim_left(s@.skip(i as int)) == s@.skip(i as int));
    }
    let ghost t = s@.skip(i as int);
    let mut j: usize = len;
    let mut at_tail = false;
    while !at_tail && j > i
        invariant
            i <= j <= len,
            len == s@.len(),
            t == s@.skip(i as int),
            forall|k: int| j <= k < len ==> is_ws(s@[k]),
            at_tail ==> j > i && !is_ws(s@[j - 1]),
        decreases j, (if at_tail { 0int } else { 1int }),
    {
        let c = s.get_char(j - 1);
        if c == ' ' || c == '\t' || c == '\n' || c == '\r' {
            j = j - 1;
        } else {
            at_tail = true;
        }
    }
    proof {
        assert(forall|k: int| 0 <= k < t.len() ==> t[k] == s@[i + k]);
        lemma_trim_right_take(t, j - i);
        assert(t.take(j - i) =~= s@.subrange(i as int, j as int));
        if j > i {
            assert(!is_ws(t.take(j - i).last()));
        }
        assert(trim_right(t.take(j - i)) == t.take(j - i));
    }
    let r = s.substring_char(i, j);
    String::from_str(r)
}

/// Whether `s` begins with `prefix`.
pub open spec fn spec_starts_with(s: Seq<char>, prefix: Seq<char>) -> bool {
    s.len() >= prefix.len() && s.take(prefix.len() as int) == prefix
}

/// Whether the text begins with the given prefix, character by character.
pub fn starts_with(s: &str, prefix: &str) -> (r: bool)
    ensures
        r == spec_starts_with(s@, prefix@),
{
    let n = s.unicode_len();
    let p = prefix.unicode_len();
    if n < p {
        return false;
    }
    let mut i: usize = 0;
    while i < p
        invariant
            0 <= i <= p,
            p <= n,
            n == s@.len(),
            p == prefix@.len(),
            forall|k: int| 0 <= k < i ==> s@[k] == prefix@[k],
        decreases p - i,
    {
        if s.get_char(i) != prefix.get_char(i) {
            assert(s@.take(p as int)[i as int] != prefix@[i as int]);
            return false;
        }
        i = i + 1;
    }
    assert(s@.take(p as int) =~= prefix@);
    true
}

/// What one line becomes under a format's rules: stripped when the format
/// says so, and dropped entirely (`None`) when its content then begins
/// with the comment marker.
pub open spec fn spec_process_line(line: Seq<char>, strip: bool, comment: Seq<char>) -> Option<
    Seq<char>,
> {
    let content = if strip {
        spec_trim(line)
    } else {
        line
    };
    if spec_starts_with(content, comment) {
        None
    } else {
        Some(content)
    }
}

/// Applies a format's strip policy and comment marker to one line.
pub fn process_line(line: &str, format: &ConfigFormat) -> (r: Option<String>)
    ensures
        match r {
            Some(out) => spec_process_line(line@, format.strip, format.comment@) == Some(out@),
            None => spec_process_line(line@, format.strip, format.comment@) is None,
        },
{
    let content = if format.strip {
        trim(line)
    } else {
        String::from_str(line)
    };
    if starts_with(content.as_str(), format.comment.as_str()) {
        None
    } else {
        Some(content)
    }
}

/// What a whole file becomes: each line processed in order, comment lines
/// gone, the others keeping their relative order.
pub open spec fn spec_process_lines(lines: Seq<Seq<char>>, strip: bool, comment: Seq<char>) -> Seq<
    Seq<char>,
>
    decreases lines.len(),
{
    if lines.len() == 0 {
        Seq::<Seq<char>>::empty()
    } else {
        let rest = spec_process_lines(lines.drop_last(), strip, comment);
        match spec_process_line(lines.last(), strip, comment) {
            Some(out) => rest.push(out),
            None => rest,
        }
    }
}

/// Processes the lines of a file in input order under a format's rules.
pub fn process_lines(lines: &Vec<String>, format: &ConfigFormat) -> (r: Vec<String>)
    ensures
        r.deep_view() == spec_process_lines(lines.deep_view(), format.strip, format.comment@),
{
    let n = lines.len();
    let mut out: Vec<String> = Vec::new();
    let mut i: usize = 0;
    assert(lines.deep_view().take(0) =~= Seq::<Seq<char>>::empty());
    while i < n
        invariant
            i <= n,
            n == lines@.len(),
            lines.deep_view().len() == lines@.len(),
            forall|k: int| 0 <= k < n ==> lines.deep_view()[k] == lines@[k]@,
            out.deep_view() == spec_process_lines(
                lines.deep_view().take(i as int),
                format.strip,
                format.comment@,
            ),
        decreases n - i,
    {
        let line = &lines[i];
        proof {
            let lv = lines.deep_view();
            assert(lv.take(i + 1).drop_last() =~= lv.take(i as int));
            assert(lv.take(i + 1).last() == line@);
        }
        match process_line(line.as_str(), format) {
            Some(o) => {
                let ghost prev = out.deep_view();
                out.push(o);
                proof {
                    assert(out.deep_view() =~= prev.push(o@));
                }
            },
            None => {},
        }
        i = i + 1;
    }
    proof {
        assert(lines.deep_view().take(n as int) =~= lines.deep_view());
    }
    out
}

} // verus!
