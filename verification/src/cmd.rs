//! Command-line options record: the resolved value of every recognized flag
//! together with a per-flag marker saying whether the caller supplied it
//! explicitly (as opposed to the value being a documented default).

use vstd::prelude::*;

verus! {

/// Which of the three integer-valued flags failed to parse.
#[derive(Clone, Copy, Debug, PartialEq, Eq, Structural)]
pub enum ArgError {
    BadFieldNo,
    BadKeyPos,
    BadValuePos,
}

/// One character of decimal text.
pub open spec fn is_digit(c: char) -> bool {
    '0' <= c && c <= '9'
}

pub open spec fn digit_val(c: char) -> int {
    c as int - '0' as int
}

pub open spec fn all_digits(s: Seq<char>) -> bool {
    forall|i: int| 0 <= i < s.len() ==> is_digit(#[trigger] s[i])
}

/// The number denoted by a sequence of decimal digits, most significant first.
pub open spec fn digits_val(s: Seq<char>) -> int
    decreases s.len(),
{
    if s.len() == 0 {
        0
    } else {
        digits_val(s.drop_last()) * 10 + digit_val(s.last())
    }
}

/// The digit part of an unsigned-integer literal: an optional leading `+`
/// sign is discarded.
pub open spec fn int_text(s: Seq<char>) -> Seq<char> {
    if s.len() > 0 && s[0] == '+' { s.drop_first() } else { s }
}

/// Whether `s` is accepted as a `u8`: a non-empty run of decimal digits,
/// optionally preceded by `+`, denoting a value of at most 255.
pub open spec fn parses_as_u8(s: Seq<char>) -> bool {
    let d = int_text(s);
    d.len() > 0 && all_digits(d) && digits_val(d) <= u8::MAX
}

proof fn lemma_digits_val_nonneg(s: Seq<char>)
    requires
        all_digits(s),
    ensures
        digits_val(s) >= 0,
    decreases s.len(),
{
    if s.len() > 0 {
        assert(all_digits(s.drop_last()));
        lemma_digits_val_nonneg(s.drop_last());
    }
}

/// A prefix of a digit run never denotes more than the whole run.
proof fn lemma_digits_val_prefix(s: Seq<char>, m: int)
    requires
        all_digits(s),
        0 <= m <= s.len(),
    ensures
        digits_val(s.take(m)) <= digits_val(s),
    decreases s.len() - m,
{
    if m == s.len() {
        assert(s.take(m) =~= s);
    } else {
        assert(s.take(m + 1).drop_last() =~= s.take(m));
        assert(all_digits(s.take(m)));
        lemma_digits_val_nonneg(s.take(m));
        assert(digits_val(s.take(m + 1)) == digits_val(s.take(m)) * 10 + digit_val(s[m]));
        lemma_digits_val_prefix(s, m + 1);
    }
}

/// Parses decimal text as a `u8`, exactly as the flag values are parsed:
/// optional `+`, then one or more digits, value at most 255.
pub fn parse_u8(s: &str) -> (r: Option<u8>)
    ensures
        parses_as_u8(s@) ==> 0 <= digits_val(int_text(s@)) <= 255,
        parses_as_u8(s@) ==> r == Some((digits_val(int_text(s@)) as u8)),
        !parses_as_u8(s@) ==> r is None,
{
    let len = s.unicode_len();
    let start: usize = if len > 0 && s.get_char(0) == '+' {
        1
    } else {
        0
    };
    let ghost d = int_text(s@);
    assert(d =~= s@.skip(start as int));
    if start >= len {
        assert(d.len() == 0);
        return None;
    }
    let mut i: usize = start;
    let mut acc: u32 = 0;
    while i < len
        invariant
            start <= i <= len,
            len == s@.len(),
            start == 1 ==> s@.len() > 0 && s@[0] == '+',
            start == 0 ==> !(s@.len() > 0 && s@[0] == '+'),
            d == int_text(s@),
            d =~= s@.skip(start as int),
            all_digits(s@.subrange(start as int, i as int)),
            acc == digits_val(s@.subrange(start as int, i as int)),
            acc <= 255,
        decreases len - i,
    {
        let c = s.get_char(i);
        let cv = c as u32;
        if cv < 48 || cv > 57 {
            assert(!is_digit(s@[i as int]));
            assert(d[i - start] == s@[i as int]);
            assert(!all_digits(d));
            return None;
        }
        assert(is_digit(s@[i as int]));
        let dv: u32 = cv - 48;
        assert(dv == digit_val(s@[i as int]));
        let acc2: u32 = acc * 10 + dv;
        proof {
            assert(s@.subrange(start as int, i + 1).drop_last() =~= s@.subrange(
                start as int,
                i as int,
            ));
            assert(s@.subrange(start as int, i + 1).last() == s@[i as int]);
            assert(digits_val(s@.subrange(start as int, i + 1)) == acc * 10 + dv);
        }
        if acc2 > 255 {
            proof {
                if all_digits(d) {
                    assert(d.take(i + 1 - start) =~= s@.subrange(start as int, i + 1));
                    lemma_digits_val_prefix(d, i + 1 - start);
                    assert(digits_val(d) > 255);
                }
            }
            return None;
        }
        acc = acc2;
        i = i + 1;
        assert(s@.subrange(start as int, i as int) =~= s@.subrange(start as int, i - 1).push(
            s@[i - 1],
        ));
    }
    proof {
        assert(s@.subrange(start as int, len as int) =~= d);
        assert(parses_as_u8(s@));
    }
    Some(acc as u8)
}

/// The typed record of all recognized command-line options.
///
/// Every value field holds either the caller's text or the documented
/// default; the matching `is_*_set` field records which of the two it is.
#[derive(Debug)]
pub struct CmdArgs {
    pub format_name: String,
    pub file_alias: String,
    pub file_name: String,
    pub separator: String,
    pub field_no: u8,
    pub key_pos: u8,
    pub value_pos: u8,
    pub strip: bool,
    pub comment: String,
    pub is_format_name_set: bool,
    pub is_file_alias_set: bool,
    pub is_file_name_set: bool,
    pub is_separator_set: bool,
    pub is_field_no_set: bool,
    pub is_key_pos_set: bool,
    pub is_value_pos_set: bool,
    pub is_strip_set: bool,
    pub is_comment_set: bool,
}

/// The text a string-valued option resolves to: the supplied value, else the
/// given default.
pub open spec fn opt_text(o: Option<String>, default: Seq<char>) -> Seq<char> {
    match o {
        Some(s) => s@,
        None => default,
    }
}

/// The number an integer-valued option resolves to: the parsed value, else
/// the given default.
pub open spec fn opt_num(o: Option<String>, default: int) -> int {
    match o {
        Some(s) => digits_val(int_text(s@)),
        None => default,
    }
}

/// Whether an integer-valued option is either absent or parseable.
pub open spec fn opt_num_ok(o: Option<String>) -> bool {
    match o {
        Some(s) => parses_as_u8(s@),
        None => true,
    }
}

impl CmdArgs {
    pub fn is_format_name_set(&self) -> (r: bool)
        ensures
            r == self.is_format_name_set,
    {
        self.is_format_name_set
    }

    pub fn is_file_alias_set(&self) -> (r: bool)
        ensures
            r == self.is_file_alias_set,
    {
        self.is_file_alias_set
    }

    pub fn is_file_name_set(&self) -> (r: bool)
        ensures
            r == self.is_file_name_set,
    {
        self.is_file_name_set
    }

    pub fn is_separator_set(&self) -> (r: bool)
        ensures
            r == self.is_separator_set,
    {
        self.is_separator_set
    }

    pub fn is_field_no_set(&self) -> (r: bool)
        ensures
            r == self.is_field_no_set,
    {
        self.is_field_no_set
    }

    pub fn is_key_pos_set(&self) -> (r: bool)
        ensures
            r == self.is_key_pos_set,
    {
        self.is_key_pos_set
    }

    pub fn is_value_pos_set(&self) -> (r: bool)
        ensures
            r == self.is_value_pos_set,
    {
        self.is_value_pos_set
    }

    pub fn is_strip_set(&self) -> (r: bool)
        ensures
            r == self.is_strip_set,
    {
        self.is_strip_set
    }

    pub fn is_comment_set(&self) -> (r: bool)
        ensures
            r == self.is_comment_set,
    {
        self.is_comment_set
    }

    /// Builds the options record from the raw flag texts, one `Option` per
    /// flag (`None` when the caller did not supply the flag). The `strip`
    /// flag takes no value, so its presence is its value.
    ///
    /// Fails exactly when one of the integer-valued texts does not parse as
    /// a `u8`, naming the first offender in the order field-no, key-pos,
    /// value-pos.
    pub fn new(
        format_name: Option<String>,
        file_alias: Option<String>,
        file_name: Option<String>,
        separator: Option<String>,
        field_no: Option<String>,
        key_pos: Option<String>,
        value_pos: Option<String>,
        strip: bool,
        comment: Option<String>,
    ) -> (r: Result<CmdArgs, ArgError>)
        ensures
            match r {
                Ok(c) => {
                    &&& opt_num_ok(field_no)
                    &&& opt_num_ok(key_pos)
                    &&& opt_num_ok(value_pos)
                    &&& c.format_name@ == opt_text(format_name, Seq::<char>::empty())
                    &&& c.is_format_name_set == (format_name is Some)
                    &&& c.file_alias@ == opt_text(file_alias, Seq::<char>::empty())
                    &&& c.is_file_alias_set == (file_alias is Some)
                    &&& c.file_name@ == opt_text(file_name, Seq::<char>::empty())
                    &&& c.is_file_name_set == (file_name is Some)
                    &&& c.separator@ == opt_text(separator, "\t"@)
                    &&& c.is_separator_set == (separator is Some)
                    &&& c.field_no == opt_num(field_no, 2)
                    &&& c.is_field_no_set == (field_no is Some)
                    &&& c.key_pos == opt_num(key_pos, 1)
                    &&& c.is_key_pos_set == (key_pos is Some)
                    &&& c.value_pos == opt_num(value_pos, 2)
                    &&& c.is_value_pos_set == (value_pos is Some)
                    &&& c.strip == strip
                    &&& c.is_strip_set == strip
                    &&& c.comment@ == opt_text(comment, "#"@)
                    &&& c.is_comment_set == (comment is Some)
                },
                Err(e) => {
                    &&& !(opt_num_ok(field_no) && opt_num_ok(key_pos) && opt_num_ok(value_pos))
                    &&& e == (if !opt_num_ok(field_no) {
                        ArgError::BadFieldNo
                    } else if !opt_num_ok(key_pos) {
                        ArgError::BadKeyPos
                    } else {
                        ArgError::BadValuePos
                    })
                },
            },
    {
        let field_no_val: u8 = match &field_no {
            Some(s) => match parse_u8(s.as_str()) {
                Some(v) => v,
                None => {
                    return Err(ArgError::BadFieldNo);
                },
            },
            None => 2,
        };
        let key_pos_val: u8 = match &key_pos {
            Some(s) => match parse_u8(s.as_str()) {
                Some(v) => v,
                None => {
                    return Err(ArgError::BadKeyPos);
                },
            },
            None => 1,
        };
        let value_pos_val: u8 = match &value_pos {
            Some(s) => match parse_u8(s.as_str()) {
                Some(v) => v,
                None => {
                    return Err(ArgError::BadValuePos);
                },
            },
            None => 2,
        };
        let is_format_name_set = format_name.is_some();
        let is_file_alias_set = file_alias.is_some();
        let is_file_name_set = file_name.is_some();
        let is_separator_set = separator.is_some();
        let is_field_no_set = field_no.is_some();
        let is_key_pos_set = key_pos.is_some();
        let is_value_pos_set = value_pos.is_some();
        let is_comment_set = comment.is_some();
        Ok(
            CmdArgs {
                format_name: match format_name {
                    Some(s) => s,
                    None => String::new(),
                },
                file_alias: match file_alias {
                    Some(s) => s,
                    None => String::new(),
                },
                file_name: match file_name {
                    Some(s) => s,
                    None => String::new(),
                },
                separator: match separator {
                    Some(s) => s,
                    None => String::from_str("\t"),
                },
                field_no: field_no_val,
                key_pos: key_pos_val,
                value_pos: value_pos_val,
                strip,
                comment: match comment {
                    Some(s) => s,
                    None => String::from_str("#"),
                },
                is_format_name_set,
                is_file_alias_set,
                is_file_name_set,
                is_separator_set,
                is_field_no_set,
                is_key_pos_set,
                is_value_pos_set,
                is_strip_set: strip,
                is_comment_set,
            },
        )
    }
}

} // verus!
