use vstd::prelude::*;

use crate::generator::ValueGenerator;

verus! {

/// The text of `s` before its first `c`; all of `s` where there is none.
pub open spec fn before_first(s: Seq<char>, c: char) -> Seq<char>
    decreases s.len(),
{
    if s.len() == 0 {
        s
    } else if s[0] == c {
        Seq::empty()
    } else {
        seq![s[0]] + before_first(s.skip(1), c)
    }
}

/// The text of `s` after its first `c`.
pub open spec fn after_first(s: Seq<char>, c: char) -> Seq<char> {
    s.skip(before_first(s, c).len() as int + 1)
}

pub open spec fn is_digit(c: char) -> bool {
    '0' <= c && c <= '9'
}

/// One or more decimal digits.
pub open spec fn is_digits(s: Seq<char>) -> bool {
    s.len() > 0 && forall|i: int| 0 <= i < s.len() ==> is_digit(#[trigger] s[i])
}

/// The value of a run of decimal digits.
pub open spec fn digits_value(s: Seq<char>) -> int
    decreases s.len(),
{
    if s.len() == 0 {
        0
    } else {
        10 * digits_value(s.drop_last()) + (s.last() as int - '0' as int)
    }
}

/// The value of decimal digits after an optional `+`, if `s` is such a text.
pub open spec fn unsigned_value(s: Seq<char>) -> Option<int> {
    let d = if s.len() > 0 && s[0] == '+' { s.skip(1) } else { s };
    if is_digits(d) {
        Some(digits_value(d))
    } else {
        None
    }
}

/// The value of decimal digits after an optional `+` or `-`, if `s` is such a text.
pub open spec fn signed_value(s: Seq<char>) -> Option<int> {
    if s.len() > 0 && s[0] == '-' {
        if is_digits(s.skip(1)) {
            Some(-digits_value(s.skip(1)))
        } else {
            None
        }
    } else {
        unsigned_value(s)
    }
}

/// Whether `m` is an error message that starts with `prefix`.
pub open spec fn is_error_after(r: Result<ValueGenerator, String>, prefix: Seq<char>) -> bool {
    r is Err && prefix.len() <= r->Err_0@.len() && r->Err_0@.subrange(0, prefix.len() as int)
        == prefix
}

/// What parsing a field of kind `t` with content `c` gives: `r`, where
/// `parse_float` reads a float as its bit pattern.
pub open spec fn field_outcome<P: Fn(String) -> Result<u64, String>>(
    t: Seq<char>,
    c: Seq<char>,
    r: Result<ValueGenerator, String>,
    parse_float: P,
) -> bool {
    if t == "string"@ {
        r matches Ok(ValueGenerator::Fixed(s)) && s@ == c
    } else if t == "file"@ {
        r matches Ok(ValueGenerator::File(s)) && s@ == c
    } else if t == "alpha"@ || t == "bytes"@ {
        let n = unsigned_value(c);
        if n is Some && n->0 <= usize::MAX {
            r == if t == "alpha"@ {
                Ok::<ValueGenerator, String>(ValueGenerator::RandAlphaNum(n->0 as usize))
            } else {
                Ok::<ValueGenerator, String>(ValueGenerator::RandBytes(n->0 as usize))
            }
        } else {
            is_error_after(r, "Failed to parse 'SIZE' from '"@ + t + ":SIZE': "@)
        }
    } else if t == "int"@ || t == "float"@ {
        if !c.contains('-') {
            r is Err && r->Err_0@ == "Inclusive range should have 'min-max' format"@
        } else if t == "int"@ {
            let lo = signed_value(before_first(c, '-'));
            let hi = signed_value(after_first(c, '-'));
            if !(lo is Some && i64::MIN <= lo->0 <= i64::MAX) {
                is_error_after(r, "Failed to parse 'MIN' from 'int:MIN-MAX': "@)
            } else if !(hi is Some && i64::MIN <= hi->0 <= i64::MAX) {
                is_error_after(r, "Failed to parse 'MAX' from 'int:MIN-MAX': "@)
            } else {
                r == Ok::<ValueGenerator, String>(
                    ValueGenerator::RandInt(lo->0 as i64, hi->0 as i64),
                )
            }
        } else {
            ||| (r matches Ok(ValueGenerator::RandFloat(x, y)) && exists|a: String, b: String|
                a@ == before_first(c, '-') && b@ == after_first(c, '-') && parse_float.ensures(
                    (a,),
                    Ok::<u64, String>(x),
                ) && parse_float.ensures((b,), Ok::<u64, String>(y)))
            ||| (is_error_after(r, "Failed to parse 'MIN' from 'float:MIN-MAX': "@) && exists|
                a: String,
                e: String,
            | a@ == before_first(c, '-') && parse_float.ensures((a,), Err::<u64, String>(e)))
            ||| (is_error_after(r, "Failed to parse 'MAX' from 'float:MIN-MAX': "@) && exists|
                b: String,
                e: String,
            | b@ == after_first(c, '-') && parse_float.ensures((b,), Err::<u64, String>(e)))
        }
    } else {
        r is Err && r->Err_0@ == "Unsupported value '"@ + t + ":...'"@
    }
}

/// Relies on `str::split_once` with a `char` pattern: the text before the first
/// occurrence and the text after it, or `None` where there is none.
#[verifier::external_body]
fn split_once_char(s: &str, c: char) -> (r: Option<(String, String)>)
    ensures
        r is None <==> !s@.contains(c),
        r matches Some((a, b)) ==> a@ == before_first(s@, c) && b@ == after_first(s@, c),
{
    match s.split_once(c) {
        Some((a, b)) => Some((a.to_string(), b.to_string())),
        None => None,
    }
}

/// Relies on `str::parse::<usize>`: decimal digits after an optional `+`, of a
/// value within `usize`; otherwise an error, given here by its message.
#[verifier::external_body]
fn parse_usize(s: &str) -> (r: Result<usize, String>)
    ensures
        r is Ok <==> (unsigned_value(s@) is Some && unsigned_value(s@)->0 <= usize::MAX),
        r is Ok ==> r->Ok_0 == unsigned_value(s@)->0,
{
    match s.parse::<usize>() {
        Ok(v) => Ok(v),
        Err(e) => Err(e.to_string()),
    }
}

/// Relies on `str::parse::<i64>`: decimal digits after an optional `+` or `-`, of
/// a value within `i64`; otherwise an error, given here by its message.
#[verifier::external_body]
fn parse_i64(s: &str) -> (r: Result<i64, String>)
    ensures
        r is Ok <==> (signed_value(s@) is Some && i64::MIN <= signed_value(s@)->0 <= i64::MAX),
        r is Ok ==> r->Ok_0 == signed_value(s@)->0,
{
    match s.parse::<i64>() {
        Ok(v) => Ok(v),
        Err(e) => Err(e.to_string()),
    }
}

/// Whether `t` reads `w`.
fn is_word(t: &String, w: &str) -> (r: bool)
    ensures
        r == (t@ == w@),
{
    t.eq(&String::from_str(w))
}

/// `prefix` followed by `detail`.
fn message(prefix: &str, detail: &String) -> (r: String)
    ensures
        r@ == prefix@ + detail@,
{
    String::from_str(prefix).concat(detail.as_str())
}

/// Reads a `K:V` pair: the text before the first `:` and the text after it.
pub fn kv_clap_value_parser(kv: &str) -> (r: Result<(String, String), String>)
    ensures
        !kv@.contains(':') ==> r is Err && r->Err_0@ == "Should have 'K:V' format"@,
        kv@.contains(':') ==> r is Ok && r->Ok_0.0@ == before_first(kv@, ':') && r->Ok_0.1@
            == after_first(kv@, ':'),
{
    let (k, v) = match split_once_char(kv, ':') {
        None => {
            return Err(String::from_str("Should have 'K:V' format"));
        },
        Some((k, v)) => (k, v),
    };

    Ok((k, v))
}

impl ValueGenerator {
    /// Reads a field specification `TYPE:CONTENT`: `string:STR`, `file:PATH`,
    /// `alpha:LENGTH`, `bytes:LENGTH`, `int:MIN-MAX` or `float:MIN-MAX`; the bounds
    /// of a float are read by `parse_float`, as bit patterns. Whether the file of a
    /// `file:PATH` exists is for the caller to check.
    pub fn clap_value_parser<P: Fn(String) -> Result<u64, String>>(
        gen_field: &str,
        parse_float: &P,
    ) -> (r: Result<ValueGenerator, String>)
        requires
            forall|s: String| parse_float.requires((s,)),
        ensures
            !gen_field@.contains(':') ==> r is Err && r->Err_0@
                == "Should have 'TYPE:CONTENT' format"@,
            gen_field@.contains(':') ==> field_outcome(
                before_first(gen_field@, ':'),
                after_first(gen_field@, ':'),
                r,
                *parse_float,
            ),
    {
        let (gen_field_type, gen_field_content) = match split_once_char(gen_field, ':') {
            None => {
                return Err(String::from_str("Should have 'TYPE:CONTENT' format"));
            },
            Some((t, c)) => (t, c),
        };
        let ghost t = gen_field_type@;
        let ghost c = gen_field_content@;

        if is_word(&gen_field_type, "string") {
            Ok(ValueGenerator::Fixed(gen_field_content))
        } else if is_word(&gen_field_type, "file") {
            Ok(ValueGenerator::File(gen_field_content))
        } else if is_word(&gen_field_type, "alpha") {
            match parse_usize(gen_field_content.as_str()) {
                Err(e) => {
                    let m = message("Failed to parse 'SIZE' from 'alpha:SIZE': ", &e);
                    proof {
                        assert("Failed to parse 'SIZE' from 'alpha:SIZE': "@ =~= "Failed to parse 'SIZE' from '"@ + t + ":SIZE': "@) by {
                            reveal_strlit("Failed to parse 'SIZE' from 'alpha:SIZE': ");
                            reveal_strlit("Failed to parse 'SIZE' from '");
                            reveal_strlit("alpha");
                            reveal_strlit(":SIZE': ");
                        }
                        assert(m@.subrange(0, "Failed to parse 'SIZE' from 'alpha:SIZE': "@.len() as int) =~= "Failed to parse 'SIZE' from 'alpha:SIZE': "@);
                    }
                    Err(m)
                },
                Ok(size) => Ok(ValueGenerator::RandAlphaNum(size)),
            }
        } else if is_word(&gen_field_type, "bytes") {
            match parse_usize(gen_field_content.as_str()) {
                Err(e) => {
                    let m = message("Failed to parse 'SIZE' from 'bytes:SIZE': ", &e);
                    proof {
                        assert("Failed to parse 'SIZE' from 'bytes:SIZE': "@ =~= "Failed to parse 'SIZE' from '"@ + t + ":SIZE': "@) by {
                            reveal_strlit("Failed to parse 'SIZE' from 'bytes:SIZE': ");
                            reveal_strlit("Failed to parse 'SIZE' from '");
                            reveal_strlit("bytes");
                            reveal_strlit(":SIZE': ");
                        }
                        assert(m@.subrange(0, "Failed to parse 'SIZE' from 'bytes:SIZE': "@.len() as int) =~= "Failed to parse 'SIZE' from 'bytes:SIZE': "@);
                    }
                    Err(m)
                },
                Ok(size) => Ok(ValueGenerator::RandBytes(size)),
            }
        } else if is_word(&gen_field_type, "int") {
            match split_once_char(gen_field_content.as_str(), '-') {
                None => Err(String::from_str("Inclusive range should have 'min-max' format")),
                Some((min_str, max_str)) => {
                    let min = match parse_i64(min_str.as_str()) {
                        Err(e) => {
                            let m = message("Failed to parse 'MIN' from 'int:MIN-MAX': ", &e);
                            assert(m@.subrange(0, "Failed to parse 'MIN' from 'int:MIN-MAX': "@.len() as int) =~= "Failed to parse 'MIN' from 'int:MIN-MAX': "@);
                            return Err(m);
                        },
                        Ok(v) => v,
                    };

                    let max = match parse_i64(max_str.as_str()) {
                        Err(e) => {
                            let m = message("Failed to parse 'MAX' from 'int:MIN-MAX': ", &e);
                            assert(m@.subrange(0, "Failed to parse 'MAX' from 'int:MIN-MAX': "@.len() as int) =~= "Failed to parse 'MAX' from 'int:MIN-MAX': "@);
                            return Err(m);
                        },
                        Ok(v) => v,
                    };

                    Ok(ValueGenerator::RandInt(min, max))
                },
            }
        } else if is_word(&gen_field_type, "float") {
            match split_once_char(gen_field_content.as_str(), '-') {
                None => Err(String::from_str("Inclusive range should have 'min-max' format")),
                Some((min_str, max_str)) => {
                    let ghost a = min_str;
                    let ghost b = max_str;
                    let min = match parse_float(min_str) {
                        Err(e) => {
                            let m = message("Failed to parse 'MIN' from 'float:MIN-MAX': ", &e);
                            assert(m@.subrange(0, "Failed to parse 'MIN' from 'float:MIN-MAX': "@.len() as int) =~= "Failed to parse 'MIN' from 'float:MIN-MAX': "@);
                            return Err(m);
                        },
                        Ok(v) => v,
                    };

                    let max = match parse_float(max_str) {
                        Err(e) => {
                            let m = message("Failed to parse 'MAX' from 'float:MIN-MAX': ", &e);
                            assert(m@.subrange(0, "Failed to parse 'MAX' from 'float:MIN-MAX': "@.len() as int) =~= "Failed to parse 'MAX' from 'float:MIN-MAX': "@);
                            return Err(m);
                        },
                        Ok(v) => v,
                    };

                    Ok(ValueGenerator::RandFloat(min, max))
                },
            }
        } else {
            let m = message("Unsupported value '", &gen_field_type).concat(":...'");
            Err(m)
        }
    }
}

} // verus!
