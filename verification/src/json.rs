use vstd::prelude::*;
use vstd::string::*;

use crate::api_models::{ApiInfo, ApiResult};

verus! {

/// Relies on `String::push` from std: appends exactly the one given
/// character at the end of the string.
#[verifier::external_body]
pub(crate) fn push_char(s: &mut String, c: char)
    ensures
        final(s)@ == old(s)@.push(c),
{
    s.push(c);
}

/// The lower-case hexadecimal digit for a value below sixteen.
pub open spec fn hex_digit_spec(n: int) -> char {
    if n == 0 {
        '0'
    } else if n == 1 {
        '1'
    } else if n == 2 {
        '2'
    } else if n == 3 {
        '3'
    } else if n == 4 {
        '4'
    } else if n == 5 {
        '5'
    } else if n == 6 {
        '6'
    } else if n == 7 {
        '7'
    } else if n == 8 {
        '8'
    } else if n == 9 {
        '9'
    } else if n == 10 {
        'a'
    } else if n == 11 {
        'b'
    } else if n == 12 {
        'c'
    } else if n == 13 {
        'd'
    } else if n == 14 {
        'e'
    } else {
        'f'
    }
}

fn hex_digit(n: u32) -> (c: char)
    requires
        n < 16,
    ensures
        c == hex_digit_spec(n as int),
{
    if n == 0 {
        '0'
    } else if n == 1 {
        '1'
    } else if n == 2 {
        '2'
    } else if n == 3 {
        '3'
    } else if n == 4 {
        '4'
    } else if n == 5 {
        '5'
    } else if n == 6 {
        '6'
    } else if n == 7 {
        '7'
    } else if n == 8 {
        '8'
    } else if n == 9 {
        '9'
    } else if n == 10 {
        'a'
    } else if n == 11 {
        'b'
    } else if n == 12 {
        'c'
    } else if n == 13 {
        'd'
    } else if n == 14 {
        'e'
    } else {
        'f'
    }
}

/// JSON escaping of a single character: quote and backslash get a
/// backslash escape, control characters a `\u00XX` escape, and every
/// other character stands for itself.
pub open spec fn json_escape_char(c: char) -> Seq<char> {
    if c == '"' {
        seq!['\\', '"']
    } else if c == '\\' {
        seq!['\\', '\\']
    } else if (c as u32) < 32 {
        seq![
            '\\',
            'u',
            '0',
            '0',
            hex_digit_spec(((c as u32) / 16) as int),
            hex_digit_spec(((c as u32) % 16) as int),
        ]
    } else {
        seq![c]
    }
}

/// JSON escaping of a whole string, character by character.
pub open spec fn json_escape(s: Seq<char>) -> Seq<char>
    decreases s.len(),
{
    if s.len() == 0 {
        Seq::empty()
    } else {
        json_escape(s.drop_last()) + json_escape_char(s.last())
    }
}

/// A JSON string literal: quote, escaped body, quote.
pub open spec fn json_string(s: Seq<char>) -> Seq<char> {
    seq!['"'] + json_escape(s) + seq!['"']
}

fn append_escaped_char(out: &mut String, c: char)
    ensures
        final(out)@ == old(out)@ + json_escape_char(c),
{
    if c == '"' {
        push_char(out, '\\');
        push_char(out, '"');
        proof {
            assert(out@ =~= old(out)@ + json_escape_char(c));
        }
    } else if c == '\\' {
        push_char(out, '\\');
        push_char(out, '\\');
        proof {
            assert(out@ =~= old(out)@ + json_escape_char(c));
        }
    } else {
        let v = c as u32;
        if v < 32 {
            push_char(out, '\\');
            push_char(out, 'u');
            push_char(out, '0');
            push_char(out, '0');
            push_char(out, hex_digit(v / 16));
            push_char(out, hex_digit(v % 16));
            proof {
                assert(out@ =~= old(out)@ + json_escape_char(c));
            }
        } else {
            push_char(out, c);
            proof {
                assert(out@ =~= old(out)@ + json_escape_char(c));
            }
        }
    }
}

fn append_escaped(out: &mut String, piece: &str)
    ensures
        final(out)@ == old(out)@ + json_escape(piece@),
{
    let n = piece.unicode_len();
    let mut i: usize = 0;
    while i < n
        invariant
            i <= n,
            n == piece@.len(),
            out@ == old(out)@ + json_escape(piece@.take(i as int)),
        decreases n - i,
    {
        let c = piece.get_char(i);
        append_escaped_char(out, c);
        proof {
            assert(piece@.take(i as int + 1).drop_last() =~= piece@.take(i as int));
            assert(piece@.take(i as int + 1).last() == c);
            assert(out@ =~= old(out)@ + json_escape(piece@.take(i as int + 1)));
        }
        i = i + 1;
    }
    proof {
        assert(piece@.take(n as int) =~= piece@);
    }
}

/// Appends the JSON string literal for `piece` to `out`.
fn append_json_string(out: &mut String, piece: &str)
    ensures
        final(out)@ == old(out)@ + json_string(piece@),
{
    push_char(out, '"');
    append_escaped(out, piece);
    push_char(out, '"');
    proof {
        assert(out@ =~= old(out)@ + json_string(piece@));
    }
}

/// The decimal digit for a value below ten.
pub open spec fn dec_digit_spec(n: int) -> char {
    if n == 0 {
        '0'
    } else if n == 1 {
        '1'
    } else if n == 2 {
        '2'
    } else if n == 3 {
        '3'
    } else if n == 4 {
        '4'
    } else if n == 5 {
        '5'
    } else if n == 6 {
        '6'
    } else if n == 7 {
        '7'
    } else if n == 8 {
        '8'
    } else {
        '9'
    }
}

/// The decimal rendering of a non-negative integer, without sign and
/// without leading zeros (a lone zero for zero).
pub open spec fn dec_str(n: int) -> Seq<char>
    recommends
        n >= 0,
    decreases n,
{
    if n < 10 {
        seq![dec_digit_spec(n)]
    } else {
        dec_str(n / 10).push(dec_digit_spec(n % 10))
    }
}

/// The decimal rendering of an integer: a leading minus sign when it is
/// negative, then its digits.
pub open spec fn int_str(n: int) -> Seq<char> {
    if n < 0 {
        seq!['-'] + dec_str(-n)
    } else {
        dec_str(n)
    }
}

fn dec_digit(n: u64) -> (c: char)
    requires
        n < 10,
    ensures
        c == dec_digit_spec(n as int),
{
    if n == 0 {
        '0'
    } else if n == 1 {
        '1'
    } else if n == 2 {
        '2'
    } else if n == 3 {
        '3'
    } else if n == 4 {
        '4'
    } else if n == 5 {
        '5'
    } else if n == 6 {
        '6'
    } else if n == 7 {
        '7'
    } else if n == 8 {
        '8'
    } else {
        '9'
    }
}

/// Appends the decimal rendering of `n` to `out`.
pub fn append_dec_u64(out: &mut String, n: u64)
    ensures
        final(out)@ == old(out)@ + dec_str(n as int),
    decreases n,
{
    if n < 10 {
        push_char(out, dec_digit(n));
        proof {
            assert(out@ =~= old(out)@ + dec_str(n as int));
        }
    } else {
        append_dec_u64(out, n / 10);
        push_char(out, dec_digit(n % 10));
        proof {
            assert(out@ =~= old(out)@ + dec_str(n as int));
        }
    }
}

/// Appends the decimal rendering of `n`, with a minus sign when it is
/// negative, to `out`.
pub fn append_dec_i32(out: &mut String, n: i32)
    ensures
        final(out)@ == old(out)@ + int_str(n as int),
{
    if n < 0 {
        push_char(out, '-');
        let m: u64 = (-(n as i64)) as u64;
        proof {
            assert(m as int == -(n as int));
        }
        append_dec_u64(out, m);
        proof {
            assert(out@ =~= old(out)@ + int_str(n as int));
        }
    } else {
        append_dec_u64(out, n as u64);
    }
}

/// The exact JSON object `{"username":U,"password":P}` that the login
/// call sends, with both credentials as escaped JSON strings.
pub open spec fn login_body_spec(username: Seq<char>, password: Seq<char>) -> Seq<char> {
    "{\"username\":"@ + json_string(username) + ",\"password\":"@ + json_string(password) + "}"@
}

/// Builds the JSON body of the login call.
pub fn login_body(username: &str, password: &str) -> (r: String)
    ensures
        r@ == login_body_spec(username@, password@),
{
    let mut out = String::from_str("{\"username\":");
    append_json_string(&mut out, username);
    out.append(",\"password\":");
    append_json_string(&mut out, password);
    out.append("}");
    proof {
        assert(out@ =~= login_body_spec(username@, password@));
    }
    out
}

/// A possibly absent JSON string: `null` when absent.
pub open spec fn json_opt_string(v: Option<Seq<char>>) -> Seq<char> {
    match v {
        Some(s) => json_string(s),
        None => "null"@,
    }
}

/// A possibly absent JSON boolean: `null` when absent.
pub open spec fn json_opt_bool(v: Option<bool>) -> Seq<char> {
    match v {
        Some(true) => "true"@,
        Some(false) => "false"@,
        None => "null"@,
    }
}

/// A possibly absent JSON integer: `null` when absent.
pub open spec fn json_opt_i32(v: Option<i32>) -> Seq<char> {
    match v {
        Some(n) => int_str(n as int),
        None => "null"@,
    }
}

fn append_opt_string(out: &mut String, v: &Option<String>)
    ensures
        final(out)@ == old(out)@ + json_opt_string(v.deep_view()),
{
    match v {
        Some(s) => {
            append_json_string(out, s.as_str());
        },
        None => {
            out.append("null");
        },
    }
}

fn append_opt_bool(out: &mut String, v: &Option<bool>)
    ensures
        final(out)@ == old(out)@ + json_opt_bool(*v),
{
    match v {
        Some(true) => {
            out.append("true");
        },
        Some(false) => {
            out.append("false");
        },
        None => {
            out.append("null");
        },
    }
}

fn append_opt_i32(out: &mut String, v: &Option<i32>)
    ensures
        final(out)@ == old(out)@ + json_opt_i32(*v),
{
    match v {
        Some(n) => {
            append_dec_i32(out, *n);
        },
        None => {
            out.append("null");
        },
    }
}

/// The JSON object for a discovery payload, with every field written out
/// and `null` standing for an absent one.
pub open spec fn api_info_json(info: ApiInfo) -> Seq<char> {
    "{\"controllerVer\":"@ + json_opt_string(info.controller_ver.deep_view()) + ",\"apiVer\":"@
        + json_opt_string(info.api_ver.deep_view()) + ",\"configured\":"@ + json_opt_bool(
        info.configured,
    ) + ",\"type\":"@ + json_opt_i32(info._type) + ",\"supportApp\":"@ + json_opt_bool(
        info.support_app,
    ) + ",\"omadacId\":"@ + json_opt_string(info.controller_id.deep_view()) + "}"@
}

/// Serializes a discovery payload back to JSON text.
pub fn api_info_to_json(info: &ApiInfo) -> (r: String)
    ensures
        r@ == api_info_json(*info),
{
    let mut out = String::from_str("{\"controllerVer\":");
    append_opt_string(&mut out, &info.controller_ver);
    out.append(",\"apiVer\":");
    append_opt_string(&mut out, &info.api_ver);
    out.append(",\"configured\":");
    append_opt_bool(&mut out, &info.configured);
    out.append(",\"type\":");
    append_opt_i32(&mut out, &info._type);
    out.append(",\"supportApp\":");
    append_opt_bool(&mut out, &info.support_app);
    out.append(",\"omadacId\":");
    append_opt_string(&mut out, &info.controller_id);
    out.append("}");
    proof {
        assert(out@ =~= api_info_json(*info));
    }
    out
}

/// The JSON text of an envelope: error code, message, and the already
/// rendered payload when one is present.
pub open spec fn envelope_json(error_code: i32, msg: Seq<char>, result_json: Option<Seq<char>>) -> Seq<
    char,
> {
    match result_json {
        Some(rj) => "{\"errorCode\":"@ + int_str(error_code as int) + ",\"msg\":"@ + json_string(
            msg,
        ) + ",\"result\":"@ + rj + "}"@,
        None => "{\"errorCode\":"@ + int_str(error_code as int) + ",\"msg\":"@ + json_string(msg)
            + "}"@,
    }
}

/// Serializes a discovery envelope back to JSON text, field for field.
pub fn api_info_envelope_to_json(env: &ApiResult<ApiInfo>) -> (r: String)
    ensures
        r@ == (match env.result {
            Some(info) => envelope_json(env.error_code, env.msg@, Some(api_info_json(info))),
            None => envelope_json(env.error_code, env.msg@, None),
        }),
{
    let mut out = String::from_str("{\"errorCode\":");
    append_dec_i32(&mut out, env.error_code);
    out.append(",\"msg\":");
    append_json_string(&mut out, env.msg.as_str());
    match &env.result {
        Some(info) => {
            out.append(",\"result\":");
            let rendered = api_info_to_json(info);
            out.append(rendered.as_str());
            out.append("}");
            proof {
                assert(out@ =~= envelope_json(env.error_code, env.msg@, Some(api_info_json(*info))));
            }
        },
        None => {
            out.append("}");
            proof {
                assert(out@ =~= envelope_json(env.error_code, env.msg@, None));
            }
        },
    }
    out
}

} // verus!
