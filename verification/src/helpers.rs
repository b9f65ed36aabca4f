use vstd::prelude::*;
use vstd::string::*;

verus! {

/// What percent-decoding a header value and reading the bytes as UTF-8
/// yields: the decoded text, or nothing when the decoded bytes are not
/// valid UTF-8. A function of the input characters alone.
pub uninterp spec fn percent_decoded(s: Seq<char>) -> Option<Seq<char>>;

/// Relies on `percent_encoding::percent_decode_str` and
/// `PercentDecode::decode_utf8`: every `%` followed by two hex digits
/// becomes the byte they spell, and the decoded bytes are read as UTF-8.
/// The result depends on the input alone.
#[verifier::external_body]
fn percent_decode_utf8(value: &str) -> (r: Option<String>)
    ensures
        match r {
            Some(d) => percent_decoded(value@) == Some(d@),
            None => percent_decoded(value@) is None,
        },
{
    match percent_encoding::percent_decode_str(value).decode_utf8() {
        Ok(decoded) => Some(decoded.into_owned()),
        Err(_) => None,
    }
}

/// Whether the exact token `fileName=` stands in `s` at position `i`.
pub open spec fn token_at(s: Seq<char>, i: int) -> bool {
    &&& 0 <= i
    &&& i + 9 <= s.len()
    &&& s[i] == 'f'
    &&& s[i + 1] == 'i'
    &&& s[i + 2] == 'l'
    &&& s[i + 3] == 'e'
    &&& s[i + 4] == 'N'
    &&& s[i + 5] == 'a'
    &&& s[i + 6] == 'm'
    &&& s[i + 7] == 'e'
    &&& s[i + 8] == '='
}

/// The position of the first `fileName=` token at or after `i`, if any.
pub open spec fn find_token_from(s: Seq<char>, i: int) -> Option<int>
    recommends
        0 <= i,
    decreases s.len() - i,
{
    if i + 9 > s.len() {
        None
    } else if token_at(s, i) {
        Some(i)
    } else {
        find_token_from(s, i + 1)
    }
}

/// The server-suggested file name inside already decoded header text:
/// everything after the first `fileName=` token, to the end.
pub open spec fn parsed_file_name(decoded: Seq<char>) -> Option<Seq<char>> {
    match find_token_from(decoded, 0) {
        Some(i) => Some(decoded.subrange(i + 9, decoded.len() as int)),
        None => None,
    }
}

/// The file name a `Content-Disposition` header value suggests: the
/// header is percent-decoded as UTF-8, and everything after the first
/// case-sensitive `fileName=` token is the name. A missing or empty
/// header, undecodable bytes, or a missing token yield nothing.
pub open spec fn file_name_of_disposition(header: Option<Seq<char>>) -> Option<Seq<char>> {
    match header {
        None => None,
        Some(v) => if v.len() == 0 {
            None
        } else {
            match percent_decoded(v) {
                None => None,
                Some(d) => parsed_file_name(d),
            }
        },
    }
}

/// Finds the first occurrence of the token `fileName=` in `s`.
pub fn find_file_name_token(s: &str) -> (r: Option<usize>)
    ensures
        match r {
            Some(i) => find_token_from(s@, 0) == Some(i as int) && token_at(s@, i as int),
            None => find_token_from(s@, 0) is None,
        },
{
    let n = s.unicode_len();
    if n < 9 {
        return None;
    }
    let mut i: usize = 0;
    while i <= n - 9
        invariant
            n == s@.len(),
            n >= 9,
            i <= n - 8,
            find_token_from(s@, 0) == find_token_from(s@, i as int),
        decreases n - i,
    {
        let hit = s.get_char(i) == 'f' && s.get_char(i + 1) == 'i' && s.get_char(i + 2) == 'l'
            && s.get_char(i + 3) == 'e' && s.get_char(i + 4) == 'N' && s.get_char(i + 5) == 'a'
            && s.get_char(i + 6) == 'm' && s.get_char(i + 7) == 'e' && s.get_char(i + 8) == '=';
        if hit {
            proof {
                assert(token_at(s@, i as int));
            }
            return Some(i);
        }
        proof {
            assert(!token_at(s@, i as int));
        }
        i = i + 1;
    }
    proof {
        assert(find_token_from(s@, i as int) is None);
    }
    None
}

/// Extracts the server-suggested file name from a `Content-Disposition`
/// header value, exactly as `file_name_of_disposition` describes it.
pub fn parse_file_name_from_content_disposition(header_value: Option<&str>) -> (r: Option<String>)
    ensures
        match r {
            Some(name) => file_name_of_disposition(header_value.deep_view()) == Some(name@),
            None => file_name_of_disposition(header_value.deep_view()) is None,
        },
{
    match header_value {
        None => None,
        Some(value) => {
            if value.is_empty() {
                None
            } else {
                match percent_decode_utf8(value) {
                    None => None,
                    Some(decoded) => {
                        let ds = decoded.as_str();
                        match find_file_name_token(ds) {
                            Some(i) => {
                                let n = ds.unicode_len();
                                Some(String::from_str(ds.substring_char(i + 9, n)))
                            },
                            None => None,
                        }
                    },
                }
            }
        },
    }
}

/// The name the backup is written under: the caller's explicit output
/// path when one was given, else the server-suggested name, else the
/// default `Omada_Backup.cfg`.
pub open spec fn selected_file_name(header: Option<Seq<char>>, output_file: Option<Seq<char>>) -> Seq<
    char,
> {
    match output_file {
        Some(p) => p,
        None => match file_name_of_disposition(header) {
            Some(n) => n,
            None => "Omada_Backup.cfg"@,
        },
    }
}

/// Chooses the file name for the downloaded backup.
pub fn select_backup_file_name(header_value: Option<&str>, output_file: Option<String>) -> (r:
    String)
    ensures
        r@ == selected_file_name(header_value.deep_view(), output_file.deep_view()),
{
    match output_file {
        Some(p) => p,
        None => match parse_file_name_from_content_disposition(header_value) {
            Some(n) => n,
            None => String::from_str("Omada_Backup.cfg"),
        },
    }
}

} // verus!
