use vstd::prelude::*;
use vstd::string::*;

verus! {

/// The join of a base URL and a relative path: the base is kept whole
/// (any reverse-proxy subpath in it is preserved) and exactly one `/`
/// stands between it and the relative path.
pub open spec fn join_url_spec(base: Seq<char>, rel: Seq<char>) -> Seq<char> {
    if base.len() > 0 && base[base.len() - 1] == '/' {
        base + rel
    } else {
        base + seq!['/'] + rel
    }
}

/// The base URL with its trailing slash, if any, removed.
pub open spec fn strip_trailing_slash(base: Seq<char>) -> Seq<char> {
    if base.len() > 0 && base[base.len() - 1] == '/' {
        base.take(base.len() - 1)
    } else {
        base
    }
}

/// Law: whether or not the base ends with a slash, the joined URL is the
/// stripped base, one single `/`, then the relative path unchanged — so
/// the separator between the two segments is exactly one slash, and the
/// characters around it come from the inputs alone.
pub proof fn lemma_join_url_single_separator(base: Seq<char>, rel: Seq<char>)
    ensures
        join_url_spec(base, rel) =~= strip_trailing_slash(base) + seq!['/'] + rel,
        join_url_spec(base, rel)[strip_trailing_slash(base).len() as int] == '/',
        forall|i: int|
            0 <= i < strip_trailing_slash(base).len() ==> join_url_spec(base, rel)[i]
                == strip_trailing_slash(base)[i],
        forall|i: int|
            0 <= i < rel.len() ==> join_url_spec(base, rel)[strip_trailing_slash(base).len() + 1
                + i] == rel[i],
{
    if base.len() > 0 && base[base.len() - 1] == '/' {
        assert(base + rel =~= base.take(base.len() - 1) + seq!['/'] + rel);
    }
}

/// Builds the join of `base` and `rel` with exactly one `/` between them.
pub fn join_url(base: &str, rel: &str) -> (r: String)
    ensures
        r@ == join_url_spec(base@, rel@),
{
    let n = base.unicode_len();
    let mut out = String::from_str(base);
    if n == 0 || base.get_char(n - 1) != '/' {
        out.append("/");
        proof {
            reveal_strlit("/");
            assert(out@ =~= base@ + seq!['/']);
        }
    }
    out.append(rel);
    proof {
        assert(out@ =~= join_url_spec(base@, rel@));
    }
    out
}

} // verus!
