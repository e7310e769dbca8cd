//! Bearer authentication.
use crate::config::Config;
use crate::error::{ApiError, ApiErrorView};
use crate::text::same_bytes;
use vstd::prelude::*;
use vstd::string::*;
use vstd::slice::slice_subrange;
use vstd::utf8::{encode_utf8, encode_utf8_decode_utf8, is_ascii_chars_encode_utf8};

verus! {

/// A byte that a header value may hold to be read as text.
pub open spec fn is_visible_ascii(b: u8) -> bool {
    32 <= b < 127 || b == 9
}

pub open spec fn is_visible_text(bytes: Seq<u8>) -> bool {
    forall|i: int| 0 <= i < bytes.len() ==> is_visible_ascii(#[trigger] bytes[i])
}

/// What stands before the token.
pub open spec fn scheme_bytes() -> Seq<u8> {
    encode_utf8("Bearer "@)
}

/// The token that an `Authorization` header carries; empty without such a header, or where
/// the header is not readable as text or of another scheme.
pub open spec fn bearer_token(header: Option<Seq<u8>>) -> Seq<u8> {
    match header {
        Some(bytes) => if is_visible_text(bytes) && scheme_bytes().is_prefix_of(bytes) {
            bytes.skip(scheme_bytes().len() as int)
        } else {
            Seq::empty()
        },
        None => Seq::empty(),
    }
}

/// The token that clients have to show.
pub open spec fn expected_token(config: Config) -> Seq<u8> {
    match config.api_key {
        Some(key) => encode_utf8(key@),
        None => Seq::empty(),
    }
}

/// Whether a request with this `Authorization` header is let in.
pub open spec fn is_authenticated(config: Config, header: Option<Seq<u8>>) -> bool {
    config.no_auth || bearer_token(header) == expected_token(config)
}

pub open spec fn bytes_view(bytes: Option<&[u8]>) -> Option<Seq<u8>> {
    match bytes {
        Some(bytes) => Some(bytes@),
        None => None,
    }
}

/// Whether two byte strings are equal. Which steps are taken depends on their lengths alone.
pub fn constant_time_eq(left: &[u8], right: &[u8]) -> (r: bool)
    ensures
        r == (left@ == right@),
{
    let (n, m): (usize, usize) = (left.len(), right.len());
    let mut difference: usize = n ^ m;
    assert(difference == 0 <==> n == m) by (bit_vector)
        requires
            difference == n ^ m,
    ;
    let length: usize = if n < m {
        m
    } else {
        n
    };
    let ghost same_len = n == m;
    let mut index: usize = 0;
    while index < length
        invariant
            n == left@.len(),
            m == right@.len(),
            index <= length,
            length == if n < m {
                m
            } else {
                n
            },
            same_len == (n == m),
            difference == 0 <==> same_len && forall|j: int|
                0 <= j < index ==> left@[j] == right@[j],
        decreases length - index,
    {
        let a: u8 = if index < n {
            left[index]
        } else {
            0
        };
        let b: u8 = if index < m {
            right[index]
        } else {
            0
        };
        let before: usize = difference;
        let delta: usize = (a ^ b) as usize;
        assert(delta == 0 <==> a == b) by (bit_vector)
            requires
                delta == (a ^ b) as usize,
        ;
        difference = before | delta;
        assert(difference == 0 <==> before == 0 && delta == 0) by (bit_vector)
            requires
                difference == before | delta,
        ;
        index = index + 1;
        assert(same_len ==> a == left@[index - 1] && b == right@[index - 1]);
    }
    assert(difference == 0 ==> left@ =~= right@);
    difference == 0
}

/// Whether a header value is readable as text.
pub fn visible_text(bytes: &[u8]) -> (r: bool)
    ensures
        r == is_visible_text(bytes@),
{
    let mut i: usize = 0;
    while i < bytes.len()
        invariant
            i <= bytes@.len(),
            forall|j: int| 0 <= j < i ==> is_visible_ascii(#[trigger] bytes@[j]),
        decreases bytes@.len() - i,
    {
        let b: u8 = bytes[i];
        if !((32 <= b && b < 127) || b == 9) {
            assert(!is_visible_ascii(bytes@[i as int]));
            return false;
        }
        i = i + 1;
    }
    true
}

/// Lets a request in, or refuses it, by the first `Authorization` header that it carries.
pub fn authenticate(config: &Config, authorization: Option<&[u8]>) -> (r: Result<(), ApiError>)
    ensures
        r is Ok <==> is_authenticated(*config, bytes_view(authorization)),
        r matches Err(error) ==> error@ == ApiErrorView::unauthorized(),
{
    if config.no_auth {
        return Ok(());
    }
    let key: &str = match &config.api_key {
        Some(key) => key.as_str(),
        None => "",
    };
    proof {
        reveal_strlit("");
        assert(""@ =~= Seq::empty());
        assert(encode_utf8(""@) =~= Seq::empty());
    }
    let expected = key.as_bytes();
    let scheme = "Bearer ".as_bytes();
    let none: [u8; 0] = [];
    let supplied: &[u8] = match authorization {
        Some(bytes) => {
            if visible_text(bytes) && bytes.len() >= scheme.len() && same_bytes(
                slice_subrange(bytes, 0, scheme.len()),
                scheme,
            ) {
                slice_subrange(bytes, scheme.len(), bytes.len())
            } else {
                none.as_slice()
            }
        },
        None => none.as_slice(),
    };
    proof {
        if let Some(bytes) = authorization {
            if bytes@.len() >= scheme@.len() {
                assert(bytes@.subrange(scheme@.len() as int, bytes@.len() as int) =~= bytes@.skip(
                    scheme@.len() as int,
                ));
                assert(bytes@.subrange(0, scheme@.len() as int) == scheme@ <==> scheme@.is_prefix_of(
                    bytes@,
                ));
            }
        }
        assert(none@ =~= Seq::empty());
    }
    if constant_time_eq(expected, supplied) {
        Ok(())
    } else {
        Err(ApiError::unauthorized())
    }
}

/// A valid configuration with authentication lets in no request that shows no token: none
/// without the header, none with an unreadable one and none of another scheme.
pub proof fn law_requests_without_token_are_refused(config: Config, header: Option<Seq<u8>>)
    requires
        config.is_valid(),
        !config.no_auth,
        bearer_token(header).len() == 0,
    ensures
        !is_authenticated(config, header),
{
    let key = config.api_key->0@;
    encode_utf8_decode_utf8(key);
    if encode_utf8(key).len() == 0 {
        assert(encode_utf8(key) =~= encode_utf8(Seq::empty()));
        encode_utf8_decode_utf8(Seq::empty());
    }
}

/// With authentication, of the readable headers of the bearer scheme exactly the one that
/// carries the API key is let in.
pub proof fn law_api_key_is_let_in(config: Config, key: Seq<u8>)
    requires
        !config.no_auth,
        is_visible_text(key),
    ensures
        is_authenticated(config, Some(scheme_bytes() + key)) <==> key == expected_token(config),
{
    reveal_strlit("Bearer ");
    is_ascii_chars_encode_utf8("Bearer "@);
    assert(is_visible_text(scheme_bytes() + key)) by {
        assert forall|i: int| 0 <= i < (scheme_bytes() + key).len() implies is_visible_ascii(
            #[trigger] (scheme_bytes() + key)[i],
        ) by {
            if i < scheme_bytes().len() {
                assert(scheme_bytes()[i] == "Bearer "@[i] as u8);
            } else {
                assert((scheme_bytes() + key)[i] == key[i - scheme_bytes().len()]);
            }
        }
    }
    assert((scheme_bytes() + key).skip(scheme_bytes().len() as int) =~= key);
    assert(scheme_bytes().is_prefix_of(scheme_bytes() + key));
}

} // verus!
