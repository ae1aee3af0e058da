//! Building the signed token.

use vstd::prelude::*;
use vstd::string::*;
use crate::error::CliError;
use crate::error::CliErrorView;
use crate::key::is_secp256k1_key;
use crate::key::PrivateKey;
use crate::resolver::resolved_view;

verus! {

/// What the error of a failed build displays.
pub const BUILD_FAILED: &'static str = "failed to build json web token";

/// What cylinder returns when a token with no header and no claims of the
/// caller's is built and signed on the curve secp256k1 with `key`: the
/// encoded token, or else what the build error displays, followed by what
/// the error underneath it displays.
pub uninterp spec fn secp256k1_jwt(key: Seq<u8>) -> Result<Seq<char>, Seq<Seq<char>>>;

/// Whether `c` is a character of Base64 text: a letter or a digit of ASCII,
/// a plus sign, a slash, or the equals sign that pads.
pub open spec fn is_base64_char(c: char) -> bool {
    ||| 'A' as u32 <= c as u32 <= 'Z' as u32
    ||| 'a' as u32 <= c as u32 <= 'z' as u32
    ||| '0' as u32 <= c as u32 <= '9' as u32
    ||| c == '+'
    ||| c == '/'
    ||| c == '='
}

/// Whether `text` is Base64 text, and not empty.
pub open spec fn is_base64(text: Seq<char>) -> bool {
    text.len() > 0 && forall|i: int| 0 <= i < text.len() ==> is_base64_char(#[trigger] text[i])
}

/// Whether `token` has the shape of a signed token: header, claims and
/// signature, each Base64 text, with a full stop between neighbours.
pub open spec fn is_signed_token(token: Seq<char>) -> bool {
    exists|header: Seq<char>, claims: Seq<char>, signature: Seq<char>|
        is_base64(header) && is_base64(claims) && is_base64(signature) && #[trigger] token_of_parts(
            header,
            claims,
            signature,
        ) == token
}

/// The token of the three components.
pub open spec fn token_of_parts(
    header: Seq<char>,
    claims: Seq<char>,
    signature: Seq<char>,
) -> Seq<char> {
    header + seq!['.'] + claims + seq!['.'] + signature
}

/// The mathematical value of what signing returned.
pub open spec fn signing_view(signed: Result<String, Vec<String>>) -> Result<
    Seq<char>,
    Seq<Seq<char>>,
> {
    match signed {
        Ok(token) => Ok(token@),
        Err(displays) => Err(displays.deep_view()),
    }
}

/// The mathematical value of a token or the error in its place.
pub open spec fn token_view(result: Result<String, CliError>) -> Result<Seq<char>, CliErrorView> {
    match result {
        Ok(token) => Ok(token@),
        Err(error) => Err(error@),
    }
}

/// What building a token returns for each outcome of signing. A token is
/// passed on unchanged. A failure becomes an error that displays
/// [`BUILD_FAILED`] and keeps the failure as its source, by the texts that
/// it had on display.
pub open spec fn token_outcome(signed: Result<Seq<char>, Seq<Seq<char>>>) -> Result<
    Seq<char>,
    CliErrorView,
> {
    match signed {
        Ok(token) => Ok(token),
        Err(displays) => Err(
            CliErrorView::from_source_with_message(
                CliErrorView::from_displays(displays),
                BUILD_FAILED@,
            ),
        ),
    }
}

/// What generating a token returns for what the resolution of the key ended
/// with: the token of the key, or the error in its place, whether it is the
/// error for which there is no key or the error of the build.
pub open spec fn generated(resolved: Result<Seq<u8>, CliErrorView>) -> Result<
    Seq<char>,
    CliErrorView,
> {
    match resolved {
        Ok(key) => token_outcome(secp256k1_jwt(key)),
        Err(error) => Err(error),
    }
}

/// Calls cylinder: `Secp256k1Context::new`, `Context::new_signer` on the key
/// and `JsonWebTokenBuilder::new().build` on that signer. Nothing of this is
/// proved; the contract claims three things of it.
///
/// The result is a function of the key's bytes, and gets its name. The
/// header holds the algorithm and the type, the claims hold the issuer, which
/// is the signer's public key, and the signature is made with the nonce of
/// RFC 6979, so nothing but the key enters.
///
/// The build succeeds on the secret keys of the curve and on no other bytes.
/// The builder fails only where the signer cannot give its public key or
/// cannot sign, and the signer fails only where `secp256k1::SecretKey::from_slice`
/// refuses the key, which it does for a length other than thirty-two, for
/// zero, and for a number that is not below the order of the group.
///
/// A token is three Base64 texts with a full stop between them: header,
/// claims and signature, each encoded by `base64::encode`, none empty.
///
/// The error of a failed build is handed out as the text that it displays
/// and the text that its source displays; that source, a `SigningError`, has
/// none of its own.
#[verifier::external_body]
fn sign_default_token(key: Vec<u8>) -> (signed: Result<String, Vec<String>>)
    ensures
        signing_view(signed) == secp256k1_jwt(key@),
        signed is Ok <==> is_secp256k1_key(key@),
        signed matches Ok(token) ==> is_signed_token(token@),
{
    let context = cylinder::secp256k1::Secp256k1Context::new();
    let signer = cylinder::Context::new_signer(&context, cylinder::PrivateKey::new(key));
    match cylinder::jwt::JsonWebTokenBuilder::new().build(&*signer) {
        Ok(token) => Ok(token),
        Err(err) => Err(match std::error::Error::source(&err) {
            Some(under) => vec![err.to_string(), under.to_string()],
            None => vec![err.to_string()],
        }),
    }
}

/// Turns the outcome of signing into the result of the build.
pub fn token_from(signed: Result<String, Vec<String>>) -> (result: Result<String, CliError>)
    ensures
        token_view(result) == token_outcome(signing_view(signed)),
{
    match signed {
        Ok(token) => Ok(token),
        Err(displays) => Err(
            CliError::from_source_with_message(
                Box::new(CliError::from_displays(displays)),
                String::from_str(BUILD_FAILED),
            ),
        ),
    }
}

/// Builds the signed token of `key`: a JSON web token without claims of the
/// caller's, signed on the curve secp256k1. The key is used for this one
/// signature and dropped.
pub fn build_token(key: PrivateKey) -> (result: Result<String, CliError>)
    ensures
        token_view(result) == token_outcome(secp256k1_jwt(key@)),
        result is Ok <==> is_secp256k1_key(key@),
        result matches Ok(token) ==> is_signed_token(token@),
        result matches Err(error) ==> error@.display() == BUILD_FAILED@,
{
    token_from(sign_default_token(key.into_bytes()))
}

/// Generates the token for what the resolution of the key ended with: the
/// token of the key, or, where there is no key, the error that says why, and
/// then no token.
pub fn generate_jwt(resolved: Result<PrivateKey, CliError>) -> (result: Result<String, CliError>)
    ensures
        token_view(result) == generated(resolved_view(resolved)),
        result is Ok <==> resolved is Ok && is_secp256k1_key(resolved->Ok_0@),
        result matches Ok(token) ==> is_signed_token(token@),
{
    match resolved {
        Ok(key) => build_token(key),
        Err(error) => Err(error),
    }
}

/// Built twice from the same key, the token is the same: nothing enters a
/// build but the key.
pub proof fn same_key_same_token(
    key: Seq<u8>,
    first: Result<Seq<char>, CliErrorView>,
    second: Result<Seq<char>, CliErrorView>,
)
    requires
        first == token_outcome(secp256k1_jwt(key)),
        second == token_outcome(secp256k1_jwt(key)),
    ensures
        first == second,
{
}

/// A failed build displays [`BUILD_FAILED`] and nothing of its cause, which
/// it keeps underneath; a build that did not fail hands the token on as it
/// is.
pub proof fn build_failure_displays_fixed_message(signed: Result<Seq<char>, Seq<Seq<char>>>)
    ensures
        signed matches Ok(token) ==> token_outcome(signed) == Ok::<Seq<char>, CliErrorView>(token),
        signed matches Err(displays) ==> ({
            &&& token_outcome(signed) matches Err(error)
            &&& error.display() == BUILD_FAILED@
            &&& error.source matches Some(kept)
            &&& *kept.source == CliErrorView::from_displays(displays)
        }),
{
}

} // verus!
