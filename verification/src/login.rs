//! The decisions of logging in: which way to log in, which device id to
//! use, and how the token of a single sign-on comes back.

use crate::text::{find, find_in, find_text, lemma_find_at, search, slice_to_string, to_chars};
use vstd::prelude::*;
use vstd::slice::slice_subrange;
use vstd::utf8::{decode_utf8, valid_utf8};

verus! {

/// `Utf8Error` of `core::str`: why bytes are no UTF-8 text.
#[verifier::external_type_specification]
#[verifier::external_body]
pub struct ExUtf8Error(core::str::Utf8Error);

/// `core::str::from_utf8`: succeeds exactly on bytes that are valid UTF-8,
/// and then gives the text that the bytes encode.
pub assume_specification<'a>[ core::str::from_utf8 ](v: &'a [u8]) -> (r: Result<
    &'a str,
    core::str::Utf8Error,
>)
    ensures
        r is Ok <==> valid_utf8(v@),
        r matches Ok(s) ==> s@ == decode_utf8(v@),
;

/// A way to log in that the homeserver offers.
#[derive(Clone, Copy, Debug, PartialEq, Eq, Structural)]
pub enum LoginFlow {
    /// With a user name and a password.
    Password,
    /// By single sign-on, with this many identity providers to choose from.
    Sso { providers: usize },
    /// With a login token.
    Token,
    /// Any other way.
    Other,
}

/// How the bot logs in.
#[derive(Clone, Copy, Debug, PartialEq, Eq, Structural)]
pub enum LoginPlan {
    /// With its password.
    Password,
    /// By single sign-on, with the identity provider at this index if there
    /// is one.
    Sso { provider: Option<usize> },
    /// Not at all: single sign-on offers more than one identity provider.
    TooManyProviders,
    /// Not at all: the homeserver offers no way that the bot can take.
    Failed,
}

/// The way to log in, of those that the homeserver offers in `flows`: the
/// first that the bot can take. It can take the password flow if it has a
/// password, and single sign-on with at most one identity provider.
pub open spec fn login_plan(flows: Seq<LoginFlow>, has_password: bool) -> LoginPlan
    decreases flows.len(),
{
    if flows.len() == 0 {
        LoginPlan::Failed
    } else {
        match flows[0] {
            LoginFlow::Password if has_password => LoginPlan::Password,
            LoginFlow::Sso { providers } => if providers == 0 {
                LoginPlan::Sso { provider: None }
            } else if providers == 1 {
                LoginPlan::Sso { provider: Some(0) }
            } else {
                LoginPlan::TooManyProviders
            },
            _ => login_plan(flows.drop_first(), has_password),
        }
    }
}

/// Computes `login_plan`.
pub fn choose_login(flows: &Vec<LoginFlow>, has_password: bool) -> (plan: LoginPlan)
    ensures
        plan == login_plan(flows@, has_password),
{
    let mut i: usize = 0;
    assert(flows@.skip(0) =~= flows@);
    while i < flows.len()
        invariant
            i <= flows.len(),
            login_plan(flows@, has_password) == login_plan(flows@.skip(i as int), has_password),
        decreases flows.len() - i,
    {
        let ghost rest = flows@.skip(i as int);
        assert(rest[0] == flows@[i as int]);
        assert(rest.drop_first() =~= flows@.skip(i + 1));
        match flows[i] {
            LoginFlow::Password => {
                if has_password {
                    return LoginPlan::Password;
                }
            },
            LoginFlow::Sso { providers } => {
                if providers == 0 {
                    return LoginPlan::Sso { provider: None };
                } else if providers == 1 {
                    return LoginPlan::Sso { provider: Some(0) };
                } else {
                    return LoginPlan::TooManyProviders;
                }
            },
            _ => {},
        }
        i += 1;
    }
    assert(flows@.skip(flows.len() as int).len() == 0);
    LoginPlan::Failed
}

/// The device id to run with: the one that the login gave, or else the
/// configured one. Without either there is none.
pub fn device_id(from_login: Option<String>, configured: Option<String>) -> (id: Option<String>)
    ensures
        id.deep_view() == match from_login {
            Some(d) => Some(d@),
            None => configured.deep_view(),
        },
{
    match from_login {
        Some(d) => Some(d),
        None => configured,
    }
}

/// Whether the device id `device` is to be stored: it is unless it is the
/// one that is stored already.
pub fn must_store(stored: &Option<String>, device: &str) -> (store: bool)
    ensures
        store == (stored.deep_view() != Some(device@)),
{
    match stored {
        Some(s) => !crate::text::same_text(s.as_str(), device),
        None => true,
    }
}

/// What stands in front of the login token in the request that ends a
/// single sign-on.
pub const LOGIN_TOKEN_KEY: &'static str = "?loginToken=";

/// The byte that ends a line.
pub const NEWLINE: u8 = 10;

/// Why a request holds no login token.
#[derive(Clone, Copy, Debug, PartialEq, Eq, Structural)]
pub enum TokenError {
    /// The request holds no complete line.
    Short,
    /// The first line is no UTF-8 text.
    NotText,
    /// The first line does not name a login token.
    NoToken,
    /// Nothing ends the login token.
    NoSpace,
}

/// The login token in the line `line`: what stands between the first
/// `?loginToken=` and the first space behind it.
pub open spec fn token_of_line(line: Seq<char>) -> Result<Seq<char>, TokenError> {
    match search(line, LOGIN_TOKEN_KEY@, 0) {
        None => Err(TokenError::NoToken),
        Some(at) => {
            let after = line.skip(at + LOGIN_TOKEN_KEY@.len());
            let end = find(after, ' ');
            if end < after.len() {
                Ok(after.take(end))
            } else {
                Err(TokenError::NoSpace)
            }
        },
    }
}

/// The login token in the request `request`: the one in its first line.
pub open spec fn token_of_request(request: Seq<u8>) -> Result<Seq<char>, TokenError> {
    let end = find(request, NEWLINE);
    if end >= request.len() {
        Err(TokenError::Short)
    } else if !valid_utf8(request.take(end)) {
        Err(TokenError::NotText)
    } else {
        token_of_line(decode_utf8(request.take(end)))
    }
}

/// Computes `token_of_line`.
pub fn token_in_line(line: &str) -> (token: Result<String, TokenError>)
    ensures
        match token {
            Ok(t) => token_of_line(line@) == Ok::<Seq<char>, TokenError>(t@),
            Err(e) => token_of_line(line@) == Err::<Seq<char>, TokenError>(e),
        },
{
    let chars = to_chars(line);
    let key = to_chars(LOGIN_TOKEN_KEY);
    let n = chars.len();
    match find_text(&chars, &key) {
        None => Err(TokenError::NoToken),
        Some(at) => {
            proof {
                crate::text::lemma_search(line@, LOGIN_TOKEN_KEY@, 0);
            }
            let start = at + key.len();
            let end = find_in(&chars, start, n, ' ');
            assert(line@.skip(start as int) =~= chars@.subrange(start as int, n as int));
            if end < n {
                let token = slice_to_string(line, start, end);
                assert(line@.skip(start as int).take(end - start) =~= chars@.subrange(
                    start as int,
                    end as int,
                ));
                Ok(token)
            } else {
                Err(TokenError::NoSpace)
            }
        },
    }
}

/// Computes `token_of_request`.
pub fn login_token(request: &[u8]) -> (token: Result<String, TokenError>)
    ensures
        match token {
            Ok(t) => token_of_request(request@) == Ok::<Seq<char>, TokenError>(t@),
            Err(e) => token_of_request(request@) == Err::<Seq<char>, TokenError>(e),
        },
{
    let mut end: usize = 0;
    while end < request.len() && request[end] != NEWLINE
        invariant
            end <= request.len(),
            forall|j: int| 0 <= j < end ==> request@[j] != NEWLINE,
        decreases request.len() - end,
    {
        end += 1;
    }
    proof {
        lemma_find_at(request@, NEWLINE, end as int);
    }
    if end == request.len() {
        return Err(TokenError::Short);
    }
    let first_line = slice_subrange(request, 0, end);
    assert(first_line@ =~= request@.take(end as int));
    match core::str::from_utf8(first_line) {
        Ok(line) => token_in_line(line),
        Err(_) => Err(TokenError::NotText),
    }
}

} // verus!
