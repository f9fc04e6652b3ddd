//! Getting a token: what to do after an attempt to validate the stored token,
//! and what the address says that Twitch sends the user back to after the
//! user has answered the request for a new one.

use crate::supervisor::TOKEN_RECHECK_SECS;
use crate::text::{fields, split, split_once, split_once_spec};
use vstd::prelude::*;
use vstd::string::*;

verus! {

/// How an attempt to validate the stored token ended.
#[derive(Clone, Copy, Debug, PartialEq, Eq, Structural)]
pub enum Validation {
    /// No token is stored.
    NoTokenFile,
    /// The stored token could not be read.
    UnreadableFile,
    /// Twitch takes the token.
    Valid,
    /// Twitch does not take the token.
    NotAuthorized,
    /// The request to Twitch did not get through.
    RequestFailed,
    /// The token is of the wrong kind.
    InvalidToken,
    /// The answer of Twitch could not be read.
    UnreadableResponse,
}

/// Why validating is given up.
#[derive(Clone, Copy, Debug, PartialEq, Eq, Structural)]
pub enum TokenError {
    /// The stored token could not be read.
    UnreadableFile,
    /// The token is of the wrong kind.
    InvalidToken,
    /// The answer of Twitch could not be read.
    UnreadableResponse,
}

/// What to do after an attempt to validate the stored token.
#[derive(Clone, Copy, Debug, PartialEq, Eq, Structural)]
pub enum ValidationStep {
    /// Hand the token to the supervisor.
    Accept,
    /// Sleep for so many seconds, then look for the stored token again.
    Recheck { after_secs: u64 },
    /// Give up with the error.
    GiveUp { error: TokenError },
}

/// What follows each way in which validating can end: a valid token is
/// accepted; a missing token, a token that Twitch does not take and a request
/// that did not get through are looked at again after a minute; anything
/// else is an error.
pub open spec fn after_validation(outcome: Validation) -> ValidationStep {
    match outcome {
        Validation::Valid => ValidationStep::Accept,
        Validation::NoTokenFile => ValidationStep::Recheck { after_secs: TOKEN_RECHECK_SECS },
        Validation::NotAuthorized => ValidationStep::Recheck { after_secs: TOKEN_RECHECK_SECS },
        Validation::RequestFailed => ValidationStep::Recheck { after_secs: TOKEN_RECHECK_SECS },
        Validation::UnreadableFile => ValidationStep::GiveUp { error: TokenError::UnreadableFile },
        Validation::InvalidToken => ValidationStep::GiveUp { error: TokenError::InvalidToken },
        Validation::UnreadableResponse => ValidationStep::GiveUp {
            error: TokenError::UnreadableResponse,
        },
    }
}

/// What to do after an attempt to validate the stored token has ended with
/// `outcome`.
pub fn validate_oauth_token(outcome: Validation) -> (step: ValidationStep)
    ensures
        step == after_validation(outcome),
{
    match outcome {
        Validation::Valid => ValidationStep::Accept,
        Validation::NoTokenFile => ValidationStep::Recheck { after_secs: TOKEN_RECHECK_SECS },
        Validation::NotAuthorized => ValidationStep::Recheck { after_secs: TOKEN_RECHECK_SECS },
        Validation::RequestFailed => ValidationStep::Recheck { after_secs: TOKEN_RECHECK_SECS },
        Validation::UnreadableFile => ValidationStep::GiveUp { error: TokenError::UnreadableFile },
        Validation::InvalidToken => ValidationStep::GiveUp { error: TokenError::InvalidToken },
        Validation::UnreadableResponse => ValidationStep::GiveUp {
            error: TokenError::UnreadableResponse,
        },
    }
}

/// `url::ParseError`: why a text is no URL. It is never looked into.
#[verifier::external_type_specification]
#[verifier::external_body]
pub struct ExUrlParseError(url::ParseError);

/// `core::str::Utf8Error`: why bytes are no text. It is never looked into.
#[verifier::external_type_specification]
#[verifier::external_body]
pub struct ExUtf8Error(core::str::Utf8Error);

/// What is read of an address: its fragment, if it has one, and the pairs of
/// its query, decoded.
#[derive(Debug, PartialEq, Eq)]
pub struct Address {
    pub fragment: Option<String>,
    pub query_pairs: Vec<(String, String)>,
}

/// What an [`Address`] holds, as plain mathematical values.
pub struct AddressView {
    pub fragment: Option<Seq<char>>,
    pub query_pairs: Seq<(Seq<char>, Seq<char>)>,
}

impl View for Address {
    type V = AddressView;

    open spec fn view(&self) -> AddressView {
        AddressView {
            fragment: match self.fragment {
                Some(fragment) => Some(fragment@),
                None => None,
            },
            query_pairs: self.query_pairs.deep_view(),
        }
    }
}

/// What the `url` crate reads of the text `input`: `None` where it is no
/// absolute URL, else the fragment and the decoded pairs of the query.
pub uninterp spec fn address_of(input: Seq<char>) -> Option<AddressView>;

/// What percent-decoding makes of `input`: `None` where the decoded bytes are
/// no text in UTF-8.
pub uninterp spec fn percent_decoded(input: Seq<char>) -> Option<Seq<char>>;

/// `Url::parse`, and of the URL that it gives `Url::fragment` and
/// `Url::query_pairs`. The text is parsed as an absolute URL; the error is the
/// one of the parser. What is read depends on the text alone.
#[verifier::external_body]
fn parse_address(input: &str) -> (parsed: Result<Address, url::ParseError>)
    ensures
        match parsed {
            Ok(address) => address_of(input@) == Some(address@),
            Err(_) => address_of(input@) is None,
        },
{
    let url = url::Url::parse(input)?;
    Ok(
        Address {
            fragment: url.fragment().map(str::to_owned),
            query_pairs: url.query_pairs().into_owned().collect(),
        },
    )
}

/// `percent_encoding::percent_decode_str` followed by `decode_utf8`: every
/// `%` with two hexadecimal digits behind it becomes the byte that they
/// stand for, and the bytes are read as UTF-8. What comes out depends on the
/// text alone.
#[verifier::external_body]
fn percent_decode(input: &str) -> (decoded: Result<String, core::str::Utf8Error>)
    ensures
        match decoded {
            Ok(text) => percent_decoded(input@) == Some(text@),
            Err(_) => percent_decoded(input@) is None,
        },
{
    Ok(percent_encoding::percent_decode_str(input).decode_utf8()?.into_owned())
}

/// What the address says that the user comes back with.
#[derive(Debug, PartialEq, Eq)]
pub enum Redirect {
    /// Twitch has granted a token. `state` is decoded.
    Granted { access_token: String, state: String },
    /// Twitch has refused, and says why.
    Denied { error: String, error_description: String },
}

/// A [`Redirect`] as a plain mathematical value.
pub enum RedirectView {
    Granted { access_token: Seq<char>, state: Seq<char> },
    Denied { error: Seq<char>, error_description: Seq<char> },
}

impl View for Redirect {
    type V = RedirectView;

    open spec fn view(&self) -> RedirectView {
        match self {
            Redirect::Granted { access_token, state } => RedirectView::Granted {
                access_token: access_token@,
                state: state@,
            },
            Redirect::Denied { error, error_description } => RedirectView::Denied {
                error: error@,
                error_description: error_description@,
            },
        }
    }
}

/// Why an address tells nothing.
#[derive(Clone, Copy, Debug, PartialEq, Eq, Structural)]
pub enum RedirectError {
    /// The text is no absolute URL.
    InvalidUrl,
    /// A part of the fragment has no `=`.
    MalformedPair,
    /// The state does not decode to text.
    UndecodableState,
    /// The address carries neither a token with a state nor an error with a
    /// description.
    Unrecognised,
}

/// The value of the last pair of `pairs` whose key is `key`.
pub open spec fn last_value(pairs: Seq<(Seq<char>, Seq<char>)>, key: Seq<char>) -> Option<
    Seq<char>,
>
    decreases pairs.len(),
{
    if pairs.len() == 0 {
        None
    } else if pairs.last().0 == key {
        Some(pairs.last().1)
    } else {
        last_value(pairs.drop_last(), key)
    }
}

/// Whether `piece` is a key and a value with a `=` between them.
pub open spec fn is_pair(piece: Seq<char>) -> bool {
    split_once_spec(piece, '=') is Some
}

/// The pairs that a fragment of the form `key=value&key=value` stands for:
/// `None` where one of its parts has no `=`.
pub open spec fn fragment_pairs(fragment: Seq<char>) -> Option<Seq<(Seq<char>, Seq<char>)>> {
    let pieces = fields(fragment, '&');
    if forall|i: int| 0 <= i < pieces.len() ==> is_pair(#[trigger] pieces[i]) {
        Some(pieces.map_values(|piece: Seq<char>| split_once_spec(piece, '=')->Some_0))
    } else {
        None
    }
}

/// The pairs that an address carries: those of its fragment where it has
/// one, else those of its query.
pub open spec fn pairs_of(address: AddressView) -> Option<Seq<(Seq<char>, Seq<char>)>> {
    match address.fragment {
        Some(fragment) => fragment_pairs(fragment),
        None => Some(address.query_pairs),
    }
}

/// What pairs say: a token with its state, where both are there and the state
/// decodes; else an error with its description, where both are there. Of pairs
/// with the same key the last counts.
pub open spec fn redirect_of_pairs(pairs: Seq<(Seq<char>, Seq<char>)>) -> Result<
    RedirectView,
    RedirectError,
> {
    let access_token = last_value(pairs, "access_token"@);
    let state = last_value(pairs, "state"@);
    let error = last_value(pairs, "error"@);
    let description = last_value(pairs, "error_description"@);
    if access_token is Some && state is Some {
        match percent_decoded(state->Some_0) {
            Some(decoded) => Ok(
                RedirectView::Granted { access_token: access_token->Some_0, state: decoded },
            ),
            None => Err(RedirectError::UndecodableState),
        }
    } else if error is Some && description is Some {
        Ok(RedirectView::Denied { error: error->Some_0, error_description: description->Some_0 })
    } else {
        Err(RedirectError::Unrecognised)
    }
}

/// What an address says.
pub open spec fn redirect_of(address: AddressView) -> Result<RedirectView, RedirectError> {
    match pairs_of(address) {
        None => Err(RedirectError::MalformedPair),
        Some(pairs) => redirect_of_pairs(pairs),
    }
}

/// What the text `input` says when it is taken as the address that the user
/// came back to.
pub open spec fn redirect_of_text(input: Seq<char>) -> Result<RedirectView, RedirectError> {
    match address_of(input) {
        None => Err(RedirectError::InvalidUrl),
        Some(address) => redirect_of(address),
    }
}

/// Whether `found` is what `wanted` says, with texts taken by their
/// characters.
pub open spec fn is_redirect(
    found: Result<Redirect, RedirectError>,
    wanted: Result<RedirectView, RedirectError>,
) -> bool {
    match found {
        Ok(redirect) => wanted == Ok::<RedirectView, RedirectError>(redirect@),
        Err(error) => wanted == Err::<RedirectView, RedirectError>(error),
    }
}

/// The value of the last pair of `pairs` whose key is `key`.
pub fn find_last(pairs: &Vec<(String, String)>, key: &str) -> (value: Option<String>)
    ensures
        value.is_some() == last_value(pairs.deep_view(), key@).is_some(),
        value matches Some(found) ==> last_value(pairs.deep_view(), key@) == Some(found@),
{
    let ghost all = pairs.deep_view();
    let wanted = String::from_str(key);
    let mut left: usize = pairs.len();
    assert(all.take(left as int) =~= all);
    while left > 0
        invariant
            left <= pairs.len(),
            all == pairs.deep_view(),
            wanted@ == key@,
            last_value(all, key@) == last_value(all.take(left as int), key@),
        decreases left,
    {
        let ghost front = all.take(left as int);
        assert(front.last() == (pairs[left - 1].0@, pairs[left - 1].1@));
        assert(front.drop_last() =~= all.take(left - 1));
        if pairs[left - 1].0 == wanted {
            return Some(pairs[left - 1].1.clone());
        }
        left -= 1;
    }
    assert(all.take(0).len() == 0);
    None
}

/// The pairs of a fragment of the form `key=value&key=value`, or `None`
/// where one of its parts has no `=`.
pub fn pairs_of_fragment(fragment: &str) -> (pairs: Option<Vec<(String, String)>>)
    ensures
        pairs.is_some() == fragment_pairs(fragment@).is_some(),
        pairs matches Some(found) ==> fragment_pairs(fragment@) == Some(found.deep_view()),
{
    let pieces = split(fragment, '&');
    let ghost all = pieces.deep_view();
    let mut pairs: Vec<(String, String)> = Vec::new();
    let mut at: usize = 0;
    while at < pieces.len()
        invariant
            at <= pieces.len(),
            all == pieces.deep_view(),
            all == fields(fragment@, '&'),
            pairs.len() == at,
            forall|i: int| 0 <= i < at ==> is_pair(#[trigger] all[i]),
            forall|i: int|
                0 <= i < at ==> (#[trigger] pairs[i]).0@ == split_once_spec(all[i], '=')->Some_0.0
                    && pairs[i].1@ == split_once_spec(all[i], '=')->Some_0.1,
        decreases pieces.len() - at,
    {
        assert(all[at as int] == pieces[at as int]@);
        match split_once(pieces[at].as_str(), '=') {
            None => {
                assert(!is_pair(all[at as int]));
                return None;
            },
            Some(pair) => {
                pairs.push(pair);
            },
        }
        at += 1;
    }
    proof {
        let wanted = all.map_values(|piece: Seq<char>| split_once_spec(piece, '=')->Some_0);
        assert(pairs.deep_view() =~= wanted) by {
            assert forall|i: int| 0 <= i < wanted.len() implies pairs.deep_view()[i]
                == wanted[i] by {
                assert(pairs.deep_view()[i] == (pairs[i].0@, pairs[i].1@));
            }
        }
    }
    Some(pairs)
}

/// What the pairs of an address say.
pub fn redirect_from_pairs(pairs: &Vec<(String, String)>) -> (found: Result<
    Redirect,
    RedirectError,
>)
    ensures
        is_redirect(found, redirect_of_pairs(pairs.deep_view())),
{
    let access_token = find_last(pairs, "access_token");
    let state = find_last(pairs, "state");
    if access_token.is_some() && state.is_some() {
        return match percent_decode(state.unwrap().as_str()) {
            Ok(decoded) => Ok(
                Redirect::Granted { access_token: access_token.unwrap(), state: decoded },
            ),
            Err(_) => Err(RedirectError::UndecodableState),
        };
    }
    let error = find_last(pairs, "error");
    let description = find_last(pairs, "error_description");
    if error.is_some() && description.is_some() {
        Ok(Redirect::Denied { error: error.unwrap(), error_description: description.unwrap() })
    } else {
        Err(RedirectError::Unrecognised)
    }
}

/// What an address says: the pairs are those of the fragment where the
/// address has one, else those of the query.
pub fn redirect_from(address: &Address) -> (found: Result<Redirect, RedirectError>)
    ensures
        is_redirect(found, redirect_of(address@)),
{
    match &address.fragment {
        Some(fragment) => match pairs_of_fragment(fragment.as_str()) {
            None => Err(RedirectError::MalformedPair),
            Some(pairs) => redirect_from_pairs(&pairs),
        },
        None => redirect_from_pairs(&address.query_pairs),
    }
}

/// Reads the address that the user pasted after answering the request for a
/// token.
pub fn create_oauth_token(input: &str) -> (found: Result<Redirect, RedirectError>)
    ensures
        is_redirect(found, redirect_of_text(input@)),
{
    match parse_address(input) {
        Err(_) => Err(RedirectError::InvalidUrl),
        Ok(address) => redirect_from(&address),
    }
}

} // verus!
