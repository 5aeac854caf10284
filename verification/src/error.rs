//! The errors the API can give, and how the API's own error replies map onto them.
use vstd::prelude::*;

use crate::text::{decimal, owned, push_str, write_decimal};
use reqwest::Error as HttpClientError;
use serde_xml_rs::Error as XmlParseError;

verus! {

broadcast use vstd::string::group_string_axioms;

/// The error type of `reqwest`, carried opaquely.
#[verifier::external_type_specification]
#[verifier::external_body]
pub struct ExReqwestError(HttpClientError);

/// The error type of `serde_xml_rs`, carried opaquely.
#[verifier::external_type_specification]
#[verifier::external_body]
pub struct ExXmlError(XmlParseError);

/// An error returned by the API.
#[derive(Debug)]
pub enum Error {
    /// An error was returned making the HTTP request, or an error status code was returned.
    HttpError(HttpClientError),
    /// The request was tried too many times before the data was ready. Holds the total number
    /// of times tried.
    MaxRetryError(u32),
    /// The response could not be parsed into the expected type.
    InvalidResponseError(XmlParseError),
    /// The response was retrieved and parsed but it was not what was expected, such as several
    /// items where exactly one was expected.
    UnexpectedResponseError(String),
    /// The username requested was not found.
    UnknownUsernameError,
    /// An invalid value was supplied for the collection subtype query parameter.
    InvalidCollectionItemType,
    /// The API replied with its generic not found error.
    ItemNotFound,
    /// The API replied with a list of errors that are not recognised.
    UnknownApiErrors(Vec<String>),
}

/// A [`std::result::Result`] alias where the `Err` case is [`Error`].
pub type Result<T> = std::result::Result<T, Error>;

/// Whether an error is the unknown errors variant holding exactly these messages.
pub open spec fn is_unknown_errors(e: Error, messages: Seq<String>) -> bool {
    e matches Error::UnknownApiErrors(v) && v@ == messages
}

/// The error that a list of error messages stands for, as a relation between the messages and
/// the error.
pub open spec fn maps_messages(messages: Seq<String>, e: Error) -> bool {
    if messages.len() == 1 && messages[0]@ == "Invalid username specified"@ {
        e == Error::UnknownUsernameError
    } else if messages.len() == 1 && messages[0]@ == "Guild not found."@ {
        e == Error::ItemNotFound
    } else if messages.len() == 1 && messages[0]@ == "Invalid collection subtype"@ {
        e == Error::InvalidCollectionItemType
    } else {
        is_unknown_errors(e, messages)
    }
}

/// Law: of the messages of an error reply, a lone `Invalid username specified` is the unknown
/// user error, a lone `Guild not found.` the not found error and a lone
/// `Invalid collection subtype` the invalid item type error; any other list of messages, and
/// any list of more or fewer than one, is kept whole as unknown errors.
pub proof fn law_error_messages(messages: Seq<String>, e: Error)
    requires
        maps_messages(messages, e),
    ensures
        messages.len() == 1 && messages[0]@ == "Invalid username specified"@ ==> e
            == Error::UnknownUsernameError,
        messages.len() == 1 && messages[0]@ == "Guild not found."@ ==> e == Error::ItemNotFound,
        messages.len() == 1 && messages[0]@ == "Invalid collection subtype"@ ==> e
            == Error::InvalidCollectionItemType,
        messages.len() != 1 ==> (e matches Error::UnknownApiErrors(v) && v@ == messages),
        (messages.len() == 1 && messages[0]@ != "Invalid username specified"@ && messages[0]@
            != "Guild not found."@ && messages[0]@ != "Invalid collection subtype"@) ==> (
        e matches Error::UnknownApiErrors(v) && v@ == messages),
{
    reveal_strlit("Invalid username specified");
    reveal_strlit("Guild not found.");
    reveal_strlit("Invalid collection subtype");
    assert("Invalid username specified"@.len() == 26);
    assert("Guild not found."@.len() == 16);
    assert("Invalid collection subtype"@.len() == 26);
    assert("Invalid username specified"@[8] != "Invalid collection subtype"@[8]);
}

/// Maps the list of `message` entries of an API error reply to an error.
pub fn error_from_api_error_messages(messages: Vec<String>) -> (e: Error)
    ensures
        maps_messages(messages@, e),
{
    if messages.len() == 1 {
        if messages[0] == owned("Invalid username specified") {
            return Error::UnknownUsernameError;
        }
        if messages[0] == owned("Guild not found.") {
            return Error::ItemNotFound;
        }
        if messages[0] == owned("Invalid collection subtype") {
            return Error::InvalidCollectionItemType;
        }
    }
    Error::UnknownApiErrors(messages)
}

/// Maps an error reply of the form `<error message="..."/>` to an error: `Not Found` is the
/// not found error, anything else is kept as an unknown error.
pub fn error_from_single_message(message: String) -> (e: Error)
    ensures
        message@ == "Not Found"@ ==> e == Error::ItemNotFound,
        message@ != "Not Found"@ ==> is_unknown_errors(e, seq![message]),
{
    if message == owned("Not Found") {
        return Error::ItemNotFound;
    }
    let mut v = Vec::new();
    v.push(message);
    Error::UnknownApiErrors(v)
}

/// Maps an error reply of the form `<error>...</error>`, as the guild endpoint gives it, to an
/// error: `Guild not found.` is the not found error, anything else is kept as unknown.
pub fn error_from_id_error(error: String) -> (e: Error)
    ensures
        error@ == "Guild not found."@ ==> e == Error::ItemNotFound,
        error@ != "Guild not found."@ ==> is_unknown_errors(e, seq![error]),
{
    if error == owned("Guild not found.") {
        return Error::ItemNotFound;
    }
    let mut v = Vec::new();
    v.push(error);
    Error::UnknownApiErrors(v)
}

/// Picks the error that an API reply stands for, given what the reply parsed as: a list of
/// `message` entries, an `error` text, or a single `message` attribute. The first form that
/// parsed wins; when none did, the reply was no error reply and the result is `None`.
pub fn error_from_parsed_reply(
    message_list: Option<Vec<String>>,
    id_error: Option<String>,
    single_message: Option<String>,
) -> (r: Option<Error>)
    ensures
        message_list matches Some(ms) ==> (r matches Some(e) && maps_messages(ms@, e)),
        message_list is None && id_error is Some ==> (r matches Some(e) && (if id_error->0@
            == "Guild not found."@ {
            e == Error::ItemNotFound
        } else {
            is_unknown_errors(e, seq![id_error->0])
        })),
        message_list is None && id_error is None && single_message is Some ==> (r matches Some(e)
            && (if single_message->0@ == "Not Found"@ {
            e == Error::ItemNotFound
        } else {
            is_unknown_errors(e, seq![single_message->0])
        })),
        message_list is None && id_error is None && single_message is None ==> r is None,
{
    if let Some(ms) = message_list {
        return Some(error_from_api_error_messages(ms));
    }
    if let Some(e) = id_error {
        return Some(error_from_id_error(e));
    }
    if let Some(m) = single_message {
        return Some(error_from_single_message(m));
    }
    None
}

/// Messages joined with a comma and a space in between.
pub open spec fn join_messages(ms: Seq<Seq<char>>) -> Seq<char>
    decreases ms.len(),
{
    if ms.len() == 0 {
        seq![]
    } else if ms.len() == 1 {
        ms[0]
    } else {
        join_messages(ms.drop_last()) + ", "@ + ms.last()
    }
}

/// The text of an error of the HTTP client, as its `Display` writes it.
///
/// Calls `format!("{}", e)` on a `reqwest::Error`; the text depends on the error's internals,
/// so nothing is stated of it.
#[verifier::external_body]
fn http_error_text(e: &HttpClientError) -> String {
    format!("{}", e)
}

/// The text of an error of the XML parser, as its `Display` writes it.
///
/// Calls `format!("{}", e)` on a `serde_xml_rs::Error`; the text depends on the error's
/// internals, so nothing is stated of it.
#[verifier::external_body]
fn xml_error_text(e: &XmlParseError) -> String {
    format!("{}", e)
}

impl Error {
    /// The human readable description of the error.
    pub fn message(&self) -> (s: String)
        ensures
            self matches Error::HttpError(_) ==> s@.take(22) == "error making request: "@,
            self matches Error::MaxRetryError(n) ==> s@ == "data still not ready after "@
                + decimal(n as nat) + " retries, aborting"@,
            self matches Error::InvalidResponseError(_) ==> s@.take(22)
                == "error parsing output: "@,
            self matches Error::UnexpectedResponseError(reason) ==> s@
                == "unexpected response from API, "@ + reason@,
            self matches Error::UnknownUsernameError ==> s@ == "username not found"@,
            self matches Error::InvalidCollectionItemType ==> s@
                == "invalid collection item type provided"@,
            self matches Error::ItemNotFound ==> s@ == "requested item not found"@,
            self matches Error::UnknownApiErrors(ms) ==> s@ == (if ms@.len() == 0 {
                "got error from API with no message"@
            } else if ms@.len() == 1 {
                "got unknown error from API: "@ + ms@[0]@
            } else {
                "got errors from API: "@ + join_messages(ms@.map_values(|m: String| m@))
            }),
    {
        match self {
            Error::HttpError(e) => {
                let mut s = owned("error making request: ");
                let t = http_error_text(e);
                push_str(&mut s, t.as_str());
                proof {
                    reveal_strlit("error making request: ");
                    assert(s@.take(22) =~= "error making request: "@);
                }
                s
            },
            Error::MaxRetryError(retries) => {
                let mut s = owned("data still not ready after ");
                write_decimal(&mut s, *retries as u64);
                push_str(&mut s, " retries, aborting");
                s
            },
            Error::InvalidResponseError(e) => {
                let mut s = owned("error parsing output: ");
                let t = xml_error_text(e);
                push_str(&mut s, t.as_str());
                proof {
                    reveal_strlit("error parsing output: ");
                    assert(s@.take(22) =~= "error parsing output: "@);
                }
                s
            },
            Error::UnexpectedResponseError(reason) => {
                let mut s = owned("unexpected response from API, ");
                push_str(&mut s, reason.as_str());
                s
            },
            Error::UnknownUsernameError => owned("username not found"),
            Error::InvalidCollectionItemType => owned("invalid collection item type provided"),
            Error::ItemNotFound => owned("requested item not found"),
            Error::UnknownApiErrors(messages) => {
                if messages.len() == 0 {
                    owned("got error from API with no message")
                } else if messages.len() == 1 {
                    let mut s = owned("got unknown error from API: ");
                    push_str(&mut s, messages[0].as_str());
                    s
                } else {
                    let mut s = owned("got errors from API: ");
                    let ghost ms = messages@.map_values(|m: String| m@);
                    let ghost start = s@;
                    let mut i: usize = 0;
                    while i < messages.len()
                        invariant
                            i <= messages.len(),
                            ms == messages@.map_values(|m: String| m@),
                            s@ == start + join_messages(ms.take(i as int)),
                        decreases messages.len() - i,
                    {
                        assert(ms.take(i + 1).drop_last() =~= ms.take(i as int));
                        if i > 0 {
                            push_str(&mut s, ", ");
                        } else {
                            assert(ms.take(0) =~= Seq::<Seq<char>>::empty());
                        }
                        push_str(&mut s, messages[i].as_str());
                        i = i + 1;
                    }
                    assert(ms.take(i as int) =~= ms);
                    s
                }
            },
        }
    }
}

} // verus!
