//! The description of one request, and how it is completed from what the
//! caller gave.

use crate::guess::{guess, guess_content_type};
use crate::http::{ContentType, HttpMethod};
use crate::text::{has_prefix, starts_with};
use vstd::prelude::*;

verus! {

/// What a request is made of: the method, the content type that the body is
/// declared as, the body, and the URL that the request goes to.
#[derive(Debug, Clone, PartialEq, Eq)]
pub struct CliArgs {
    /// The HTTP method to use
    pub method: HttpMethod,
    /// Value for the Content-Type header
    pub content_type: Option<ContentType>,
    /// The request body
    pub data: Option<String>,
    /// The URL to send the request to
    pub url: String,
}

/// Whether `url` names its scheme, `http://` or `https://`.
pub open spec fn names_scheme(url: Seq<char>) -> bool {
    has_prefix(url, "http://"@) || has_prefix(url, "https://"@)
}

/// `url` with `http://` put before it, unless it names its scheme itself.
pub open spec fn with_scheme(url: Seq<char>) -> Seq<char> {
    if names_scheme(url) {
        url
    } else {
        "http://"@ + url
    }
}

/// The content type that a request declares: the one that was given, or where
/// none was given and there is a body, the one that the body is taken for.
pub open spec fn declared_content_type(
    given: Option<ContentType>,
    body: Option<Seq<char>>,
) -> Option<ContentType> {
    match (given, body) {
        (None, Some(text)) => Some(guess(text)),
        _ => given,
    }
}

impl CliArgs {
    /// The body as a sequence of characters, where there is one.
    pub open spec fn body(&self) -> Option<Seq<char>> {
        match self.data {
            Some(text) => Some(text@),
            None => None,
        }
    }

    /// Whether the description is complete: a body never goes without a
    /// content type, and the URL names its scheme.
    pub open spec fn is_complete(&self) -> bool {
        &&& self.data is Some ==> self.content_type is Some
        &&& names_scheme(self.url@)
    }
}

/// Completes the description of a request: a body for which no content type
/// was given gets the one it is taken for, and a URL that names no scheme gets
/// `http://`. The method and the body are kept, and so is a content type that
/// was given.
pub fn args(given: CliArgs) -> (completed: CliArgs)
    ensures
        completed.method == given.method,
        completed.data == given.data,
        completed.content_type == declared_content_type(given.content_type, given.body()),
        completed.url@ == with_scheme(given.url@),
        completed.is_complete(),
{
    let mut args = given;
    if let Some(body) = &args.data {
        if args.content_type.is_none() {
            args.content_type = Some(guess_content_type(body.as_str()));
        }
    }
    if !starts_with(args.url.as_str(), "http://") && !starts_with(args.url.as_str(), "https://") {
        let mut url = "http://".to_string();
        url.append(args.url.as_str());
        args.url = url;
    }
    proof {
        lemma_with_scheme_names_scheme(given.url@);
    }
    args
}

/// A URL that was given its scheme names it, so that completing a request a
/// second time changes nothing in its URL.
pub proof fn lemma_with_scheme_names_scheme(url: Seq<char>)
    ensures
        names_scheme(with_scheme(url)),
        with_scheme(with_scheme(url)) == with_scheme(url),
{
    let scheme = "http://"@;
    assert((scheme + url).take(scheme.len() as int) == scheme);
}

} // verus!
