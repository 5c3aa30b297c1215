//! The HTTP methods and content types that a request may carry, read from
//! text and written back as text.
//!
//! Reading takes letters in either case. The text is first put in one case by
//! the standard library, for which [`upper_cased`] and [`lower_cased`] stand in
//! the contracts, and the result is then matched letter for letter, which
//! `from_name` does on its own.

use crate::text::{lower_cased, text_eq, to_lower, to_upper, upper_cased};
use vstd::prelude::*;

verus! {

/// Why a method or a content type could not be read from text. Each variant
/// carries the text that was not recognised, as it was given.
#[derive(Debug, Clone, PartialEq, Eq)]
pub enum Error {
    UnknownMethod(String),
    UnknownContentType(String),
}

impl Error {
    /// The message of this error: what was not recognised, and the text.
    pub open spec fn message(&self) -> Seq<char> {
        match self {
            Error::UnknownMethod(text) => "Unknown HTTP method: "@ + text@,
            Error::UnknownContentType(text) => "Unknown Content-Type: "@ + text@,
        }
    }

    /// Writes the error out as its message.
    pub fn to_string(&self) -> (s: String)
        ensures
            s@ == self.message(),
    {
        match self {
            Error::UnknownMethod(text) => {
                let mut s = "Unknown HTTP method: ".to_string();
                s.append(text.as_str());
                s
            },
            Error::UnknownContentType(text) => {
                let mut s = "Unknown Content-Type: ".to_string();
                s.append(text.as_str());
                s
            },
        }
    }
}

/// The HTTP methods that a request can be sent with.
#[derive(Debug, Clone, Copy, PartialEq, Eq, Structural)]
pub enum HttpMethod {
    Get,
    Post,
    Put,
    Delete,
    Patch,
    Head,
    Options,
}

impl HttpMethod {
    /// The canonical name of the method, in capital letters.
    pub open spec fn name(self) -> Seq<char> {
        match self {
            HttpMethod::Get => "GET"@,
            HttpMethod::Post => "POST"@,
            HttpMethod::Put => "PUT"@,
            HttpMethod::Delete => "DELETE"@,
            HttpMethod::Patch => "PATCH"@,
            HttpMethod::Head => "HEAD"@,
            HttpMethod::Options => "OPTIONS"@,
        }
    }

    /// The method that has `name` as its canonical name, letter for letter;
    /// `None` where no method has.
    pub open spec fn parse(name: Seq<char>) -> Option<HttpMethod> {
        if name == "GET"@ {
            Some(HttpMethod::Get)
        } else if name == "POST"@ {
            Some(HttpMethod::Post)
        } else if name == "PUT"@ {
            Some(HttpMethod::Put)
        } else if name == "DELETE"@ {
            Some(HttpMethod::Delete)
        } else if name == "PATCH"@ {
            Some(HttpMethod::Patch)
        } else if name == "HEAD"@ {
            Some(HttpMethod::Head)
        } else if name == "OPTIONS"@ {
            Some(HttpMethod::Options)
        } else {
            None
        }
    }

    /// Finds the method that has `name` as its canonical name, letter for
    /// letter.
    pub fn from_name(name: &str) -> (method: Option<HttpMethod>)
        ensures
            method == HttpMethod::parse(name@),
    {
        if text_eq(name, "GET") {
            Some(HttpMethod::Get)
        } else if text_eq(name, "POST") {
            Some(HttpMethod::Post)
        } else if text_eq(name, "PUT") {
            Some(HttpMethod::Put)
        } else if text_eq(name, "DELETE") {
            Some(HttpMethod::Delete)
        } else if text_eq(name, "PATCH") {
            Some(HttpMethod::Patch)
        } else if text_eq(name, "HEAD") {
            Some(HttpMethod::Head)
        } else if text_eq(name, "OPTIONS") {
            Some(HttpMethod::Options)
        } else {
            None
        }
    }

    /// Reads a method from text, letters taken in either case: the text is
    /// put in upper case and must then be the name of a method. A text that
    /// names no method is handed back in the error, as it was given.
    pub fn from_str(s: &str) -> (parsed: Result<HttpMethod, Error>)
        ensures
            match parsed {
                Ok(method) => HttpMethod::parse(upper_cased(s@)) == Some(method),
                Err(Error::UnknownMethod(text)) => HttpMethod::parse(upper_cased(s@)) is None
                    && text@ == s@,
                Err(Error::UnknownContentType(_)) => false,
            },
    {
        let upper = to_upper(s);
        match HttpMethod::from_name(upper.as_str()) {
            Some(method) => Ok(method),
            None => Err(Error::UnknownMethod(s.to_string())),
        }
    }

    /// Writes the method out as its canonical name.
    pub fn to_string(&self) -> (s: String)
        ensures
            s@ == self.name(),
    {
        match self {
            HttpMethod::Get => "GET".to_string(),
            HttpMethod::Post => "POST".to_string(),
            HttpMethod::Put => "PUT".to_string(),
            HttpMethod::Delete => "DELETE".to_string(),
            HttpMethod::Patch => "PATCH".to_string(),
            HttpMethod::Head => "HEAD".to_string(),
            HttpMethod::Options => "OPTIONS".to_string(),
        }
    }
}

/// A method is found for a name exactly when the name is its canonical name:
/// no name belongs to two methods.
pub proof fn lemma_method_parse_iff_named(name: Seq<char>, method: HttpMethod)
    ensures
        HttpMethod::parse(name) == Some(method) <==> name == method.name(),
{
    reveal_strlit("GET");
    reveal_strlit("POST");
    reveal_strlit("PUT");
    reveal_strlit("DELETE");
    reveal_strlit("PATCH");
    reveal_strlit("HEAD");
    reveal_strlit("OPTIONS");
    // Names of one length differ in their first letter.
    assert("GET"@.len() == 3 && "PUT"@.len() == 3 && "GET"@[0] != "PUT"@[0]);
    assert("POST"@.len() == 4 && "HEAD"@.len() == 4 && "POST"@[0] != "HEAD"@[0]);
    assert("PATCH"@.len() == 5 && "DELETE"@.len() == 6 && "OPTIONS"@.len() == 7);
}

/// Reading back the name that a method is written as gives that method.
pub proof fn lemma_method_round_trip(method: HttpMethod)
    ensures
        HttpMethod::parse(method.name()) == Some(method),
{
    lemma_method_parse_iff_named(method.name(), method);
}

/// A possible body of a request. It holds nothing: any text is read as one.
#[derive(Debug, Clone, Copy, PartialEq, Eq, Structural)]
pub struct HttpBody {}

impl HttpBody {
    /// Reads a body from text, which never fails.
    pub fn from_str(_s: &str) -> (parsed: Result<HttpBody, Error>)
        ensures
            parsed == Ok::<HttpBody, Error>(HttpBody {  }),
    {
        Ok(HttpBody {  })
    }
}

/// The content types that a request body can be declared as.
#[derive(Debug, Clone, Copy, PartialEq, Eq, Structural)]
pub enum ContentType {
    Text,
    Json,
    /// URL encoded (percent encoded)
    Form,
    Multipart,
}

impl ContentType {
    /// The MIME type that stands for this content type in a header.
    pub open spec fn mime(self) -> Seq<char> {
        match self {
            ContentType::Text => "text/plain"@,
            ContentType::Json => "application/json"@,
            ContentType::Form => "application/x-www-form-urlencoded"@,
            ContentType::Multipart => "multipart/form-data"@,
        }
    }

    /// The short name that this content type can be asked for by.
    pub open spec fn alias(self) -> Seq<char> {
        match self {
            ContentType::Text => "text"@,
            ContentType::Json => "json"@,
            ContentType::Form => "form"@,
            ContentType::Multipart => "file"@,
        }
    }

    /// Whether `name` is the alias or the MIME type of this content type,
    /// letter for letter.
    pub open spec fn is_named_by(self, name: Seq<char>) -> bool {
        name == self.alias() || name == self.mime()
    }

    /// The content type that `name` is the alias or the MIME type of, letter for
    /// letter; `None` where it is neither of any.
    pub open spec fn parse(name: Seq<char>) -> Option<ContentType> {
        if ContentType::Text.is_named_by(name) {
            Some(ContentType::Text)
        } else if ContentType::Json.is_named_by(name) {
            Some(ContentType::Json)
        } else if ContentType::Form.is_named_by(name) {
            Some(ContentType::Form)
        } else if ContentType::Multipart.is_named_by(name) {
            Some(ContentType::Multipart)
        } else {
            None
        }
    }

    /// Finds the content type that `name` is the alias or the MIME type of,
    /// letter for letter.
    pub fn from_name(name: &str) -> (content_type: Option<ContentType>)
        ensures
            content_type == ContentType::parse(name@),
    {
        if text_eq(name, "text") || text_eq(name, "text/plain") {
            Some(ContentType::Text)
        } else if text_eq(name, "json") || text_eq(name, "application/json") {
            Some(ContentType::Json)
        } else if text_eq(name, "form") || text_eq(name, "application/x-www-form-urlencoded") {
            Some(ContentType::Form)
        } else if text_eq(name, "file") || text_eq(name, "multipart/form-data") {
            Some(ContentType::Multipart)
        } else {
            None
        }
    }

    /// Reads a content type from text, letters taken in either case: the text
    /// is put in lower case and must then be an alias or a MIME type. A text
    /// that names no content type is handed back in the error, as it was
    /// given.
    pub fn from_str(s: &str) -> (parsed: Result<ContentType, Error>)
        ensures
            match parsed {
                Ok(content_type) => ContentType::parse(lower_cased(s@)) == Some(content_type),
                Err(Error::UnknownContentType(text)) => ContentType::parse(lower_cased(s@))
                    is None && text@ == s@,
                Err(Error::UnknownMethod(_)) => false,
            },
    {
        let lower = to_lower(s);
        match ContentType::from_name(lower.as_str()) {
            Some(content_type) => Ok(content_type),
            None => Err(Error::UnknownContentType(s.to_string())),
        }
    }

    /// Writes the content type out as its MIME type.
    pub fn to_string(&self) -> (s: String)
        ensures
            s@ == self.mime(),
    {
        match self {
            ContentType::Text => "text/plain".to_string(),
            ContentType::Json => "application/json".to_string(),
            ContentType::Form => "application/x-www-form-urlencoded".to_string(),
            ContentType::Multipart => "multipart/form-data".to_string(),
        }
    }
}

/// A content type is found for a name exactly when the name is its alias or
/// its MIME type: no name belongs to two content types.
pub proof fn lemma_content_type_parse_iff_named(name: Seq<char>, content_type: ContentType)
    ensures
        ContentType::parse(name) == Some(content_type) <==> content_type.is_named_by(name),
{
    reveal_strlit("text");
    reveal_strlit("json");
    reveal_strlit("form");
    reveal_strlit("file");
    reveal_strlit("text/plain");
    reveal_strlit("application/json");
    reveal_strlit("application/x-www-form-urlencoded");
    reveal_strlit("multipart/form-data");
    // The MIME types differ in their length, and the aliases in their first
    // letter or, two of them, in their second.
    assert("text/plain"@.len() == 10 && "application/json"@.len() == 16);
    assert("application/x-www-form-urlencoded"@.len() == 33);
    assert("multipart/form-data"@.len() == 19);
    assert("text"@.len() == 4 && "json"@.len() == 4 && "form"@.len() == 4 && "file"@.len() == 4);
    assert("text"@[0] != "json"@[0] && "text"@[0] != "form"@[0] && "text"@[0] != "file"@[0]);
    assert("json"@[0] != "form"@[0] && "json"@[0] != "file"@[0]);
    assert("form"@[1] != "file"@[1]);
}

/// Reading back the MIME type that a content type is written as gives that
/// content type, and so does reading its alias.
pub proof fn lemma_content_type_round_trip(content_type: ContentType)
    ensures
        ContentType::parse(content_type.mime()) == Some(content_type),
        ContentType::parse(content_type.alias()) == Some(content_type),
{
    lemma_content_type_parse_iff_named(content_type.mime(), content_type);
    lemma_content_type_parse_iff_named(content_type.alias(), content_type);
}

} // verus!
