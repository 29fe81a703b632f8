use vstd::prelude::*;
use crate::envelope::{JsontpRequest, RequestModel};
use crate::text::{has_version_prefix, lowercase, same_text, starts_with_version};
use crate::value::{lookup, JsonModel};

verus! {

/// The body encodings that the protocol knows.
pub open spec fn known_encoding(s: Seq<char>) -> bool {
    s == "gzip"@ || s == "deflate"@ || s == "br"@ || s == "identity"@
}

/// The methods that the protocol knows.
pub open spec fn known_method(s: Seq<char>) -> bool {
    s == "GET"@ || s == "POST"@ || s == "PUT"@ || s == "DELETE"@ || s == "OPTIONS"@
}

/// The header names that a request may carry, in lowercase.
pub open spec fn allowed_header(lowered: Seq<char>) -> bool {
    lowered == "content-type"@ || lowered == "accept"@ || lowered == "accept-encoding"@
        || lowered == "accept-language"@ || lowered == "authorization"@ || lowered == "cookies"@
        || lowered == "if-modified-since"@ || lowered == "if-unmodified-since"@
        || lowered == "expect"@
}

/// Whether some header's name, in lowercase, is none of the allowed ones.
pub open spec fn has_unknown_header(headers: Seq<(Seq<char>, JsonModel)>) -> bool {
    exists|i: int| 0 <= i < headers.len() && !allowed_header(lowercase(#[trigger] headers[i].0))
}

/// Whether the headers ask that unknown names be tolerated: the header
/// `ignore-invalid-headers`, so spelled, is the boolean `true`.
pub open spec fn ignores_unknown_headers(headers: Seq<(Seq<char>, JsonModel)>) -> bool {
    lookup(headers, "ignore-invalid-headers"@) == Some(JsonModel::Bool(true))
}

/// Whether the request fails on its headers.
pub open spec fn rejects_headers(headers: Seq<(Seq<char>, JsonModel)>) -> bool {
    has_unknown_header(headers) && !ignores_unknown_headers(headers)
}

/// Whether the request is of the right type and names a resource, a method
/// and a body that the protocol knows.
pub open spec fn well_formed(r: RequestModel) -> bool {
    &&& r.type_of_request == "request"@
    &&& r.resource.len() != 0
    &&& r.body.content.len() != 0
    &&& r.body.encoding.len() != 0
    &&& r.method.len() != 0
    &&& known_encoding(r.body.encoding)
    &&& known_method(r.method)
}

/// What validation finds in a request: nothing, or the phrase and the code
/// of the first rule that it breaks.
pub open spec fn verdict(r: RequestModel) -> Option<(Seq<char>, u16)> {
    if !has_version_prefix(r.jsontp) {
        Some(("HTTP Version Not Supported"@, 505u16))
    } else if !well_formed(r) {
        Some(("Bad Request"@, 400u16))
    } else if rejects_headers(r.headers) {
        Some(("Bad Request hea"@, 400u16))
    } else {
        None
    }
}

/// Tells whether `s` names a body encoding that the protocol knows.
pub fn is_known_encoding(s: &str) -> (res: bool)
    ensures
        res == known_encoding(s@),
{
    same_text(s, "gzip") || same_text(s, "deflate") || same_text(s, "br")
        || same_text(s, "identity")
}

/// Tells whether `s` names a method that the protocol knows.
pub fn is_known_method(s: &str) -> (res: bool)
    ensures
        res == known_method(s@),
{
    same_text(s, "GET") || same_text(s, "POST") || same_text(s, "PUT") || same_text(s, "DELETE")
        || same_text(s, "OPTIONS")
}

/// Tells whether `lowered`, a header's name in lowercase, is allowed.
pub fn is_allowed_header(lowered: &str) -> (res: bool)
    ensures
        res == allowed_header(lowered@),
{
    same_text(lowered, "content-type") || same_text(lowered, "accept")
        || same_text(lowered, "accept-encoding") || same_text(lowered, "accept-language")
        || same_text(lowered, "authorization") || same_text(lowered, "cookies")
        || same_text(lowered, "if-modified-since") || same_text(lowered, "if-unmodified-since")
        || same_text(lowered, "expect")
}

impl JsontpRequest {
    /// Tells whether some header's name is, in lowercase, none of the
    /// allowed ones.
    pub fn carries_unknown_header(&self) -> (res: bool)
        ensures
            res == has_unknown_header(self.headers@),
    {
        let mut found = false;
        let mut i: usize = 0;
        while i < self.headers.entries.len() && !found
            invariant
                i <= self.headers.entries@.len(),
                found ==> has_unknown_header(self.headers@),
                !found ==> forall|j: int|
                    0 <= j < i ==> allowed_header(lowercase(#[trigger] self.headers@[j].0)),
            decreases self.headers.entries@.len() - i + (if found { 0int } else { 1int }),
        {
            let lowered = self.headers.entries[i].name.as_str().to_lowercase();
            if is_allowed_header(lowered.as_str()) {
                i = i + 1;
            } else {
                assert(!allowed_header(lowercase(self.headers@[i as int].0)));
                found = true;
            }
        }
        found
    }

    /// Checks the request against the protocol's rules, in their order, and
    /// reports the first that it breaks.
    pub fn validate(&self) -> (res: Result<(), (String, u16)>)
        ensures
            match res {
                Ok(_) => verdict(self@) is None,
                Err(e) => verdict(self@) == Some((e.0@, e.1)),
            },
    {
        if !starts_with_version(self.jsontp.as_str()) {
            return Err(("HTTP Version Not Supported".to_owned(), 505));
        }
        if !same_text(self.type_of_request.as_str(), "request") {
            return Err(("Bad Request".to_owned(), 400));
        }
        if self.resource.as_str().is_empty() {
            return Err(("Bad Request".to_owned(), 400));
        }
        if self.body.content.as_str().is_empty() {
            return Err(("Bad Request".to_owned(), 400));
        }
        if self.body.encoding.as_str().is_empty() {
            return Err(("Bad Request".to_owned(), 400));
        }
        if self.method.as_str().is_empty() {
            return Err(("Bad Request".to_owned(), 400));
        }
        if !is_known_encoding(self.body.encoding.as_str()) {
            return Err(("Bad Request".to_owned(), 400));
        }
        if !is_known_method(self.method.as_str()) {
            return Err(("Bad Request".to_owned(), 400));
        }
        if self.carries_unknown_header() {
            let tolerated = match self.headers.get("ignore-invalid-headers") {
                Some(value) => value.is_true(),
                None => false,
            };
            if !tolerated {
                return Err(("Bad Request hea".to_owned(), 400));
            }
        }
        Ok(())
    }
}

} // verus!
