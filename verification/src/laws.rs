use vstd::prelude::*;
use crate::envelope::RequestModel;
use crate::respond::{empty_body, response_of};
use crate::text::has_version_prefix;
use crate::validate::{
    has_unknown_header, ignores_unknown_headers, known_encoding, known_method, rejects_headers,
    verdict, well_formed,
};
use crate::value::JsonModel;

verus! {

/// The header that makes validation tolerate unknown header names.
pub open spec fn tolerance_header() -> (Seq<char>, JsonModel) {
    ("ignore-invalid-headers"@, JsonModel::Bool(true))
}

/// The request `r` with one more header, the one that tolerates unknown
/// header names.
pub open spec fn with_tolerance(r: RequestModel) -> RequestModel {
    RequestModel { headers: r.headers.push(tolerance_header()), ..r }
}

/// A request is valid exactly when its version is supported, it is well
/// formed, and it does not fail on its headers.
pub proof fn lemma_valid(r: RequestModel)
    ensures
        verdict(r) is None <==> has_version_prefix(r.jsontp) && well_formed(r)
            && !rejects_headers(r.headers),
        verdict(r) matches Some(failure) ==> failure.1 == 400 || failure.1 == 505,
{
}

/// A request whose version does not begin with `1.0` is answered with
/// status 505, whatever else it holds.
pub proof fn lemma_unsupported_version(r: RequestModel, stored: Option<Seq<char>>)
    requires
        !has_version_prefix(r.jsontp),
    ensures
        response_of(Some(r), stored).status.code == 505,
{
}

/// A request of a supported version whose type is not `request` is answered
/// with status 400.
pub proof fn lemma_wrong_type(r: RequestModel, stored: Option<Seq<char>>)
    requires
        has_version_prefix(r.jsontp),
        r.type_of_request != "request"@,
    ensures
        response_of(Some(r), stored).status.code == 400,
{
}

/// A request of a supported version with an empty resource, content,
/// encoding or method is answered with status 400.
pub proof fn lemma_empty_field(r: RequestModel, stored: Option<Seq<char>>)
    requires
        has_version_prefix(r.jsontp),
        r.resource.len() == 0 || r.body.content.len() == 0 || r.body.encoding.len() == 0
            || r.method.len() == 0,
    ensures
        response_of(Some(r), stored).status.code == 400,
{
}

/// A request of a supported version whose encoding the protocol does not
/// know is answered with status 400.
pub proof fn lemma_unknown_encoding(r: RequestModel, stored: Option<Seq<char>>)
    requires
        has_version_prefix(r.jsontp),
        !known_encoding(r.body.encoding),
    ensures
        response_of(Some(r), stored).status.code == 400,
{
}

/// A request of a supported version whose method the protocol does not know
/// is answered with status 400.
pub proof fn lemma_unknown_method(r: RequestModel, stored: Option<Seq<char>>)
    requires
        has_version_prefix(r.jsontp),
        !known_method(r.method),
    ensures
        response_of(Some(r), stored).status.code == 400,
{
}

/// A request of a supported version with a header outside the allowed ones,
/// and without the header that tolerates them, is answered with status 400.
pub proof fn lemma_unknown_header(r: RequestModel, stored: Option<Seq<char>>)
    requires
        has_version_prefix(r.jsontp),
        has_unknown_header(r.headers),
        !ignores_unknown_headers(r.headers),
    ensures
        response_of(Some(r), stored).status.code == 400,
{
}

/// With the header that tolerates unknown names added, no request fails on
/// its headers: it is valid exactly when the rest of it is in order.
pub proof fn lemma_tolerance_passes_headers(r: RequestModel)
    ensures
        ignores_unknown_headers(with_tolerance(r).headers),
        !rejects_headers(with_tolerance(r).headers),
        verdict(with_tolerance(r)) is None <==> has_version_prefix(r.jsontp) && well_formed(r),
        verdict(r) == Some(("Bad Request hea"@, 400u16)) ==> verdict(with_tolerance(r)) is None,
{
    let headers = r.headers.push(tolerance_header());
    assert(headers.last() == tolerance_header());
    reveal_strlit("Bad Request");
    reveal_strlit("Bad Request hea");
    reveal_strlit("HTTP Version Not Supported");
    assert("Bad Request"@.len() != "Bad Request hea"@.len());
    assert("HTTP Version Not Supported"@.len() != "Bad Request hea"@.len());
}

/// A valid request whose resource storage holds is answered with status
/// 200 and the stored content, in the identity encoding.
pub proof fn lemma_found(r: RequestModel, content: Seq<char>)
    requires
        verdict(r) is None,
    ensures
        response_of(Some(r), Some(content)).status.code == 200,
        response_of(Some(r), Some(content)).body.content == content,
        response_of(Some(r), Some(content)).body.encoding == "identity"@,
        response_of(Some(r), Some(content)).resource == r.resource,
{
}

/// A valid request whose resource storage does not hold is answered with
/// status 404 and no content.
pub proof fn lemma_not_found(r: RequestModel)
    requires
        verdict(r) is None,
    ensures
        response_of(Some(r), None).status.code == 404,
        response_of(Some(r), None).body.content.len() == 0,
        response_of(Some(r), None).resource == r.resource,
{
}

/// Input that holds no request is answered with status 400 and an empty
/// resource, no headers and an empty body.
pub proof fn lemma_malformed(stored: Option<Seq<char>>)
    ensures
        response_of(None, stored).status.code == 400,
        response_of(None, stored).resource.len() == 0,
        response_of(None, stored).headers.len() == 0,
        response_of(None, stored).body == empty_body(),
{
}

/// Every response is of version `1.0` and of type `response`.
pub proof fn lemma_response_header(decoded: Option<RequestModel>, stored: Option<Seq<char>>)
    ensures
        response_of(decoded, stored).jsontp == "1.0"@,
        response_of(decoded, stored).type_of_response == "response"@,
{
}

/// A request that validation refuses gets its own resource, headers and
/// body back, whatever storage holds.
pub proof fn lemma_rejected_echo(r: RequestModel, stored: Option<Seq<char>>)
    requires
        verdict(r) is Some,
    ensures
        response_of(Some(r), stored).resource == r.resource,
        response_of(Some(r), stored).headers == r.headers,
        response_of(Some(r), stored).body == r.body,
        verdict(r) == Some(
            (
                response_of(Some(r), stored).status.formal_message,
                response_of(Some(r), stored).status.code,
            ),
        ),
        response_of(Some(r), stored).status.human_message
            == response_of(Some(r), stored).status.formal_message,
{
}

/// The response depends on nothing but the request and on what storage
/// holds: the same request, served twice from unchanged storage, gets the
/// same response twice.
pub proof fn lemma_repeatable(
    first: Option<RequestModel>,
    second: Option<RequestModel>,
    stored_first: Option<Seq<char>>,
    stored_second: Option<Seq<char>>,
)
    requires
        first == second,
        stored_first == stored_second,
    ensures
        response_of(first, stored_first) == response_of(second, stored_second),
{
}

/// Where the input holds no valid request, the response does not depend on
/// what storage holds.
pub proof fn lemma_storage_unused(
    decoded: Option<RequestModel>,
    stored_first: Option<Seq<char>>,
    stored_second: Option<Seq<char>>,
)
    requires
        decoded matches Some(r) ==> verdict(r) is Some,
    ensures
        response_of(decoded, stored_first) == response_of(decoded, stored_second),
{
}

/// Every status code is one of 200, 400, 404 and 505.
pub proof fn lemma_status_codes(decoded: Option<RequestModel>, stored: Option<Seq<char>>)
    ensures
        ({
            let code = response_of(decoded, stored).status.code;
            code == 200 || code == 400 || code == 404 || code == 505
        }),
{
}

} // verus!
