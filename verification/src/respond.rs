use vstd::prelude::*;
use crate::envelope::{
    Body, BodyModel, JsontpRequest, JsontpResponse, RequestModel, ResponseModel, Status,
    StatusModel,
};
use crate::validate::verdict;
use crate::value::{Fields, JsonModel, JsonValue};

verus! {

/// The headers of a response to a request that was served.
pub open spec fn served_headers() -> Seq<(Seq<char>, JsonModel)> {
    seq![
        ("date"@, JsonModel::Text(Seq::<char>::empty())),
        ("language"@, JsonModel::Text("en-GB"@)),
    ]
}

/// A body without content, encoding or further fields.
pub open spec fn empty_body() -> BodyModel {
    BodyModel {
        content: Seq::<char>::empty(),
        encoding: Seq::<char>::empty(),
        other: Seq::<(Seq<char>, JsonModel)>::empty(),
    }
}

/// The response to input that is no request envelope.
pub open spec fn malformed_model() -> ResponseModel {
    ResponseModel {
        jsontp: "1.0"@,
        type_of_response: "response"@,
        status: StatusModel {
            code: 400u16,
            formal_message: "Bad Request"@,
            human_message: "Request was not a valid JSONTP request"@,
        },
        resource: Seq::<char>::empty(),
        headers: Seq::<(Seq<char>, JsonModel)>::empty(),
        body: empty_body(),
    }
}

/// The response to a request that validation refused with `message` and
/// `code`: the request's own resource, headers and body come back.
pub open spec fn rejected_model(r: RequestModel, message: Seq<char>, code: u16) -> ResponseModel {
    ResponseModel {
        jsontp: "1.0"@,
        type_of_response: "response"@,
        status: StatusModel { code: code, formal_message: message, human_message: message },
        resource: r.resource,
        headers: r.headers,
        body: r.body,
    }
}

/// The status of a served request: found with its content, or not found.
pub open spec fn resolved_status(stored: Option<Seq<char>>) -> StatusModel {
    match stored {
        Some(_) => StatusModel {
            code: 200u16,
            formal_message: "OK"@,
            human_message: "Request was successful"@,
        },
        None => StatusModel {
            code: 404u16,
            formal_message: "Not Found"@,
            human_message: "Resource not found"@,
        },
    }
}

/// The response to a valid request, given what storage holds under its
/// resource.
pub open spec fn resolved_model(r: RequestModel, stored: Option<Seq<char>>) -> ResponseModel {
    ResponseModel {
        jsontp: "1.0"@,
        type_of_response: "response"@,
        status: resolved_status(stored),
        resource: r.resource,
        headers: served_headers(),
        body: BodyModel {
            content: match stored {
                Some(content) => content,
                None => Seq::<char>::empty(),
            },
            encoding: "identity"@,
            other: Seq::<(Seq<char>, JsonModel)>::empty(),
        },
    }
}

/// The response that one connection gets: `decoded` is the request that its
/// input held, if it held one, and `stored` what storage holds under the
/// request's resource.
pub open spec fn response_of(
    decoded: Option<RequestModel>,
    stored: Option<Seq<char>>,
) -> ResponseModel {
    match decoded {
        None => malformed_model(),
        Some(r) => match verdict(r) {
            Some(failure) => rejected_model(r, failure.0, failure.1),
            None => resolved_model(r, stored),
        },
    }
}

/// The mathematical value of a request that may be missing.
pub open spec fn request_model(decoded: Option<JsontpRequest>) -> Option<RequestModel> {
    match decoded {
        Some(r) => Some(r@),
        None => None,
    }
}

/// The mathematical value of a content that may be missing.
pub open spec fn content_model(stored: Option<String>) -> Option<Seq<char>> {
    match stored {
        Some(s) => Some(s@),
        None => None,
    }
}

/// What storage holds under a resource, given how reading it went: the
/// content that was read, or nothing, whatever made the reading fail.
pub fn resolution<E>(outcome: Result<String, E>) -> (res: Option<String>)
    ensures
        match outcome {
            Ok(content) => res == Some(content),
            Err(_) => res is None,
        },
{
    match outcome {
        Ok(content) => Some(content),
        Err(_) => None,
    }
}

impl JsontpResponse {
    /// The response to input that is no request envelope.
    pub fn malformed() -> (res: JsontpResponse)
        ensures
            res@ == malformed_model(),
    {
        JsontpResponse {
            jsontp: "1.0".to_owned(),
            type_of_response: "response".to_owned(),
            status: Status {
                code: 400,
                formal_message: "Bad Request".to_owned(),
                human_message: "Request was not a valid JSONTP request".to_owned(),
            },
            resource: String::new(),
            headers: Fields::new(),
            body: Body { content: String::new(), encoding: String::new(), other: Fields::new() },
        }
    }

    /// The response to a request that validation refused with `message` and
    /// `code`.
    pub fn rejected(request: JsontpRequest, message: String, code: u16) -> (res: JsontpResponse)
        ensures
            res@ == rejected_model(request@, message@, code),
    {
        JsontpResponse {
            jsontp: "1.0".to_owned(),
            type_of_response: "response".to_owned(),
            status: Status { code, formal_message: message.clone(), human_message: message },
            resource: request.resource,
            headers: request.headers,
            body: request.body,
        }
    }

    /// The response to a request that was served: `stored` is the content
    /// that storage holds under its resource, if it holds any.
    pub fn resolved(request: JsontpRequest, stored: Option<String>) -> (res: JsontpResponse)
        ensures
            res@ == resolved_model(request@, content_model(stored)),
    {
        let mut headers = Fields::new();
        headers.insert("date".to_owned(), JsonValue::Text(String::new()));
        headers.insert("language".to_owned(), JsonValue::Text("en-GB".to_owned()));
        assert(headers@ =~= served_headers());
        let status = match stored {
            Some(_) => Status {
                code: 200,
                formal_message: "OK".to_owned(),
                human_message: "Request was successful".to_owned(),
            },
            None => Status {
                code: 404,
                formal_message: "Not Found".to_owned(),
                human_message: "Resource not found".to_owned(),
            },
        };
        let content = match stored {
            Some(content) => content,
            None => String::new(),
        };
        JsontpResponse {
            jsontp: "1.0".to_owned(),
            type_of_response: "response".to_owned(),
            status,
            resource: request.resource,
            headers,
            body: Body { content, encoding: "identity".to_owned(), other: Fields::new() },
        }
    }
}

/// What a connection does once its input is decoded: look the resource up,
/// or answer at once.
#[derive(Clone, Debug, PartialEq, Eq)]
pub enum Dispatch {
    Resolve(JsontpRequest),
    Respond(JsontpResponse),
}

/// Decides what to do with the input of a connection: a valid request is
/// handed on to be resolved, unchanged; anything else gets its response.
pub fn dispatch(decoded: Option<JsontpRequest>) -> (res: Dispatch)
    ensures
        match res {
            Dispatch::Resolve(request) => decoded == Some(request) && verdict(request@) is None,
            Dispatch::Respond(response) => match decoded {
                None => response@ == malformed_model(),
                Some(request) => verdict(request@) matches Some(failure) && response@
                    == rejected_model(request@, failure.0, failure.1),
            },
        },
{
    match decoded {
        None => Dispatch::Respond(JsontpResponse::malformed()),
        Some(request) => match request.validate() {
            Ok(_) => Dispatch::Resolve(request),
            Err(failure) => {
                let (message, code) = failure;
                Dispatch::Respond(JsontpResponse::rejected(request, message, code))
            },
        },
    }
}

/// The response of one connection: `decoded` is the request that its input
/// held, if it held one, and `stored` the content that storage holds under
/// the request's resource, if it holds any.
pub fn respond(decoded: Option<JsontpRequest>, stored: Option<String>) -> (res: JsontpResponse)
    ensures
        res@ == response_of(request_model(decoded), content_model(stored)),
{
    match dispatch(decoded) {
        Dispatch::Resolve(request) => JsontpResponse::resolved(request, stored),
        Dispatch::Respond(response) => response,
    }
}

} // verus!
