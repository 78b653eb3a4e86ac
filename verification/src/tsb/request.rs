//! What is sent to the TSB REST API and what comes back.
use crate::tsb::error::{TsbError, TsbErrorView};
use vstd::prelude::*;

verus! {

/// A JSON string or boolean.
#[derive(PartialEq, Eq)]
pub enum JsonScalar {
    /// A string.
    Text(String),
    /// A boolean.
    Flag(bool),
}

/// A [`JsonScalar`] with its text as a character sequence.
pub enum JsonScalarView {
    Text(Seq<char>),
    Flag(bool),
}

impl View for JsonScalar {
    type V = JsonScalarView;

    open spec fn view(&self) -> JsonScalarView {
        match *self {
            JsonScalar::Text(text) => JsonScalarView::Text(text@),
            JsonScalar::Flag(flag) => JsonScalarView::Flag(flag),
        }
    }
}

/// The value of a member of a request body.
#[derive(PartialEq, Eq)]
pub enum JsonValue {
    /// A string or boolean.
    Scalar(JsonScalar),
    /// An object of strings and booleans.
    Object(Vec<(&'static str, JsonScalar)>),
}

/// A [`JsonValue`] with its texts as character sequences.
pub enum JsonValueView {
    Scalar(JsonScalarView),
    Object(Seq<(Seq<char>, JsonScalarView)>),
}

/// The names and views of an object's members.
pub open spec fn members_view(members: Seq<(&'static str, JsonScalar)>) -> Seq<
    (Seq<char>, JsonScalarView),
> {
    members.map_values(|member: (&'static str, JsonScalar)| (member.0@, member.1@))
}

impl View for JsonValue {
    type V = JsonValueView;

    open spec fn view(&self) -> JsonValueView {
        match *self {
            JsonValue::Scalar(scalar) => JsonValueView::Scalar(scalar@),
            JsonValue::Object(members) => JsonValueView::Object(members_view(members@)),
        }
    }
}

/// The names and views of a body's members.
pub open spec fn body_view(body: Seq<(&'static str, JsonValue)>) -> Seq<
    (Seq<char>, JsonValueView),
> {
    body.map_values(|member: (&'static str, JsonValue)| (member.0@, member.1@))
}

/// A `POST` of a JSON object to the TSB REST API.
pub struct TsbRequest {
    /// The address.
    pub url: String,
    /// The bearer token of the `Authorization` header.
    pub bearer: String,
    /// The members of the JSON object that is the body.
    pub body: Vec<(&'static str, JsonValue)>,
}

/// A [`TsbRequest`] with its texts as character sequences.
pub struct TsbRequestView {
    pub url: Seq<char>,
    pub bearer: Seq<char>,
    pub body: Seq<(Seq<char>, JsonValueView)>,
}

impl View for TsbRequest {
    type V = TsbRequestView;

    open spec fn view(&self) -> TsbRequestView {
        TsbRequestView { url: self.url@, bearer: self.bearer@, body: body_view(self.body@) }
    }
}

/// What the TSB REST API answered.
#[derive(Debug)]
pub struct TsbReply {
    /// HTTP status code.
    pub status: u16,
    /// Response body.
    pub body: String,
}

/// Whether an HTTP status code stands for success.
pub open spec fn is_success(status: u16) -> bool {
    200 <= status < 300
}

/// The body of a successful reply, or why there is none.
pub open spec fn accepted_body(reply: Result<TsbReply, String>) -> Result<Seq<char>, TsbErrorView> {
    match reply {
        Ok(reply) => if is_success(reply.status) {
            Ok(reply.body@)
        } else {
            Err(TsbErrorView::Api { status: reply.status, body: reply.body@ })
        },
        Err(reason) => Err(TsbErrorView::Http(reason@)),
    }
}

/// The body of a successful reply, or why there is none: the exchange failed,
/// or the API answered with another status.
pub fn accept_reply(reply: Result<TsbReply, String>) -> (body: Result<String, TsbError>)
    ensures
        match body {
            Ok(body) => accepted_body(reply) == Ok::<Seq<char>, TsbErrorView>(body@),
            Err(e) => accepted_body(reply) == Err::<Seq<char>, TsbErrorView>(e@),
        },
{
    match reply {
        Ok(reply) => if 200 <= reply.status && reply.status < 300 {
            Ok(reply.body)
        } else {
            Err(TsbError::Api { status: reply.status, body: reply.body })
        },
        Err(reason) => Err(TsbError::Http(reason)),
    }
}

/// Success is a status from 200 to 299.
pub proof fn law_success_statuses(status: u16)
    ensures
        is_success(status) <==> status / 100 == 2,
{
}

/// A reply of success gives its body as it is, any other its status and body,
/// and a failed exchange its reason.
pub proof fn law_reply_is_taken_as_it_is(reply: TsbReply, reason: String)
    ensures
        200 <= reply.status <= 299 ==> accepted_body(Ok(reply)) == Ok::<Seq<char>, TsbErrorView>(
            reply.body@,
        ),
        !(200 <= reply.status <= 299) ==> (accepted_body(Ok(reply)) matches Err(
            TsbErrorView::Api { status, body },
        ) && status == reply.status && body == reply.body@),
        accepted_body(Err(reason)) == Err::<Seq<char>, TsbErrorView>(TsbErrorView::Http(reason@)),
{
}

/// The view of a JSON value is of the same kind and holds the same.
pub proof fn law_json_is_seen_whole(scalar: JsonScalar, value: JsonValue)
    ensures
        scalar is Text ==> scalar@ == JsonScalarView::Text(scalar->Text_0@),
        scalar is Flag ==> scalar@ == JsonScalarView::Flag(scalar->Flag_0),
        value is Scalar ==> value@ == JsonValueView::Scalar(value->Scalar_0@),
        value is Object ==> value@ == JsonValueView::Object(members_view(value->Object_0@)),
{
}

/// The view of an object holds its members in order, each under its own name.
pub proof fn law_members_are_seen_whole(members: Seq<(&'static str, JsonScalar)>, i: int)
    ensures
        members_view(members).len() == members.len(),
        0 <= i < members.len() ==> members_view(members)[i].0 == members[i].0@ && members_view(
            members,
        )[i].1 == members[i].1@,
{
}

/// The view of a request holds its address, its token and the members of its
/// body in order, each under its own name.
pub proof fn law_request_is_seen_whole(request: TsbRequest, i: int)
    ensures
        request@.url == request.url@,
        request@.bearer == request.bearer@,
        request@.body.len() == request.body@.len(),
        0 <= i < request.body@.len() ==> request@.body[i].0 == request.body@[i].0@
            && request@.body[i].1 == request.body@[i].1@,
        request@.body == body_view(request.body@),
{
}

/// The view of a body holds its members in order, each under its own name.
pub proof fn law_body_is_seen_whole(body: Seq<(&'static str, JsonValue)>, i: int)
    ensures
        body_view(body).len() == body.len(),
        0 <= i < body.len() ==> body_view(body)[i].0 == body[i].0@ && body_view(body)[i].1
            == body[i].1@,
{
}

} // verus!
