//! The replies that the endpoints send: an HTTP status and a body that is
//! the data alone, the data with a message, or an error code with a message.

use vstd::prelude::*;

verus! {

/// The HTTP statuses the endpoints answer with.
#[derive(Clone, Copy, Debug, PartialEq, Eq, Structural)]
pub enum StatusCode {
    /// 200 OK
    Success,
    Created,
    NotFound,
    Conflict,
    InternalServerError,
}

impl StatusCode {
    /// The numeric HTTP status.
    pub open spec fn number(self) -> u16 {
        match self {
            StatusCode::Success => 200,
            StatusCode::Created => 201,
            StatusCode::NotFound => 404,
            StatusCode::Conflict => 409,
            StatusCode::InternalServerError => 500,
        }
    }

    /// The numeric HTTP status.
    pub fn as_u16(&self) -> (n: u16)
        ensures
            n == self.number(),
    {
        match self {
            StatusCode::Success => 200,
            StatusCode::Created => 201,
            StatusCode::NotFound => 404,
            StatusCode::Conflict => 409,
            StatusCode::InternalServerError => 500,
        }
    }
}

/// The machine-readable error codes of an error body.
#[derive(Clone, Copy, Debug, PartialEq, Eq, Structural)]
pub enum ErrorCode {
    DatabaseError,
    AlreadyExists,
    NotFound,
}

impl ErrorCode {
    /// The text the error code is sent as.
    pub open spec fn text(self) -> Seq<char> {
        match self {
            ErrorCode::DatabaseError => "DATABASE_ERROR"@,
            ErrorCode::AlreadyExists => "ALREADY_EXISTS"@,
            ErrorCode::NotFound => "NOT_FOUND"@,
        }
    }

    /// The text the error code is sent as.
    pub fn to_text(&self) -> (s: String)
        ensures
            s@ == self.text(),
    {
        match self {
            ErrorCode::DatabaseError => String::from_str("DATABASE_ERROR"),
            ErrorCode::AlreadyExists => String::from_str("ALREADY_EXISTS"),
            ErrorCode::NotFound => String::from_str("NOT_FOUND"),
        }
    }
}

/// The data of a success body.
pub enum Payload<P> {
    /// One record.
    Product(P),
    /// A list of records.
    Products(Vec<P>),
    /// No data (the unit value).
    Nothing,
}

/// Mathematical form of a [`Payload`].
pub enum PayloadView<P> {
    Product(P),
    Products(Seq<P>),
    Nothing,
}

impl<P> View for Payload<P> {
    type V = PayloadView<P>;

    open spec fn view(&self) -> PayloadView<P> {
        match self {
            Payload::Product(p) => PayloadView::Product(*p),
            Payload::Products(v) => PayloadView::Products(v@),
            Payload::Nothing => PayloadView::Nothing,
        }
    }
}

/// The body of a reply.
pub enum Body<P> {
    /// The data alone.
    Data(Payload<P>),
    /// The data with a message.
    Success { data: Payload<P>, message: String },
    Failure { code: ErrorCode, message: String },
}

/// Mathematical form of a [`Body`].
pub enum BodyView<P> {
    Data(PayloadView<P>),
    Success { data: PayloadView<P>, message: Seq<char> },
    Failure { code: ErrorCode, message: Seq<char> },
}

impl<P> View for Body<P> {
    type V = BodyView<P>;

    open spec fn view(&self) -> BodyView<P> {
        match self {
            Body::Data(data) => BodyView::Data(data@),
            Body::Success { data, message } => BodyView::Success { data: data@, message: message@ },
            Body::Failure { code, message } => BodyView::Failure { code: *code, message: message@ },
        }
    }
}

/// A reply: a status and a body.
pub struct Reply<P> {
    pub status: StatusCode,
    pub body: Body<P>,
}

/// Mathematical form of a [`Reply`].
pub struct ReplyView<P> {
    pub status: StatusCode,
    pub body: BodyView<P>,
}

impl<P> View for Reply<P> {
    type V = ReplyView<P>;

    open spec fn view(&self) -> ReplyView<P> {
        ReplyView { status: self.status, body: self.body@ }
    }
}

/// A reply whose body is the data alone.
pub open spec fn data_reply<P>(status: StatusCode, data: PayloadView<P>) -> ReplyView<P> {
    ReplyView { status, body: BodyView::Data(data) }
}

/// A success reply: the data with a message.
pub open spec fn success_reply<P>(
    status: StatusCode,
    data: PayloadView<P>,
    message: Seq<char>,
) -> ReplyView<P> {
    ReplyView { status, body: BodyView::Success { data, message } }
}

/// An error reply.
pub open spec fn failure_reply<P>(
    status: StatusCode,
    code: ErrorCode,
    message: Seq<char>,
) -> ReplyView<P> {
    ReplyView { status, body: BodyView::Failure { code, message } }
}

/// Builds a reply whose body is the data alone.
pub fn data_only<P>(status: StatusCode, data: Payload<P>) -> (r: Reply<P>)
    ensures
        r@ == data_reply(status, data@),
{
    Reply { status, body: Body::Data(data) }
}

/// Builds a success reply.
pub fn success<P>(status: StatusCode, data: Payload<P>, message: String) -> (r: Reply<P>)
    ensures
        r@ == success_reply(status, data@, message@),
{
    Reply { status, body: Body::Success { data, message } }
}

/// Builds an error reply.
pub fn failure<P>(status: StatusCode, code: ErrorCode, message: String) -> (r: Reply<P>)
    ensures
        r@ == failure_reply::<P>(status, code, message@),
{
    Reply { status, body: Body::Failure { code, message } }
}

} // verus!
