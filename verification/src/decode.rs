//! Decoding a request into connection parameters.
//!
//! A request is a JSON object with five members, all strings: `db_host`,
//! `db_port`, `db_user`, `db_password` and `db_name`. Members beyond these
//! are ignored. Nothing is defaulted: a request that lacks one of the
//! five, or holds something other than a string under its name, is
//! rejected.
//!
//! Reading JSON is left to `serde_json`. What this module decides is what
//! a parsed document must hold, and which defect is reported when it does
//! not.

use vstd::prelude::*;
use vstd::string::*;
use crate::params::{ConnectionParameters, ParamsView};

verus! {

/// One of the five required members of a request.
#[derive(Debug, Clone, Copy, PartialEq, Eq)]
pub enum Field {
    Host,
    Port,
    User,
    Password,
    Database,
}

impl Field {
    /// The name under which the request holds this field.
    pub open spec fn key_of(self) -> Seq<char> {
        match self {
            Field::Host => "db_host"@,
            Field::Port => "db_port"@,
            Field::User => "db_user"@,
            Field::Password => "db_password"@,
            Field::Database => "db_name"@,
        }
    }

    /// The name under which the request holds this field.
    pub fn key(self) -> (name: &'static str)
        ensures
            name@ == self.key_of(),
    {
        match self {
            Field::Host => "db_host",
            Field::Port => "db_port",
            Field::User => "db_user",
            Field::Password => "db_password",
            Field::Database => "db_name",
        }
    }
}

/// Why a request could not be decoded.
#[derive(Debug, Clone, Copy, PartialEq, Eq)]
pub enum DecodeError {
    /// The request is not a JSON document.
    Malformed,
    /// The request has no member of this name.
    Missing(Field),
    /// The request holds something other than a string under this name.
    NotText(Field),
}

impl DecodeError {
    /// The description of this error.
    pub open spec fn message_of(self) -> Seq<char> {
        match self {
            DecodeError::Malformed => "request is not valid JSON"@,
            DecodeError::Missing(field) => "missing field: "@ + field.key_of(),
            DecodeError::NotText(field) => "field is not a string: "@ + field.key_of(),
        }
    }

    /// Describes this error, for the invocation error that reports it.
    pub fn message(&self) -> (text: String)
        ensures
            text@ == self.message_of(),
    {
        match self {
            DecodeError::Malformed => String::from_str("request is not valid JSON"),
            DecodeError::Missing(field) => String::from_str("missing field: ").concat(field.key()),
            DecodeError::NotText(field) => {
                String::from_str("field is not a string: ").concat(field.key())
            },
        }
    }
}

/// What a document holds under one name.
#[derive(Debug, PartialEq, Eq)]
pub enum Member {
    /// Nothing: the document has no member of that name.
    Missing,
    /// A value that is not a string.
    NotText,
    /// A string.
    Text(String),
}

/// Mathematical model of a [`Member`].
pub enum MemberView {
    Missing,
    NotText,
    Text(Seq<char>),
}

impl View for Member {
    type V = MemberView;

    open spec fn view(&self) -> MemberView {
        match self {
            Member::Missing => MemberView::Missing,
            Member::NotText => MemberView::NotText,
            Member::Text(text) => MemberView::Text(text@),
        }
    }
}

/// The members of a document, by name: `Some` of its text for a member
/// that is a string, `None` for a member that is anything else.
pub type Members = Map<Seq<char>, Option<Seq<char>>>;

/// What a set of members holds under one name.
pub open spec fn member_at(members: Members, key: Seq<char>) -> MemberView {
    if !members.dom().contains(key) {
        MemberView::Missing
    } else {
        match members[key] {
            Some(text) => MemberView::Text(text),
            None => MemberView::NotText,
        }
    }
}

/// What is wrong with a member that should be a string, if anything.
pub open spec fn defect(field: Field, member: MemberView) -> Option<DecodeError> {
    match member {
        MemberView::Missing => Some(DecodeError::Missing(field)),
        MemberView::NotText => Some(DecodeError::NotText(field)),
        MemberView::Text(_) => None,
    }
}

/// The parameters that five members decode to. The members are examined
/// in the order host, port, user, password, database, and the first
/// defect found is the error.
pub open spec fn decoded(
    host: MemberView,
    port: MemberView,
    user: MemberView,
    password: MemberView,
    database: MemberView,
) -> Result<ParamsView, DecodeError> {
    if let Some(error) = defect(Field::Host, host) {
        Err(error)
    } else if let Some(error) = defect(Field::Port, port) {
        Err(error)
    } else if let Some(error) = defect(Field::User, user) {
        Err(error)
    } else if let Some(error) = defect(Field::Password, password) {
        Err(error)
    } else if let Some(error) = defect(Field::Database, database) {
        Err(error)
    } else {
        Ok(
            ParamsView {
                host: host->Text_0,
                port: port->Text_0,
                user: user->Text_0,
                password: password->Text_0,
                database: database->Text_0,
            },
        )
    }
}

/// The parameters that a request decodes to, given what reading it as
/// JSON gave: `None` where it is no JSON document, else its members.
pub open spec fn decoded_request(document: Option<Members>) -> Result<ParamsView, DecodeError> {
    match document {
        None => Err(DecodeError::Malformed),
        Some(members) => decoded(
            member_at(members, Field::Host.key_of()),
            member_at(members, Field::Port.key_of()),
            member_at(members, Field::User.key_of()),
            member_at(members, Field::Password.key_of()),
            member_at(members, Field::Database.key_of()),
        ),
    }
}

/// The model of a decoding result.
pub open spec fn result_view(result: Result<ConnectionParameters, DecodeError>) -> Result<
    ParamsView,
    DecodeError,
> {
    match result {
        Ok(params) => Ok(params@),
        Err(error) => Err(error),
    }
}

/// `serde_json::Value`, a parsed JSON document. Opaque here: what the
/// decoder reads of it goes through [`members_of`].
#[verifier::external_type_specification]
#[verifier::external_body]
pub struct ExJsonValue(serde_json::Value);

/// `serde_json::Error`, the parser's account of why a text is not JSON.
#[verifier::external_type_specification]
#[verifier::external_body]
pub struct ExJsonError(serde_json::Error);

/// The members of a parsed JSON document at its top level, by name: `Some`
/// of its text for a member that is a string, `None` for a member that is
/// anything else. A document that is not an object has no members.
pub uninterp spec fn members_of(document: serde_json::Value) -> Map<Seq<char>, Option<Seq<char>>>;

/// What `serde_json` makes of a byte string: `None` where it reports an
/// error, else the members of the document it returns.
pub uninterp spec fn document_of(bytes: Seq<u8>) -> Option<Map<Seq<char>, Option<Seq<char>>>>;

/// Calls `serde_json::from_slice` for a `serde_json::Value`.
///
/// Believed, not proved: whether the call fails, and the document it
/// returns, depend on the bytes alone.
#[verifier::external_body]
fn parse_document(bytes: &[u8]) -> (parsed: Result<serde_json::Value, serde_json::Error>)
    ensures
        match parsed {
            Ok(document) => document_of(bytes@) == Some(members_of(document)),
            Err(_) => document_of(bytes@) is None,
        },
{
    serde_json::from_slice::<serde_json::Value>(bytes)
}

/// Calls `serde_json::Value::get` with a name.
///
/// Believed, not proved: the call returns the member of that name where
/// the document is an object that has one, and nothing otherwise. The
/// member is handed on as its text where it is a string.
#[verifier::external_body]
fn member(document: &serde_json::Value, key: &str) -> (found: Member)
    ensures
        found@ == member_at(members_of(*document), key@),
{
    match document.get(key) {
        None => Member::Missing,
        Some(serde_json::Value::String(text)) => Member::Text(text.clone()),
        Some(serde_json::Value::Null) => Member::NotText,
        Some(serde_json::Value::Bool(_)) => Member::NotText,
        Some(serde_json::Value::Number(_)) => Member::NotText,
        Some(serde_json::Value::Array(_)) => Member::NotText,
        Some(serde_json::Value::Object(_)) => Member::NotText,
    }
}

/// The text of a member that should be a string, or its defect.
fn text_of(field: Field, member: Member) -> (text: Result<String, DecodeError>)
    ensures
        match text {
            Ok(text) => member@ == MemberView::Text(text@),
            Err(error) => defect(field, member@) == Some(error),
        },
{
    match member {
        Member::Missing => Err(DecodeError::Missing(field)),
        Member::NotText => Err(DecodeError::NotText(field)),
        Member::Text(text) => Ok(text),
    }
}

/// Makes connection parameters of what a document holds under the five
/// names. All five must be strings; the first that is not, in the order
/// host, port, user, password, database, decides the error.
pub fn from_members(
    host: Member,
    port: Member,
    user: Member,
    password: Member,
    database: Member,
) -> (result: Result<ConnectionParameters, DecodeError>)
    ensures
        result_view(result) == decoded(host@, port@, user@, password@, database@),
{
    let host = match text_of(Field::Host, host) {
        Ok(text) => text,
        Err(error) => {
            return Err(error);
        },
    };
    let port = match text_of(Field::Port, port) {
        Ok(text) => text,
        Err(error) => {
            return Err(error);
        },
    };
    let user = match text_of(Field::User, user) {
        Ok(text) => text,
        Err(error) => {
            return Err(error);
        },
    };
    let password = match text_of(Field::Password, password) {
        Ok(text) => text,
        Err(error) => {
            return Err(error);
        },
    };
    let database = match text_of(Field::Database, database) {
        Ok(text) => text,
        Err(error) => {
            return Err(error);
        },
    };
    Ok(ConnectionParameters { host, port, user, password, database })
}

/// Decodes a request body. Succeeds exactly when the body is a JSON
/// document that holds a string under each of the five names.
pub fn decode(body: &[u8]) -> (result: Result<ConnectionParameters, DecodeError>)
    ensures
        result_view(result) == decoded_request(document_of(body@)),
{
    match parse_document(body) {
        Err(_) => Err(DecodeError::Malformed),
        Ok(document) => from_members(
            member(&document, Field::Host.key()),
            member(&document, Field::Port.key()),
            member(&document, Field::User.key()),
            member(&document, Field::Password.key()),
            member(&document, Field::Database.key()),
        ),
    }
}

/// A request that lacks any one of the five members is rejected, whatever
/// else it holds.
pub proof fn missing_member_is_rejected(members: Members, field: Field)
    requires
        !members.dom().contains(field.key_of()),
    ensures
        decoded_request(Some(members)) is Err,
{
}

/// A request is accepted exactly when it is a document that holds a string
/// under each of the five names, and the parameters are those strings,
/// unchanged.
pub proof fn accepted_requests(document: Option<Members>)
    ensures
        decoded_request(document) is Ok <==> (document matches Some(members) && forall|
            field: Field,
        | #[trigger] member_at(members, field.key_of()) is Text),
        decoded_request(document) matches Ok(params) ==> (document matches Some(members) && {
            &&& member_at(members, Field::Host.key_of()) == MemberView::Text(params.host)
            &&& member_at(members, Field::Port.key_of()) == MemberView::Text(params.port)
            &&& member_at(members, Field::User.key_of()) == MemberView::Text(params.user)
            &&& member_at(members, Field::Password.key_of()) == MemberView::Text(params.password)
            &&& member_at(members, Field::Database.key_of()) == MemberView::Text(params.database)
        }),
{
    if let Some(members) = document {
        if decoded_request(document) is Ok {
            assert forall|field: Field| #[trigger]
                member_at(members, field.key_of()) is Text by {
                match field {
                    Field::Host => {},
                    Field::Port => {},
                    Field::User => {},
                    Field::Password => {},
                    Field::Database => {},
                }
            }
        } else {
            let bad = if defect(Field::Host, member_at(members, Field::Host.key_of())) is Some {
                Field::Host
            } else if defect(Field::Port, member_at(members, Field::Port.key_of())) is Some {
                Field::Port
            } else if defect(Field::User, member_at(members, Field::User.key_of())) is Some {
                Field::User
            } else if defect(Field::Password, member_at(members, Field::Password.key_of()))
                is Some {
                Field::Password
            } else {
                Field::Database
            };
            assert(!(member_at(members, bad.key_of()) is Text));
        }
    }
}

} // verus!
