//! The lookup of a drink's image reference: from a request to either an
//! immediate response or a point read, and from the read's outcome to a
//! response.

use crate::http::{
    api_gateway_response, message_reply, message_response, preflight_model, preflight_response,
    same_text, utf8_text, Request, RequestModel, Response, ResponseModel, json_response_model,
};
use crate::json::{json_member, json_string_literal, read_member, string_literal, Field};
use vstd::prelude::*;
use vstd::utf8::{decode_utf8, valid_utf8};

verus! {

/// One attribute of a composite table key and the text it must hold.
#[derive(Debug, Clone)]
pub struct KeyPart {
    pub attribute: String,
    pub text: String,
}

/// The point read to perform: the table and the composite key.
#[derive(Debug, Clone)]
pub struct LookupKey {
    pub table: String,
    pub parts: Vec<KeyPart>,
}

/// What to do with a request: answer at once, or read the table first.
#[derive(Debug, Clone)]
pub enum Step {
    Respond(Response),
    Lookup(LookupKey),
}

/// One attribute of a stored record: its name and, when it holds a string,
/// that string.
#[derive(Debug, Clone)]
pub struct Attribute {
    pub name: String,
    pub text: Option<String>,
}

/// What the table answered to the point read.
#[derive(Debug, Clone)]
pub enum StoreReply {
    Failed,
    NoRecord,
    Record(Vec<Attribute>),
}

pub struct LookupKeyModel {
    pub table: Seq<char>,
    pub parts: Seq<(Seq<char>, Seq<char>)>,
}

pub enum StepModel {
    Respond(ResponseModel),
    Lookup(LookupKeyModel),
}

pub enum StoreReplyModel {
    Failed,
    NoRecord,
    Record(Seq<(Seq<char>, Option<Seq<char>>)>),
}

impl View for KeyPart {
    type V = (Seq<char>, Seq<char>);

    open spec fn view(&self) -> (Seq<char>, Seq<char>) {
        (self.attribute@, self.text@)
    }
}

impl View for LookupKey {
    type V = LookupKeyModel;

    open spec fn view(&self) -> LookupKeyModel {
        LookupKeyModel { table: self.table@, parts: self.parts@.map_values(|p: KeyPart| p@) }
    }
}

impl View for Step {
    type V = StepModel;

    open spec fn view(&self) -> StepModel {
        match self {
            Step::Respond(r) => StepModel::Respond(r@),
            Step::Lookup(k) => StepModel::Lookup(k@),
        }
    }
}

impl View for Attribute {
    type V = (Seq<char>, Option<Seq<char>>);

    open spec fn view(&self) -> (Seq<char>, Option<Seq<char>>) {
        (
            self.name@,
            match self.text {
                None => None,
                Some(t) => Some(t@),
            },
        )
    }
}

impl View for StoreReply {
    type V = StoreReplyModel;

    open spec fn view(&self) -> StoreReplyModel {
        match self {
            StoreReply::Failed => StoreReplyModel::Failed,
            StoreReply::NoRecord => StoreReplyModel::NoRecord,
            StoreReply::Record(attrs) => StoreReplyModel::Record(
                attrs@.map_values(|a: Attribute| a@),
            ),
        }
    }
}

/// The key of the record for `drink` at `bar` in the `drink_images` table.
pub open spec fn drink_key(bar: Seq<char>, drink: Seq<char>) -> LookupKeyModel {
    LookupKeyModel {
        table: "drink_images"@,
        parts: seq![("barName"@, bar), ("drinkName"@, drink)],
    }
}

/// The answer to a client error with message `msg`.
pub open spec fn client_error(msg: Seq<char>) -> StepModel {
    StepModel::Respond(message_response(400, msg))
}

/// What a well-formed JSON text asks for: a read by its `barName` and
/// `drinkName` strings, or a client error naming the first field that is
/// missing or not a string.
pub open spec fn step_for_text(text: Seq<char>) -> StepModel {
    match json_member(text, "barName"@) {
        None => client_error("Invalid JSON payload"@),
        Some(None) => client_error("barName is missing"@),
        Some(Some(None)) => client_error("barName is not a string"@),
        Some(Some(Some(bar))) => match json_member(text, "drinkName"@) {
            None => client_error("Invalid JSON payload"@),
            Some(None) => client_error("drinkName is missing"@),
            Some(Some(None)) => client_error("drinkName is not a string"@),
            Some(Some(Some(drink))) => StepModel::Lookup(drink_key(bar, drink)),
        },
    }
}

/// Whether a request body is present, non-empty and valid UTF-8.
pub open spec fn is_readable_body(body: Option<Seq<u8>>) -> bool {
    match body {
        None => false,
        Some(b) => b.len() > 0 && valid_utf8(b),
    }
}

/// What to do with a request.
pub open spec fn step_for(req: RequestModel) -> StepModel {
    if req.method == "OPTIONS"@ {
        StepModel::Respond(preflight_model())
    } else if !is_readable_body(req.body) {
        client_error("Invalid request body"@)
    } else {
        step_for_text(decode_utf8(req.body.unwrap()))
    }
}

/// The body `{"s3ObjectKey":<key>}`.
pub open spec fn object_key_body(key: Seq<char>) -> Seq<char> {
    "{\"s3ObjectKey\":"@ + json_string_literal(key) + "}"@
}

/// The string held by the first attribute named `name`, if it holds one.
pub open spec fn attribute_text(attrs: Seq<(Seq<char>, Option<Seq<char>>)>, name: Seq<char>) -> Option<Seq<char>>
    decreases attrs.len(),
{
    if attrs.len() == 0 {
        None
    } else if attrs[0].0 == name {
        attrs[0].1
    } else {
        attribute_text(attrs.drop_first(), name)
    }
}

/// The object key a record names, or `URL not found` when it names none.
pub open spec fn object_key_of(attrs: Seq<(Seq<char>, Option<Seq<char>>)>) -> Seq<char> {
    match attribute_text(attrs, "s3ObjectKey"@) {
        Some(k) => k,
        None => "URL not found"@,
    }
}

/// The answer once the table has replied.
pub open spec fn reply_response(reply: StoreReplyModel) -> ResponseModel {
    match reply {
        StoreReplyModel::Failed => message_response(500, "Internal Server Error"@),
        StoreReplyModel::NoRecord => message_response(404, "Item not found"@),
        StoreReplyModel::Record(attrs) => json_response_model(200, object_key_body(object_key_of(attrs))),
    }
}

/// The response to a request, given what the table would reply if asked.
pub open spec fn response_for(req: RequestModel, reply: StoreReplyModel) -> ResponseModel {
    match step_for(req) {
        StepModel::Respond(r) => r,
        StepModel::Lookup(_) => reply_response(reply),
    }
}

fn key_part(attribute: &str, text: String) -> (p: KeyPart)
    ensures
        p@ == (attribute@, text@),
{
    KeyPart { attribute: String::from_str(attribute), text }
}

/// The key of the record for `drink` at `bar`.
pub fn drink_lookup(bar: String, drink: String) -> (k: LookupKey)
    ensures
        k@ == drink_key(bar@, drink@),
{
    let mut parts: Vec<KeyPart> = Vec::new();
    parts.push(key_part("barName", bar));
    parts.push(key_part("drinkName", drink));
    let k = LookupKey { table: String::from_str("drink_images"), parts };
    assert(k@.parts =~= drink_key(bar@, drink@).parts);
    k
}

/// Decides what to do with a request: answer a preflight or a client error at
/// once, or read the record that the body's `barName` and `drinkName` name.
pub fn begin(request: &Request) -> (r: Step)
    ensures
        r@ == step_for(request@),
        request.method@ == "OPTIONS"@ ==> r@ == StepModel::Respond(preflight_model()),
        request.method@ != "OPTIONS"@ && !is_readable_body(request@.body) ==> r@ == client_error(
            "Invalid request body"@,
        ),
        request.method@ != "OPTIONS"@ && is_readable_body(request@.body) ==> {
            let text = decode_utf8(request@.body.unwrap());
            &&& json_member(text, "barName"@) is None ==> r@ == client_error("Invalid JSON payload"@)
            &&& json_member(text, "barName"@) == Some(None::<Option<Seq<char>>>) ==> r@
                == client_error("barName is missing"@)
            &&& json_member(text, "barName"@) == Some(Some(None::<Seq<char>>)) ==> r@
                == client_error("barName is not a string"@)
            &&& json_member(text, "barName"@) matches Some(Some(Some(_))) ==> {
                &&& json_member(text, "drinkName"@) == Some(None::<Option<Seq<char>>>) ==> r@
                    == client_error("drinkName is missing"@)
                &&& json_member(text, "drinkName"@) == Some(Some(None::<Seq<char>>)) ==> r@
                    == client_error("drinkName is not a string"@)
            }
            &&& (json_member(text, "barName"@), json_member(text, "drinkName"@)) matches (
                Some(Some(Some(bar))),
                Some(Some(Some(drink))),
            ) ==> r@ == StepModel::Lookup(drink_key(bar, drink))
        },
{
    if same_text(request.method.as_str(), "OPTIONS") {
        return Step::Respond(preflight_response());
    }
    let text = match &request.body {
        None => return Step::Respond(message_reply(400, "Invalid request body")),
        Some(bytes) => {
            if bytes.len() == 0 {
                return Step::Respond(message_reply(400, "Invalid request body"));
            }
            match utf8_text(bytes.as_slice()) {
                None => return Step::Respond(message_reply(400, "Invalid request body")),
                Some(text) => text,
            }
        },
    };
    let bar = match read_member(text, "barName") {
        None => return Step::Respond(message_reply(400, "Invalid JSON payload")),
        Some(Field::Missing) => return Step::Respond(message_reply(400, "barName is missing")),
        Some(Field::NotText) => return Step::Respond(message_reply(400, "barName is not a string")),
        Some(Field::Text(s)) => s,
    };
    let drink = match read_member(text, "drinkName") {
        None => return Step::Respond(message_reply(400, "Invalid JSON payload")),
        Some(Field::Missing) => return Step::Respond(message_reply(400, "drinkName is missing")),
        Some(Field::NotText) => return Step::Respond(
            message_reply(400, "drinkName is not a string"),
        ),
        Some(Field::Text(s)) => s,
    };
    Step::Lookup(drink_lookup(bar, drink))
}

/// The string held by the first attribute named `name`, if it holds one.
pub fn find_attribute_text(attrs: &Vec<Attribute>, name: &str) -> (r: Option<String>)
    ensures
        match r {
            None => attribute_text(attrs@.map_values(|a: Attribute| a@), name@) is None,
            Some(t) => attribute_text(attrs@.map_values(|a: Attribute| a@), name@) == Some(t@),
        },
{
    let ghost all = attrs@.map_values(|a: Attribute| a@);
    let mut i: usize = 0;
    assert(all.subrange(0, all.len() as int) =~= all);
    while i < attrs.len()
        invariant
            i <= attrs@.len(),
            all == attrs@.map_values(|a: Attribute| a@),
            attribute_text(all, name@) == attribute_text(all.subrange(i as int, all.len() as int), name@),
        decreases attrs.len() - i,
    {
        let a = &attrs[i];
        let ghost rest = all.subrange(i as int, all.len() as int);
        assert(rest[0] == a@);
        if same_text(a.name.as_str(), name) {
            return match &a.text {
                None => None,
                Some(t) => Some(t.clone()),
            };
        }
        assert(rest.drop_first() =~= all.subrange(i + 1, all.len() as int));
        i = i + 1;
    }
    assert(all.subrange(i as int, all.len() as int) =~= Seq::<(Seq<char>, Option<Seq<char>>)>::empty());
    None
}

/// The JSON body `{"s3ObjectKey":<key>}`.
pub fn object_key_json(key: &str) -> (r: String)
    ensures
        r@ == object_key_body(key@),
{
    let literal = string_literal(key);
    let mut body = String::from_str("{\"s3ObjectKey\":");
    body.append(literal.as_str());
    body.append("}");
    body
}

/// Answers a request once the table has replied to its point read: 500 when
/// the read failed, 404 when no record matched, otherwise 200 with the
/// record's object key, or `URL not found` when the record names none.
pub fn finish(reply: &StoreReply) -> (r: Response)
    ensures
        r@ == reply_response(reply@),
        reply@ is Failed ==> r@ == message_response(500, "Internal Server Error"@),
        reply@ is NoRecord ==> r@ == message_response(404, "Item not found"@),
        reply@ matches StoreReplyModel::Record(attrs) ==> {
            &&& attribute_text(attrs, "s3ObjectKey"@) matches Some(k) ==> r@ == json_response_model(
                200,
                object_key_body(k),
            )
            &&& attribute_text(attrs, "s3ObjectKey"@) is None ==> r@ == json_response_model(
                200,
                object_key_body("URL not found"@),
            )
        },
{
    match reply {
        StoreReply::Failed => message_reply(500, "Internal Server Error"),
        StoreReply::NoRecord => message_reply(404, "Item not found"),
        StoreReply::Record(attrs) => {
            let body = match find_attribute_text(attrs, "s3ObjectKey") {
                Some(key) => object_key_json(key.as_str()),
                None => object_key_json("URL not found"),
            };
            api_gateway_response(200, body)
        },
    }
}

/// Once a request has passed validation, its response is decided by the read
/// alone: a failed read gives 500, a missing record 404, and a record 200 with
/// its object key, or `URL not found` when it names none.
pub proof fn lemma_read_outcomes(req: RequestModel, attrs: Seq<(Seq<char>, Option<Seq<char>>)>)
    requires
        step_for(req) is Lookup,
    ensures
        response_for(req, StoreReplyModel::Failed) == message_response(500, "Internal Server Error"@),
        response_for(req, StoreReplyModel::NoRecord) == message_response(404, "Item not found"@),
        attribute_text(attrs, "s3ObjectKey"@) matches Some(k) ==> response_for(
            req,
            StoreReplyModel::Record(attrs),
        ) == json_response_model(200, object_key_body(k)),
        attribute_text(attrs, "s3ObjectKey"@) is None ==> response_for(
            req,
            StoreReplyModel::Record(attrs),
        ) == json_response_model(200, object_key_body("URL not found"@)),
{
}

/// Handling is a function of the request and of the table's reply: the same
/// request, answered by an unchanged table, gets the same response every time.
pub proof fn lemma_repeated_request_same_response(
    first: Request,
    again: Request,
    reply: StoreReply,
    reply_again: StoreReply,
)
    requires
        first@ == again@,
        reply@ == reply_again@,
    ensures
        response_for(first@, reply@) == response_for(again@, reply_again@),
{
}

} // verus!
