//! The data model: values, rows, typed requests and the response shape.
//!
//! A [`Value`] is a tagged scalar union.  A [`Kvpair`] is one row of a table;
//! an absent value models a missing entry distinctly from an empty one.  A
//! [`CommandRequest`] carries at most one populated variant, and a
//! [`CommandResponse`] carries a status code, a message and the values or
//! pairs the command produced.

use vstd::prelude::*;
use vstd::string::StringExecFns;

use crate::error::{KvError, KvErrorView};

verus! {

/// A stored or transported scalar.  Immutable once constructed; no implicit
/// coercion between variants.
///
/// A 64-bit float travels as its IEEE-754 bit pattern: the store never
/// computes on it, it only keeps and returns it, so the bits are the value.
#[derive(Debug, Clone, PartialEq, Eq, PartialOrd, Ord)]
pub enum Value {
    /// The empty value: what a write that had nothing to report carries.
    Empty,
    Str(String),
    Bytes(Vec<u8>),
    Int(i64),
    FloatBits(u64),
    Bool(bool),
}

/// The mathematical image of a [`Value`].
pub enum ValueView {
    Empty,
    Str(Seq<char>),
    Bytes(Seq<u8>),
    Int(i64),
    FloatBits(u64),
    Bool(bool),
}

impl View for Value {
    type V = ValueView;

    open spec fn view(&self) -> ValueView {
        match self {
            Value::Empty => ValueView::Empty,
            Value::Str(s) => ValueView::Str(s@),
            Value::Bytes(b) => ValueView::Bytes(b@),
            Value::Int(i) => ValueView::Int(*i),
            Value::FloatBits(bits) => ValueView::FloatBits(*bits),
            Value::Bool(b) => ValueView::Bool(*b),
        }
    }
}

impl Value {
    /// A deep copy with a contract: the copy denotes the same value.
    pub fn dup(&self) -> (r: Value)
        ensures
            r@ == self@,
    {
        match self {
            Value::Empty => Value::Empty,
            Value::Str(s) => Value::Str(s.clone()),
            Value::Bytes(b) => {
                let c = b.clone();
                proof {
                    assert(c@ =~= b@);
                }
                Value::Bytes(c)
            },
            Value::Int(i) => Value::Int(*i),
            Value::FloatBits(bits) => Value::FloatBits(*bits),
            Value::Bool(b) => Value::Bool(*b),
        }
    }
}

impl Default for Value {
    /// The default value is the empty value.
    fn default() -> (r: Value)
        ensures
            r@ == ValueView::Empty,
    {
        Value::Empty
    }
}

/// One row of a table.  `value` is `None` for a missing entry, which is
/// distinct from an entry holding the empty value.
#[derive(Debug, Clone, PartialEq, Eq, PartialOrd, Ord)]
pub struct Kvpair {
    pub key: String,
    pub value: Option<Value>,
}

/// The mathematical image of a [`Kvpair`].
pub struct KvpairView {
    pub key: Seq<char>,
    pub value: Option<ValueView>,
}

impl View for Kvpair {
    type V = KvpairView;

    open spec fn view(&self) -> KvpairView {
        KvpairView {
            key: self.key@,
            value: match self.value {
                Some(v) => Some(v@),
                None => None,
            },
        }
    }
}

impl Kvpair {
    /// A row holding `value` under `key`.
    pub fn new(key: &str, value: Value) -> (r: Kvpair)
        ensures
            r@ == (KvpairView { key: key@, value: Some(value@) }),
    {
        Kvpair { key: String::from_str(key), value: Some(value) }
    }

    /// A deep copy with a contract: the copy denotes the same row.
    pub fn dup(&self) -> (r: Kvpair)
        ensures
            r@ == self@,
    {
        Kvpair {
            key: self.key.clone(),
            value: match &self.value {
                Some(v) => Some(v.dup()),
                None => None,
            },
        }
    }
}

/// Read one key of one table.
#[derive(Debug, Clone, PartialEq, Eq)]
pub struct Hget {
    pub table: String,
    pub key: String,
}

pub struct HgetView {
    pub table: Seq<char>,
    pub key: Seq<char>,
}

impl View for Hget {
    type V = HgetView;

    open spec fn view(&self) -> HgetView {
        HgetView { table: self.table@, key: self.key@ }
    }
}

/// Write one row into one table; a request without a row is a benign no-op.
#[derive(Debug, Clone, PartialEq, Eq)]
pub struct Hset {
    pub table: String,
    pub pair: Option<Kvpair>,
}

pub struct HsetView {
    pub table: Seq<char>,
    pub pair: Option<KvpairView>,
}

impl View for Hset {
    type V = HsetView;

    open spec fn view(&self) -> HsetView {
        HsetView {
            table: self.table@,
            pair: match self.pair {
                Some(p) => Some(p@),
                None => None,
            },
        }
    }
}

/// Read every row of one table.
#[derive(Debug, Clone, PartialEq, Eq)]
pub struct Hgetall {
    pub table: String,
}

pub struct HgetallView {
    pub table: Seq<char>,
}

impl View for Hgetall {
    type V = HgetallView;

    open spec fn view(&self) -> HgetallView {
        HgetallView { table: self.table@ }
    }
}

/// Remove one key of one table.  Recognized by the model, not yet dispatched.
#[derive(Debug, Clone, PartialEq, Eq)]
pub struct Hdel {
    pub table: String,
    pub key: String,
}

pub struct HdelView {
    pub table: Seq<char>,
    pub key: Seq<char>,
}

impl View for Hdel {
    type V = HdelView;

    open spec fn view(&self) -> HdelView {
        HdelView { table: self.table@, key: self.key@ }
    }
}

/// Ask whether one key of one table exists.  Recognized, not yet dispatched.
#[derive(Debug, Clone, PartialEq, Eq)]
pub struct Hexist {
    pub table: String,
    pub key: String,
}

pub struct HexistView {
    pub table: Seq<char>,
    pub key: Seq<char>,
}

impl View for Hexist {
    type V = HexistView;

    open spec fn view(&self) -> HexistView {
        HexistView { table: self.table@, key: self.key@ }
    }
}

/// The populated variant of a request.
#[derive(Debug, Clone, PartialEq, Eq)]
pub enum RequestData {
    Hget(Hget),
    Hgetall(Hgetall),
    Hset(Hset),
    Hdel(Hdel),
    Hexist(Hexist),
}

pub enum RequestDataView {
    Hget(HgetView),
    Hgetall(HgetallView),
    Hset(HsetView),
    Hdel(HdelView),
    Hexist(HexistView),
}

impl View for RequestData {
    type V = RequestDataView;

    open spec fn view(&self) -> RequestDataView {
        match self {
            RequestData::Hget(p) => RequestDataView::Hget(p@),
            RequestData::Hgetall(p) => RequestDataView::Hgetall(p@),
            RequestData::Hset(p) => RequestDataView::Hset(p@),
            RequestData::Hdel(p) => RequestDataView::Hdel(p@),
            RequestData::Hexist(p) => RequestDataView::Hexist(p@),
        }
    }
}

/// A client request: exactly one variant populated, or none, which the
/// dispatcher answers with an error response rather than a failure.
#[derive(Debug, Clone, PartialEq, Eq)]
pub struct CommandRequest {
    pub request_data: Option<RequestData>,
}

pub struct CommandRequestView {
    pub request_data: Option<RequestDataView>,
}

impl View for CommandRequest {
    type V = CommandRequestView;

    open spec fn view(&self) -> CommandRequestView {
        CommandRequestView {
            request_data: match self.request_data {
                Some(d) => Some(d@),
                None => None,
            },
        }
    }
}

impl CommandRequest {
    /// A request reading `key` of `table`.
    pub fn new_hget(table: &str, key: &str) -> (r: CommandRequest)
        ensures
            r@.request_data == Some(
                RequestDataView::Hget(HgetView { table: table@, key: key@ }),
            ),
    {
        CommandRequest {
            request_data: Some(RequestData::Hget(Hget {
                table: String::from_str(table),
                key: String::from_str(key),
            })),
        }
    }

    /// A request writing `value` under `key` into `table`.
    pub fn new_hset(table: &str, key: &str, value: Value) -> (r: CommandRequest)
        ensures
            r@.request_data == Some(
                RequestDataView::Hset(HsetView {
                    table: table@,
                    pair: Some(KvpairView { key: key@, value: Some(value@) }),
                }),
            ),
    {
        CommandRequest {
            request_data: Some(RequestData::Hset(Hset {
                table: String::from_str(table),
                pair: Some(Kvpair::new(key, value)),
            })),
        }
    }

    /// A request reading every row of `table`.
    pub fn new_hgetall(table: &str) -> (r: CommandRequest)
        ensures
            r@.request_data == Some(RequestDataView::Hgetall(HgetallView { table: table@ })),
    {
        CommandRequest {
            request_data: Some(RequestData::Hgetall(Hgetall { table: String::from_str(table) })),
        }
    }
}

/// What the store answers: a status code, a message, and the values or pairs
/// the command produced.  Status 200 denotes success; each command populates
/// only the field relevant to it.
#[derive(Debug, Clone, PartialEq, Eq)]
pub struct CommandResponse {
    pub status: u32,
    pub message: String,
    pub values: Vec<Value>,
    pub pairs: Vec<Kvpair>,
}

pub struct CommandResponseView {
    pub status: u32,
    pub message: Seq<char>,
    pub values: Seq<ValueView>,
    pub pairs: Seq<KvpairView>,
}

impl View for CommandResponse {
    type V = CommandResponseView;

    open spec fn view(&self) -> CommandResponseView {
        CommandResponseView {
            status: self.status,
            message: self.message@,
            values: self.values@.map_values(|v: Value| v@),
            pairs: self.pairs@.map_values(|p: Kvpair| p@),
        }
    }
}

/// The success response carrying one value.
pub open spec fn value_response_view(v: ValueView) -> CommandResponseView {
    CommandResponseView {
        status: 200,
        message: Seq::<char>::empty(),
        values: seq![v],
        pairs: Seq::<KvpairView>::empty(),
    }
}

/// The message of a [`KvError::NotFound`].
pub open spec fn not_found_message(table: Seq<char>, key: Seq<char>) -> Seq<char> {
    "Not found for table: "@ + table + ", key: "@ + key
}

/// The status code an error maps to: absence is 404, a malformed request is
/// 400, an unimplemented path is 500.
pub open spec fn error_status(e: KvErrorView) -> u32 {
    match e {
        KvErrorView::NotFound(_, _) => 404,
        KvErrorView::InvalidCommand(_) => 400,
        KvErrorView::InternalError(_) => 500,
    }
}

/// The message an error maps to.
pub open spec fn error_message(e: KvErrorView) -> Seq<char> {
    match e {
        KvErrorView::NotFound(t, k) => not_found_message(t, k),
        KvErrorView::InvalidCommand(d) => d,
        KvErrorView::InternalError(d) => d,
    }
}

/// The response an error maps to: its status and message, no values, no pairs.
pub open spec fn error_response_view(e: KvErrorView) -> CommandResponseView {
    CommandResponseView {
        status: error_status(e),
        message: error_message(e),
        values: Seq::<ValueView>::empty(),
        pairs: Seq::<KvpairView>::empty(),
    }
}

/// Wraps one value into a success response.
pub fn value_response(v: Value) -> (r: CommandResponse)
    ensures
        r@ == value_response_view(v@),
{
    let mut values: Vec<Value> = Vec::new();
    values.push(v);
    let r = CommandResponse {
        status: 200,
        message: String::new(),
        values,
        pairs: Vec::new(),
    };
    proof {
        assert(r@.values =~= seq![r.values@[0]@]);
        assert(r@.pairs =~= Seq::<KvpairView>::empty());
    }
    r
}

/// Wraps a sequence of rows into a success response.
pub fn pairs_response(pairs: Vec<Kvpair>) -> (r: CommandResponse)
    ensures
        r@ == (CommandResponseView {
            status: 200,
            message: Seq::<char>::empty(),
            values: Seq::<ValueView>::empty(),
            pairs: pairs@.map_values(|p: Kvpair| p@),
        }),
{
    let r = CommandResponse {
        status: 200,
        message: String::new(),
        values: Vec::new(),
        pairs,
    };
    proof {
        assert(r@.values =~= Seq::<ValueView>::empty());
    }
    r
}

/// The explicit conversion from an error to the response reporting it,
/// invoked at every dispatch exit path that failed.
pub fn error_response(e: KvError) -> (r: CommandResponse)
    ensures
        r@ == error_response_view(e@),
{
    match e {
        KvError::NotFound(t, k) => {
            let message = String::from_str("Not found for table: ")
                .concat(t.as_str())
                .concat(", key: ")
                .concat(k.as_str());
            proof {
                assert(message@ =~= not_found_message(t@, k@));
            }
            finish_error_response(404, message)
        },
        KvError::InvalidCommand(d) => finish_error_response(400, d),
        KvError::InternalError(d) => finish_error_response(500, d),
    }
}

/// The response with the given status and message, no values and no pairs.
fn finish_error_response(status: u32, message: String) -> (r: CommandResponse)
    ensures
        r@ == (CommandResponseView {
            status,
            message: message@,
            values: Seq::<ValueView>::empty(),
            pairs: Seq::<KvpairView>::empty(),
        }),
{
    let r = CommandResponse {
        status,
        message,
        values: Vec::new(),
        pairs: Vec::new(),
    };
    proof {
        assert(r@.values =~= Seq::<ValueView>::empty());
        assert(r@.pairs =~= Seq::<KvpairView>::empty());
    }
    r
}

} // verus!
