//! The JSON-RPC pieces of the protocol: message ids, the protocol version and
//! the two errors with which the server turns a message down.

use crate::decimal::{decimal_up_to, parse_u64, parse_usize};
use crate::json::{object, push_member, Entry, Json, JsonValue, Member};
use vstd::prelude::*;

verus! {

/// The id of a message.
#[derive(Debug, Clone, PartialEq, Eq)]
pub enum Id {
    /// The id `null`.
    Null,
    /// A whole number that fits in 64 bits.
    Num(u64),
    /// A string, whatever it holds.
    Str(String),
    /// Anything else: a boolean, an array, an object, or a number that is
    /// negative, fractional or too large. No request can be made of a message
    /// with such an id.
    Unparseable,
}

/// What an [`Id`] says.
pub enum IdView {
    Null,
    Num(u64),
    Str(Seq<char>),
    Unparseable,
}

impl View for Id {
    type V = IdView;

    open spec fn view(&self) -> IdView {
        match self {
            Id::Null => IdView::Null,
            Id::Num(n) => IdView::Num(*n),
            Id::Str(s) => IdView::Str(s@),
            Id::Unparseable => IdView::Unparseable,
        }
    }
}

impl IdView {
    /// The id that a JSON value gives.
    pub open spec fn of_json(value: Json) -> IdView {
        match value {
            Json::Null => IdView::Null,
            Json::Number(n) => match decimal_up_to(n, u64::MAX as nat) {
                Some(v) => IdView::Num(v as u64),
                None => IdView::Unparseable,
            },
            Json::String(s) => IdView::Str(s),
            _ => IdView::Unparseable,
        }
    }

    /// The number under which a request with this id is answered: the number
    /// itself, or the one that a string of digits writes, where it fits in a
    /// `usize`.
    pub open spec fn numeric(self) -> Option<usize> {
        match self {
            IdView::Num(n) => if n <= usize::MAX {
                Some(n as usize)
            } else {
                None
            },
            IdView::Str(s) => match decimal_up_to(s, usize::MAX as nat) {
                Some(v) => Some(v as usize),
                None => None,
            },
            _ => None,
        }
    }

    /// The id under which a failure is reported for a message with this id:
    /// the id itself, but `null` where there is none or none that can be sent
    /// back.
    pub open spec fn in_failure(id: Option<IdView>) -> IdView {
        match id {
            Some(IdView::Num(n)) => IdView::Num(n),
            Some(IdView::Str(s)) => IdView::Str(s),
            _ => IdView::Null,
        }
    }
}

impl Id {
    /// Reads the id that a JSON value gives.
    pub fn from_json(value: &JsonValue) -> (id: Id)
        ensures
            id@ == IdView::of_json(value@),
    {
        match value {
            JsonValue::Null => Id::Null,
            JsonValue::Number(n) => match parse_u64(n.as_str()) {
                Some(v) => Id::Num(v),
                None => Id::Unparseable,
            },
            JsonValue::String(s) => Id::Str(s.clone()),
            _ => Id::Unparseable,
        }
    }

    /// The number under which a request with this id is answered, if any.
    pub fn numeric(&self) -> (r: Option<usize>)
        ensures
            r == self@.numeric(),
    {
        match self {
            Id::Num(n) => if *n <= usize::MAX as u64 {
                Some(*n as usize)
            } else {
                None
            },
            Id::Str(s) => parse_usize(s.as_str()),
            _ => None,
        }
    }

    /// The id under which a failure is reported for a message with id `id`.
    pub fn in_failure(id: &Option<Id>) -> (r: Id)
        ensures
            r@ == IdView::in_failure(option_view(*id)),
    {
        match id {
            Some(Id::Num(n)) => Id::Num(*n),
            Some(Id::Str(s)) => Id::Str(s.clone()),
            _ => Id::Null,
        }
    }

    /// This id as a JSON value; one that cannot be sent back becomes `null`.
    pub fn to_json(&self) -> (r: JsonValue)
        ensures
            r@ == id_json(self@),
    {
        match self {
            Id::Num(n) => number_json(*n),
            Id::Str(s) => JsonValue::String(s.clone()),
            _ => JsonValue::Null,
        }
    }
}

/// What an id that may be missing says.
pub open spec fn option_view(id: Option<Id>) -> Option<IdView> {
    match id {
        Some(id) => Some(id@),
        None => None,
    }
}

/// The JSON value that stands for an id.
pub open spec fn id_json(id: IdView) -> Json {
    match id {
        IdView::Num(n) => Json::Number(numeral(n as nat)),
        IdView::Str(s) => Json::String(s),
        _ => Json::Null,
    }
}

/// The digits of `n` in base ten, without leading zeros.
pub open spec fn numeral(n: nat) -> Seq<char>
    decreases n,
{
    if n < 10 {
        seq![digit_char(n)]
    } else {
        numeral(n / 10).push(digit_char(n % 10))
    }
}

/// The character that writes the digit `d`.
pub open spec fn digit_char(d: nat) -> char {
    ((d + 48) as u8) as char
}

/// The one-character text that writes the digit `d`.
fn digit_text(d: u8) -> (r: &'static str)
    requires
        d < 10,
    ensures
        r@ == seq![digit_char(d as nat)],
{
    proof {
        reveal_strlit("0");
        reveal_strlit("1");
        reveal_strlit("2");
        reveal_strlit("3");
        reveal_strlit("4");
        reveal_strlit("5");
        reveal_strlit("6");
        reveal_strlit("7");
        reveal_strlit("8");
        reveal_strlit("9");
    }
    let r = match d {
        0 => "0",
        1 => "1",
        2 => "2",
        3 => "3",
        4 => "4",
        5 => "5",
        6 => "6",
        7 => "7",
        8 => "8",
        _ => "9",
    };
    assert(r@ =~= seq![digit_char(d as nat)]);
    r
}

/// The JSON number `n`.
pub fn number_json(n: u64) -> (r: JsonValue)
    ensures
        r@ == Json::Number(numeral(n as nat)),
{
    JsonValue::Number(numeral_text(n))
}

/// The numeral of a whole number that may be negative: a minus sign before
/// the numeral of what it is worth without its sign.
pub open spec fn signed_numeral(n: int) -> Seq<char> {
    if n < 0 {
        "-"@ + numeral((-n) as nat)
    } else {
        numeral(n as nat)
    }
}

/// The JSON number `n`.
pub fn signed_json(n: i64) -> (r: JsonValue)
    ensures
        r@ == Json::Number(signed_numeral(n as int)),
{
    if n >= 0 {
        number_json(n as u64)
    } else {
        let size: u64 = (-(n + 1)) as u64 + 1;
        let mut text = "-".to_owned();
        let digits = numeral_text(size);
        text.append(digits.as_str());
        JsonValue::Number(text)
    }
}

/// The numeral of `n`.
pub fn numeral_text(n: u64) -> (text: String)
    ensures
        text@ == numeral(n as nat),
{
    let mut digits: Vec<u8> = Vec::new();
    let mut rest: u64 = n;
    // The digits come out last one first.
    digits.push((rest % 10) as u8);
    rest = rest / 10;
    proof {
        assert(written(digits@) =~= seq![digit_char((n % 10) as nat)]);
        if n >= 10 {
            assert(numeral(n as nat) =~= numeral((n / 10) as nat) + written(digits@));
        }
    }
    while rest > 0
        invariant
            digits@.len() > 0,
            forall|k: int| 0 <= k < digits@.len() ==> digits@[k] < 10,
            numeral(n as nat) == numeral_ending(rest as nat, digits@),
        decreases rest,
    {
        proof {
            let low = digits@;
            let d = (rest % 10) as u8;
            assert(written(low.push(d)) =~= seq![digit_char(d as nat)] + written(low));
            if rest >= 10 {
                assert(numeral(rest as nat) =~= numeral((rest / 10) as nat) + seq![
                    digit_char(d as nat),
                ]);
                assert(numeral((rest / 10) as nat) + seq![digit_char(d as nat)] + written(low)
                    =~= numeral((rest / 10) as nat) + (seq![digit_char(d as nat)] + written(
                    low,
                )));
            }
        }
        digits.push((rest % 10) as u8);
        rest = rest / 10;
    }
    let mut text = String::new();
    let mut i: usize = digits.len();
    while i > 0
        invariant
            i <= digits.len(),
            forall|k: int| 0 <= k < digits@.len() ==> digits@[k] < 10,
            text@ == written(digits@.subrange(i as int, digits@.len() as int)),
        decreases i,
    {
        i -= 1;
        text.append(digit_text(digits[i]));
        proof {
            let tail = digits@.subrange(i + 1, digits@.len() as int);
            let whole = digits@.subrange(i as int, digits@.len() as int);
            assert(written(whole) =~= written(tail).push(digit_char(digits@[i as int] as nat)));
            assert(written(tail) + seq![digit_char(digits@[i as int] as nat)] =~= written(
                tail,
            ).push(digit_char(digits@[i as int] as nat)));
        }
    }
    proof {
        assert(digits@.subrange(0, digits@.len() as int) =~= digits@);
    }
    text
}

/// The digits `low`, which were taken off a number last one first, in writing
/// order.
pub open spec fn written(low: Seq<u8>) -> Seq<char> {
    Seq::new(low.len(), |i: int| digit_char(low[low.len() - 1 - i] as nat))
}

/// The numeral of `rest` followed by the digits `low`.
pub open spec fn numeral_ending(rest: nat, low: Seq<u8>) -> Seq<char> {
    if rest == 0 {
        written(low)
    } else {
        numeral(rest) + written(low)
    }
}

/// The character that writes a digit is a digit, and is worth that digit.
pub proof fn lemma_digit_char(d: nat)
    requires
        d < 10,
    ensures
        crate::decimal::is_digit(digit_char(d)),
        crate::decimal::digit_value(digit_char(d)) == d,
{
}

/// A numeral is read back as the number that it was written for.
pub proof fn lemma_numeral_read_back(n: nat)
    ensures
        crate::decimal::decimal(numeral(n)) == Some(n),
    decreases n,
{
    lemma_digit_char(n % 10);
    if n >= 10 {
        lemma_numeral_read_back(n / 10);
        let init = numeral(n / 10);
        let whole = numeral(n);
        assert(whole.drop_last() =~= init);
        assert(whole.last() == digit_char(n % 10));
        assert forall|i: int| 0 <= i < whole.len() implies crate::decimal::is_digit(
            #[trigger] whole[i],
        ) by {
            if i < init.len() {
                assert(whole[i] == init[i]);
            }
        }
    } else {
        let whole = numeral(n);
        assert(whole.drop_last() =~= Seq::<char>::empty());
        assert(crate::decimal::digits_value(whole.drop_last()) == 0);
    }
}

/// An id that goes out as JSON and comes back is the same id. (An id that
/// cannot be sent back goes out as `null`.)
pub proof fn lemma_id_read_back(id: IdView)
    requires
        id !is Unparseable,
    ensures
        IdView::of_json(id_json(id)) == id,
{
    match id {
        IdView::Num(n) => {
            lemma_numeral_read_back(n as nat);
        },
        _ => {},
    }
}

/// The version of the protocol that a message declares.
#[derive(Debug, Clone, Copy, PartialEq, Eq)]
pub enum Version {
    /// JSON-RPC 2.0.
    V2,
}

impl Version {
    pub open spec fn text_of(self) -> Seq<char> {
        "2.0"@
    }

    /// The text that stands for this version in a message.
    pub fn text(&self) -> (r: &'static str)
        ensures
            r@ == self.text_of(),
    {
        "2.0"
    }
}

/// Why the server turns a message down.
#[derive(Debug, Clone, Copy, PartialEq, Eq, Structural)]
pub enum Error {
    /// The text is not JSON, or could not be read at all.
    ParseError,
    /// The text is JSON but no message that can be served.
    InvalidRequest,
}

impl Error {
    /// The code under which JSON-RPC knows this error.
    pub open spec fn code_of(self) -> int {
        match self {
            Error::ParseError => -32700,
            Error::InvalidRequest => -32600,
        }
    }

    /// The words that go with the code.
    pub open spec fn message_of(self) -> Seq<char> {
        match self {
            Error::ParseError => "Parse error"@,
            Error::InvalidRequest => "Invalid request"@,
        }
    }

    pub fn code(&self) -> (r: i64)
        ensures
            r == self.code_of(),
    {
        match self {
            Error::ParseError => parse_error().0,
            Error::InvalidRequest => invalid_request().0,
        }
    }

    pub fn message(&self) -> (r: String)
        ensures
            r@ == self.message_of(),
    {
        match self {
            Error::ParseError => parse_error().1,
            Error::InvalidRequest => invalid_request().1,
        }
    }

    /// The JSON object that tells of this error: its code and its message.
    pub open spec fn json_of(self) -> Json {
        Json::Object(
            seq![
                Entry { key: "code"@, value: Json::Number(signed_numeral(self.code_of())) },
                Entry { key: "message"@, value: Json::String(self.message_of()) },
            ],
        )
    }

    /// This error as a JSON value.
    pub fn to_json(&self) -> (r: JsonValue)
        ensures
            r@ == self.json_of(),
    {
        let mut members: Vec<Member> = Vec::new();
        assert(crate::json::members_view(members@) =~= Seq::empty());
        push_member(&mut members, "code", signed_json(self.code()));
        push_member(&mut members, "message", JsonValue::String(self.message()));
        assert(crate::json::members_view(members@) =~= self.json_of()->Object_0);
        object(members)
    }
}

/// `jsonrpc_core::Error::parse_error()`: the code of `ErrorCode::ParseError`,
/// which is -32700, and its description, "Parse error".
#[verifier::external_body]
fn parse_error() -> (r: (i64, String))
    ensures
        r.0 == -32700,
        r.1@ == "Parse error"@,
{
    let e = jsonrpc_core::Error::parse_error();
    (e.code.code(), e.message)
}

/// `jsonrpc_core::Error::invalid_request()`: the code of
/// `ErrorCode::InvalidRequest`, which is -32600, and its description,
/// "Invalid request".
#[verifier::external_body]
fn invalid_request() -> (r: (i64, String))
    ensures
        r.0 == -32600,
        r.1@ == "Invalid request"@,
{
    let e = jsonrpc_core::Error::invalid_request();
    (e.code.code(), e.message)
}

} // verus!
