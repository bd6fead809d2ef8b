use vstd::prelude::*;

verus! {

/// The error of the CBOR encoder and decoder, carried through unread.
#[verifier::external_type_specification]
#[verifier::external_body]
pub struct ExCborError(serde_cbor::Error);

/// What `serde_cbor::from_slice::<String>` decodes from `bytes`: the string,
/// or nothing where it reports an error.
pub uninterp spec fn cbor_text(bytes: Seq<u8>) -> Option<Seq<char>>;

/// What `serde_cbor::from_slice::<i32>` decodes from `bytes`: the number, or
/// nothing where it reports an error.
pub uninterp spec fn cbor_number(bytes: Seq<u8>) -> Option<i32>;

/// What `serde_cbor::from_slice::<Vec<String>>` decodes from `bytes`: the
/// strings, or nothing where it reports an error.
pub uninterp spec fn cbor_text_list(bytes: Seq<u8>) -> Option<Seq<Seq<char>>>;

/// The bytes that `serde_cbor::to_vec` gives for a string, or nothing where
/// it reports an error.
pub uninterp spec fn text_cbor(text: Seq<char>) -> Option<Seq<u8>>;

/// The bytes that `serde_cbor::to_vec` gives for a 32-bit signed number, or
/// nothing where it reports an error.
pub uninterp spec fn number_cbor(number: i32) -> Option<Seq<u8>>;

/// The bytes that `serde_cbor::to_vec` gives for a list of strings, or
/// nothing where it reports an error.
pub uninterp spec fn text_list_cbor(list: Seq<Seq<char>>) -> Option<Seq<u8>>;

/// Calls `serde_cbor::from_slice` for a `String`. The contract only names
/// the outcome: the decoder is a function of the bytes alone.
#[verifier::external_body]
fn cbor_to_text(bytes: &[u8]) -> (r: Result<String, serde_cbor::Error>)
    ensures
        match r {
            Ok(text) => cbor_text(bytes@) == Some(text@),
            Err(_) => cbor_text(bytes@) is None,
        },
{
    serde_cbor::from_slice::<String>(bytes)
}

/// Calls `serde_cbor::from_slice` for an `i32`. The contract only names the
/// outcome: the decoder is a function of the bytes alone.
#[verifier::external_body]
fn cbor_to_number(bytes: &[u8]) -> (r: Result<i32, serde_cbor::Error>)
    ensures
        match r {
            Ok(number) => cbor_number(bytes@) == Some(number),
            Err(_) => cbor_number(bytes@) is None,
        },
{
    serde_cbor::from_slice::<i32>(bytes)
}

/// Calls `serde_cbor::from_slice` for a `Vec<String>`. The contract only
/// names the outcome: the decoder is a function of the bytes alone.
#[verifier::external_body]
fn cbor_to_text_list(bytes: &[u8]) -> (r: Result<Vec<String>, serde_cbor::Error>)
    ensures
        match r {
            Ok(list) => cbor_text_list(bytes@) == Some(list.deep_view()),
            Err(_) => cbor_text_list(bytes@) is None,
        },
{
    serde_cbor::from_slice::<Vec<String>>(bytes)
}

/// Calls `serde_cbor::to_vec` on a `String`. The contract only names the
/// outcome: the encoder is a function of the string alone.
#[verifier::external_body]
fn text_to_cbor(text: &String) -> (r: Result<Vec<u8>, serde_cbor::Error>)
    ensures
        match r {
            Ok(bytes) => text_cbor(text@) == Some(bytes@),
            Err(_) => text_cbor(text@) is None,
        },
{
    serde_cbor::to_vec(text)
}

/// Calls `serde_cbor::to_vec` on an `i32`. The contract only names the
/// outcome: the encoder is a function of the number alone.
#[verifier::external_body]
fn number_to_cbor(number: i32) -> (r: Result<Vec<u8>, serde_cbor::Error>)
    ensures
        match r {
            Ok(bytes) => number_cbor(number) == Some(bytes@),
            Err(_) => number_cbor(number) is None,
        },
{
    serde_cbor::to_vec(&number)
}

/// Calls `serde_cbor::to_vec` on a `Vec<String>`. The contract only names
/// the outcome: the encoder is a function of the strings alone.
#[verifier::external_body]
fn text_list_to_cbor(list: &Vec<String>) -> (r: Result<Vec<u8>, serde_cbor::Error>)
    ensures
        match r {
            Ok(bytes) => text_list_cbor(list.deep_view()) == Some(bytes@),
            Err(_) => text_list_cbor(list.deep_view()) is None,
        },
{
    serde_cbor::to_vec(list)
}

/// A value of the distributed store, by its shape.
#[derive(Debug, PartialEq, Eq)]
pub enum Value {
    /// The display name of a peer.
    Nickname(String),
    /// The reputation score of a peer.
    Rating(i32),
    /// The names of the rooms that users created.
    Rooms(Vec<String>),
}

/// A store value as mathematics sees it.
pub enum ValueView {
    Nickname(Seq<char>),
    Rating(i32),
    Rooms(Seq<Seq<char>>),
}

impl View for Value {
    type V = ValueView;

    open spec fn view(&self) -> ValueView {
        match self {
            Value::Nickname(name) => ValueView::Nickname(name@),
            Value::Rating(rating) => ValueView::Rating(*rating),
            Value::Rooms(rooms) => ValueView::Rooms(rooms.deep_view()),
        }
    }
}

/// The shape that a store value takes, given what each of the three decoders
/// makes of its bytes: the first that succeeds decides, in the order
/// nickname, rating, room list.
pub open spec fn first_shape(
    text: Option<Seq<char>>,
    number: Option<i32>,
    list: Option<Seq<Seq<char>>>,
) -> Option<ValueView> {
    match (text, number, list) {
        (Some(name), _, _) => Some(ValueView::Nickname(name)),
        (None, Some(rating), _) => Some(ValueView::Rating(rating)),
        (None, None, Some(rooms)) => Some(ValueView::Rooms(rooms)),
        (None, None, None) => None,
    }
}

/// The store value that `bytes` stand for.
pub open spec fn value_of(bytes: Seq<u8>) -> Option<ValueView> {
    first_shape(cbor_text(bytes), cbor_number(bytes), cbor_text_list(bytes))
}

/// The view of a decoded value, if there is one.
pub open spec fn value_view(value: Option<Value>) -> Option<ValueView> {
    match value {
        Some(v) => Some(v@),
        None => None,
    }
}

/// Chooses among the outcomes of the three decoders: a nickname before a
/// rating, a rating before a room list.
pub fn pick_value(text: Option<String>, number: Option<i32>, list: Option<Vec<String>>) -> (r:
    Option<Value>)
    ensures
        value_view(r) == first_shape(
            match text {
                Some(t) => Some(t@),
                None => None,
            },
            number,
            match list {
                Some(l) => Some(l.deep_view()),
                None => None,
            },
        ),
{
    match text {
        Some(name) => Some(Value::Nickname(name)),
        None => match number {
            Some(rating) => Some(Value::Rating(rating)),
            None => match list {
                Some(rooms) => Some(Value::Rooms(rooms)),
                None => None,
            },
        },
    }
}

/// Decodes the bytes of a store record as a string.
pub fn decode_text(bytes: &[u8]) -> (r: Option<String>)
    ensures
        match r {
            Some(text) => cbor_text(bytes@) == Some(text@),
            None => cbor_text(bytes@) is None,
        },
{
    match cbor_to_text(bytes) {
        Ok(text) => Some(text),
        Err(_) => None,
    }
}

/// Decodes the bytes of a store record as a 32-bit signed number.
pub fn decode_number(bytes: &[u8]) -> (r: Option<i32>)
    ensures
        r == cbor_number(bytes@),
{
    match cbor_to_number(bytes) {
        Ok(number) => Some(number),
        Err(_) => None,
    }
}

/// Decodes the bytes of a store record as a list of strings.
pub fn decode_text_list(bytes: &[u8]) -> (r: Option<Vec<String>>)
    ensures
        match r {
            Some(list) => cbor_text_list(bytes@) == Some(list.deep_view()),
            None => cbor_text_list(bytes@) is None,
        },
{
    match cbor_to_text_list(bytes) {
        Ok(list) => Some(list),
        Err(_) => None,
    }
}

/// Decodes the bytes of a store record: as a nickname if they are a string,
/// else as a rating if they are a number, else as a room list if they are a
/// list of strings, else as nothing.
pub fn decode_value(bytes: &[u8]) -> (r: Option<Value>)
    ensures
        value_view(r) == value_of(bytes@),
{
    let text = decode_text(bytes);
    let number = decode_number(bytes);
    let list = decode_text_list(bytes);
    pick_value(text, number, list)
}

/// The bytes under which a string is stored.
pub fn encode_text(text: &String) -> (r: Option<Vec<u8>>)
    ensures
        match r {
            Some(bytes) => text_cbor(text@) == Some(bytes@),
            None => text_cbor(text@) is None,
        },
{
    match text_to_cbor(text) {
        Ok(bytes) => Some(bytes),
        Err(_) => None,
    }
}

/// The bytes under which a rating is stored.
pub fn encode_number(number: i32) -> (r: Option<Vec<u8>>)
    ensures
        match r {
            Some(bytes) => number_cbor(number) == Some(bytes@),
            None => number_cbor(number) is None,
        },
{
    match number_to_cbor(number) {
        Ok(bytes) => Some(bytes),
        Err(_) => None,
    }
}

/// The bytes under which a list of room names is stored.
pub fn encode_text_list(list: &Vec<String>) -> (r: Option<Vec<u8>>)
    ensures
        match r {
            Some(bytes) => text_list_cbor(list.deep_view()) == Some(bytes@),
            None => text_list_cbor(list.deep_view()) is None,
        },
{
    match text_list_to_cbor(list) {
        Ok(bytes) => Some(bytes),
        Err(_) => None,
    }
}

} // verus!
