//! Typed decoding: from a JSON document to a value of a chosen shape.
//!
//! Each shape implements [`Decode`]. Its `decoded` says, as a function of the
//! document's mathematical value, which value the shape takes or why it
//! takes none; its `decode` computes exactly that.

use vstd::prelude::*;
use crate::live::json::{
    find_member, lemma_array_view, lemma_object_view, member, Json, JsonView, Number, NumberView,
};

verus! {

/// Why a body does not have the expected shape.
#[derive(Clone, Copy, Debug, PartialEq, Eq, Structural)]
pub enum DecodeError {
    /// The body is not a JSON document.
    Syntax,
    /// An object lacks a member that the shape requires.
    MissingField,
    /// A value is of another JSON type than the shape asks for, or a number
    /// does not fit the integer type of its field.
    WrongType,
    /// The `EventName` of an event is none of the known names.
    UnknownEvent,
    /// A `Stolen` member holds a string other than `"True"` and `"False"`.
    InvalidStolen,
}

/// `got` is what the model `expected` asks for: the value with that view, or
/// the same error.
pub open spec fn agrees<T: DeepView>(
    got: Result<T, DecodeError>,
    expected: Result<T::V, DecodeError>,
) -> bool {
    match got {
        Ok(value) => expected == Ok::<T::V, DecodeError>(value.deep_view()),
        Err(e) => expected == Err::<T::V, DecodeError>(e),
    }
}

/// A shape that a JSON document can be decoded into.
pub trait Decode: Sized + DeepView {
    /// The value that document `j` decodes to, or the reason why it does not.
    spec fn decoded(j: JsonView) -> Result<Self::V, DecodeError>;

    /// What a member of this shape is when its object has no such member.
    spec fn absent() -> Result<Self::V, DecodeError>;

    /// Decodes `j`.
    fn decode(j: &Json) -> (r: Result<Self, DecodeError>)
        ensures
            agrees(r, Self::decoded(j.deep_view())),
    ;

    /// The value of a member that is not there.
    fn when_absent() -> (r: Result<Self, DecodeError>)
        ensures
            agrees(r, Self::absent()),
    ;
}

impl Decode for bool {
    open spec fn decoded(j: JsonView) -> Result<bool, DecodeError> {
        match j {
            JsonView::Bool(b) => Ok(b),
            _ => Err(DecodeError::WrongType),
        }
    }

    open spec fn absent() -> Result<bool, DecodeError> {
        Err(DecodeError::MissingField)
    }

    fn decode(j: &Json) -> (r: Result<bool, DecodeError>) {
        match j {
            Json::Bool(b) => Ok(*b),
            _ => Err(DecodeError::WrongType),
        }
    }

    fn when_absent() -> (r: Result<bool, DecodeError>) {
        Err(DecodeError::MissingField)
    }
}

impl Decode for i64 {
    open spec fn decoded(j: JsonView) -> Result<i64, DecodeError> {
        match j {
            JsonView::Number(NumberView { integer: Some(v), .. }) => Ok(v),
            _ => Err(DecodeError::WrongType),
        }
    }

    open spec fn absent() -> Result<i64, DecodeError> {
        Err(DecodeError::MissingField)
    }

    fn decode(j: &Json) -> (r: Result<i64, DecodeError>) {
        match j {
            Json::Number(Number { integer: Some(v), .. }) => Ok(*v),
            _ => Err(DecodeError::WrongType),
        }
    }

    fn when_absent() -> (r: Result<i64, DecodeError>) {
        Err(DecodeError::MissingField)
    }
}

impl Decode for i32 {
    open spec fn decoded(j: JsonView) -> Result<i32, DecodeError> {
        match j {
            JsonView::Number(NumberView { integer: Some(v), .. }) => if i32::MIN <= v <= i32::MAX {
                Ok(v as i32)
            } else {
                Err(DecodeError::WrongType)
            },
            _ => Err(DecodeError::WrongType),
        }
    }

    open spec fn absent() -> Result<i32, DecodeError> {
        Err(DecodeError::MissingField)
    }

    fn decode(j: &Json) -> (r: Result<i32, DecodeError>) {
        match j {
            Json::Number(Number { integer: Some(v), .. }) => {
                if -2147483648 <= *v && *v <= 2147483647 {
                    Ok(*v as i32)
                } else {
                    Err(DecodeError::WrongType)
                }
            },
            _ => Err(DecodeError::WrongType),
        }
    }

    fn when_absent() -> (r: Result<i32, DecodeError>) {
        Err(DecodeError::MissingField)
    }
}

impl Decode for String {
    open spec fn decoded(j: JsonView) -> Result<Seq<char>, DecodeError> {
        match j {
            JsonView::Text(s) => Ok(s),
            _ => Err(DecodeError::WrongType),
        }
    }

    open spec fn absent() -> Result<Seq<char>, DecodeError> {
        Err(DecodeError::MissingField)
    }

    fn decode(j: &Json) -> (r: Result<String, DecodeError>) {
        match j {
            Json::Text(s) => Ok(s.clone()),
            _ => Err(DecodeError::WrongType),
        }
    }

    fn when_absent() -> (r: Result<String, DecodeError>) {
        Err(DecodeError::MissingField)
    }
}

/// A number of any kind: the shape of a member that holds a fraction.
impl Decode for Number {
    open spec fn decoded(j: JsonView) -> Result<NumberView, DecodeError> {
        match j {
            JsonView::Number(n) => Ok(n),
            _ => Err(DecodeError::WrongType),
        }
    }

    open spec fn absent() -> Result<NumberView, DecodeError> {
        Err(DecodeError::MissingField)
    }

    fn decode(j: &Json) -> (r: Result<Number, DecodeError>) {
        match j {
            Json::Number(n) => Ok(Number { integer: n.integer, text: n.text.clone() }),
            _ => Err(DecodeError::WrongType),
        }
    }

    fn when_absent() -> (r: Result<Number, DecodeError>) {
        Err(DecodeError::MissingField)
    }
}

/// An optional value: `null` and a member that is not there both give `None`.
impl<T: Decode> Decode for Option<T> {
    open spec fn decoded(j: JsonView) -> Result<Option<T::V>, DecodeError> {
        if j is Null {
            Ok(None)
        } else {
            match T::decoded(j) {
                Ok(v) => Ok(Some(v)),
                Err(e) => Err(e),
            }
        }
    }

    open spec fn absent() -> Result<Option<T::V>, DecodeError> {
        Ok(None)
    }

    fn decode(j: &Json) -> (r: Result<Option<T>, DecodeError>) {
        match j {
            Json::Null => Ok(None),
            _ => match T::decode(j) {
                Ok(v) => Ok(Some(v)),
                Err(e) => Err(e),
            },
        }
    }

    fn when_absent() -> (r: Result<Option<T>, DecodeError>) {
        Ok(None)
    }
}

/// What the member `key` of an object with these `members` decodes to.
pub open spec fn field<T: Decode>(members: Seq<(Seq<char>, JsonView)>, key: Seq<char>) -> Result<
    T::V,
    DecodeError,
> {
    match member(members, key) {
        Some(j) => T::decoded(j),
        None => T::absent(),
    }
}

/// Decodes the member `key` of an object with these `members`.
pub fn read_field<T: Decode>(members: &Vec<(String, Json)>, key: &str) -> (r: Result<
    T,
    DecodeError,
>)
    ensures
        agrees(r, field::<T>(members.deep_view(), key@)),
{
    match find_member(members, key) {
        Some(j) => T::decode(j),
        None => T::when_absent(),
    }
}

/// The members of `j` where it is an object.
pub fn members_of(j: &Json) -> (r: Result<&Vec<(String, Json)>, DecodeError>)
    ensures
        match r {
            Ok(members) => j.deep_view() == JsonView::Object(members.deep_view()),
            Err(e) => e == DecodeError::WrongType && !(j.deep_view() is Object),
        },
{
    match j {
        Json::Object(members) => {
            proof {
                lemma_object_view(*members);
            }
            Ok(members)
        },
        _ => Err(DecodeError::WrongType),
    }
}

/// What the first `count` of `items` decode to, one by one: the first error
/// among them, or all their values in order.
pub open spec fn decoded_items<T: Decode>(items: Seq<JsonView>, count: int) -> Result<
    Seq<T::V>,
    DecodeError,
>
    decreases count,
{
    if count <= 0 {
        Ok(Seq::empty())
    } else {
        match decoded_items::<T>(items, count - 1) {
            Err(e) => Err(e),
            Ok(before) => match T::decoded(items[count - 1]) {
                Err(e) => Err(e),
                Ok(v) => Ok(before.push(v)),
            },
        }
    }
}

/// What the first `count` of `members` decode to, each value taken as a `T`
/// and kept under its name: the first error among them, or all of them in
/// order.
pub open spec fn decoded_entries<T: Decode>(
    members: Seq<(Seq<char>, JsonView)>,
    count: int,
) -> Result<Seq<(Seq<char>, T::V)>, DecodeError>
    decreases count,
{
    if count <= 0 {
        Ok(Seq::empty())
    } else {
        match decoded_entries::<T>(members, count - 1) {
            Err(e) => Err(e),
            Ok(before) => match T::decoded(members[count - 1].1) {
                Err(e) => Err(e),
                Ok(v) => Ok(before.push((members[count - 1].0, v))),
            },
        }
    }
}

/// Once a prefix of the members fails to decode, every longer prefix fails
/// with the same error.
pub proof fn lemma_decoded_entries_error<T: Decode>(
    members: Seq<(Seq<char>, JsonView)>,
    short: int,
    long: int,
)
    requires
        short <= long,
        decoded_entries::<T>(members, short) is Err,
    ensures
        decoded_entries::<T>(members, long) == decoded_entries::<T>(members, short),
    decreases long - short,
{
    if short < long {
        lemma_decoded_entries_error::<T>(members, short, long - 1);
    }
}

/// Decodes every member's value as a `T` and keeps it under the member's name.
pub fn decode_entries<T: Decode>(members: &Vec<(String, Json)>) -> (r: Result<
    Vec<(String, T)>,
    DecodeError,
>)
    ensures
        agrees(r, decoded_entries::<T>(members.deep_view(), members.len() as int)),
{
    let mut out: Vec<(String, T)> = Vec::new();
    let mut i: usize = 0;
    proof {
        assert(out.deep_view() =~= Seq::<(Seq<char>, T::V)>::empty());
    }
    while i < members.len()
        invariant
            i <= members.len(),
            decoded_entries::<T>(members.deep_view(), i as int) == Ok::<
                Seq<(Seq<char>, T::V)>,
                DecodeError,
            >(out.deep_view()),
        decreases members.len() - i,
    {
        match T::decode(&members[i].1) {
            Ok(v) => {
                let ghost before = out.deep_view();
                let ghost entry = (members[i as int].0@, v.deep_view());
                out.push((members[i].0.clone(), v));
                assert(out.deep_view() =~= before.push(entry));
            },
            Err(e) => {
                proof {
                    lemma_decoded_entries_error::<T>(
                        members.deep_view(),
                        i as int + 1,
                        members.len() as int,
                    );
                }
                return Err(e);
            },
        }
        i += 1;
    }
    Ok(out)
}

/// A list: a JSON array each of whose items has the shape `T`.
impl<T: Decode> Decode for Vec<T> {
    open spec fn decoded(j: JsonView) -> Result<Seq<T::V>, DecodeError> {
        match j {
            JsonView::Array(items) => decoded_items::<T>(items, items.len() as int),
            _ => Err(DecodeError::WrongType),
        }
    }

    open spec fn absent() -> Result<Seq<T::V>, DecodeError> {
        Err(DecodeError::MissingField)
    }

    fn decode(j: &Json) -> (r: Result<Vec<T>, DecodeError>) {
        match j {
            Json::Array(items) => {
                let mut out: Vec<T> = Vec::new();
                let mut i: usize = 0;
                proof {
                    lemma_array_view(*items);
                    assert(out.deep_view() =~= Seq::<T::V>::empty());
                }
                while i < items.len()
                    invariant
                        i <= items.len(),
                        j.deep_view() == JsonView::Array(items.deep_view()),
                        decoded_items::<T>(items.deep_view(), i as int) == Ok::<
                            Seq<T::V>,
                            DecodeError,
                        >(out.deep_view()),
                    decreases items.len() - i,
                {
                    match T::decode(&items[i]) {
                        Ok(v) => {
                            let ghost before = out.deep_view();
                            let ghost value = v.deep_view();
                            out.push(v);
                            assert(out.deep_view() =~= before.push(value));
                        },
                        Err(e) => {
                            proof {
                                lemma_decoded_items_error::<T>(
                                    items.deep_view(),
                                    i as int + 1,
                                    items.len() as int,
                                );
                            }
                            return Err(e);
                        },
                    }
                    i += 1;
                }
                Ok(out)
            },
            _ => Err(DecodeError::WrongType),
        }
    }

    fn when_absent() -> (r: Result<Vec<T>, DecodeError>) {
        Err(DecodeError::MissingField)
    }
}

/// Once a prefix of a list fails to decode, every longer prefix fails with
/// the same error.
pub proof fn lemma_decoded_items_error<T: Decode>(items: Seq<JsonView>, short: int, long: int)
    requires
        short <= long,
        decoded_items::<T>(items, short) is Err,
    ensures
        decoded_items::<T>(items, long) == decoded_items::<T>(items, short),
    decreases long - short,
{
    if short < long {
        lemma_decoded_items_error::<T>(items, short, long - 1);
    }
}

/// A list that decodes has one value for each item, and each value is what
/// its item decodes to.
pub proof fn law_list_decodes_item_by_item<T: Decode>(items: Seq<JsonView>, count: int)
    requires
        0 <= count,
        decoded_items::<T>(items, count) is Ok,
    ensures
        decoded_items::<T>(items, count)->Ok_0.len() == count,
        forall|i: int|
            0 <= i < count ==> T::decoded(#[trigger] items[i]) == Ok::<T::V, DecodeError>(
                decoded_items::<T>(items, count)->Ok_0[i],
            ),
    decreases count,
{
    if count > 0 {
        law_list_decodes_item_by_item::<T>(items, count - 1);
    }
}

/// A list with an item that does not decode does not decode: no item is
/// passed over.
pub proof fn lemma_bad_item_fails_list<T: Decode>(items: Seq<JsonView>, i: int)
    requires
        0 <= i < items.len(),
        T::decoded(items[i]) is Err,
    ensures
        decoded_items::<T>(items, items.len() as int) is Err,
{
    assert(decoded_items::<T>(items, i + 1) is Err);
    lemma_decoded_items_error::<T>(items, i + 1, items.len() as int);
}

} // verus!
