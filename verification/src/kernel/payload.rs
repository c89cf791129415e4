//! The message attached to one emission of an event.
//!
//! A payload is empty or holds one value of one of a closed set of types,
//! together with the tag of that type. It is never changed after it was
//! made: handlers that share a payload only read it.
use std::sync::Arc;
use vstd::prelude::*;
use crate::json::Json;

verus! {

/// The value that a payload holds, in shared storage.
pub enum Content {
    Text(Arc<String>),
    Flag(Arc<bool>),
    Integer(Arc<i64>),
    Document(Arc<Json>),
}

/// Trusted: `Arc::clone`, which hands back a pointer to the same value.
#[verifier::external_body]
fn share<T>(pointer: &Arc<T>) -> (r: Arc<T>)
    ensures
        r == *pointer,
{
    Arc::clone(pointer)
}

impl Content {
    /// The tag of the type of the value held.
    pub open spec fn tag(self) -> Seq<char> {
        match self {
            Content::Text(_) => "String"@,
            Content::Flag(_) => "bool"@,
            Content::Integer(_) => "i64"@,
            Content::Document(_) => "Json"@,
        }
    }

    /// The tag of the type of the value held.
    pub fn tag_name(&self) -> (r: &'static str)
        ensures
            r@ == self.tag(),
    {
        match self {
            Content::Text(_) => "String",
            Content::Flag(_) => "bool",
            Content::Integer(_) => "i64",
            Content::Document(_) => "Json",
        }
    }

    /// Another handle on the same value.
    pub fn share(&self) -> (r: Content)
        ensures
            r == *self,
    {
        match self {
            Content::Text(v) => Content::Text(share(v)),
            Content::Flag(v) => Content::Flag(share(v)),
            Content::Integer(v) => Content::Integer(share(v)),
            Content::Document(v) => Content::Document(share(v)),
        }
    }
}

/// A type whose values a payload can hold.
pub trait Carried: Sized {
    /// The tag under which values of this type travel.
    spec fn tag() -> Seq<char>;

    /// The value of this type that `content` holds, if it holds one.
    spec fn held_by(content: Content) -> Option<Self>;

    /// A content holds a value of this type exactly when it carries this
    /// type's tag.
    proof fn tag_decides(content: Content)
        ensures
            Self::held_by(content) is Some <==> content.tag() == Self::tag(),
    ;

    /// The tag under which values of this type travel.
    fn tag_name() -> (r: &'static str)
        ensures
            r@ == Self::tag(),
    ;

    /// Puts a value into shared storage.
    fn wrap(self) -> (content: Content)
        ensures
            Self::held_by(content) == Some(self),
    ;

    /// The value of this type that `content` holds, if it holds one.
    fn peek(content: &Content) -> (r: Option<&Self>)
        ensures
            match Self::held_by(*content) {
                Some(value) => r matches Some(found) && *found == value,
                None => r is None,
            },
    ;

    /// The shared value of this type that `content` holds, if it holds one.
    fn take(content: Content) -> (r: Option<Arc<Self>>)
        ensures
            match Self::held_by(content) {
                Some(value) => r matches Some(found) && *found == value,
                None => r is None,
            },
    ;
}

/// The four tags differ from one another.
pub proof fn lemma_tags_differ()
    ensures
        "String"@ != "bool"@,
        "String"@ != "i64"@,
        "String"@ != "Json"@,
        "bool"@ != "i64"@,
        "bool"@ != "Json"@,
        "i64"@ != "Json"@,
{
    reveal_strlit("String");
    reveal_strlit("bool");
    reveal_strlit("i64");
    reveal_strlit("Json");
    assert("String"@.len() == 6 && "bool"@.len() == 4 && "i64"@.len() == 3 && "Json"@.len() == 4);
    assert("bool"@[0] != "Json"@[0]);
}

impl Carried for String {
    open spec fn tag() -> Seq<char> {
        "String"@
    }

    open spec fn held_by(content: Content) -> Option<String> {
        match content {
            Content::Text(v) => Some(*v),
            _ => None,
        }
    }

    proof fn tag_decides(content: Content) {
        lemma_tags_differ();
    }

    fn tag_name() -> (r: &'static str) {
        "String"
    }

    fn wrap(self) -> (content: Content) {
        Content::Text(Arc::new(self))
    }

    fn peek(content: &Content) -> (r: Option<&String>) {
        match content {
            Content::Text(v) => Some(&**v),
            _ => None,
        }
    }

    fn take(content: Content) -> (r: Option<Arc<String>>) {
        match content {
            Content::Text(v) => Some(v),
            _ => None,
        }
    }
}

impl Carried for bool {
    open spec fn tag() -> Seq<char> {
        "bool"@
    }

    open spec fn held_by(content: Content) -> Option<bool> {
        match content {
            Content::Flag(v) => Some(*v),
            _ => None,
        }
    }

    proof fn tag_decides(content: Content) {
        lemma_tags_differ();
    }

    fn tag_name() -> (r: &'static str) {
        "bool"
    }

    fn wrap(self) -> (content: Content) {
        Content::Flag(Arc::new(self))
    }

    fn peek(content: &Content) -> (r: Option<&bool>) {
        match content {
            Content::Flag(v) => Some(&**v),
            _ => None,
        }
    }

    fn take(content: Content) -> (r: Option<Arc<bool>>) {
        match content {
            Content::Flag(v) => Some(v),
            _ => None,
        }
    }
}

impl Carried for i64 {
    open spec fn tag() -> Seq<char> {
        "i64"@
    }

    open spec fn held_by(content: Content) -> Option<i64> {
        match content {
            Content::Integer(v) => Some(*v),
            _ => None,
        }
    }

    proof fn tag_decides(content: Content) {
        lemma_tags_differ();
    }

    fn tag_name() -> (r: &'static str) {
        "i64"
    }

    fn wrap(self) -> (content: Content) {
        Content::Integer(Arc::new(self))
    }

    fn peek(content: &Content) -> (r: Option<&i64>) {
        match content {
            Content::Integer(v) => Some(&**v),
            _ => None,
        }
    }

    fn take(content: Content) -> (r: Option<Arc<i64>>) {
        match content {
            Content::Integer(v) => Some(v),
            _ => None,
        }
    }
}

impl Carried for Json {
    open spec fn tag() -> Seq<char> {
        "Json"@
    }

    open spec fn held_by(content: Content) -> Option<Json> {
        match content {
            Content::Document(v) => Some(*v),
            _ => None,
        }
    }

    proof fn tag_decides(content: Content) {
        lemma_tags_differ();
    }

    fn tag_name() -> (r: &'static str) {
        "Json"
    }

    fn wrap(self) -> (content: Content) {
        Content::Document(Arc::new(self))
    }

    fn peek(content: &Content) -> (r: Option<&Json>) {
        match content {
            Content::Document(v) => Some(&**v),
            _ => None,
        }
    }

    fn take(content: Content) -> (r: Option<Arc<Json>>) {
        match content {
            Content::Document(v) => Some(v),
            _ => None,
        }
    }
}

/// A single-use message: empty, or one value with the tag of its type.
pub struct Payload {
    value: Option<Content>,
}

/// Why a payload could not be read as the type that was asked for.
#[derive(Debug)]
pub enum PayloadError {
    /// The payload holds no value.
    Empty,
    /// The payload holds a value of another type: `expected` is the tag of
    /// the type asked for, `actual` the tag of the type held.
    TypeMismatch { expected: &'static str, actual: &'static str },
}

impl Payload {
    /// What the payload holds.
    pub closed spec fn content(&self) -> Option<Content> {
        self.value
    }

    /// The payload without a value.
    pub fn empty() -> (r: Payload)
        ensures
            r.content() is None,
    {
        Payload { value: None }
    }

    /// The payload that holds `v`, tagged with the type of `v`.
    pub fn new<T: Carried>(v: T) -> (r: Payload)
        ensures
            r.content() matches Some(content) && T::held_by(content) == Some(v) && content.tag()
                == T::tag(),
    {
        let content = v.wrap();
        proof {
            T::tag_decides(content);
        }
        Payload { value: Some(content) }
    }

    /// The tag of the type of the value held; `None` for the empty payload.
    pub fn tag_name(&self) -> (r: Option<&'static str>)
        ensures
            match self.content() {
                Some(content) => r matches Some(tag) && tag@ == content.tag(),
                None => r is None,
            },
    {
        match &self.value {
            Some(content) => Some(content.tag_name()),
            None => None,
        }
    }

    /// Another handle on the same payload: it holds the same value, which is
    /// shared and not copied.
    pub fn share(&self) -> (r: Payload)
        ensures
            r.content() == self.content(),
    {
        match &self.value {
            Some(content) => Payload { value: Some(content.share()) },
            None => Payload { value: None },
        }
    }
}

impl Clone for Payload {
    /// Another handle on the same payload: the value is shared, not copied.
    fn clone(&self) -> (r: Payload)
        ensures
            r.content() == self.content(),
    {
        self.share()
    }
}

impl Default for Payload {
    /// The payload without a value.
    fn default() -> (r: Payload)
        ensures
            r.content() is None,
    {
        Payload::empty()
    }
}

/// What narrowing a payload to the type `T` gives: the value held where it
/// is of that type, `Empty` for the empty payload, and `TypeMismatch` with
/// both tags where the value is of another type.
pub open spec fn narrowed<T: Carried>(content: Option<Content>) -> Result<T, (Seq<char>, Seq<char>)> {
    match content {
        None => Err((Seq::empty(), Seq::empty())),
        Some(held) => match T::held_by(held) {
            Some(value) => Ok(value),
            None => Err((T::tag(), held.tag())),
        },
    }
}

/// Whether `error` is the error that narrowing `content` to `T` gives.
pub open spec fn is_narrowing_error<T: Carried>(
    content: Option<Content>,
    error: PayloadError,
) -> bool {
    match content {
        None => error is Empty,
        Some(held) => error matches PayloadError::TypeMismatch { expected, actual } && expected@
            == T::tag() && actual@ == held.tag(),
    }
}

/// Reading a payload as a given type.
pub trait Get {
    /// What the payload holds.
    spec fn held(&self) -> Option<Content>;

    /// The value held, read as a `T`. `Ok` exactly when the payload holds a
    /// value of the type `T`.
    fn get<T: Carried>(&self) -> (r: Result<&T, PayloadError>)
        ensures
            match narrowed::<T>(self.held()) {
                Ok(value) => r matches Ok(found) && *found == value,
                Err(_) => r matches Err(error) && is_narrowing_error::<T>(self.held(), error),
            },
    ;

    /// The value held, as a shared value of the type `T`. `Ok` exactly when
    /// the payload holds a value of the type `T`.
    fn into_arc<T: Carried>(self) -> (r: Result<Arc<T>, PayloadError>) where Self: Sized
        ensures
            match narrowed::<T>(self.held()) {
                Ok(value) => r matches Ok(found) && *found == value,
                Err(_) => r matches Err(error) && is_narrowing_error::<T>(self.held(), error),
            },
    ;
}

impl Get for Payload {
    open spec fn held(&self) -> Option<Content> {
        self.content()
    }

    fn get<T: Carried>(&self) -> (r: Result<&T, PayloadError>) {
        match &self.value {
            None => Err(PayloadError::Empty),
            Some(content) => match T::peek(content) {
                Some(found) => Ok(found),
                None => Err(
                    PayloadError::TypeMismatch {
                        expected: T::tag_name(),
                        actual: content.tag_name(),
                    },
                ),
            },
        }
    }

    fn into_arc<T: Carried>(self) -> (r: Result<Arc<T>, PayloadError>) {
        match self.value {
            None => Err(PayloadError::Empty),
            Some(content) => {
                let actual = content.tag_name();
                match T::take(content) {
                    Some(found) => Ok(found),
                    None => Err(PayloadError::TypeMismatch { expected: T::tag_name(), actual }),
                }
            },
        }
    }
}

/// A payload made from a value of the type `T` reads back as that value when
/// it is narrowed to `T`, and narrowing it to a type `U` with another tag
/// gives the mismatch of the two tags.
pub proof fn law_narrowing<T: Carried, U: Carried>(content: Content, v: T)
    requires
        T::held_by(content) == Some(v),
    ensures
        narrowed::<T>(Some(content)) == Ok::<T, (Seq<char>, Seq<char>)>(v),
        U::tag() != T::tag() ==> narrowed::<U>(Some(content)) == Err::<U, (Seq<char>, Seq<char>)>(
            (U::tag(), T::tag()),
        ),
{
    T::tag_decides(content);
    U::tag_decides(content);
}

} // verus!
