//! The type-erased value container passed across ports.
//!
//! A [`Data`] wraps exactly one concrete typed payload.  It is created
//! fresh by a node's fold call and consumed by the requesting caller
//! through a typed extraction that fails with a
//! [`TypeMismatch`](crate::error::Error::TypeMismatch) if the requested
//! type does not match the stored one — never by coercing or zeroing.

use vstd::prelude::*;

use crate::error::Error;

verus! {

/// The discriminant of a [`Data`] payload.
#[derive(Debug, Clone, Copy, PartialEq, Eq, Structural)]
pub enum DataKind {
    /// A numeric payload.
    Number,
    /// A textual payload.
    Text,
}

/// The mathematical content of a [`Data`] value.
pub ghost enum DataView {
    Number(i64),
    Text(Seq<char>),
}

/// The discriminant of a payload's content.
pub open spec fn kind_of(v: DataView) -> DataKind {
    match v {
        DataView::Number(_) => DataKind::Number,
        DataView::Text(_) => DataKind::Text,
    }
}

/// The payloads a [`Data`] can hold.
#[derive(Debug, Clone, PartialEq, Eq)]
enum DataInner {
    Number(i64),
    Text(String),
}

/// A container carrying one typed value between ports.
#[derive(Debug, Clone, PartialEq, Eq)]
pub struct Data {
    inner: DataInner,
}

impl View for Data {
    type V = DataView;

    closed spec fn view(&self) -> DataView {
        match self.inner {
            DataInner::Number(n) => DataView::Number(n),
            DataInner::Text(s) => DataView::Text(s@),
        }
    }
}

/// A concrete payload type that can be stored in and extracted from a
/// [`Data`].
pub trait DataType: Sized {
    /// The discriminant every value of this type is stored under.
    spec fn data_kind() -> DataKind;

    /// The content of this value once stored.
    spec fn data_view(&self) -> DataView;

    /// Wraps this value into a container.
    fn wrap(self) -> (d: Data)
        ensures
            d@ == self.data_view(),
            kind_of(self.data_view()) == Self::data_kind(),
    ;

    /// Extracts a value of this type, if the container holds one.
    fn unwrap_data(d: Data) -> (r: Option<Self>)
        ensures
            r is Some <==> kind_of(d@) == Self::data_kind(),
            r matches Some(v) ==> v.data_view() == d@,
    ;

    /// Borrows a value of this type, if the container holds one.
    fn peek_data(d: &Data) -> (r: Option<&Self>)
        ensures
            r is Some <==> kind_of(d@) == Self::data_kind(),
            r matches Some(v) ==> v.data_view() == d@,
    ;
}

impl DataType for i64 {
    open spec fn data_kind() -> DataKind {
        DataKind::Number
    }

    open spec fn data_view(&self) -> DataView {
        DataView::Number(*self)
    }

    fn wrap(self) -> (d: Data) {
        Data { inner: DataInner::Number(self) }
    }

    fn unwrap_data(d: Data) -> (r: Option<Self>) {
        match d.inner {
            DataInner::Number(n) => Some(n),
            DataInner::Text(_) => None,
        }
    }

    fn peek_data(d: &Data) -> (r: Option<&Self>) {
        match &d.inner {
            DataInner::Number(n) => Some(n),
            DataInner::Text(_) => None,
        }
    }
}

impl DataType for String {
    open spec fn data_kind() -> DataKind {
        DataKind::Text
    }

    open spec fn data_view(&self) -> DataView {
        DataView::Text(self@)
    }

    fn wrap(self) -> (d: Data) {
        Data { inner: DataInner::Text(self) }
    }

    fn unwrap_data(d: Data) -> (r: Option<Self>) {
        match d.inner {
            DataInner::Number(_) => None,
            DataInner::Text(s) => Some(s),
        }
    }

    fn peek_data(d: &Data) -> (r: Option<&Self>) {
        match &d.inner {
            DataInner::Number(_) => None,
            DataInner::Text(s) => Some(s),
        }
    }
}

impl Data {
    /// Wraps one typed value.
    pub fn new<T: DataType>(value: T) -> (d: Data)
        ensures
            d@ == value.data_view(),
    {
        value.wrap()
    }

    /// The discriminant of the stored payload.
    pub fn kind(&self) -> (r: DataKind)
        ensures
            r == kind_of(self@),
    {
        match &self.inner {
            DataInner::Number(_) => DataKind::Number,
            DataInner::Text(_) => DataKind::Text,
        }
    }

    /// Extracts the payload as the given type; `None` if the stored
    /// payload is of another type.
    pub fn downcast<T: DataType>(self) -> (r: Option<T>)
        ensures
            r is Some <==> kind_of(self@) == T::data_kind(),
            r matches Some(v) ==> v.data_view() == self@,
    {
        T::unwrap_data(self)
    }

    /// Borrows the payload as the given type; `None` if the stored payload
    /// is of another type.
    pub fn downcast_ref<T: DataType>(&self) -> (r: Option<&T>)
        ensures
            r is Some <==> kind_of(self@) == T::data_kind(),
            r matches Some(v) ==> v.data_view() == self@,
    {
        T::peek_data(self)
    }

    /// Extracts the numeric payload, or reports exactly what was found
    /// instead; never substitutes a default or coerced value.
    pub fn into_number(self) -> (r: Result<i64, Error>)
        ensures
            match self@ {
                DataView::Number(n) => r == Ok::<i64, Error>(n),
                DataView::Text(_) => r == Err::<i64, Error>(
                    Error::TypeMismatch { expected: DataKind::Number, found: DataKind::Text },
                ),
            },
    {
        match self.inner {
            DataInner::Number(n) => Ok(n),
            DataInner::Text(_) => Err(
                Error::TypeMismatch { expected: DataKind::Number, found: DataKind::Text },
            ),
        }
    }

    /// Extracts the textual payload, or reports exactly what was found
    /// instead; never substitutes a default or coerced value.
    pub fn into_string(self) -> (r: Result<String, Error>)
        ensures
            match self@ {
                DataView::Text(s) => r matches Ok(t) && t@ == s,
                DataView::Number(_) => r == Err::<String, Error>(
                    Error::TypeMismatch { expected: DataKind::Text, found: DataKind::Number },
                ),
            },
    {
        match self.inner {
            DataInner::Text(s) => Ok(s),
            DataInner::Number(_) => Err(
                Error::TypeMismatch { expected: DataKind::Text, found: DataKind::Number },
            ),
        }
    }
}

} // verus!
