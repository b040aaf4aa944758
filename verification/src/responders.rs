//! Wrappers that mark in which encoding a value travels, and the way from
//! one wrapper to another.

use core::marker::PhantomData;
use vstd::prelude::*;
use vstd::std_specs::convert::{FromSpec, FromSpecImpl};
use vstd::string::StringExecFns;

verus! {

/// A wrapper that can be taken off.
pub trait IntoInner<T>: Sized {
    /// What the wrapper holds.
    spec fn held(self) -> T;

    fn into_inner(self) -> (inner: T)
        ensures
            inner == self.held(),
    ;
}

/// An encoding with a media type of its own.
pub trait WellKnownEncoding {
    spec fn media_type_text() -> (Seq<char>, Seq<char>);

    /// The media type's top level and its subtype.
    fn media_type() -> (parts: (&'static str, &'static str))
        ensures
            (parts.0@, parts.1@) == Self::media_type_text(),
    ;
}

/// A value that travels as binary protobuf.
pub struct Proto<M>(pub M);

/// A value that travels as protobuf text.
pub struct TextProto<M>(pub M);

/// A page that is rendered from a template when it is sent.
pub struct HtmlTemplate<T>(pub T);

/// A value that travels as `A` where the other side takes that, and as `B`
/// otherwise.
#[verifier::reject_recursive_types(A)]
#[verifier::reject_recursive_types(B)]
pub struct Or<A, B, T>(pub T, pub PhantomData<A>, pub PhantomData<B>);

impl<T> From<T> for HtmlTemplate<T> {
    fn from(value: T) -> (wrapped: Self) {
        HtmlTemplate(value)
    }
}

impl<T> FromSpecImpl<T> for HtmlTemplate<T> {
    open spec fn obeys_from_spec() -> bool {
        true
    }

    open spec fn from_spec(value: T) -> Self {
        HtmlTemplate(value)
    }
}

/// The status of a page that could not be rendered.
pub const RENDER_FAILED: u16 = 500;

/// The status of a page that was rendered.
pub const RENDERED: u16 = 200;

/// What is sent for a page, from what rendering its template gave: the
/// page itself, or the renderer's complaint with the status of a failure.
pub fn page(rendered: Result<String, String>) -> (sent: (u16, String))
    ensures
        match rendered {
            Ok(html) => sent == (RENDERED, html),
            Err(complaint) => sent.0 == RENDER_FAILED && sent.1@
                == "Failed to render template. Error: "@ + complaint@,
        },
{
    match rendered {
        Ok(html) => (RENDERED, html),
        Err(complaint) => {
            let mut text = String::from_str("Failed to render template. Error: ");
            text.append(complaint.as_str());
            (RENDER_FAILED, text)
        },
    }
}

impl<M> From<M> for Proto<M> {
    fn from(value: M) -> (wrapped: Self) {
        Proto(value)
    }
}

impl<M> FromSpecImpl<M> for Proto<M> {
    open spec fn obeys_from_spec() -> bool {
        true
    }

    open spec fn from_spec(value: M) -> Self {
        Proto(value)
    }
}

impl<M> IntoInner<M> for Proto<M> {
    open spec fn held(self) -> M {
        self.0
    }

    fn into_inner(self) -> (inner: M) {
        self.0
    }
}

impl<M> core::ops::Deref for Proto<M> {
    type Target = M;

    fn deref(&self) -> (inner: &M)
        ensures
            *inner == self.0,
    {
        &self.0
    }
}

impl<M> WellKnownEncoding for Proto<M> {
    open spec fn media_type_text() -> (Seq<char>, Seq<char>) {
        ("application"@, "protobuf"@)
    }

    fn media_type() -> (parts: (&'static str, &'static str)) {
        ("application", "protobuf")
    }
}

impl<M> From<M> for TextProto<M> {
    fn from(value: M) -> (wrapped: Self) {
        TextProto(value)
    }
}

impl<M> FromSpecImpl<M> for TextProto<M> {
    open spec fn obeys_from_spec() -> bool {
        true
    }

    open spec fn from_spec(value: M) -> Self {
        TextProto(value)
    }
}

impl<M> IntoInner<M> for TextProto<M> {
    open spec fn held(self) -> M {
        self.0
    }

    fn into_inner(self) -> (inner: M) {
        self.0
    }
}

impl<M> core::ops::Deref for TextProto<M> {
    type Target = M;

    fn deref(&self) -> (inner: &M)
        ensures
            *inner == self.0,
    {
        &self.0
    }
}

impl<M> WellKnownEncoding for TextProto<M> {
    open spec fn media_type_text() -> (Seq<char>, Seq<char>) {
        ("application"@, "textproto"@)
    }

    fn media_type() -> (parts: (&'static str, &'static str)) {
        ("application", "textproto")
    }
}

impl<A, B, T> From<T> for Or<A, B, T> {
    fn from(value: T) -> (wrapped: Self) {
        Or(value, PhantomData, PhantomData)
    }
}

impl<A, B, T> FromSpecImpl<T> for Or<A, B, T> {
    open spec fn obeys_from_spec() -> bool {
        true
    }

    open spec fn from_spec(value: T) -> Self {
        Or(value, PhantomData, PhantomData)
    }
}

impl<A, B, T> IntoInner<T> for Or<A, B, T> {
    open spec fn held(self) -> T {
        self.0
    }

    fn into_inner(self) -> (inner: T) {
        self.0
    }
}

impl<A, B, T> core::ops::Deref for Or<A, B, T> {
    type Target = T;

    fn deref(&self) -> (inner: &T)
        ensures
            *inner == self.0,
    {
        &self.0
    }
}

/// Takes the value out of one wrapper and puts it into another.
pub fn through<TS: IntoInner<TM>, TM, TG: From<TM>>(s: TS) -> (wrapped: TG)
    ensures
        TG::obeys_from_spec() ==> wrapped == TG::from_spec(s.held()),
{
    TG::from(s.into_inner())
}

} // verus!
