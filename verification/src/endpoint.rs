//! The uniform contract every API operation presents: a method, a path
//! relative to the API root, an optional body payload, and the shape of
//! the response it expects.
//!
//! A descriptor is a pure value: each accessor returns a function of
//! the descriptor's own fields, stated by the matching `spec` function,
//! so repeated calls are deterministic and side-effect-free, and the
//! client can treat every operation uniformly.

use vstd::prelude::*;

use crate::json::{FieldView, JsonObject};

verus! {

/// The HTTP method of an API operation.
#[derive(Clone, Copy, Debug, PartialEq, Eq, Structural)]
pub enum Method {
    Get,
    Post,
    Put,
    Patch,
    Delete,
}

/// How a request body is written on the wire: the default JSON form, or
/// a multipart form for uploads.
#[derive(Clone, Copy, Debug, PartialEq, Eq, Structural)]
pub enum ContentType {
    Json,
    Multipart,
}

/// The response shape an operation expects on success: one object, or a
/// list of objects.
#[derive(Clone, Copy, Debug, PartialEq, Eq, Structural)]
pub enum ResponseKind {
    Single,
    List,
}

/// An endpoint descriptor: one API operation as a value.
///
/// Each exec accessor is pinned to the spec function beside it, so for
/// a fixed descriptor value every accessor returns the same result on
/// every call.
pub trait HerokuEndpoint {
    /// The operation's HTTP method.
    spec fn spec_method(&self) -> Method;

    /// The operation's path relative to the API root.  Identifiers are
    /// embedded by concatenation of the descriptor's own fields; the
    /// base URL never appears here.
    spec fn spec_path(&self) -> Seq<char>;

    /// The operation's body payload, if it carries one.
    spec fn spec_body(&self) -> Option<Seq<FieldView>>;

    /// The response shape the operation expects.
    spec fn spec_response_kind(&self) -> ResponseKind;

    /// The body encoding the operation asks for.
    spec fn spec_content_type(&self) -> ContentType;

    /// Whether the operation supports paging through its results.
    spec fn spec_supports_pagination(&self) -> bool;

    /// Returns the operation's HTTP method.
    fn method(&self) -> (m: Method)
        ensures
            m == self.spec_method(),
    ;

    /// Returns the operation's path relative to the API root.
    fn path(&self) -> (p: String)
        ensures
            p@ == self.spec_path(),
    ;

    /// Returns the operation's body payload, if it carries one.
    fn body(&self) -> (b: Option<JsonObject>)
        ensures
            match b {
                Some(o) => self.spec_body() == Some(o@),
                None => self.spec_body() is None,
            },
    ;

    /// Returns the response shape the operation expects.
    fn response_kind(&self) -> (k: ResponseKind)
        ensures
            k == self.spec_response_kind(),
    ;

    /// Returns the body encoding the operation asks for.
    fn content_type(&self) -> (c: ContentType)
        ensures
            c == self.spec_content_type(),
    ;

    /// Returns whether the operation supports paging.
    fn supports_pagination(&self) -> (b: bool)
        ensures
            b == self.spec_supports_pagination(),
    ;
}

} // verus!
