//! GET descriptors for OAuth authorizations and OAuth clients.

use vstd::prelude::*;
use vstd::string::StringExecFns;

use crate::endpoint::{ContentType, HerokuEndpoint, Method, ResponseKind};
use crate::json::{FieldView, JsonObject};

verus! {

/// OAuth Authorization Info
///
/// Info for an OAuth authorization.  Expects one authorization object
/// back.
#[derive(Clone, Debug, PartialEq)]
pub struct OAuthDetails {
    /// oauth_id is the unique identifier.
    pub oauth_id: String,
}

impl HerokuEndpoint for OAuthDetails {
    open spec fn spec_method(&self) -> Method {
        Method::Get
    }

    open spec fn spec_path(&self) -> Seq<char> {
        "oauth/authorizations/"@ + self.oauth_id@
    }

    open spec fn spec_body(&self) -> Option<Seq<FieldView>> {
        None
    }

    open spec fn spec_response_kind(&self) -> ResponseKind {
        ResponseKind::Single
    }

    open spec fn spec_content_type(&self) -> ContentType {
        ContentType::Json
    }

    open spec fn spec_supports_pagination(&self) -> bool {
        false
    }

    fn method(&self) -> (m: Method) {
        Method::Get
    }

    fn path(&self) -> (p: String) {
        let mut p = String::from_str("oauth/authorizations/");
        p.append(self.oauth_id.as_str());
        p
    }

    fn body(&self) -> (b: Option<JsonObject>) {
        None
    }

    fn response_kind(&self) -> (k: ResponseKind) {
        ResponseKind::Single
    }

    fn content_type(&self) -> (c: ContentType) {
        ContentType::Json
    }

    fn supports_pagination(&self) -> (b: bool) {
        false
    }
}

/// OAuth Authorization List
///
/// List OAuth authorizations.  Expects a list of authorization objects
/// back.
#[derive(Clone, Debug, PartialEq)]
pub struct OAuthList {}

impl HerokuEndpoint for OAuthList {
    open spec fn spec_method(&self) -> Method {
        Method::Get
    }

    open spec fn spec_path(&self) -> Seq<char> {
        "oauth/authorizations"@
    }

    open spec fn spec_body(&self) -> Option<Seq<FieldView>> {
        None
    }

    open spec fn spec_response_kind(&self) -> ResponseKind {
        ResponseKind::List
    }

    open spec fn spec_content_type(&self) -> ContentType {
        ContentType::Json
    }

    open spec fn spec_supports_pagination(&self) -> bool {
        false
    }

    fn method(&self) -> (m: Method) {
        Method::Get
    }

    fn path(&self) -> (p: String) {
        String::from_str("oauth/authorizations")
    }

    fn body(&self) -> (b: Option<JsonObject>) {
        None
    }

    fn response_kind(&self) -> (k: ResponseKind) {
        ResponseKind::List
    }

    fn content_type(&self) -> (c: ContentType) {
        ContentType::Json
    }

    fn supports_pagination(&self) -> (b: bool) {
        false
    }
}

/// OAuth Client Info
///
/// Info for an OAuth client.  Expects one client object back.
#[derive(Clone, Debug, PartialEq)]
pub struct OAuthClientDetails {
    /// unique identifier of OAuth Client authorization.
    pub client_id: String,
}

impl HerokuEndpoint for OAuthClientDetails {
    open spec fn spec_method(&self) -> Method {
        Method::Get
    }

    open spec fn spec_path(&self) -> Seq<char> {
        "oauth/clients/"@ + self.client_id@
    }

    open spec fn spec_body(&self) -> Option<Seq<FieldView>> {
        None
    }

    open spec fn spec_response_kind(&self) -> ResponseKind {
        ResponseKind::Single
    }

    open spec fn spec_content_type(&self) -> ContentType {
        ContentType::Json
    }

    open spec fn spec_supports_pagination(&self) -> bool {
        false
    }

    fn method(&self) -> (m: Method) {
        Method::Get
    }

    fn path(&self) -> (p: String) {
        let mut p = String::from_str("oauth/clients/");
        p.append(self.client_id.as_str());
        p
    }

    fn body(&self) -> (b: Option<JsonObject>) {
        None
    }

    fn response_kind(&self) -> (k: ResponseKind) {
        ResponseKind::Single
    }

    fn content_type(&self) -> (c: ContentType) {
        ContentType::Json
    }

    fn supports_pagination(&self) -> (b: bool) {
        false
    }
}

/// OAuth Client List
///
/// List OAuth clients.  Expects a list of client objects back.
#[derive(Clone, Debug, PartialEq)]
pub struct OAuthClientList {}

impl HerokuEndpoint for OAuthClientList {
    open spec fn spec_method(&self) -> Method {
        Method::Get
    }

    open spec fn spec_path(&self) -> Seq<char> {
        "oauth/clients"@
    }

    open spec fn spec_body(&self) -> Option<Seq<FieldView>> {
        None
    }

    open spec fn spec_response_kind(&self) -> ResponseKind {
        ResponseKind::List
    }

    open spec fn spec_content_type(&self) -> ContentType {
        ContentType::Json
    }

    open spec fn spec_supports_pagination(&self) -> bool {
        false
    }

    fn method(&self) -> (m: Method) {
        Method::Get
    }

    fn path(&self) -> (p: String) {
        String::from_str("oauth/clients")
    }

    fn body(&self) -> (b: Option<JsonObject>) {
        None
    }

    fn response_kind(&self) -> (k: ResponseKind) {
        ResponseKind::List
    }

    fn content_type(&self) -> (c: ContentType) {
        ContentType::Json
    }

    fn supports_pagination(&self) -> (b: bool) {
        false
    }
}

} // verus!
