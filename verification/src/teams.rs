//! GET descriptors for teams and what belongs to them: apps, features,
//! invitations, invoices, members, permissions and preferences.

use vstd::prelude::*;
use vstd::string::StringExecFns;

use crate::endpoint::{ContentType, HerokuEndpoint, Method, ResponseKind};
use crate::json::{FieldView, JsonField, JsonObject};

verus! {

/// Team Info
///
/// Info for a team.  Expects one team object back.
#[derive(Clone, Debug, PartialEq)]
pub struct TeamDetails {
    /// unique team identifier.
    pub team_id: String,
}

impl TeamDetails {
    /// Builds the descriptor from its path parameters.
    pub fn new(team_id: &str) -> (r: TeamDetails)
        ensures
            r.team_id@ == team_id@,
    {
        TeamDetails { team_id: String::from_str(team_id) }
    }
}

impl HerokuEndpoint for TeamDetails {
    open spec fn spec_method(&self) -> Method {
        Method::Get
    }

    open spec fn spec_path(&self) -> Seq<char> {
        "teams/"@ + self.team_id@
    }

    open spec fn spec_body(&self) -> Option<Seq<FieldView>> {
        None
    }

    open spec fn spec_response_kind(&self) -> ResponseKind {
        ResponseKind::Single
    }

    open spec fn spec_content_type(&self) -> ContentType {
        ContentType::Json
    }

    open spec fn spec_supports_pagination(&self) -> bool {
        false
    }

    fn method(&self) -> (m: Method) {
        Method::Get
    }

    fn path(&self) -> (p: String) {
        let mut p = String::from_str("teams/");
        p.append(self.team_id.as_str());
        p
    }

    fn body(&self) -> (b: Option<JsonObject>) {
        None
    }

    fn response_kind(&self) -> (k: ResponseKind) {
        ResponseKind::Single
    }

    fn content_type(&self) -> (c: ContentType) {
        ContentType::Json
    }

    fn supports_pagination(&self) -> (b: bool) {
        false
    }
}

/// Team List
///
/// List teams in which you are a member.  Expects a list of team objects back.
#[derive(Clone, Debug, PartialEq)]
pub struct TeamList {}

impl TeamList {
    /// Builds the descriptor from its path parameters.
    pub fn new() -> (r: TeamList)
    {
        TeamList {}
    }
}

impl HerokuEndpoint for TeamList {
    open spec fn spec_method(&self) -> Method {
        Method::Get
    }

    open spec fn spec_path(&self) -> Seq<char> {
        "teams"@
    }

    open spec fn spec_body(&self) -> Option<Seq<FieldView>> {
        None
    }

    open spec fn spec_response_kind(&self) -> ResponseKind {
        ResponseKind::List
    }

    open spec fn spec_content_type(&self) -> ContentType {
        ContentType::Json
    }

    open spec fn spec_supports_pagination(&self) -> bool {
        false
    }

    fn method(&self) -> (m: Method) {
        Method::Get
    }

    fn path(&self) -> (p: String) {
        String::from_str("teams")
    }

    fn body(&self) -> (b: Option<JsonObject>) {
        None
    }

    fn response_kind(&self) -> (k: ResponseKind) {
        ResponseKind::List
    }

    fn content_type(&self) -> (c: ContentType) {
        ContentType::Json
    }

    fn supports_pagination(&self) -> (b: bool) {
        false
    }
}

/// Team List by Enterprise Account
///
/// List teams for an enterprise account.  Expects a list of team objects back.
#[derive(Clone, Debug, PartialEq)]
pub struct TeamListByEA {
    /// unique enterprise account identifier.
    pub account_id: String,
}

impl TeamListByEA {
    /// Builds the descriptor from its path parameters.
    pub fn new(account_id: &str) -> (r: TeamListByEA)
        ensures
            r.account_id@ == account_id@,
    {
        TeamListByEA { account_id: String::from_str(account_id) }
    }
}

impl HerokuEndpoint for TeamListByEA {
    open spec fn spec_method(&self) -> Method {
        Method::Get
    }

    open spec fn spec_path(&self) -> Seq<char> {
        "enterprise-accounts/"@ + self.account_id@ + "/teams"@
    }

    open spec fn spec_body(&self) -> Option<Seq<FieldView>> {
        None
    }

    open spec fn spec_response_kind(&self) -> ResponseKind {
        ResponseKind::List
    }

    open spec fn spec_content_type(&self) -> ContentType {
        ContentType::Json
    }

    open spec fn spec_supports_pagination(&self) -> bool {
        false
    }

    fn method(&self) -> (m: Method) {
        Method::Get
    }

    fn path(&self) -> (p: String) {
        let mut p = String::from_str("enterprise-accounts/");
        p.append(self.account_id.as_str());
        p.append("/teams");
        p
    }

    fn body(&self) -> (b: Option<JsonObject>) {
        None
    }

    fn response_kind(&self) -> (k: ResponseKind) {
        ResponseKind::List
    }

    fn content_type(&self) -> (c: ContentType) {
        ContentType::Json
    }

    fn supports_pagination(&self) -> (b: bool) {
        false
    }
}

/// Team App Info
///
/// Info for a team app.  Expects one app object back.
#[derive(Clone, Debug, PartialEq)]
pub struct TeamAppDetails {
    /// unique app identifier.
    pub app_id: String,
}

impl TeamAppDetails {
    /// Builds the descriptor from its path parameters.
    pub fn new(app_id: &str) -> (r: TeamAppDetails)
        ensures
            r.app_id@ == app_id@,
    {
        TeamAppDetails { app_id: String::from_str(app_id) }
    }
}

impl HerokuEndpoint for TeamAppDetails {
    open spec fn spec_method(&self) -> Method {
        Method::Get
    }

    open spec fn spec_path(&self) -> Seq<char> {
        "teams/apps/"@ + self.app_id@
    }

    open spec fn spec_body(&self) -> Option<Seq<FieldView>> {
        None
    }

    open spec fn spec_response_kind(&self) -> ResponseKind {
        ResponseKind::Single
    }

    open spec fn spec_content_type(&self) -> ContentType {
        ContentType::Json
    }

    open spec fn spec_supports_pagination(&self) -> bool {
        false
    }

    fn method(&self) -> (m: Method) {
        Method::Get
    }

    fn path(&self) -> (p: String) {
        let mut p = String::from_str("teams/apps/");
        p.append(self.app_id.as_str());
        p
    }

    fn body(&self) -> (b: Option<JsonObject>) {
        None
    }

    fn response_kind(&self) -> (k: ResponseKind) {
        ResponseKind::Single
    }

    fn content_type(&self) -> (c: ContentType) {
        ContentType::Json
    }

    fn supports_pagination(&self) -> (b: bool) {
        false
    }
}

/// Team App List By Team
///
/// List team apps.  Expects a list of app objects back.
#[derive(Clone, Debug, PartialEq)]
pub struct TeamAppList {
    /// unique team identifier.
    pub team_id: String,
}

impl TeamAppList {
    /// Builds the descriptor from its path parameters.
    pub fn new(team_id: &str) -> (r: TeamAppList)
        ensures
            r.team_id@ == team_id@,
    {
        TeamAppList { team_id: String::from_str(team_id) }
    }
}

impl HerokuEndpoint for TeamAppList {
    open spec fn spec_method(&self) -> Method {
        Method::Get
    }

    open spec fn spec_path(&self) -> Seq<char> {
        "teams/"@ + self.team_id@ + "/apps"@
    }

    open spec fn spec_body(&self) -> Option<Seq<FieldView>> {
        None
    }

    open spec fn spec_response_kind(&self) -> ResponseKind {
        ResponseKind::List
    }

    open spec fn spec_content_type(&self) -> ContentType {
        ContentType::Json
    }

    open spec fn spec_supports_pagination(&self) -> bool {
        false
    }

    fn method(&self) -> (m: Method) {
        Method::Get
    }

    fn path(&self) -> (p: String) {
        let mut p = String::from_str("teams/");
        p.append(self.team_id.as_str());
        p.append("/apps");
        p
    }

    fn body(&self) -> (b: Option<JsonObject>) {
        None
    }

    fn response_kind(&self) -> (k: ResponseKind) {
        ResponseKind::List
    }

    fn content_type(&self) -> (c: ContentType) {
        ContentType::Json
    }

    fn supports_pagination(&self) -> (b: bool) {
        false
    }
}

/// Team App Permission List
///
/// Lists permissions available to teams.  Expects a list of permission objects back.
#[derive(Clone, Debug, PartialEq)]
pub struct TeamAppPermissionList {}

impl TeamAppPermissionList {
    /// Builds the descriptor from its path parameters.
    pub fn new() -> (r: TeamAppPermissionList)
    {
        TeamAppPermissionList {}
    }
}

impl HerokuEndpoint for TeamAppPermissionList {
    open spec fn spec_method(&self) -> Method {
        Method::Get
    }

    open spec fn spec_path(&self) -> Seq<char> {
        "teams/permissions"@
    }

    open spec fn spec_body(&self) -> Option<Seq<FieldView>> {
        None
    }

    open spec fn spec_response_kind(&self) -> ResponseKind {
        ResponseKind::List
    }

    open spec fn spec_content_type(&self) -> ContentType {
        ContentType::Json
    }

    open spec fn spec_supports_pagination(&self) -> bool {
        false
    }

    fn method(&self) -> (m: Method) {
        Method::Get
    }

    fn path(&self) -> (p: String) {
        String::from_str("teams/permissions")
    }

    fn body(&self) -> (b: Option<JsonObject>) {
        None
    }

    fn response_kind(&self) -> (k: ResponseKind) {
        ResponseKind::List
    }

    fn content_type(&self) -> (c: ContentType) {
        ContentType::Json
    }

    fn supports_pagination(&self) -> (b: bool) {
        false
    }
}

/// Team Feature List
///
/// List existing team features.  Expects a list of feature objects back.
#[derive(Clone, Debug, PartialEq)]
pub struct TeamFeatureList {
    /// unique team identifier, either name or id.
    pub team_id: String,
}

impl TeamFeatureList {
    /// Builds the descriptor from its path parameters.
    pub fn new(team_id: &str) -> (r: TeamFeatureList)
        ensures
            r.team_id@ == team_id@,
    {
        TeamFeatureList { team_id: String::from_str(team_id) }
    }
}

impl HerokuEndpoint for TeamFeatureList {
    open spec fn spec_method(&self) -> Method {
        Method::Get
    }

    open spec fn spec_path(&self) -> Seq<char> {
        "teams/"@ + self.team_id@ + "/features"@
    }

    open spec fn spec_body(&self) -> Option<Seq<FieldView>> {
        None
    }

    open spec fn spec_response_kind(&self) -> ResponseKind {
        ResponseKind::List
    }

    open spec fn spec_content_type(&self) -> ContentType {
        ContentType::Json
    }

    open spec fn spec_supports_pagination(&self) -> bool {
        false
    }

    fn method(&self) -> (m: Method) {
        Method::Get
    }

    fn path(&self) -> (p: String) {
        let mut p = String::from_str("teams/");
        p.append(self.team_id.as_str());
        p.append("/features");
        p
    }

    fn body(&self) -> (b: Option<JsonObject>) {
        None
    }

    fn response_kind(&self) -> (k: ResponseKind) {
        ResponseKind::List
    }

    fn content_type(&self) -> (c: ContentType) {
        ContentType::Json
    }

    fn supports_pagination(&self) -> (b: bool) {
        false
    }
}

/// Team Feature Info
///
/// Info for an existing team feature.  Expects one feature object back.
#[derive(Clone, Debug, PartialEq)]
pub struct TeamFeatureDetails {
    /// unique team identifier, either name or id.
    pub team_id: String,
    /// unique feature identifier, either name or id.
    pub feature_id: String,
}

impl TeamFeatureDetails {
    /// Builds the descriptor from its path parameters.
    pub fn new(team_id: &str, feature_id: &str) -> (r: TeamFeatureDetails)
        ensures
            r.team_id@ == team_id@,
            r.feature_id@ == feature_id@,
    {
        TeamFeatureDetails { team_id: String::from_str(team_id), feature_id: String::from_str(feature_id) }
    }
}

impl HerokuEndpoint for TeamFeatureDetails {
    open spec fn spec_method(&self) -> Method {
        Method::Get
    }

    open spec fn spec_path(&self) -> Seq<char> {
        "teams/"@ + self.team_id@ + "/features/"@ + self.feature_id@
    }

    open spec fn spec_body(&self) -> Option<Seq<FieldView>> {
        None
    }

    open spec fn spec_response_kind(&self) -> ResponseKind {
        ResponseKind::Single
    }

    open spec fn spec_content_type(&self) -> ContentType {
        ContentType::Json
    }

    open spec fn spec_supports_pagination(&self) -> bool {
        false
    }

    fn method(&self) -> (m: Method) {
        Method::Get
    }

    fn path(&self) -> (p: String) {
        let mut p = String::from_str("teams/");
        p.append(self.team_id.as_str());
        p.append("/features/");
        p.append(self.feature_id.as_str());
        p
    }

    fn body(&self) -> (b: Option<JsonObject>) {
        None
    }

    fn response_kind(&self) -> (k: ResponseKind) {
        ResponseKind::Single
    }

    fn content_type(&self) -> (c: ContentType) {
        ContentType::Json
    }

    fn supports_pagination(&self) -> (b: bool) {
        false
    }
}

/// Team Invitation List
///
/// Get a list of a team's invites.  Expects a list of invitation objects back.
#[derive(Clone, Debug, PartialEq)]
pub struct TeamInvitationList {
    /// unique team identifier, either name or id.
    pub team_id: String,
}

impl TeamInvitationList {
    /// Builds the descriptor from its path parameters.
    pub fn new(team_id: &str) -> (r: TeamInvitationList)
        ensures
            r.team_id@ == team_id@,
    {
        TeamInvitationList { team_id: String::from_str(team_id) }
    }
}

impl HerokuEndpoint for TeamInvitationList {
    open spec fn spec_method(&self) -> Method {
        Method::Get
    }

    open spec fn spec_path(&self) -> Seq<char> {
        "teams/"@ + self.team_id@ + "/invitations"@
    }

    open spec fn spec_body(&self) -> Option<Seq<FieldView>> {
        None
    }

    open spec fn spec_response_kind(&self) -> ResponseKind {
        ResponseKind::List
    }

    open spec fn spec_content_type(&self) -> ContentType {
        ContentType::Json
    }

    open spec fn spec_supports_pagination(&self) -> bool {
        false
    }

    fn method(&self) -> (m: Method) {
        Method::Get
    }

    fn path(&self) -> (p: String) {
        let mut p = String::from_str("teams/");
        p.append(self.team_id.as_str());
        p.append("/invitations");
        p
    }

    fn body(&self) -> (b: Option<JsonObject>) {
        None
    }

    fn response_kind(&self) -> (k: ResponseKind) {
        ResponseKind::List
    }

    fn content_type(&self) -> (c: ContentType) {
        ContentType::Json
    }

    fn supports_pagination(&self) -> (b: bool) {
        false
    }
}

/// Team Invitation Get
///
/// Get an invitation by its token.  Expects one invitation object back.
#[derive(Clone, Debug, PartialEq)]
pub struct TeamInvitationDetails {
    /// unique token identifier.
    pub token_id: String,
}

impl TeamInvitationDetails {
    /// Builds the descriptor from its path parameters.
    pub fn new(token_id: &str) -> (r: TeamInvitationDetails)
        ensures
            r.token_id@ == token_id@,
    {
        TeamInvitationDetails { token_id: String::from_str(token_id) }
    }
}

impl HerokuEndpoint for TeamInvitationDetails {
    open spec fn spec_method(&self) -> Method {
        Method::Get
    }

    open spec fn spec_path(&self) -> Seq<char> {
        "teams/invitations/"@ + self.token_id@
    }

    open spec fn spec_body(&self) -> Option<Seq<FieldView>> {
        None
    }

    open spec fn spec_response_kind(&self) -> ResponseKind {
        ResponseKind::Single
    }

    open spec fn spec_content_type(&self) -> ContentType {
        ContentType::Json
    }

    open spec fn spec_supports_pagination(&self) -> bool {
        false
    }

    fn method(&self) -> (m: Method) {
        Method::Get
    }

    fn path(&self) -> (p: String) {
        let mut p = String::from_str("teams/invitations/");
        p.append(self.token_id.as_str());
        p
    }

    fn body(&self) -> (b: Option<JsonObject>) {
        None
    }

    fn response_kind(&self) -> (k: ResponseKind) {
        ResponseKind::Single
    }

    fn content_type(&self) -> (c: ContentType) {
        ContentType::Json
    }

    fn supports_pagination(&self) -> (b: bool) {
        false
    }
}

/// Team Invoice List
///
/// List existing invoices.  Expects a list of invoice objects back.
#[derive(Clone, Debug, PartialEq)]
pub struct TeamInvoiceList {
    /// unique team identifier, either name or id.
    pub team_id: String,
}

impl TeamInvoiceList {
    /// Builds the descriptor from its path parameters.
    pub fn new(team_id: &str) -> (r: TeamInvoiceList)
        ensures
            r.team_id@ == team_id@,
    {
        TeamInvoiceList { team_id: String::from_str(team_id) }
    }
}

impl HerokuEndpoint for TeamInvoiceList {
    open spec fn spec_method(&self) -> Method {
        Method::Get
    }

    open spec fn spec_path(&self) -> Seq<char> {
        "teams/"@ + self.team_id@ + "/invoices"@
    }

    open spec fn spec_body(&self) -> Option<Seq<FieldView>> {
        None
    }

    open spec fn spec_response_kind(&self) -> ResponseKind {
        ResponseKind::List
    }

    open spec fn spec_content_type(&self) -> ContentType {
        ContentType::Json
    }

    open spec fn spec_supports_pagination(&self) -> bool {
        false
    }

    fn method(&self) -> (m: Method) {
        Method::Get
    }

    fn path(&self) -> (p: String) {
        let mut p = String::from_str("teams/");
        p.append(self.team_id.as_str());
        p.append("/invoices");
        p
    }

    fn body(&self) -> (b: Option<JsonObject>) {
        None
    }

    fn response_kind(&self) -> (k: ResponseKind) {
        ResponseKind::List
    }

    fn content_type(&self) -> (c: ContentType) {
        ContentType::Json
    }

    fn supports_pagination(&self) -> (b: bool) {
        false
    }
}

/// Team Invoice Info
///
/// Info for an existing invoice.  Expects one invoice object back.
#[derive(Clone, Debug, PartialEq)]
pub struct TeamInvoiceDetails {
    /// unique team identifier, either name or id.
    pub team_id: String,
    /// invoice number.
    pub invoice_id: String,
}

impl TeamInvoiceDetails {
    /// Builds the descriptor from its path parameters.
    pub fn new(team_id: &str, invoice_id: &str) -> (r: TeamInvoiceDetails)
        ensures
            r.team_id@ == team_id@,
            r.invoice_id@ == invoice_id@,
    {
        TeamInvoiceDetails { team_id: String::from_str(team_id), invoice_id: String::from_str(invoice_id) }
    }
}

impl HerokuEndpoint for TeamInvoiceDetails {
    open spec fn spec_method(&self) -> Method {
        Method::Get
    }

    open spec fn spec_path(&self) -> Seq<char> {
        "teams/"@ + self.team_id@ + "/invoices/"@ + self.invoice_id@
    }

    open spec fn spec_body(&self) -> Option<Seq<FieldView>> {
        None
    }

    open spec fn spec_response_kind(&self) -> ResponseKind {
        ResponseKind::Single
    }

    open spec fn spec_content_type(&self) -> ContentType {
        ContentType::Json
    }

    open spec fn spec_supports_pagination(&self) -> bool {
        false
    }

    fn method(&self) -> (m: Method) {
        Method::Get
    }

    fn path(&self) -> (p: String) {
        let mut p = String::from_str("teams/");
        p.append(self.team_id.as_str());
        p.append("/invoices/");
        p.append(self.invoice_id.as_str());
        p
    }

    fn body(&self) -> (b: Option<JsonObject>) {
        None
    }

    fn response_kind(&self) -> (k: ResponseKind) {
        ResponseKind::Single
    }

    fn content_type(&self) -> (c: ContentType) {
        ContentType::Json
    }

    fn supports_pagination(&self) -> (b: bool) {
        false
    }
}

/// Team Member List
///
/// List members of the team.  Expects a list of member objects back.
#[derive(Clone, Debug, PartialEq)]
pub struct TeamMemberList {
    /// unique team identifier, either name or id.
    pub team_id: String,
}

impl TeamMemberList {
    /// Builds the descriptor from its path parameters.
    pub fn new(team_id: &str) -> (r: TeamMemberList)
        ensures
            r.team_id@ == team_id@,
    {
        TeamMemberList { team_id: String::from_str(team_id) }
    }
}

impl HerokuEndpoint for TeamMemberList {
    open spec fn spec_method(&self) -> Method {
        Method::Get
    }

    open spec fn spec_path(&self) -> Seq<char> {
        "teams/"@ + self.team_id@ + "/members"@
    }

    open spec fn spec_body(&self) -> Option<Seq<FieldView>> {
        None
    }

    open spec fn spec_response_kind(&self) -> ResponseKind {
        ResponseKind::List
    }

    open spec fn spec_content_type(&self) -> ContentType {
        ContentType::Json
    }

    open spec fn spec_supports_pagination(&self) -> bool {
        false
    }

    fn method(&self) -> (m: Method) {
        Method::Get
    }

    fn path(&self) -> (p: String) {
        let mut p = String::from_str("teams/");
        p.append(self.team_id.as_str());
        p.append("/members");
        p
    }

    fn body(&self) -> (b: Option<JsonObject>) {
        None
    }

    fn response_kind(&self) -> (k: ResponseKind) {
        ResponseKind::List
    }

    fn content_type(&self) -> (c: ContentType) {
        ContentType::Json
    }

    fn supports_pagination(&self) -> (b: bool) {
        false
    }
}

/// Team Member Apps List
///
/// List the apps of a team member.  Expects a list of app objects back.
#[derive(Clone, Debug, PartialEq)]
pub struct TeamMemberAppsList {
    /// unique team identifier, either name or id.
    pub team_id: String,
    /// unique team member identifier, either email or id.
    pub member_id: String,
}

impl TeamMemberAppsList {
    /// Builds the descriptor from its path parameters.
    pub fn new(team_id: &str, member_id: &str) -> (r: TeamMemberAppsList)
        ensures
            r.team_id@ == team_id@,
            r.member_id@ == member_id@,
    {
        TeamMemberAppsList { team_id: String::from_str(team_id), member_id: String::from_str(member_id) }
    }
}

impl HerokuEndpoint for TeamMemberAppsList {
    open spec fn spec_method(&self) -> Method {
        Method::Get
    }

    open spec fn spec_path(&self) -> Seq<char> {
        "teams/"@ + self.team_id@ + "/members/"@ + self.member_id@ + "/apps"@
    }

    open spec fn spec_body(&self) -> Option<Seq<FieldView>> {
        None
    }

    open spec fn spec_response_kind(&self) -> ResponseKind {
        ResponseKind::List
    }

    open spec fn spec_content_type(&self) -> ContentType {
        ContentType::Json
    }

    open spec fn spec_supports_pagination(&self) -> bool {
        false
    }

    fn method(&self) -> (m: Method) {
        Method::Get
    }

    fn path(&self) -> (p: String) {
        let mut p = String::from_str("teams/");
        p.append(self.team_id.as_str());
        p.append("/members/");
        p.append(self.member_id.as_str());
        p.append("/apps");
        p
    }

    fn body(&self) -> (b: Option<JsonObject>) {
        None
    }

    fn response_kind(&self) -> (k: ResponseKind) {
        ResponseKind::List
    }

    fn content_type(&self) -> (c: ContentType) {
        ContentType::Json
    }

    fn supports_pagination(&self) -> (b: bool) {
        false
    }
}

/// Team Preferences List
///
/// Retrieve team preferences.  Expects one preferences object back.
#[derive(Clone, Debug, PartialEq)]
pub struct TeamPreferenceList {
    /// unique identifier.
    pub id: String,
}

impl TeamPreferenceList {
    /// Builds the descriptor from its path parameters.
    pub fn new(id: &str) -> (r: TeamPreferenceList)
        ensures
            r.id@ == id@,
    {
        TeamPreferenceList { id: String::from_str(id) }
    }
}

impl HerokuEndpoint for TeamPreferenceList {
    open spec fn spec_method(&self) -> Method {
        Method::Get
    }

    open spec fn spec_path(&self) -> Seq<char> {
        "teams/"@ + self.id@ + "/preferences"@
    }

    open spec fn spec_body(&self) -> Option<Seq<FieldView>> {
        None
    }

    open spec fn spec_response_kind(&self) -> ResponseKind {
        ResponseKind::Single
    }

    open spec fn spec_content_type(&self) -> ContentType {
        ContentType::Json
    }

    open spec fn spec_supports_pagination(&self) -> bool {
        false
    }

    fn method(&self) -> (m: Method) {
        Method::Get
    }

    fn path(&self) -> (p: String) {
        let mut p = String::from_str("teams/");
        p.append(self.id.as_str());
        p.append("/preferences");
        p
    }

    fn body(&self) -> (b: Option<JsonObject>) {
        None
    }

    fn response_kind(&self) -> (k: ResponseKind) {
        ResponseKind::Single
    }

    fn content_type(&self) -> (c: ContentType) {
        ContentType::Json
    }

    fn supports_pagination(&self) -> (b: bool) {
        false
    }
}

/// Team Create
///
/// Create a new team.  Carries the new team's name as its body payload
/// and expects the created team object back.
#[derive(Clone, Debug, PartialEq)]
pub struct TeamCreate {
    /// unique name of the new team.
    pub name: String,
}

impl TeamCreate {
    /// Builds the descriptor from the new team's name.
    pub fn new(name: &str) -> (r: TeamCreate)
        ensures
            r.name@ == name@,
    {
        TeamCreate { name: String::from_str(name) }
    }
}

impl HerokuEndpoint for TeamCreate {
    open spec fn spec_method(&self) -> Method {
        Method::Post
    }

    open spec fn spec_path(&self) -> Seq<char> {
        "teams"@
    }

    open spec fn spec_body(&self) -> Option<Seq<FieldView>> {
        Some(seq![FieldView { key: "name"@, value: self.name@ }])
    }

    open spec fn spec_response_kind(&self) -> ResponseKind {
        ResponseKind::Single
    }

    open spec fn spec_content_type(&self) -> ContentType {
        ContentType::Json
    }

    open spec fn spec_supports_pagination(&self) -> bool {
        false
    }

    fn method(&self) -> (m: Method) {
        Method::Post
    }

    fn path(&self) -> (p: String) {
        String::from_str("teams")
    }

    fn body(&self) -> (b: Option<JsonObject>) {
        let mut fields: Vec<JsonField> = Vec::new();
        fields.push(JsonField { key: String::from_str("name"), value: self.name.clone() });
        let o = JsonObject { fields };
        proof {
            assert(o@ =~= seq![FieldView { key: "name"@, value: self.name@ }]);
        }
        Some(o)
    }

    fn response_kind(&self) -> (k: ResponseKind) {
        ResponseKind::Single
    }

    fn content_type(&self) -> (c: ContentType) {
        ContentType::Json
    }

    fn supports_pagination(&self) -> (b: bool) {
        false
    }
}

} // verus!
