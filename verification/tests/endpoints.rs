use heroku_rs::endpoint::{HerokuEndpoint, Method, ResponseKind};
use heroku_rs::oauth::{OAuthClientDetails, OAuthClientList, OAuthDetails, OAuthList};
use heroku_rs::teams::{
    TeamAppDetails, TeamAppList, TeamAppPermissionList, TeamDetails, TeamFeatureDetails,
    TeamFeatureList, TeamInvitationDetails, TeamInvitationList, TeamInvoiceDetails,
    TeamInvoiceList, TeamList, TeamListByEA, TeamMemberAppsList, TeamMemberList,
    TeamPreferenceList,
};

#[test]
fn accessors_are_deterministic() {
    let d = TeamDetails::new("TEAM_ID");
    assert_eq!(d.method(), d.method());
    assert_eq!(d.path(), d.path());
    assert_eq!(d.response_kind(), d.response_kind());
    assert_eq!(d.supports_pagination(), d.supports_pagination());
    assert!(d.body().is_none());
}

#[test]
fn new_keeps_the_identifier() {
    let d = TeamDetails::new("my-team");
    assert_eq!(d.team_id, "my-team");
    let f = TeamFeatureDetails::new("t", "f");
    assert_eq!(f.team_id, "t");
    assert_eq!(f.feature_id, "f");
}

#[test]
fn team_paths() {
    assert_eq!(TeamDetails::new("TEAM_ID").path(), "teams/TEAM_ID");
    assert_eq!(TeamList::new().path(), "teams");
    assert_eq!(TeamListByEA::new("ACCOUNT_ID").path(), "enterprise-accounts/ACCOUNT_ID/teams");
    assert_eq!(TeamAppDetails::new("APP_ID").path(), "teams/apps/APP_ID");
    assert_eq!(TeamAppList::new("TEAM_ID").path(), "teams/TEAM_ID/apps");
    assert_eq!(TeamAppPermissionList::new().path(), "teams/permissions");
    assert_eq!(TeamFeatureList::new("TEAM_ID").path(), "teams/TEAM_ID/features");
    assert_eq!(TeamFeatureDetails::new("TEAM_ID", "FEATURE_ID").path(), "teams/TEAM_ID/features/FEATURE_ID");
    assert_eq!(TeamInvitationList::new("TEAM_ID").path(), "teams/TEAM_ID/invitations");
    assert_eq!(TeamInvitationDetails::new("TOKEN_ID").path(), "teams/invitations/TOKEN_ID");
    assert_eq!(TeamInvoiceList::new("TEAM_ID").path(), "teams/TEAM_ID/invoices");
    assert_eq!(TeamInvoiceDetails::new("TEAM_ID", "INVOICE_ID").path(), "teams/TEAM_ID/invoices/INVOICE_ID");
    assert_eq!(TeamMemberList::new("TEAM_ID").path(), "teams/TEAM_ID/members");
    assert_eq!(TeamMemberAppsList::new("TEAM_ID", "MEMBER_ID").path(), "teams/TEAM_ID/members/MEMBER_ID/apps");
    assert_eq!(TeamPreferenceList::new("ID").path(), "teams/ID/preferences");
}

#[test]
fn oauth_paths() {
    let d = OAuthDetails { oauth_id: String::from("OAUTH_ID") };
    assert_eq!(d.path(), "oauth/authorizations/OAUTH_ID");
    assert_eq!(OAuthList {}.path(), "oauth/authorizations");
    let c = OAuthClientDetails { client_id: String::from("CLIENT_ID") };
    assert_eq!(c.path(), "oauth/clients/CLIENT_ID");
    assert_eq!(OAuthClientList {}.path(), "oauth/clients");
}

#[test]
fn methods_are_get() {
    assert_eq!(TeamDetails::new("t").method(), Method::Get);
    assert_eq!(TeamList::new().method(), Method::Get);
    assert_eq!(OAuthList {}.method(), Method::Get);
}

#[test]
fn response_kinds_match_the_operation() {
    assert_eq!(TeamDetails::new("t").response_kind(), ResponseKind::Single);
    assert_eq!(TeamList::new().response_kind(), ResponseKind::List);
    assert_eq!(TeamListByEA::new("a").response_kind(), ResponseKind::List);
    assert_eq!(TeamAppDetails::new("a").response_kind(), ResponseKind::Single);
    assert_eq!(TeamPreferenceList::new("i").response_kind(), ResponseKind::Single);
    assert_eq!(OAuthDetails { oauth_id: String::from("o") }.response_kind(), ResponseKind::Single);
    assert_eq!(OAuthClientList {}.response_kind(), ResponseKind::List);
}

#[test]
fn paths_never_carry_a_base_url() {
    let base = "https://api.example.com/";
    assert!(!TeamDetails::new("TEAM_ID").path().contains(base));
    assert!(!TeamList::new().path().contains(base));
    assert!(!TeamMemberAppsList::new("TEAM_ID", "MEMBER_ID").path().contains(base));
    assert!(!OAuthList {}.path().contains(base));
}
