use herder::api::v1::methods::{
    APIEndpoint, AccountID, HomeTimelineQuery, NotificationID, RelationshipsQuery,
    SearchAccountsQuery, SearchContentsQuery, StatusID, TagID, TimelineQuery, UserFormData,
};
use herder::api::{APIMethodRequest, HttpMethod};
use herder::{Client, Mastodon};
use hyper::Uri;
use std::str::FromStr;

const BASE_URL: &str = "http://localhost:3000";
const MY_TOKEN: &str = "MY_TOKEN";

fn client() -> Client {
    Mastodon::new(BASE_URL).unwrap().client(MY_TOKEN).unwrap()
}

// The path of the request as the transport will see it.
fn uri_path(request: &APIMethodRequest) -> String {
    Uri::from_str(&request.uri).unwrap().path().to_string()
}

// The query of the request as the transport will see it.
fn uri_query(request: &APIMethodRequest) -> Option<String> {
    Uri::from_str(&request.uri).unwrap().query().map(String::from)
}

fn authorization(request: &APIMethodRequest) -> Option<String> {
    request.header("Authorization").cloned()
}

// APIEndpoint::FetchAccount(AccountID)
#[test]
fn api_request_fetch_account() {
    let endpoint = APIEndpoint::FetchAccount(AccountID { id: 12345 });
    let request = client().build_request(endpoint).unwrap();
    assert_eq!(request.method, HttpMethod::Get);
    assert_eq!(uri_path(&request), "/api/v1/accounts/12345");
    assert_eq!(request.path, "/api/v1/accounts/12345");
    assert_eq!(authorization(&request), Some(String::from("Bearer MY_TOKEN")));
    assert_eq!(request.query, None);
}

// APIEndpoint::GetCurrentUser
#[test]
fn api_request_get_current_user() {
    let endpoint = APIEndpoint::GetCurrentUser;
    let request = client().build_request(endpoint).unwrap();
    assert_eq!(request.method, HttpMethod::Get);
    assert_eq!(uri_path(&request), "/api/v1/accounts/verify_credentials");
    assert_eq!(request.path, "/api/v1/accounts/verify_credentials");
    assert_eq!(authorization(&request), Some(String::from("Bearer MY_TOKEN")));
}

// APIEndpoint::UpdateCurrentUser(UserFormData)
#[test]
fn api_request_update_current_user() {
    let endpoint = APIEndpoint::UpdateCurrentUser(UserFormData::new(None, None, None, None));
    let request = client().build_request(endpoint).unwrap();
    assert_eq!(request.method, HttpMethod::Patch);
    assert_eq!(uri_path(&request), "/api/v1/accounts/update_credentials");
    assert_eq!(request.path, "/api/v1/accounts/update_credentials");
    assert_eq!(authorization(&request), Some(String::from("Bearer MY_TOKEN")));
    assert_eq!(request.body, Some(String::from("{}")));
}

// APIEndpoint::GetAccountFollowers(AccountID)
#[test]
fn api_request_get_account_followers() {
    let endpoint = APIEndpoint::GetAccountFollowers(AccountID { id: 12345 });
    let request = client().build_request(endpoint).unwrap();
    assert_eq!(request.method, HttpMethod::Get);
    assert_eq!(uri_path(&request), "/api/v1/accounts/12345/followers");
    assert_eq!(request.path, "/api/v1/accounts/12345/followers");
    assert_eq!(authorization(&request), Some(String::from("Bearer MY_TOKEN")));
}

// APIEndpoint::GetFollowing(AccountID)
#[test]
fn api_request_get_account_following() {
    let endpoint = APIEndpoint::GetFollowing(AccountID { id: 12345 });
    let request = client().build_request(endpoint).unwrap();
    assert_eq!(request.method, HttpMethod::Get);
    assert_eq!(uri_path(&request), "/api/v1/accounts/12345/following");
    assert_eq!(request.path, "/api/v1/accounts/12345/following");
    assert_eq!(authorization(&request), Some(String::from("Bearer MY_TOKEN")));
}

// APIEndpoint::GetAccountStatuses(AccountID)
#[test]
fn api_request_get_account_statuses() {
    let endpoint = APIEndpoint::GetAccountStatuses(AccountID { id: 12345 });
    let request = client().build_request(endpoint).unwrap();
    assert_eq!(request.method, HttpMethod::Get);
    assert_eq!(uri_path(&request), "/api/v1/accounts/12345/statuses");
    assert_eq!(request.path, "/api/v1/accounts/12345/statuses");
    assert_eq!(authorization(&request), Some(String::from("Bearer MY_TOKEN")));
}

// APIEndpoint::FollowAccount(AccountID)
#[test]
fn api_request_following_an_account() {
    let endpoint = APIEndpoint::FollowAccount(AccountID { id: 12345 });
    let request = client().build_request(endpoint).unwrap();
    assert_eq!(request.method, HttpMethod::Post);
    assert_eq!(uri_path(&request), "/api/v1/accounts/12345/follow");
    assert_eq!(request.path, "/api/v1/accounts/12345/follow");
    assert_eq!(authorization(&request), Some(String::from("Bearer MY_TOKEN")));
}

// APIEndpoint::UnfollowAccount(AccountID)
#[test]
fn api_request_unfollowing_an_account() {
    let endpoint = APIEndpoint::UnfollowAccount(AccountID { id: 12345 });
    let request = client().build_request(endpoint).unwrap();
    assert_eq!(request.method, HttpMethod::Post);
    assert_eq!(uri_path(&request), "/api/v1/accounts/12345/unfollow");
    assert_eq!(request.path, "/api/v1/accounts/12345/unfollow");
    assert_eq!(authorization(&request), Some(String::from("Bearer MY_TOKEN")));
}

// APIEndpoint::BlockAccount(AccountID)
#[test]
fn api_request_block_an_account() {
    let endpoint = APIEndpoint::BlockAccount(AccountID { id: 12345 });
    let request = client().build_request(endpoint).unwrap();
    assert_eq!(request.method, HttpMethod::Post);
    assert_eq!(uri_path(&request), "/api/v1/accounts/12345/block");
    assert_eq!(request.path, "/api/v1/accounts/12345/block");
    assert_eq!(authorization(&request), Some(String::from("Bearer MY_TOKEN")));
}

// APIEndpoint::UnblockAccount(AccountID)
#[test]
fn api_request_unblock_an_account() {
    let endpoint = APIEndpoint::UnblockAccount(AccountID { id: 12345 });
    let request = client().build_request(endpoint).unwrap();
    assert_eq!(request.method, HttpMethod::Post);
    assert_eq!(uri_path(&request), "/api/v1/accounts/12345/unblock");
    assert_eq!(request.path, "/api/v1/accounts/12345/unblock");
    assert_eq!(authorization(&request), Some(String::from("Bearer MY_TOKEN")));
}

// APIEndpoint::MuteAccount(AccountID)
#[test]
fn api_request_mute_an_account() {
    let endpoint = APIEndpoint::MuteAccount(AccountID { id: 12345 });
    let request = client().build_request(endpoint).unwrap();
    assert_eq!(request.method, HttpMethod::Post);
    assert_eq!(uri_path(&request), "/api/v1/accounts/12345/mute");
    assert_eq!(request.path, "/api/v1/accounts/12345/mute");
    assert_eq!(authorization(&request), Some(String::from("Bearer MY_TOKEN")));
}

// APIEndpoint::UnmuteAccount(AccountID)
#[test]
fn api_request_unmute_an_account() {
    let endpoint = APIEndpoint::UnmuteAccount(AccountID { id: 12345 });
    let request = client().build_request(endpoint).unwrap();
    assert_eq!(request.method, HttpMethod::Post);
    assert_eq!(uri_path(&request), "/api/v1/accounts/12345/unmute");
    assert_eq!(request.path, "/api/v1/accounts/12345/unmute");
    assert_eq!(authorization(&request), Some(String::from("Bearer MY_TOKEN")));
}

// APIEndpoint::GetAccountRelationships(RelationshipsQuery::SingleAccount)
#[test]
fn api_request_single_account_relationship() {
    let endpoint = APIEndpoint::GetAccountRelationships(RelationshipsQuery::SingleAccount(AccountID { id: 12345 }));
    let request = client().build_request(endpoint).unwrap();
    assert_eq!(request.method, HttpMethod::Get);
    assert_eq!(uri_path(&request), "/api/v1/accounts/relationships");
    assert_eq!(request.path, "/api/v1/accounts/relationships");
    assert_eq!(authorization(&request), Some(String::from("Bearer MY_TOKEN")));
    assert_eq!(request.query, Some(String::from("id=12345")));
    assert_eq!(uri_query(&request), Some(String::from("id=12345")));
}

// APIEndpoint::GetAccountRelationships(RelationshipsQuery::MultipleAccounts)
#[test]
fn api_request_many_accounts_relationship() {
    let endpoint = APIEndpoint::GetAccountRelationships(RelationshipsQuery::MultipleAccounts(vec![
        AccountID { id: 12345 },
        AccountID { id: 67890 },
    ]));
    let request = client().build_request(endpoint).unwrap();
    assert_eq!(request.method, HttpMethod::Get);
    assert_eq!(uri_path(&request), "/api/v1/accounts/relationships");
    assert_eq!(request.path, "/api/v1/accounts/relationships");
    assert_eq!(authorization(&request), Some(String::from("Bearer MY_TOKEN")));
    assert_eq!(request.query, Some(String::from("id[]=12345&id[]=67890")));
    assert_eq!(uri_query(&request), Some(String::from("id[]=12345&id[]=67890")));
    assert_eq!(
        request.uri,
        "http://localhost:3000/api/v1/accounts/relationships?id[]=12345&id[]=67890"
    );
}

// APIEndpoint::SearchAccounts(SearchAccountsQuery)
#[test]
fn api_request_search_accounts() {
    let endpoint = APIEndpoint::SearchAccounts(SearchAccountsQuery {
        q: String::from("search text"),
        limit: None,
    });
    let request = client().build_request(endpoint).unwrap();
    assert_eq!(request.method, HttpMethod::Get);
    assert_eq!(uri_path(&request), "/api/v1/accounts/search");
    assert_eq!(request.path, "/api/v1/accounts/search");
    assert_eq!(authorization(&request), Some(String::from("Bearer MY_TOKEN")));
    assert_eq!(request.query, Some(String::from("q=search+text")));
}

// APIEndpoint::FetchBlocks(query)
#[test]
fn fetching_blocks_is_a_get_of_the_blocks() {
    let endpoint = APIEndpoint::FetchBlocks(String::from("limit=12345"));
    let request = client().build_request(endpoint).unwrap();
    assert_eq!(request.method, HttpMethod::Get);
    assert_eq!(uri_path(&request), "/api/v1/blocks");
    assert_eq!(request.path, "/api/v1/blocks");
    assert_eq!(authorization(&request), Some(String::from("Bearer MY_TOKEN")));
    assert_eq!(request.query, Some(String::from("limit=12345")));
}

// APIEndpoint::FetchFavourites(query)
#[test]
fn api_request_fetch_favourites() {
    let endpoint = APIEndpoint::FetchFavourites(String::new());
    let request = client().build_request(endpoint).unwrap();
    assert_eq!(request.method, HttpMethod::Get);
    assert_eq!(uri_path(&request), "/api/v1/favourites");
    assert_eq!(request.path, "/api/v1/favourites");
    assert_eq!(authorization(&request), Some(String::from("Bearer MY_TOKEN")));
    assert_eq!(request.query, None);
}

// APIEndpoint::FetchFollowRequests(query)
#[test]
fn api_request_fetch_follow_requests() {
    let endpoint = APIEndpoint::FetchFollowRequests(String::from("since_id=7"));
    let request = client().build_request(endpoint).unwrap();
    assert_eq!(request.method, HttpMethod::Get);
    assert_eq!(uri_path(&request), "/api/v1/follow_requests");
    assert_eq!(request.path, "/api/v1/follow_requests");
    assert_eq!(authorization(&request), Some(String::from("Bearer MY_TOKEN")));
    assert_eq!(uri_query(&request), Some(String::from("since_id=7")));
}

// APIEndpoint::AuthorizeFollowRequest(AccountID)
#[test]
fn api_request_authorize_follow_request() {
    let endpoint = APIEndpoint::AuthorizeFollowRequest(AccountID { id: 12345 });
    let request = client().build_request(endpoint).unwrap();
    assert_eq!(request.method, HttpMethod::Post);
    assert_eq!(uri_path(&request), "/api/v1/follow_requests/12345/authorize");
    assert_eq!(request.path, "/api/v1/follow_requests/12345/authorize");
    assert_eq!(authorization(&request), Some(String::from("Bearer MY_TOKEN")));
}

// APIEndpoint::RejectFollowRequest(AccountID)
#[test]
fn api_request_reject_follow_request() {
    let endpoint = APIEndpoint::RejectFollowRequest(AccountID { id: 12345 });
    let request = client().build_request(endpoint).unwrap();
    assert_eq!(request.method, HttpMethod::Post);
    assert_eq!(uri_path(&request), "/api/v1/follow_requests/12345/reject");
    assert_eq!(request.path, "/api/v1/follow_requests/12345/reject");
    assert_eq!(authorization(&request), Some(String::from("Bearer MY_TOKEN")));
}

// APIEndpoint::FollowRemoteUser(body)
#[test]
fn api_request_follow_remote_user() {
    let endpoint = APIEndpoint::FollowRemoteUser(String::from("{\"uri\":\"user@example.org\"}"));
    let request = client().build_request(endpoint).unwrap();
    assert_eq!(request.method, HttpMethod::Post);
    assert_eq!(uri_path(&request), "/api/v1/follows");
    assert_eq!(request.path, "/api/v1/follows");
    assert_eq!(authorization(&request), Some(String::from("Bearer MY_TOKEN")));
    assert_eq!(request.body, Some(String::from("{\"uri\":\"user@example.org\"}")));
    assert_eq!(request.header("Content-Type"), Some(&String::from("application/json")));
}

// APIEndpoint::GetInstance
#[test]
fn api_request_get_instance() {
    let endpoint = APIEndpoint::GetInstance;
    let request = client().build_request(endpoint).unwrap();
    assert_eq!(request.method, HttpMethod::Get);
    assert_eq!(uri_path(&request), "/api/v1/instance");
    assert_eq!(request.path, "/api/v1/instance");
    assert_eq!(authorization(&request), None);
}

// APIEndpoint::UploadMedia(body)
#[test]
fn api_request_upload_media() {
    let endpoint = APIEndpoint::UploadMedia(String::from("{}"));
    let request = client().build_request(endpoint).unwrap();
    assert_eq!(request.method, HttpMethod::Post);
    assert_eq!(uri_path(&request), "/api/v1/media");
    assert_eq!(request.path, "/api/v1/media");
    assert_eq!(authorization(&request), Some(String::from("Bearer MY_TOKEN")));
}

// APIEndpoint::FetchMutes(query)
#[test]
fn api_request_fetch_mutes() {
    let endpoint = APIEndpoint::FetchMutes(String::new());
    let request = client().build_request(endpoint).unwrap();
    assert_eq!(request.method, HttpMethod::Get);
    assert_eq!(uri_path(&request), "/api/v1/mutes");
    assert_eq!(request.path, "/api/v1/mutes");
    assert_eq!(authorization(&request), Some(String::from("Bearer MY_TOKEN")));
}

// APIEndpoint::FetchNotifications(query)
#[test]
fn api_request_fetch_notifications() {
    let endpoint = APIEndpoint::FetchNotifications(String::from("max_id=9&limit=2"));
    let request = client().build_request(endpoint).unwrap();
    assert_eq!(request.method, HttpMethod::Get);
    assert_eq!(uri_path(&request), "/api/v1/notifications");
    assert_eq!(request.path, "/api/v1/notifications");
    assert_eq!(authorization(&request), Some(String::from("Bearer MY_TOKEN")));
    assert_eq!(request.query, Some(String::from("max_id=9&limit=2")));
}

// APIEndpoint::GetNotification(NotificationID)
#[test]
fn api_request_get_notification() {
    let endpoint = APIEndpoint::GetNotification(NotificationID { id: 12345 });
    let request = client().build_request(endpoint).unwrap();
    assert_eq!(request.method, HttpMethod::Get);
    assert_eq!(uri_path(&request), "/api/v1/notifications/12345");
    assert_eq!(request.path, "/api/v1/notifications/12345");
    assert_eq!(authorization(&request), Some(String::from("Bearer MY_TOKEN")));
}

// APIEndpoint::ClearNotifications
#[test]
fn api_request_clear_notifications() {
    let endpoint = APIEndpoint::ClearNotifications;
    let request = client().build_request(endpoint).unwrap();
    assert_eq!(request.method, HttpMethod::Post);
    assert_eq!(uri_path(&request), "/api/v1/notifications/clear");
    assert_eq!(request.path, "/api/v1/notifications/clear");
    assert_eq!(authorization(&request), Some(String::from("Bearer MY_TOKEN")));
}

// APIEndpoint::FetchingReports
#[test]
fn api_request_fetching_reports() {
    let endpoint = APIEndpoint::FetchingReports;
    let request = client().build_request(endpoint).unwrap();
    assert_eq!(request.method, HttpMethod::Get);
    assert_eq!(uri_path(&request), "/api/v1/reports");
    assert_eq!(request.path, "/api/v1/reports");
    assert_eq!(authorization(&request), Some(String::from("Bearer MY_TOKEN")));
}

// APIEndpoint::ReportingUser(body)
#[test]
fn api_request_reporting_user() {
    let endpoint = APIEndpoint::ReportingUser(String::from("{\"account_id\":1}"));
    let request = client().build_request(endpoint).unwrap();
    assert_eq!(request.method, HttpMethod::Post);
    assert_eq!(uri_path(&request), "/api/v1/reports");
    assert_eq!(request.path, "/api/v1/reports");
    assert_eq!(authorization(&request), Some(String::from("Bearer MY_TOKEN")));
}

// APIEndpoint::SearchContent(SearchContentsQuery)
#[test]
fn api_request_search_content() {
    let endpoint = APIEndpoint::SearchContent(SearchContentsQuery {
        q: String::from("rust & verus"),
        resolve: Some(true),
    });
    let request = client().build_request(endpoint).unwrap();
    assert_eq!(request.method, HttpMethod::Get);
    assert_eq!(uri_path(&request), "/api/v1/search");
    assert_eq!(request.path, "/api/v1/search");
    assert_eq!(authorization(&request), None);
    assert_eq!(request.query, Some(String::from("q=rust+%26+verus&resolve=true")));
}

// APIEndpoint::FetchStatus(StatusID)
#[test]
fn api_request_fetch_status() {
    let endpoint = APIEndpoint::FetchStatus(StatusID { id: 12345 });
    let request = client().build_request(endpoint).unwrap();
    assert_eq!(request.method, HttpMethod::Get);
    assert_eq!(uri_path(&request), "/api/v1/statuses/12345");
    assert_eq!(request.path, "/api/v1/statuses/12345");
    assert_eq!(authorization(&request), None);
}

// APIEndpoint::GetStatusContext(StatusID)
#[test]
fn api_request_get_status_context() {
    let endpoint = APIEndpoint::GetStatusContext(StatusID { id: 12345 });
    let request = client().build_request(endpoint).unwrap();
    assert_eq!(request.method, HttpMethod::Get);
    assert_eq!(uri_path(&request), "/api/v1/statuses/12345/context");
    assert_eq!(request.path, "/api/v1/statuses/12345/context");
    assert_eq!(authorization(&request), None);
}

// APIEndpoint::GetStatusCard(StatusID)
#[test]
fn api_request_get_status_card() {
    let endpoint = APIEndpoint::GetStatusCard(StatusID { id: 12345 });
    let request = client().build_request(endpoint).unwrap();
    assert_eq!(request.method, HttpMethod::Get);
    assert_eq!(uri_path(&request), "/api/v1/statuses/12345/card");
    assert_eq!(request.path, "/api/v1/statuses/12345/card");
    assert_eq!(authorization(&request), None);
}

// APIEndpoint::RebloggedBy(StatusID)
#[test]
fn api_request_reblogged_by() {
    let endpoint = APIEndpoint::RebloggedBy(StatusID { id: 12345 });
    let request = client().build_request(endpoint).unwrap();
    assert_eq!(request.method, HttpMethod::Get);
    assert_eq!(uri_path(&request), "/api/v1/statuses/12345/reblogged_by");
    assert_eq!(request.path, "/api/v1/statuses/12345/reblogged_by");
    assert_eq!(authorization(&request), None);
}

// APIEndpoint::FavouritedBy(StatusID)
#[test]
fn api_request_favourited_by() {
    let endpoint = APIEndpoint::FavouritedBy(StatusID { id: 12345 });
    let request = client().build_request(endpoint).unwrap();
    assert_eq!(request.method, HttpMethod::Get);
    assert_eq!(uri_path(&request), "/api/v1/statuses/12345/favourited_by");
    assert_eq!(request.path, "/api/v1/statuses/12345/favourited_by");
    assert_eq!(authorization(&request), None);
}

// APIEndpoint::PostStatus(body)
#[test]
fn api_request_post_status() {
    let endpoint = APIEndpoint::PostStatus(String::from("status=hello"));
    let request = client().build_request(endpoint).unwrap();
    assert_eq!(request.method, HttpMethod::Post);
    assert_eq!(uri_path(&request), "/api/v1/statuses");
    assert_eq!(request.path, "/api/v1/statuses");
    assert_eq!(authorization(&request), Some(String::from("Bearer MY_TOKEN")));
    assert_eq!(request.body, Some(String::from("status=hello")));
    assert_eq!(
        request.header("Content-Type"),
        Some(&String::from("application/x-www-form-urlencoded"))
    );
}

// APIEndpoint::DeleteStatus(StatusID)
#[test]
fn api_request_delete_status() {
    let endpoint = APIEndpoint::DeleteStatus(StatusID { id: 12345 });
    let request = client().build_request(endpoint).unwrap();
    assert_eq!(request.method, HttpMethod::Delete);
    assert_eq!(uri_path(&request), "/api/v1/statuses/12345");
    assert_eq!(request.path, "/api/v1/statuses/12345");
    assert_eq!(authorization(&request), Some(String::from("Bearer MY_TOKEN")));
}

// APIEndpoint::ReblogStatus(StatusID)
#[test]
fn api_request_reblog_status() {
    let endpoint = APIEndpoint::ReblogStatus(StatusID { id: 12345 });
    let request = client().build_request(endpoint).unwrap();
    assert_eq!(request.method, HttpMethod::Post);
    assert_eq!(uri_path(&request), "/api/v1/statuses/12345/reblog");
    assert_eq!(request.path, "/api/v1/statuses/12345/reblog");
    assert_eq!(authorization(&request), Some(String::from("Bearer MY_TOKEN")));
}

// APIEndpoint::UnreblogStatus(StatusID)
#[test]
fn api_request_unreblog_status() {
    let endpoint = APIEndpoint::UnreblogStatus(StatusID { id: 12345 });
    let request = client().build_request(endpoint).unwrap();
    assert_eq!(request.method, HttpMethod::Post);
    assert_eq!(uri_path(&request), "/api/v1/statuses/12345/unreblog");
    assert_eq!(request.path, "/api/v1/statuses/12345/unreblog");
    assert_eq!(authorization(&request), Some(String::from("Bearer MY_TOKEN")));
}

// APIEndpoint::FavouriteStatus(StatusID)
#[test]
fn api_request_favourite_status() {
    let endpoint = APIEndpoint::FavouriteStatus(StatusID { id: 12345 });
    let request = client().build_request(endpoint).unwrap();
    assert_eq!(request.method, HttpMethod::Post);
    assert_eq!(uri_path(&request), "/api/v1/statuses/12345/favourite");
    assert_eq!(request.path, "/api/v1/statuses/12345/favourite");
    assert_eq!(authorization(&request), Some(String::from("Bearer MY_TOKEN")));
}

// APIEndpoint::UnfavouriteStatus(StatusID)
#[test]
fn api_request_unfavourite_status() {
    let endpoint = APIEndpoint::UnfavouriteStatus(StatusID { id: 12345 });
    let request = client().build_request(endpoint).unwrap();
    assert_eq!(request.method, HttpMethod::Post);
    assert_eq!(uri_path(&request), "/api/v1/statuses/12345/unfavourite");
    assert_eq!(request.path, "/api/v1/statuses/12345/unfavourite");
    assert_eq!(authorization(&request), Some(String::from("Bearer MY_TOKEN")));
}

// APIEndpoint::HomeTimeline(HomeTimelineQuery)
#[test]
fn api_request_home_timeline() {
    let endpoint = APIEndpoint::HomeTimeline(HomeTimelineQuery {
        max_id: Some(100),
        since_id: None,
        limit: Some(20),
    });
    let request = client().build_request(endpoint).unwrap();
    assert_eq!(request.method, HttpMethod::Get);
    assert_eq!(uri_path(&request), "/api/v1/timelines/home");
    assert_eq!(request.path, "/api/v1/timelines/home");
    assert_eq!(authorization(&request), Some(String::from("Bearer MY_TOKEN")));
    assert_eq!(request.query, Some(String::from("max_id=100&limit=20")));
}

// APIEndpoint::PublicTimeline(TimelineQuery)
#[test]
fn api_request_public_timeline() {
    let endpoint = APIEndpoint::PublicTimeline(TimelineQuery {
        local: Some(true),
        max_id: None,
        since_id: Some(3),
        limit: None,
    });
    let request = client().build_request(endpoint).unwrap();
    assert_eq!(request.method, HttpMethod::Get);
    assert_eq!(uri_path(&request), "/api/v1/timelines/public");
    assert_eq!(request.path, "/api/v1/timelines/public");
    assert_eq!(authorization(&request), None);
    assert_eq!(request.query, Some(String::from("local=true&since_id=3")));
}

// APIEndpoint::TagTimeline(TagID, TimelineQuery)
#[test]
fn api_request_tag_timeline() {
    let endpoint = APIEndpoint::TagTimeline(
        TagID { id: 12345 },
        TimelineQuery { local: None, max_id: None, since_id: None, limit: None },
    );
    let request = client().build_request(endpoint).unwrap();
    assert_eq!(request.method, HttpMethod::Get);
    assert_eq!(uri_path(&request), "/api/v1/timelines/tag/12345");
    assert_eq!(request.path, "/api/v1/timelines/tag/12345");
    assert_eq!(authorization(&request), None);
    assert_eq!(request.query, None);
}
