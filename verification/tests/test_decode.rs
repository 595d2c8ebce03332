use herder::api::oauth::OAuthApp;
use herder::api::v1::record::Record;
use herder::api::v1::wire::{decode, encode, Wire};
use herder::api::v1::{
    Account, Application, Attachment, Card, Context, Entity, Error, Instance, Mention,
    Notification, Relationship, Report, Results, Status, Tag, Visibility,
};
use herder::json::Json;
use herder::{DecodeError, DecodeReason, Fault};

const ACCOUNT: &str = r#"{
    "id": 1234, "username": "MYUSERNAME", "acct": "MYUSERNAME@MYREMOTEDOMAIN",
    "display_name": "jane_sanchez", "note": "A self-described person", "url": "MYRUL",
    "avatar": "MYURL.png", "header": "MYHEADER.png", "locked": false,
    "created_at": "2000-01-01T00:00:00Z", "followers_count": 1234, "following_count": 1234,
    "statuses_count": 1234
}"#;

fn status_text(reblog: &str) -> String {
    format!(
        r#"{{
        "id": 1234, "uri": "MYURI", "url": "MYURL", "account": {},
        "in_reply_to_id": null, "in_reply_to_account_id": 77, "reblog": {},
        "content": "My tooted toot!", "created_at": "2000-01-01T00:00:00Z",
        "reblogs_count": 555, "favourites_count": 777, "reblogged": true, "favourited": true,
        "sensitive": false, "spoiler_text": "", "visibility": "public",
        "media_attachments": [{{"id": 1, "type": "image", "url": "U", "remote_url": "R",
                               "preview_url": "P", "text_url": "T"}}],
        "mentions": [{{"id": 2, "url": "U", "username": "N", "acct": "A"}}],
        "tags": [{{"name": "rustlang", "url": "U"}}, {{"name": "verus", "url": "V"}}],
        "application": {{"name": "MYNAME"}}
    }}"#,
        ACCOUNT, reblog
    )
}

fn error(entity: Entity, path: &str, reason: DecodeReason) -> DecodeError {
    DecodeError { entity, path: String::from(path), reason }
}

#[test]
fn an_absent_optional_field_is_none() {
    let application = decode::<Application>(r#"{"name": "MYNAME"}"#).unwrap();
    assert_eq!(application, Application { name: String::from("MYNAME"), website: None });
    let same = decode::<Application>(r#"{"name": "MYNAME", "website": null}"#).unwrap();
    assert_eq!(same, application);
}

#[test]
fn unknown_fields_are_passed_over() {
    let tag = decode::<Tag>(r#"{"history": [1, 2.5], "name": "rustlang", "url": "MYURL", "x": {}}"#)
        .unwrap();
    assert_eq!(tag, Tag { name: String::from("rustlang"), url: String::from("MYURL") });
}

#[test]
fn a_missing_field_is_an_error_with_its_name() {
    assert_eq!(
        decode::<Tag>(r#"{"name": "rustlang"}"#),
        Err(error(Entity::Tag, "url", DecodeReason::Missing))
    );
    assert_eq!(
        decode::<Relationship>(r#"{"id": 1, "following": true}"#),
        Err(error(Entity::Relationship, "followed_by", DecodeReason::Missing))
    );
    assert_eq!(decode::<Error>("{}"), Err(error(Entity::Error, "error", DecodeReason::Missing)));
}

#[test]
fn every_entity_refuses_an_empty_object() {
    assert_eq!(decode::<Account>("{}"), Err(error(Entity::Account, "id", DecodeReason::Missing)));
    assert_eq!(
        decode::<Application>("{}"),
        Err(error(Entity::Application, "name", DecodeReason::Missing))
    );
    assert_eq!(
        decode::<Attachment>("{}"),
        Err(error(Entity::Attachment, "id", DecodeReason::Missing))
    );
    assert_eq!(decode::<Card>("{}"), Err(error(Entity::Card, "url", DecodeReason::Missing)));
    assert_eq!(
        decode::<Context>("{}"),
        Err(error(Entity::Context, "ancestors", DecodeReason::Missing))
    );
    assert_eq!(decode::<Instance>("{}"), Err(error(Entity::Instance, "url", DecodeReason::Missing)));
    assert_eq!(decode::<Mention>("{}"), Err(error(Entity::Mention, "id", DecodeReason::Missing)));
    assert_eq!(
        decode::<Notification>("{}"),
        Err(error(Entity::Notification, "id", DecodeReason::Missing))
    );
    assert_eq!(decode::<Report>("{}"), Err(error(Entity::Report, "id", DecodeReason::Missing)));
    assert_eq!(
        decode::<Results>("{}"),
        Err(error(Entity::Results, "accounts", DecodeReason::Missing))
    );
    assert_eq!(decode::<Status>("{}"), Err(error(Entity::Status, "id", DecodeReason::Missing)));
    assert_eq!(
        decode::<OAuthApp>("{}"),
        Err(error(Entity::OAuthApp, "client_id", DecodeReason::Missing))
    );
}

#[test]
fn a_value_of_the_wrong_type_is_an_error() {
    assert_eq!(
        decode::<Tag>(r#"{"name": 5, "url": "MYURL"}"#),
        Err(error(Entity::Tag, "name", DecodeReason::Mismatch))
    );
    assert_eq!(
        decode::<Tag>(r#"{"name": null, "url": "MYURL"}"#),
        Err(error(Entity::Tag, "name", DecodeReason::Mismatch))
    );
    assert_eq!(
        decode::<Report>(r#"{"id": "1234", "action_taken": "x"}"#),
        Err(error(Entity::Report, "id", DecodeReason::Mismatch))
    );
    assert_eq!(
        decode::<Relationship>(
            r#"{"id": 1, "following": 1, "followed_by": true, "blocking": true,
                "muting": true, "requested": true}"#
        ),
        Err(error(Entity::Relationship, "following", DecodeReason::Mismatch))
    );
    assert_eq!(
        decode::<Application>(r#"{"name": "n", "website": 5}"#),
        Err(error(Entity::Application, "website", DecodeReason::Mismatch))
    );
    assert_eq!(decode::<Tag>("[]"), Err(error(Entity::Tag, "", DecodeReason::Mismatch)));
    assert_eq!(decode::<Tag>("null"), Err(error(Entity::Tag, "", DecodeReason::Mismatch)));
}

#[test]
fn a_number_must_be_whole_and_fit() {
    assert_eq!(
        decode::<Report>(r#"{"id": 2147483647, "action_taken": "x"}"#),
        Ok(Report { report_id: 2147483647, action_taken: String::from("x") })
    );
    assert_eq!(
        decode::<Report>(r#"{"id": -2147483648, "action_taken": "x"}"#),
        Ok(Report { report_id: -2147483648, action_taken: String::from("x") })
    );
    assert_eq!(
        decode::<Report>(r#"{"id": 2147483648, "action_taken": "x"}"#),
        Err(error(Entity::Report, "id", DecodeReason::Mismatch))
    );
    assert_eq!(
        decode::<Report>(r#"{"id": 1.5, "action_taken": "x"}"#),
        Err(error(Entity::Report, "id", DecodeReason::Mismatch))
    );
    assert_eq!(
        decode::<Report>(r#"{"id": 1e2, "action_taken": "x"}"#),
        Err(error(Entity::Report, "id", DecodeReason::Mismatch))
    );
}

#[test]
fn an_empty_body_and_a_broken_body_are_told_apart() {
    assert_eq!(decode::<Tag>(""), Err(error(Entity::Tag, "", DecodeReason::Empty)));
    assert_eq!(decode::<Tag>("{\"name\""), Err(error(Entity::Tag, "", DecodeReason::Syntax)));
    assert_eq!(decode::<Tag>("   "), Err(error(Entity::Tag, "", DecodeReason::Syntax)));
}

#[test]
fn a_fault_inside_is_reported_with_its_path() {
    let text =
        r#"{"id": 1, "type": "t", "created_at": "c", "account": {"id": true}, "status": null}"#;
    assert_eq!(
        decode::<Notification>(text),
        Err(error(Entity::Notification, "account.id", DecodeReason::Mismatch))
    );
    let text = r#"{"id": 1, "type": "t", "created_at": "c", "account": 5}"#;
    assert_eq!(
        decode::<Notification>(text),
        Err(error(Entity::Notification, "account", DecodeReason::Mismatch))
    );
    let text = r#"{"accounts": [], "statuses": [], "hashtags": ["a", 2]}"#;
    assert_eq!(
        decode::<Results>(text),
        Err(error(Entity::Results, "hashtags.1", DecodeReason::Mismatch))
    );
    let text = format!(r#"{{"ancestors": [], "descendants": [{}, {{"id": 1}}]}}"#, status_text("null"));
    assert_eq!(
        decode::<Context>(&text),
        Err(error(Entity::Context, "descendants.1.uri", DecodeReason::Missing))
    );
    let text = r#"{"accounts": {}, "statuses": [], "hashtags": []}"#;
    assert_eq!(
        decode::<Results>(text),
        Err(error(Entity::Results, "accounts", DecodeReason::Mismatch))
    );
}

#[test]
fn the_first_fault_in_the_order_of_the_fields_is_reported() {
    assert_eq!(
        decode::<Tag>(r#"{"url": 1}"#),
        Err(error(Entity::Tag, "name", DecodeReason::Missing))
    );
    assert_eq!(
        decode::<Mention>(r#"{"id": 1, "url": 2, "username": 3}"#),
        Err(error(Entity::Mention, "url", DecodeReason::Mismatch))
    );
}

#[test]
fn a_status_holds_the_status_it_reblogs() {
    let inner = status_text("null");
    let outer = decode::<Status>(&status_text(&inner)).unwrap();
    let reblog = outer.reblog.as_ref().unwrap();
    assert_eq!(reblog.status_id, 1234);
    assert_eq!(reblog.reblog, None);
    assert_eq!(outer.in_reply_to_id, None);
    assert_eq!(outer.in_reply_to_account_id, Some(77));
    assert_eq!(outer.visibility, "public");
    assert_eq!(outer.tags.len(), 2);
    assert_eq!(outer.tags[1], Tag { name: String::from("verus"), url: String::from("V") });
    assert_eq!(outer.media_attachments[0].attachment_type, "image");
    assert_eq!(outer.mentions[0].mention_id, 2);
    assert_eq!(outer.application, Application { name: String::from("MYNAME"), website: None });
    assert_eq!(**reblog, decode::<Status>(&inner).unwrap());
}

#[test]
fn a_fault_in_a_reblogged_status_is_under_reblog() {
    let broken = r#"{"id": 9}"#;
    assert_eq!(
        decode::<Status>(&status_text(broken)),
        Err(error(Entity::Status, "reblog.uri", DecodeReason::Missing))
    );
}

#[test]
fn fields_are_written_under_their_names_on_the_wire() {
    let mention = Mention {
        mention_id: -7,
        url: String::from("U"),
        username: String::from("N"),
        acct: String::from("A"),
    };
    assert_eq!(encode(&mention), r#"{"id":-7,"url":"U","username":"N","acct":"A"}"#);
    let attachment = decode::<Attachment>(
        r#"{"id": 1, "type": "image", "url": "U", "remote_url": "R", "preview_url": "P",
            "text_url": "T"}"#,
    )
    .unwrap();
    assert_eq!(
        encode(&attachment),
        r#"{"id":1,"type":"image","url":"U","remote_url":"R","preview_url":"P","text_url":"T"}"#
    );
    let application = Application { name: String::from("MYNAME"), website: None };
    assert_eq!(encode(&application), r#"{"name":"MYNAME","website":null}"#);
    let application =
        Application { name: String::from("MYNAME"), website: Some(String::from("MYURI")) };
    assert_eq!(encode(&application), r#"{"name":"MYNAME","website":"MYURI"}"#);
}

#[test]
fn relationship_holds_its_five_flags() {
    let text = r#"{"id":1234,"following":true,"followed_by":true,"blocking":true,"muting":true,"requested":true}"#;
    let relationship = decode::<Relationship>(text).unwrap();
    assert_eq!(relationship.relationship_id, 1234);
    assert!(relationship.following);
    assert!(relationship.followed_by);
    assert!(relationship.blocking);
    assert!(relationship.muting);
    assert!(relationship.requested);
    assert_eq!(encode(&relationship), text);
}

#[test]
fn writing_and_reading_gives_the_same_entity() {
    let account = decode::<Account>(ACCOUNT).unwrap();
    assert_eq!(decode::<Account>(&encode(&account)), Ok(decode::<Account>(ACCOUNT).unwrap()));
    assert_eq!(Account::from_json(&account.to_json()), Ok(account));

    let inner = status_text("null");
    let status = decode::<Status>(&status_text(&inner)).unwrap();
    let again = decode::<Status>(&encode(&status)).unwrap();
    assert_eq!(again, status);

    let context = Context { ancestors: vec![again], descendants: vec![status] };
    let text = encode(&context);
    assert_eq!(decode::<Context>(&text), Ok(context));

    let notification = decode::<Notification>(&format!(
        r#"{{"id": 5, "type": "mention", "created_at": "now", "account": {}, "status": {}}}"#,
        ACCOUNT, inner
    ))
    .unwrap();
    assert!(notification.status.is_some());
    assert_eq!(decode::<Notification>(&encode(&notification)), Ok(notification));

    let results = Results {
        accounts: vec![decode::<Account>(ACCOUNT).unwrap()],
        statuses: Vec::new(),
        hashtags: vec![String::from("a"), String::from("b \"c\"")],
    };
    assert_eq!(decode::<Results>(&encode(&results)), Ok(results));

    let card = Card {
        url: String::from("u"),
        title: String::from("t"),
        description: String::from("d"),
        image: String::from("i"),
    };
    assert_eq!(decode::<Card>(&encode(&card)), Ok(card));

    let instance = Instance {
        url: String::from("u"),
        title: String::from("t"),
        description: String::from("d"),
        email: String::from("e"),
    };
    assert_eq!(decode::<Instance>(&encode(&instance)), Ok(instance));

    let report = Report { report_id: i32::MIN, action_taken: String::from("") };
    assert_eq!(decode::<Report>(&encode(&report)), Ok(report));

    let app = OAuthApp {
        id: Some(u64::MAX),
        client_id: String::from("CID"),
        client_secret: String::from("CSEC"),
        redirect_uri: String::from("MYURI"),
    };
    assert_eq!(encode(&app), r#"{"id":18446744073709551615,"client_id":"CID","client_secret":"CSEC","redirect_uri":"MYURI"}"#);
    assert_eq!(decode::<OAuthApp>(&encode(&app)), Ok(app));
}

#[test]
fn the_default_account_holds_nothing() {
    let account = Account::default();
    assert_eq!(account.account_id, 0);
    assert_eq!(account.username, "");
    assert!(!account.locked);
    assert_eq!(account.statuses_count, 0);
    assert_eq!(Account::from_json(&account.to_json()), Ok(account));
}

#[test]
fn oauth_id_is_optional_and_unsigned() {
    let text = r#"{"client_id": "CID", "client_secret": "CSEC", "redirect_uri": "MYURI"}"#;
    let app = decode::<OAuthApp>(text).unwrap();
    assert_eq!(app.id, None);
    let text = r#"{"id": -1, "client_id": "CID", "client_secret": "CSEC", "redirect_uri": "MYURI"}"#;
    assert_eq!(decode::<OAuthApp>(text), Err(error(Entity::OAuthApp, "id", DecodeReason::Mismatch)));
}

#[test]
fn a_record_is_read_by_its_kind() {
    let tag = Json::parse(r#"{"name": "rustlang", "url": "MYURL"}"#).unwrap();
    let record = Record::from_json(Entity::Tag, &tag).unwrap();
    assert_eq!(record.kind(), Entity::Tag);
    assert_eq!(
        record,
        Record::Tag(Tag { name: String::from("rustlang"), url: String::from("MYURL") })
    );
    assert_eq!(Record::from_json(Entity::Tag, &record.to_json()), Ok(record));
    assert_eq!(
        Record::from_json(Entity::Card, &tag),
        Err(Fault { path: String::from("title"), reason: DecodeReason::Missing })
    );
    let items = vec![
        Json::parse(r#"{"name": "a", "url": "u"}"#).unwrap(),
        Json::parse(r#"{"name": "b"}"#).unwrap(),
    ];
    assert_eq!(
        Record::read_items(Entity::Tag, &items),
        Err(Fault { path: String::from("1.url"), reason: DecodeReason::Missing })
    );
}

#[test]
fn decode_errors_read_as_a_line() {
    assert_eq!(
        error(Entity::Status, "account.id", DecodeReason::Mismatch).message(),
        "cannot read Status at account.id: a value has the wrong type"
    );
    assert_eq!(
        error(Entity::Tag, "", DecodeReason::Empty).message(),
        "cannot read Tag: the body is empty"
    );
    assert_eq!(Entity::OAuthApp.name(), "OAuthApp");
    assert_eq!(DecodeReason::Syntax.words(), "the body is no JSON text");
    assert_eq!(DecodeReason::Missing.words(), "a required field is missing");
}

#[test]
fn visibility_is_one_of_four_words() {
    assert_eq!(Visibility::parse("direct"), Some(Visibility::Direct));
    assert_eq!(Visibility::parse("private"), Some(Visibility::Private));
    assert_eq!(Visibility::parse("unlisted"), Some(Visibility::Unlisted));
    assert_eq!(Visibility::parse("public"), Some(Visibility::Public));
    assert_eq!(Visibility::parse("Public"), None);
    assert_eq!(Visibility::parse(""), None);
    assert_eq!(Visibility::parse("publi"), None);
    let all = vec![
        Visibility::Direct,
        Visibility::Private,
        Visibility::Unlisted,
        Visibility::Public,
    ];
    for v in all {
        assert_eq!(Visibility::parse(v.word()), Some(v));
    }
    let status = decode::<Status>(&status_text("null")).unwrap();
    assert_eq!(status.visibility_kind(), Some(Visibility::Public));
}
