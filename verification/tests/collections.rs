use ambient_schema::{
    Activity, DbActivity, DbApiKey, DbCollection, DbCollections, DbDeployment, DbPackageVersion,
    DbProfile, DbRunningServer, DbServer, DbServerLog, DbShardedServer, DbUpvote, DbUpvoteId,
    Timestamp,
};

#[test]
fn test_collections_id() {
    assert_eq!(DbCollections::RunningServers.name(), "running_servers");
}

#[test]
fn collection_names_are_snake_case() {
    assert_eq!(DbCollections::Packages.name(), "packages");
    assert_eq!(DbCollections::PackageVersions.name(), "package_versions");
    assert_eq!(DbCollections::Profiles.name(), "profiles");
    assert_eq!(DbCollections::ApiKeys.name(), "api_keys");
    assert_eq!(DbCollections::Deployments.name(), "deployments");
    assert_eq!(DbCollections::Servers.name(), "servers");
    assert_eq!(DbCollections::ServerLogs.name(), "server_logs");
    assert_eq!(DbCollections::ShardedServers.name(), "sharded_servers");
    assert_eq!(DbCollections::Upvotes.name(), "upvotes");
    assert_eq!(DbCollections::Activities.name(), "activities");
}

#[test]
fn collection_names_parse_back() {
    let all = [
        DbCollections::Packages,
        DbCollections::PackageVersions,
        DbCollections::Profiles,
        DbCollections::ApiKeys,
        DbCollections::Deployments,
        DbCollections::Servers,
        DbCollections::ServerLogs,
        DbCollections::RunningServers,
        DbCollections::ShardedServers,
        DbCollections::Upvotes,
        DbCollections::Activities,
    ];
    for c in all {
        assert_eq!(DbCollections::parse(&c.name()), Some(c));
    }
    assert_eq!(DbCollections::parse("no_such_collection"), None);
    assert_eq!(DbCollections::parse(""), None);
}

#[test]
fn doc_path_joins_collection_and_id() {
    assert_eq!(
        DbCollections::RunningServers.doc_path("EU-somedeployment"),
        "running_servers/EU-somedeployment"
    );
    assert_eq!(DbCollections::Profiles.doc_path("u1"), "profiles/u1");
}

#[test]
fn document_types_register_their_collections() {
    assert_eq!(DbPackageVersion::collection(), DbCollections::PackageVersions);
    assert_eq!(DbProfile::collection(), DbCollections::Profiles);
    assert_eq!(DbApiKey::collection(), DbCollections::ApiKeys);
    assert_eq!(DbDeployment::collection(), DbCollections::Deployments);
    assert_eq!(DbServer::collection(), DbCollections::Servers);
    assert_eq!(DbServerLog::collection(), DbCollections::ServerLogs);
    assert_eq!(DbRunningServer::collection(), DbCollections::RunningServers);
    assert_eq!(DbShardedServer::collection(), DbCollections::ShardedServers);
    assert_eq!(DbUpvote::collection(), DbCollections::Upvotes);
    assert_eq!(DbActivity::collection(), DbCollections::Activities);
}

#[test]
fn upvote_id_joins_user_and_object() {
    let id = DbUpvoteId { user_id: String::from("alice"), object_id: String::from("pkg1") };
    assert_eq!(id.id_string(), "alice_pkg1");
}

#[test]
fn activity_records_hold_their_content() {
    let act = DbActivity {
        timestamp: Timestamp { seconds: 1, nanos: 0 },
        user_id: String::from("u1"),
        content: Activity::MessagePosted { path: String::from("p") },
    };
    assert_eq!(act.content, Activity::MessagePosted { path: String::from("p") });
}
