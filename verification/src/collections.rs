//! The named collections of the document database, the wire-visible name of
//! each, and the static association between a document type and the one
//! collection it is stored in.

use crate::text::str_eq;
use vstd::prelude::*;
use vstd::string::StringExecFns;

verus! {

/// The collections the database holds. Every document type is permanently
/// bound to exactly one of these.
#[derive(Debug, Clone, Copy, PartialEq, Eq, Structural)]
pub enum DbCollections {
    Packages,
    PackageVersions,
    Profiles,
    ApiKeys,
    Deployments,
    Servers,
    ServerLogs,
    RunningServers,
    ShardedServers,
    Upvotes,
    Activities,
}

impl DbCollections {
    /// The wire-visible (snake_case) name of the collection.
    pub open spec fn spec_name(self) -> Seq<char> {
        match self {
            DbCollections::Packages => "packages"@,
            DbCollections::PackageVersions => "package_versions"@,
            DbCollections::Profiles => "profiles"@,
            DbCollections::ApiKeys => "api_keys"@,
            DbCollections::Deployments => "deployments"@,
            DbCollections::Servers => "servers"@,
            DbCollections::ServerLogs => "server_logs"@,
            DbCollections::RunningServers => "running_servers"@,
            DbCollections::ShardedServers => "sharded_servers"@,
            DbCollections::Upvotes => "upvotes"@,
            DbCollections::Activities => "activities"@,
        }
    }

    /// Render the collection's wire-visible name.
    pub fn name(&self) -> (s: String)
        ensures
            s@ == self.spec_name(),
    {
        match self {
            DbCollections::Packages => String::from_str("packages"),
            DbCollections::PackageVersions => String::from_str("package_versions"),
            DbCollections::Profiles => String::from_str("profiles"),
            DbCollections::ApiKeys => String::from_str("api_keys"),
            DbCollections::Deployments => String::from_str("deployments"),
            DbCollections::Servers => String::from_str("servers"),
            DbCollections::ServerLogs => String::from_str("server_logs"),
            DbCollections::RunningServers => String::from_str("running_servers"),
            DbCollections::ShardedServers => String::from_str("sharded_servers"),
            DbCollections::Upvotes => String::from_str("upvotes"),
            DbCollections::Activities => String::from_str("activities"),
        }
    }

    /// Parse a collection from its wire-visible name: `Some(c)` exactly when
    /// the input is `c`'s name.
    pub fn parse(s: &str) -> (r: Option<DbCollections>)
        ensures
            forall|c: DbCollections| r == Some(c) <==> s@ == c.spec_name(),
    {
        proof {
            lemma_collection_names_distinct();
        }
        if str_eq(s, "packages") {
            assert(s@ == DbCollections::Packages.spec_name());
            return Some(DbCollections::Packages);
        }
        if str_eq(s, "package_versions") {
            assert(s@ == DbCollections::PackageVersions.spec_name());
            return Some(DbCollections::PackageVersions);
        }
        if str_eq(s, "profiles") {
            assert(s@ == DbCollections::Profiles.spec_name());
            return Some(DbCollections::Profiles);
        }
        if str_eq(s, "api_keys") {
            assert(s@ == DbCollections::ApiKeys.spec_name());
            return Some(DbCollections::ApiKeys);
        }
        if str_eq(s, "deployments") {
            assert(s@ == DbCollections::Deployments.spec_name());
            return Some(DbCollections::Deployments);
        }
        if str_eq(s, "servers") {
            assert(s@ == DbCollections::Servers.spec_name());
            return Some(DbCollections::Servers);
        }
        if str_eq(s, "server_logs") {
            assert(s@ == DbCollections::ServerLogs.spec_name());
            return Some(DbCollections::ServerLogs);
        }
        if str_eq(s, "running_servers") {
            assert(s@ == DbCollections::RunningServers.spec_name());
            return Some(DbCollections::RunningServers);
        }
        if str_eq(s, "sharded_servers") {
            assert(s@ == DbCollections::ShardedServers.spec_name());
            return Some(DbCollections::ShardedServers);
        }
        if str_eq(s, "upvotes") {
            assert(s@ == DbCollections::Upvotes.spec_name());
            return Some(DbCollections::Upvotes);
        }
        if str_eq(s, "activities") {
            assert(s@ == DbCollections::Activities.spec_name());
            return Some(DbCollections::Activities);
        }
        proof {
            assert forall|c: DbCollections| s@ != c.spec_name() by {
                assert(c == DbCollections::Packages || c == DbCollections::PackageVersions || c
                    == DbCollections::Profiles || c == DbCollections::ApiKeys || c
                    == DbCollections::Deployments || c == DbCollections::Servers || c
                    == DbCollections::ServerLogs || c == DbCollections::RunningServers || c
                    == DbCollections::ShardedServers || c == DbCollections::Upvotes || c
                    == DbCollections::Activities);
            }
        }
        None
    }

    /// The document path for an id within this collection, as the database
    /// client addresses it: the collection name, a slash, the id.
    pub fn doc_path(&self, id: &str) -> (p: String)
        ensures
            p@ == self.spec_name() + seq!['/'] + id@,
    {
        let mut p = self.name();
        p.append("/");
        p.append(id);
        proof {
            reveal_strlit("/");
            assert(p@ =~= self.spec_name() + seq!['/'] + id@);
        }
        p
    }
}

/// No two collections share a wire-visible name.
pub proof fn lemma_collection_names_distinct()
    ensures
        forall|a: DbCollections, b: DbCollections|
            a.spec_name() == b.spec_name() ==> a == b,
{
    reveal_strlit("packages");
    reveal_strlit("package_versions");
    reveal_strlit("profiles");
    reveal_strlit("api_keys");
    reveal_strlit("deployments");
    reveal_strlit("servers");
    reveal_strlit("server_logs");
    reveal_strlit("running_servers");
    reveal_strlit("sharded_servers");
    reveal_strlit("upvotes");
    reveal_strlit("activities");
    assert forall|a: DbCollections, b: DbCollections|
        a.spec_name() == b.spec_name() implies a == b by {
        assert("packages"@[1] == 'a' && "profiles"@[1] == 'r' && "api_keys"@[1] == 'p');
        assert("servers"@[0] == 's' && "upvotes"@[0] == 'u');
        assert("deployments"@[0] == 'd' && "server_logs"@[0] == 's');
        assert("running_servers"@[0] == 'r' && "sharded_servers"@[0] == 's');
        assert("packages"@.len() == 8 && "package_versions"@.len() == 16 && "profiles"@.len() == 8
            && "api_keys"@.len() == 8 && "deployments"@.len() == 11 && "servers"@.len() == 7
            && "server_logs"@.len() == 11 && "running_servers"@.len() == 15
            && "sharded_servers"@.len() == 15 && "upvotes"@.len() == 7
            && "activities"@.len() == 10);
    }
}

/// The static registration of a document type with the one collection that
/// stores it.
pub trait DbCollection {
    /// The collection this document type is stored in.
    spec fn spec_collection() -> DbCollections;

    /// The collection this document type is stored in.
    fn collection() -> (c: DbCollections)
        ensures
            c == Self::spec_collection(),
    ;
}

} // verus!
