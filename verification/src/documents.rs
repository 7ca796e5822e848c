//! The document shapes stored in the database's collections, and the plain
//! value types their fields carry. Timestamps and versions are held as plain
//! values; the storage client that reads and writes these documents lives
//! outside the library.

use crate::collections::{DbCollection, DbCollections};
use crate::content::PackageContent;
use crate::region::Region;
use vstd::prelude::*;
use vstd::string::StringExecFns;

verus! {

/// A point in time, as the database stores it: whole seconds since the epoch
/// and a nanosecond remainder.
#[derive(Clone, Copy, Debug, PartialEq, Eq, Structural)]
pub struct Timestamp {
    pub seconds: i64,
    pub nanos: u32,
}

/// A semantic version: numeric core plus optional pre-release and build
/// metadata.
#[derive(Clone, Debug, PartialEq)]
pub struct SemVer {
    pub major: u64,
    pub minor: u64,
    pub patch: u64,
    pub pre: String,
    pub build: String,
}

impl SemVer {
    /// A bare numeric version with no pre-release or build metadata.
    pub fn new(major: u64, minor: u64, patch: u64) -> (v: SemVer)
        ensures
            v.major == major,
            v.minor == minor,
            v.patch == patch,
            v.pre@.len() == 0,
            v.build@.len() == 0,
    {
        SemVer { major, minor, patch, pre: String::new(), build: String::new() }
    }
}

/// The version a deployment reports when none was recorded.
pub fn zero_version() -> (v: SemVer)
    ensures
        v.major == 0,
        v.minor == 0,
        v.patch == 0,
        v.pre@.len() == 0,
        v.build@.len() == 0,
{
    SemVer::new(0, 0, 0)
}

/// A 128-bit content digest of an uploaded file.
pub type MD5Digest = [u8; 16];

/// One uploaded file of a deployment.
#[derive(Clone, Debug, PartialEq)]
pub struct File {
    pub path: String,
    pub size: usize,
    pub md5: MD5Digest,
}

/// A version entry in a package's version subcollection.
#[derive(Clone, Debug, PartialEq)]
pub struct DbPackageVersion {
    pub deployment_id: String,
}

impl DbCollection for DbPackageVersion {
    open spec fn spec_collection() -> DbCollections {
        DbCollections::PackageVersions
    }

    fn collection() -> (c: DbCollections) {
        DbCollections::PackageVersions
    }
}

/// A package's latest version together with the version string itself.
#[derive(Clone, Debug, PartialEq)]
pub struct DbPackageVersionWithVersion {
    pub version: String,
    pub deployment_id: String,
}

/// The deletion flag shared by soft-deletable documents: deletion is a flag,
/// never a removal.
#[derive(Clone, Copy, Debug, PartialEq, Eq, Structural, Default)]
pub struct DbDeletable {
    pub deleted: bool,
}

/// A user profile, one per external user identity.
#[derive(Clone, Debug, PartialEq)]
pub struct DbProfile {
    pub created: Timestamp,
    pub name: String,
    pub username: String,
    pub bio: String,
    pub github: String,
    pub twitter: String,
    pub instagram: String,
    pub linkedin: String,
    pub twitch: String,
    pub website: String,
}

impl DbCollection for DbProfile {
    open spec fn spec_collection() -> DbCollections {
        DbCollections::Profiles
    }

    fn collection() -> (c: DbCollections) {
        DbCollections::Profiles
    }
}

/// An API key record. The raw key is never stored: the document is identified
/// externally by the hash of the raw key.
#[derive(Clone, Debug, PartialEq)]
pub struct DbApiKey {
    pub created: Timestamp,
    pub user_id: String,
    pub name: String,
}

impl DbCollection for DbApiKey {
    open spec fn spec_collection() -> DbCollections {
        DbCollections::ApiKeys
    }

    fn collection() -> (c: DbCollections) {
        DbCollections::ApiKeys
    }
}

/// One deployment of a package: the uploaded files and the manifest data
/// recorded with them.
#[derive(Clone, Debug, PartialEq)]
pub struct DbDeployment {
    pub package_id: String,
    pub user_id: String,
    pub files: Vec<File>,
    pub ambient_version: SemVer,
    pub ambient_revision: String,
    pub created: Timestamp,
    pub has_screenshot: bool,
    pub has_readme: bool,
    pub temporary: bool,
    pub name: String,
    pub version: SemVer,
    pub content: PackageContent,
}

impl DbCollection for DbDeployment {
    open spec fn spec_collection() -> DbCollections {
        DbCollections::Deployments
    }

    fn collection() -> (c: DbCollections) {
        DbCollections::Deployments
    }
}

/// The lifecycle state of a server. No transition function is defined: the
/// external writer sets the state directly.
#[derive(Clone, Copy, Debug, Eq, PartialEq, Structural)]
pub enum ServerState {
    Starting,
    Running,
    Stopped,
}

/// A server record.
#[derive(Clone, Debug, PartialEq)]
pub struct DbServer {
    pub context: String,
    pub deploy_url: String,
    pub host: String,
    pub state: ServerState,
    pub created: Timestamp,
    pub updated: Timestamp,
    pub player_count: Option<u32>,
    pub region: Region,
    pub package_id: String,
    pub deployment_id: String,
    pub owner_id: String,
}

impl DbCollection for DbServer {
    open spec fn spec_collection() -> DbCollections {
        DbCollections::Servers
    }

    fn collection() -> (c: DbCollections) {
        DbCollections::Servers
    }
}

/// Which stream a server log line came from.
#[derive(Clone, Copy, Debug, Eq, PartialEq, Structural)]
pub enum ServerLogSource {
    Stdout,
    Stderr,
}

/// A log entry from a server, stored in a subcollection of the server.
#[derive(Clone, Debug, PartialEq)]
pub struct DbServerLog {
    pub timestamp: Timestamp,
    pub message: String,
    pub source: Option<ServerLogSource>,
}

impl DbCollection for DbServerLog {
    open spec fn spec_collection() -> DbCollections {
        DbCollections::ServerLogs
    }

    fn collection() -> (c: DbCollections) {
        DbCollections::ServerLogs
    }
}

/// A message posted by a user.
#[derive(Clone, Debug, PartialEq)]
pub struct DbMessage {
    pub user_id: String,
    pub created: Timestamp,
    pub content: String,
}

/// An upvote by one user of one item in some collection. Its identity is the
/// pair of user and item, so a user cannot upvote an item twice.
#[derive(Clone, Debug, PartialEq)]
pub struct DbUpvote {
    pub collection: DbCollections,
    pub created: Timestamp,
    pub user_id: String,
    pub item_id: String,
}

impl DbCollection for DbUpvote {
    open spec fn spec_collection() -> DbCollections {
        DbCollections::Upvotes
    }

    fn collection() -> (c: DbCollections) {
        DbCollections::Upvotes
    }
}

/// The composite identity of an upvote: user id and object id, joined by an
/// underscore.
#[derive(Clone, Debug, PartialEq)]
pub struct DbUpvoteId {
    pub user_id: String,
    pub object_id: String,
}

impl DbUpvoteId {
    /// Render the identity as the database stores it.
    pub fn id_string(&self) -> (s: String)
        ensures
            s@ == self.user_id@ + seq!['_'] + self.object_id@,
    {
        let mut s = self.user_id.clone();
        s.append("_");
        s.append(self.object_id.as_str());
        proof {
            reveal_strlit("_");
            assert(s@ =~= self.user_id@ + seq!['_'] + self.object_id@);
        }
        s
    }
}

/// The upvote total a document carries.
#[derive(Clone, Copy, Debug, PartialEq, Eq, Structural, Default)]
pub struct DbUpvotable {
    pub total_upvotes: i32,
}

/// One entry of the activity feed.
#[derive(Clone, Debug, Eq, PartialEq)]
pub enum Activity {
    PackageDeployed { package_id: String, deployment_id: String, version: Option<String> },
    MessagePosted { path: String },
}

/// A timestamped, user-attributed activity record.
#[derive(Clone, Debug, PartialEq)]
pub struct DbActivity {
    pub timestamp: Timestamp,
    pub user_id: String,
    pub content: Activity,
}

impl DbCollection for DbActivity {
    open spec fn spec_collection() -> DbCollections {
        DbCollections::Activities
    }

    fn collection() -> (c: DbCollections) {
        DbCollections::Activities
    }
}

} // verus!
