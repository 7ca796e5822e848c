//! Schema definitions shared between a client application and a
//! document-database backend: the shape of each stored document, the
//! collection each document type belongs to, and the small deterministic
//! helpers that derive identifiers and migrate legacy fields.

pub mod collections;
pub mod content;
pub mod documents;
pub mod features;
pub mod hashing;
pub mod region;
pub mod running_server;
pub mod text;

pub use collections::{DbCollection, DbCollections};
pub use content::{DbPackageContent, LegacyDbPackageContent, PackageContent};
pub use documents::{
    Activity, DbActivity, DbApiKey, DbDeletable, DbDeployment, DbMessage, DbPackageVersion,
    DbPackageVersionWithVersion, DbProfile, DbServer, DbServerLog, DbUpvotable, DbUpvote,
    DbUpvoteId, File, MD5Digest, SemVer, ServerLogSource, ServerState, Timestamp,
};
pub use features::{FeatNamed, FeatUpvotable};
pub use hashing::hash_api_key;
pub use region::Region;
pub use running_server::{DbRunningServer, DbShardedServer};
pub use text::has_only_safe_chars;
