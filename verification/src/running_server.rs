//! Running-server records and the deterministic derivation of their document
//! identifiers: readable identifiers for trusted asset URLs with short
//! alphanumeric contexts, and a collision-resistant hash fallback for
//! everything else.

use crate::collections::{DbCollection, DbCollections};
use crate::hashing::{hex_of, lemma_hex_of_len, sha256, sha256_of, sha256_output_size, hex_lower};
use crate::region::Region;
use crate::text::{has_only_safe_chars, spec_all_safe, spec_has_prefix, str_strip_prefix};
use vstd::prelude::*;
use vstd::string::StrSliceExecFns;
use vstd::string::StringExecFns;
use vstd::utf8::encode_utf8;

verus! {

/// A server instance that is currently running. Its identity is derived from
/// its content fields, not assigned externally.
#[derive(Clone, Debug, PartialEq)]
pub struct DbRunningServer {
    pub server_id: String,
    pub deploy_url: String,
    pub context: String,
    pub region: Region,
    pub package_id: String,
    pub deployment_id: String,
    pub owner_id: String,
}

impl DbCollection for DbRunningServer {
    open spec fn spec_collection() -> DbCollections {
        DbCollections::RunningServers
    }

    fn collection() -> (c: DbCollections) {
        DbCollections::RunningServers
    }
}

/// The fixed URL prefix under which trusted deployment assets live.
pub open spec fn spec_url_prefix() -> Seq<char> {
    "https://assets.ambient.run/"@
}

/// The views of an optional fleet label.
pub open spec fn spec_fleet_view(fleet: Option<&str>) -> Option<Seq<char>> {
    match fleet {
        Some(f) => Some(f@),
        None => None,
    }
}

/// The region-and-fleet prefix of a derived identifier: the region name,
/// extended with a dash and the fleet label when one is present and
/// non-empty.
pub open spec fn spec_prefix(region: Region, fleet: Option<Seq<char>>) -> Seq<char> {
    match fleet {
        Some(f) => if f.len() > 0 {
            region.spec_name() + seq!['-'] + f
        } else {
            region.spec_name()
        },
        None => region.spec_name(),
    }
}

/// The hash fallback of a derived identifier: lowercase hex of the SHA-256
/// digest over the UTF-8 bytes of `"url:"`, the deploy URL, `"context:"`,
/// and the context, in that order.
pub open spec fn spec_hash_suffix(deploy_url: Seq<char>, context: Seq<char>) -> Seq<char> {
    hex_of(
        sha256_of(
            encode_utf8("url:"@) + encode_utf8(deploy_url) + encode_utf8("context:"@) + encode_utf8(
                context,
            ),
        ),
    )
}

/// The derived document identifier of a running server. When the deploy URL
/// is a trusted asset URL with an alphanumeric trailing segment, the
/// identifier stays readable: the prefix and that segment, with the context
/// appended when it is non-empty, alphanumeric and shorter than the 64
/// characters a hex-encoded digest occupies. Any other input falls back to
/// the hash suffix, which prevents concatenation collisions.
pub open spec fn spec_document_id(
    region: Region,
    fleet: Option<Seq<char>>,
    deploy_url: Seq<char>,
    context: Seq<char>,
) -> Seq<char> {
    let pre = spec_prefix(region, fleet);
    if spec_has_prefix(deploy_url, spec_url_prefix()) {
        let id = deploy_url.subrange(spec_url_prefix().len() as int, deploy_url.len() as int);
        if spec_all_safe(id) && context.len() == 0 {
            pre + seq!['-'] + id
        } else if spec_all_safe(id) && context.len() < 64 && spec_all_safe(context) {
            pre + seq!['-'] + id + seq!['-'] + context
        } else {
            pre + seq!['-'] + spec_hash_suffix(deploy_url, context)
        }
    } else {
        pre + seq!['-'] + spec_hash_suffix(deploy_url, context)
    }
}

/// Compute the hash fallback suffix.
fn hashed_suffix(deploy_url: &str, context: &str) -> (h: String)
    ensures
        h@ == spec_hash_suffix(deploy_url@, context@),
        h@.len() == 64,
{
    let mut msg = "url:".as_bytes_vec();
    let mut url_bytes = deploy_url.as_bytes_vec();
    msg.append(&mut url_bytes);
    let mut sep_bytes = "context:".as_bytes_vec();
    msg.append(&mut sep_bytes);
    let mut ctx_bytes = context.as_bytes_vec();
    msg.append(&mut ctx_bytes);
    assert(msg@ =~= encode_utf8("url:"@) + encode_utf8(deploy_url@) + encode_utf8("context:"@)
        + encode_utf8(context@));
    let digest = sha256(msg.as_slice());
    proof {
        lemma_hex_of_len(digest@);
    }
    hex_lower(digest.as_slice())
}

impl DbRunningServer {
    /// Derive the document identifier for a running server. The fleet label,
    /// when present, must be alphanumeric: anything else is a caller error,
    /// not a runtime condition. The result is pinned to a function of the
    /// four inputs, so identical inputs always derive identical identifiers.
    pub fn document_id(
        region: Region,
        fleet: Option<&str>,
        deploy_url: &str,
        context: &str,
    ) -> (r: String)
        requires
            fleet matches Some(f) ==> spec_all_safe(f@),
        ensures
            r@ == spec_document_id(region, spec_fleet_view(fleet), deploy_url@, context@),
    {
        let mut prefix = region.name();
        match fleet {
            Some(f) => {
                if f.unicode_len() > 0 {
                    prefix.append("-");
                    prefix.append(f);
                }
            },
            None => {},
        }
        proof {
            reveal_strlit("-");
            assert(prefix@ =~= spec_prefix(region, spec_fleet_view(fleet)));
        }
        let hash_char_len = sha256_output_size() * 2;
        match str_strip_prefix(deploy_url, "https://assets.ambient.run/") {
            Some(id) => {
                proof {
                    assert(deploy_url@.subrange(0, spec_url_prefix().len() as int)
                        =~= spec_url_prefix());
                    assert(deploy_url@.subrange(
                        spec_url_prefix().len() as int,
                        deploy_url@.len() as int,
                    ) =~= id@);
                }
                let id_safe = has_only_safe_chars(id);
                if id_safe && context.unicode_len() == 0 {
                    let mut r = prefix;
                    r.append("-");
                    r.append(id);
                    assert(r@ =~= spec_document_id(
                        region,
                        spec_fleet_view(fleet),
                        deploy_url@,
                        context@,
                    ));
                    r
                } else if id_safe && context.unicode_len() < hash_char_len && has_only_safe_chars(
                    context,
                ) {
                    let mut r = prefix;
                    r.append("-");
                    r.append(id);
                    r.append("-");
                    r.append(context);
                    assert(r@ =~= spec_document_id(
                        region,
                        spec_fleet_view(fleet),
                        deploy_url@,
                        context@,
                    ));
                    r
                } else {
                    let h = hashed_suffix(deploy_url, context);
                    let mut r = prefix;
                    r.append("-");
                    r.append(h.as_str());
                    assert(r@ =~= spec_document_id(
                        region,
                        spec_fleet_view(fleet),
                        deploy_url@,
                        context@,
                    ));
                    r
                }
            },
            None => {
                let h = hashed_suffix(deploy_url, context);
                let mut r = prefix;
                r.append("-");
                r.append(h.as_str());
                assert(r@ =~= spec_document_id(
                    region,
                    spec_fleet_view(fleet),
                    deploy_url@,
                    context@,
                ));
                r
            },
        }
    }
}

/// Law: for a trusted asset URL whose trailing segment is alphanumeric and
/// an empty context, the derived identifier is exactly the region-and-fleet
/// prefix, a dash, and that segment.
pub proof fn lemma_document_id_readable(
    region: Region,
    fleet: Option<Seq<char>>,
    segment: Seq<char>,
)
    requires
        spec_all_safe(segment),
    ensures
        spec_document_id(region, fleet, spec_url_prefix() + segment, Seq::empty())
            == spec_prefix(region, fleet) + seq!['-'] + segment,
{
    let url = spec_url_prefix() + segment;
    assert(url.subrange(0, spec_url_prefix().len() as int) =~= spec_url_prefix());
    assert(url.subrange(spec_url_prefix().len() as int, url.len() as int) =~= segment);
}

/// A child record of a running server, one per shard.
#[derive(Clone, Debug, PartialEq)]
pub struct DbShardedServer {
    pub server_id: String,
}

impl DbCollection for DbShardedServer {
    open spec fn spec_collection() -> DbCollections {
        DbCollections::ShardedServers
    }

    fn collection() -> (c: DbCollections) {
        DbCollections::ShardedServers
    }
}

} // verus!
