//! Content classification for packages: the canonical tag vocabulary, the
//! structured content descriptor, and the migration from the legacy
//! boolean-flag record to the tag representation.

use vstd::prelude::*;

verus! {

/// One label in the fixed vocabulary describing what kind of material a
/// package contains.
#[derive(Debug, Clone, Copy, PartialEq, Eq, Structural)]
pub enum DbPackageContent {
    Playable,
    Example,
    NotExample,
    Asset,
    Models,
    Animations,
    Textures,
    Materials,
    Fonts,
    Code,
    Schema,
    Audio,
    Other,
    Tool,
    Mod,
}

/// Structured descriptor of a package's content, as declared in its manifest.
#[derive(Debug, Clone, PartialEq)]
pub enum PackageContent {
    Playable { example: bool },
    Asset {
        models: bool,
        animations: bool,
        textures: bool,
        materials: bool,
        audio: bool,
        fonts: bool,
        code: bool,
        schema: bool,
    },
    Tool,
    Mod { for_playables: Vec<String> },
}

impl Default for PackageContent {
    fn default() -> (r: Self)
        ensures
            r == (PackageContent::Playable { example: false }),
    {
        PackageContent::Playable { example: false }
    }
}

/// The legacy flat record of independent content flags, as written by older
/// schema versions.
#[derive(Debug, Clone, PartialEq, Default)]
pub struct LegacyDbPackageContent {
    pub playable: bool,
    pub example: bool,
    pub asset: bool,
    pub models: bool,
    pub animations: bool,
    pub textures: bool,
    pub materials: bool,
    pub fonts: bool,
    pub code: bool,
    pub schema: bool,
    pub audio: bool,
    pub tool: bool,
    pub mod_: bool,
}

/// A single tag when its flag is set, and nothing otherwise.
pub open spec fn tag_if(b: bool, t: DbPackageContent) -> Seq<DbPackageContent> {
    if b {
        seq![t]
    } else {
        Seq::empty()
    }
}

/// Tags contributed by the structured `Asset` sub-flags, in declaration order
/// (`audio` before `fonts`).
pub open spec fn spec_asset_subtags(
    models: bool,
    animations: bool,
    textures: bool,
    materials: bool,
    audio: bool,
    fonts: bool,
    code: bool,
    schema: bool,
) -> Seq<DbPackageContent> {
    tag_if(models, DbPackageContent::Models) + tag_if(animations, DbPackageContent::Animations)
        + tag_if(textures, DbPackageContent::Textures) + tag_if(
        materials,
        DbPackageContent::Materials,
    ) + tag_if(audio, DbPackageContent::Audio) + tag_if(fonts, DbPackageContent::Fonts) + tag_if(
        code,
        DbPackageContent::Code,
    ) + tag_if(schema, DbPackageContent::Schema)
}

/// The tags derived from a structured content descriptor. An `Asset` with no
/// recognized sub-kind normalizes to `Asset` followed by `Other`.
pub open spec fn spec_from_content(c: PackageContent) -> Seq<DbPackageContent> {
    match c {
        PackageContent::Playable { example } => if example {
            seq![DbPackageContent::Playable, DbPackageContent::Example]
        } else {
            seq![DbPackageContent::Playable, DbPackageContent::NotExample]
        },
        PackageContent::Asset {
            models,
            animations,
            textures,
            materials,
            audio,
            fonts,
            code,
            schema,
        } => {
            let subs = spec_asset_subtags(
                models,
                animations,
                textures,
                materials,
                audio,
                fonts,
                code,
                schema,
            );
            if subs.len() == 0 {
                seq![DbPackageContent::Asset, DbPackageContent::Other]
            } else {
                seq![DbPackageContent::Asset] + subs
            }
        },
        PackageContent::Tool => seq![DbPackageContent::Tool],
        PackageContent::Mod { for_playables } => seq![DbPackageContent::Mod],
    }
}

/// Tags contributed by the legacy `playable` flag.
pub open spec fn spec_legacy_playable(v: LegacyDbPackageContent) -> Seq<DbPackageContent> {
    if v.playable {
        seq![DbPackageContent::Playable] + if v.example {
            seq![DbPackageContent::Example]
        } else {
            seq![DbPackageContent::NotExample]
        }
    } else {
        Seq::empty()
    }
}

/// Tags contributed by the legacy `asset` flag and its sub-flags, in the
/// legacy order (`audio` after `schema`).
pub open spec fn spec_legacy_asset(v: LegacyDbPackageContent) -> Seq<DbPackageContent> {
    if v.asset {
        seq![DbPackageContent::Asset] + tag_if(v.models, DbPackageContent::Models) + tag_if(
            v.animations,
            DbPackageContent::Animations,
        ) + tag_if(v.textures, DbPackageContent::Textures) + tag_if(
            v.materials,
            DbPackageContent::Materials,
        ) + tag_if(v.fonts, DbPackageContent::Fonts) + tag_if(v.code, DbPackageContent::Code)
            + tag_if(v.schema, DbPackageContent::Schema) + tag_if(v.audio, DbPackageContent::Audio)
    } else {
        Seq::empty()
    }
}

/// The tags migrated from a legacy flag record: the flag-derived tags, or
/// exactly `Other` when no flag contributed anything.
pub open spec fn spec_from_legacy(v: LegacyDbPackageContent) -> Seq<DbPackageContent> {
    let tags = spec_legacy_playable(v) + spec_legacy_asset(v) + tag_if(
        v.tool,
        DbPackageContent::Tool,
    ) + tag_if(v.mod_, DbPackageContent::Mod);
    if tags.len() == 0 {
        seq![DbPackageContent::Other]
    } else {
        tags
    }
}

impl DbPackageContent {
    /// Build the tag list for a structured content descriptor.
    #[verifier::rlimit(60)]
    pub fn from_content(content: &PackageContent) -> (r: Vec<Self>)
        ensures
            r@ == spec_from_content(*content),
            r@.len() > 0,
    {
        match content {
            PackageContent::Playable { example: false } => vec![Self::Playable, Self::NotExample],
            PackageContent::Playable { example: true } => vec![Self::Playable, Self::Example],
            PackageContent::Asset {
                models,
                animations,
                textures,
                materials,
                audio,
                fonts,
                code,
                schema,
            } => {
                let mut res = vec![Self::Asset];
                if *models {
                    res.push(Self::Models);
                }
                if *animations {
                    res.push(Self::Animations);
                }
                if *textures {
                    res.push(Self::Textures);
                }
                if *materials {
                    res.push(Self::Materials);
                }
                if *audio {
                    res.push(Self::Audio);
                }
                if *fonts {
                    res.push(Self::Fonts);
                }
                if *code {
                    res.push(Self::Code);
                }
                if *schema {
                    res.push(Self::Schema);
                }
                if res.len() == 1 {
                    res.push(Self::Other);
                }
                assert(res@ =~= spec_from_content(*content));
                res
            },
            PackageContent::Tool => vec![Self::Tool],
            PackageContent::Mod { for_playables: _ } => vec![Self::Mod],
        }
    }

    /// Migrate a legacy flag record to the tag list.
    #[verifier::rlimit(60)]
    pub fn from_legacy_db_package_content(value: LegacyDbPackageContent) -> (r: Vec<Self>)
        ensures
            r@ == spec_from_legacy(value),
            r@.len() > 0,
    {
        let mut content = Vec::new();
        if value.playable {
            content.push(Self::Playable);
            if value.example {
                content.push(Self::Example);
            } else {
                content.push(Self::NotExample);
            }
        }
        assert(content@ =~= spec_legacy_playable(value));
        push_legacy_asset_tags(&mut content, &value);
        if value.tool {
            content.push(Self::Tool);
        }
        assert(content@ =~= spec_legacy_playable(value) + spec_legacy_asset(value) + tag_if(
            value.tool,
            DbPackageContent::Tool,
        ));
        if value.mod_ {
            content.push(Self::Mod);
        }
        assert(content@ =~= spec_legacy_playable(value) + spec_legacy_asset(value) + tag_if(
            value.tool,
            DbPackageContent::Tool,
        ) + tag_if(value.mod_, DbPackageContent::Mod));
        if content.len() == 0 {
            content.push(Self::Other);
        }
        content
    }
}

/// Push onto `content` the tags that the legacy `asset` flag and its
/// sub-flags contribute.
#[verifier::rlimit(100)]
fn push_legacy_asset_tags(content: &mut Vec<DbPackageContent>, v: &LegacyDbPackageContent)
    ensures
        final(content)@ == old(content)@ + spec_legacy_asset(*v),
{
    let ghost head = content@;
    if v.asset {
        content.push(DbPackageContent::Asset);
        let ghost mut tail = seq![DbPackageContent::Asset];
        assert(content@ =~= head + tail);
        if v.models {
            content.push(DbPackageContent::Models);
        }
        assert(content@ =~= head + (tail + tag_if(v.models, DbPackageContent::Models)));
        proof {
            tail = tail + tag_if(v.models, DbPackageContent::Models);
        }
        if v.animations {
            content.push(DbPackageContent::Animations);
        }
        assert(content@ =~= head + (tail + tag_if(v.animations, DbPackageContent::Animations)));
        proof {
            tail = tail + tag_if(v.animations, DbPackageContent::Animations);
        }
        if v.textures {
            content.push(DbPackageContent::Textures);
        }
        assert(content@ =~= head + (tail + tag_if(v.textures, DbPackageContent::Textures)));
        proof {
            tail = tail + tag_if(v.textures, DbPackageContent::Textures);
        }
        if v.materials {
            content.push(DbPackageContent::Materials);
        }
        assert(content@ =~= head + (tail + tag_if(v.materials, DbPackageContent::Materials)));
        proof {
            tail = tail + tag_if(v.materials, DbPackageContent::Materials);
        }
        if v.fonts {
            content.push(DbPackageContent::Fonts);
        }
        assert(content@ =~= head + (tail + tag_if(v.fonts, DbPackageContent::Fonts)));
        proof {
            tail = tail + tag_if(v.fonts, DbPackageContent::Fonts);
        }
        if v.code {
            content.push(DbPackageContent::Code);
        }
        assert(content@ =~= head + (tail + tag_if(v.code, DbPackageContent::Code)));
        proof {
            tail = tail + tag_if(v.code, DbPackageContent::Code);
        }
        if v.schema {
            content.push(DbPackageContent::Schema);
        }
        assert(content@ =~= head + (tail + tag_if(v.schema, DbPackageContent::Schema)));
        proof {
            tail = tail + tag_if(v.schema, DbPackageContent::Schema);
        }
        if v.audio {
            content.push(DbPackageContent::Audio);
        }
        assert(content@ =~= head + (tail + tag_if(v.audio, DbPackageContent::Audio)));
        proof {
            tail = tail + tag_if(v.audio, DbPackageContent::Audio);
        }
        assert(content@ == head + spec_legacy_asset(*v));
    } else {
        assert(content@ =~= head + spec_legacy_asset(*v));
    }
}

} // verus!
