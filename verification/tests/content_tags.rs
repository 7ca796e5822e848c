use ambient_schema::{
    has_only_safe_chars, DbPackageContent, LegacyDbPackageContent, PackageContent, SemVer,
};

fn legacy_none() -> LegacyDbPackageContent {
    LegacyDbPackageContent {
        playable: false,
        example: false,
        asset: false,
        models: false,
        animations: false,
        textures: false,
        materials: false,
        fonts: false,
        code: false,
        schema: false,
        audio: false,
        tool: false,
        mod_: false,
    }
}

#[test]
fn legacy_all_false_is_other() {
    let tags = DbPackageContent::from_legacy_db_package_content(legacy_none());
    assert_eq!(tags, vec![DbPackageContent::Other]);
}

#[test]
fn legacy_asset_with_models_has_no_other() {
    let legacy = LegacyDbPackageContent { asset: true, models: true, ..legacy_none() };
    let tags = DbPackageContent::from_legacy_db_package_content(legacy);
    assert_eq!(tags, vec![DbPackageContent::Asset, DbPackageContent::Models]);
}

#[test]
fn legacy_playable_marks_example_or_not() {
    let playable = LegacyDbPackageContent { playable: true, ..legacy_none() };
    assert_eq!(
        DbPackageContent::from_legacy_db_package_content(playable),
        vec![DbPackageContent::Playable, DbPackageContent::NotExample]
    );
    let example = LegacyDbPackageContent { playable: true, example: true, ..legacy_none() };
    assert_eq!(
        DbPackageContent::from_legacy_db_package_content(example),
        vec![DbPackageContent::Playable, DbPackageContent::Example]
    );
}

#[test]
fn legacy_orders_audio_after_schema() {
    let legacy = LegacyDbPackageContent {
        asset: true,
        fonts: true,
        schema: true,
        audio: true,
        ..legacy_none()
    };
    assert_eq!(
        DbPackageContent::from_legacy_db_package_content(legacy),
        vec![
            DbPackageContent::Asset,
            DbPackageContent::Fonts,
            DbPackageContent::Schema,
            DbPackageContent::Audio,
        ]
    );
}

#[test]
fn legacy_tool_and_mod_tags() {
    let both = LegacyDbPackageContent { tool: true, mod_: true, ..legacy_none() };
    assert_eq!(
        DbPackageContent::from_legacy_db_package_content(both),
        vec![DbPackageContent::Tool, DbPackageContent::Mod]
    );
}

#[test]
fn legacy_full_record_orders_all_tags() {
    let all = LegacyDbPackageContent {
        playable: true,
        example: false,
        asset: true,
        models: true,
        animations: true,
        textures: true,
        materials: true,
        fonts: true,
        code: true,
        schema: true,
        audio: true,
        tool: true,
        mod_: true,
    };
    assert_eq!(
        DbPackageContent::from_legacy_db_package_content(all),
        vec![
            DbPackageContent::Playable,
            DbPackageContent::NotExample,
            DbPackageContent::Asset,
            DbPackageContent::Models,
            DbPackageContent::Animations,
            DbPackageContent::Textures,
            DbPackageContent::Materials,
            DbPackageContent::Fonts,
            DbPackageContent::Code,
            DbPackageContent::Schema,
            DbPackageContent::Audio,
            DbPackageContent::Tool,
            DbPackageContent::Mod,
        ]
    );
}

fn bare_asset() -> PackageContent {
    PackageContent::Asset {
        models: false,
        animations: false,
        textures: false,
        materials: false,
        audio: false,
        fonts: false,
        code: false,
        schema: false,
    }
}

#[test]
fn structured_asset_without_subkind_is_asset_other() {
    let tags = DbPackageContent::from_content(&bare_asset());
    assert_eq!(tags, vec![DbPackageContent::Asset, DbPackageContent::Other]);
}

#[test]
fn structured_orders_audio_before_fonts() {
    let content = match bare_asset() {
        PackageContent::Asset { models, animations, textures, materials, code, schema, .. } => {
            PackageContent::Asset {
                models,
                animations,
                textures,
                materials,
                audio: true,
                fonts: true,
                code,
                schema,
            }
        },
        other => other,
    };
    assert_eq!(
        DbPackageContent::from_content(&content),
        vec![DbPackageContent::Asset, DbPackageContent::Audio, DbPackageContent::Fonts]
    );
}

#[test]
fn structured_playable_tool_and_mod() {
    assert_eq!(
        DbPackageContent::from_content(&PackageContent::Playable { example: true }),
        vec![DbPackageContent::Playable, DbPackageContent::Example]
    );
    assert_eq!(
        DbPackageContent::from_content(&PackageContent::Playable { example: false }),
        vec![DbPackageContent::Playable, DbPackageContent::NotExample]
    );
    assert_eq!(
        DbPackageContent::from_content(&PackageContent::Tool),
        vec![DbPackageContent::Tool]
    );
    assert_eq!(
        DbPackageContent::from_content(&PackageContent::Mod {
            for_playables: vec![String::from("p1")]
        }),
        vec![DbPackageContent::Mod]
    );
}

#[test]
fn default_content_is_non_example_playable() {
    assert_eq!(PackageContent::default(), PackageContent::Playable { example: false });
}

#[test]
fn safe_chars_are_ascii_alphanumeric() {
    assert!(has_only_safe_chars("abcXYZ019"));
    assert!(has_only_safe_chars(""));
    assert!(!has_only_safe_chars("with-dash"));
    assert!(!has_only_safe_chars("with space"));
    assert!(!has_only_safe_chars("caf\u{e9}"));
}

#[test]
fn zero_version_is_all_zero() {
    let v = ambient_schema::documents::zero_version();
    assert_eq!((v.major, v.minor, v.patch), (0, 0, 0));
    assert!(v.pre.is_empty() && v.build.is_empty());
    let w = SemVer::new(1, 2, 3);
    assert_eq!((w.major, w.minor, w.patch), (1, 2, 3));
}
