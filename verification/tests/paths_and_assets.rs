use grindstone::asset_index::{AssetIndex, AssetInfo, AssetObject};
use grindstone::checksum::{bytes_eq, decode_checksum};
use grindstone::config::Config;
use grindstone::errors::GrindstoneError;
use grindstone::os::{Architecture, Platform};
use grindstone::models::VersionType as DataVersionType;
use grindstone::version::{MinecraftVersionBuilder, VersionType};

fn config() -> Config {
    Config {
        folder_path: "/srv/updater".to_string(),
        instance_name: "main".to_string(),
        version: MinecraftVersionBuilder::default()
            .version_id("1.20.1".to_string())
            .version_type(VersionType::Vanilla)
            .build(),
        platform: Platform::Linux,
        arch: Architecture::AMD64,
        data_dir: "/home/player".to_string(),
    }
}

#[test]
fn cache_layout_is_derived_from_the_configured_roots() {
    let c = config();
    assert_eq!(c.updater_folder(), "/srv/updater");
    assert_eq!(c.current_instance(), "/srv/updater/instances/main");
    assert_eq!(c.dot_minecraft_path(), "/home/player/.minecraft");
    assert_eq!(c.versions_path(), "/home/player/.minecraft/versions");
    assert_eq!(
        c.version_jar_path(),
        "/home/player/.minecraft/versions/1.20.1/1.20.1.jar"
    );
    assert_eq!(
        c.version_data_path(),
        "/home/player/.minecraft/versions/1.20.1/1.20.1.json"
    );
    assert_eq!(c.assets_path(), "/home/player/.minecraft/assets");
    assert_eq!(c.asset_index_path(), "/home/player/.minecraft/assets/indexes");
    assert_eq!(c.libraries_path(), "/home/player/.minecraft/libraries");
    assert_eq!(c.natives_path(), "/home/player/.minecraft/libraries");
    assert_eq!(c.log_configs_path(), "/home/player/.minecraft/assets/log_configs");
}

#[test]
fn builder_requires_name_and_folder() {
    let r = grindstone::config::ConfigBuilder::default().build();
    assert!(matches!(r, Err(GrindstoneError::InvalidConfig(f)) if f == "instance_name"));
    let r = grindstone::config::ConfigBuilder::default()
        .name("main".to_string())
        .build();
    assert!(matches!(r, Err(GrindstoneError::InvalidConfig(f)) if f == "folder_path"));
}

#[test]
fn asset_is_addressed_by_its_digest() {
    let info = AssetInfo { hash: "abcdef0123456789".to_string(), size: 1024 };
    assert_eq!(
        info.asset_path("assets"),
        "assets/objects/ab/abcdef0123456789"
    );
    assert_eq!(
        info.download_url(),
        "https://resources.download.minecraft.net/ab/abcdef0123456789"
    );
    assert_eq!(
        AssetInfo::resource_path("icons/icon_16x16.png", "/mc"),
        "/mc/resources/icons/icon_16x16.png"
    );
}

#[test]
fn asset_downloads_carry_decoded_digests() {
    let index = AssetIndex {
        map_to_resources: false,
        objects: vec![AssetObject {
            key: "icons/icon_16x16.png".to_string(),
            info: AssetInfo { hash: "abcdef01".to_string(), size: 10 },
        }],
    };
    let tasks = index.build_downloads("/a").unwrap();
    assert_eq!(tasks.len(), 1);
    assert_eq!(tasks[0].url, "https://resources.download.minecraft.net/ab/abcdef01");
    assert_eq!(tasks[0].file, "/a/objects/ab/abcdef01");
    assert_eq!(tasks[0].sha1.as_deref(), Some(&[0xab, 0xcd, 0xef, 0x01][..]));
}

#[test]
fn malformed_asset_digest_fails_with_invalid_checksum() {
    let index = AssetIndex {
        map_to_resources: false,
        objects: vec![AssetObject {
            key: "bad".to_string(),
            info: AssetInfo { hash: "xyz!".to_string(), size: 1 },
        }],
    };
    assert!(matches!(
        index.build_downloads("/a"),
        Err(GrindstoneError::InvalidChecksum(_))
    ));
}

#[test]
fn legacy_mapping_links_keys_to_content_addressed_paths() {
    let index = AssetIndex {
        map_to_resources: true,
        objects: vec![AssetObject {
            key: "music/calm1.ogg".to_string(),
            info: AssetInfo { hash: "0badc0de".to_string(), size: 2 },
        }],
    };
    let links = index.resource_links("/mc/assets", "/mc");
    assert_eq!(links.len(), 1);
    assert_eq!(links[0].path, "/mc/resources/music/calm1.ogg");
    assert_eq!(links[0].target, "/mc/assets/objects/0b/0badc0de");
}

#[test]
fn checksum_decoding_follows_the_digest_text() {
    assert_eq!(decode_checksum("abcdef0123").unwrap(), vec![0xab, 0xcd, 0xef, 0x01, 0x23]);
    assert_eq!(decode_checksum("ABCDEF").unwrap(), vec![0xab, 0xcd, 0xef]);
    assert!(matches!(
        decode_checksum("abc"),
        Err(GrindstoneError::InvalidChecksum(_))
    ));
    assert!(matches!(
        decode_checksum("zz"),
        Err(GrindstoneError::InvalidChecksum(_))
    ));
    assert!(bytes_eq(&vec![1, 2], &vec![1, 2]));
    assert!(!bytes_eq(&vec![1, 2], &vec![1, 3]));
    assert!(!bytes_eq(&vec![1], &vec![1, 2]));
}

#[test]
fn error_descriptions_name_the_failing_piece() {
    assert_eq!(
        GrindstoneError::InvalidConfig("folder_path".to_string()).describe(),
        "Invalid configuration `folder_path`"
    );
    assert_eq!(
        GrindstoneError::ChecksumMismatch.describe(),
        "Checksums do not match"
    );
    assert_eq!(
        GrindstoneError::InvalidVersion("9.9.9".to_string()).describe(),
        "Minecraft version '9.9.9' is invalid"
    );
    assert_eq!(
        GrindstoneError::LibraryNameFormat.describe(),
        "Format of a library name is invalid and not supported"
    );
}

#[test]
fn version_types_describe_themselves() {
    assert_eq!(DataVersionType::Release.describe(), "Release");
    assert_eq!(DataVersionType::Snapshot.describe(), "Snapshot");
    assert_eq!(DataVersionType::OldAlpha.describe(), "Alpha");
    assert_eq!(DataVersionType::OldBeta.describe(), "Beta");
}

#[test]
fn passthrough_errors_describe_their_message() {
    assert_eq!(GrindstoneError::IO("file vanished".to_string()).describe(), "file vanished");
    assert_eq!(GrindstoneError::Transport("status 500".to_string()).describe(), "status 500");
    assert_eq!(GrindstoneError::Decode("bad json".to_string()).describe(), "bad json");
    assert_eq!(
        GrindstoneError::InvalidChecksum("odd length".to_string()).describe(),
        "Checksum does not have a valid format: odd length"
    );
}

#[test]
fn short_digests_shard_on_what_is_there() {
    let info = AssetInfo { hash: "a".to_string(), size: 1 };
    assert_eq!(info.asset_path("as"), "as/objects/a/a");
}
