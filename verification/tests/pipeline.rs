use grindstone::asset_index::{AssetIndex, AssetInfo, AssetObject};
use grindstone::config::Config;
use grindstone::errors::GrindstoneError;
use grindstone::library::{Library, LibraryDownloads};
use grindstone::manifest::{LatestVersion, VersionsManifest, VersionSummary};
use grindstone::models::{
    AssetIndexInfo, Client as LoggingClient, Downloads, File, JavaVersion, LoggingInfo,
    VersionType,
};
use grindstone::os::{Architecture, Platform};
use grindstone::runtime::{
    DownloadFile, FileType, JreComponentEntry, JreEntry, JreFile, JreFileDownload, JreManifest,
    JreRuntimeManifest, RuntimeData, RuntimeVersion,
};
use grindstone::updater::{GrindstoneUpdater, UpdatePhase};
use grindstone::version::MinecraftVersionBuilder;
use grindstone::version_data::VersionData;

fn config(version_id: &str) -> Config {
    Config {
        folder_path: "/srv/updater".to_string(),
        instance_name: "main".to_string(),
        version: MinecraftVersionBuilder::default()
            .version_id(version_id.to_string())
            .build(),
        platform: Platform::Linux,
        arch: Architecture::AMD64,
        data_dir: "/home/player".to_string(),
    }
}

fn summary(id: &str) -> VersionSummary {
    VersionSummary {
        id: id.to_string(),
        _type: VersionType::Release,
        url: format!("https://piston-meta.mojang.com/v1/packages/{}.json", id),
        time: 1_690_000_000,
        release_time: 1_690_000_000,
        sha1: "0123456789abcdef0123456789abcdef01234567".to_string(),
    }
}

fn manifest() -> VersionsManifest {
    VersionsManifest {
        latest: LatestVersion {
            release: "1.20.1".to_string(),
            snapshot: "23w31a".to_string(),
        },
        versions: vec![summary("1.19.4"), summary("1.20.1")],
    }
}

fn descriptor() -> VersionData {
    let mut plain = Library {
        downloads: LibraryDownloads { artifact: None, classifiers: Vec::new() },
        name: "com.mojang:brigadier:1.0.18".to_string(),
        natives: None,
        rules: Vec::new(),
        extract: None,
    };
    plain.downloads.artifact = Some(File {
        id: None,
        path: None,
        sha1: "aabb".to_string(),
        size: 42,
        url: "https://libraries.minecraft.net/com/mojang/brigadier/1.0.18/brigadier-1.0.18.jar"
            .to_string(),
    });
    let windows_only = Library {
        downloads: LibraryDownloads { artifact: None, classifiers: Vec::new() },
        name: "org.example:winhelper:0.1".to_string(),
        natives: None,
        rules: vec![grindstone::rules::Rule {
            action: grindstone::rules::Action::Allow,
            os: Some(grindstone::rules::Os {
                platform: Some(Platform::Windows),
                version: None,
                arch: None,
            }),
            features: None,
        }],
        extract: None,
    };
    VersionData {
        arguments: None,
        asset_index: AssetIndexInfo {
            id: "5".to_string(),
            sha1: "ddeeff00".to_string(),
            size: 100,
            total_size: 1000,
            url: "https://piston-meta.mojang.com/assets/5.json".to_string(),
        },
        assets: "5".to_string(),
        compliance_level: 1,
        downloads: Some(Downloads {
            client: File {
                id: None,
                path: None,
                sha1: "c1c2".to_string(),
                size: 7,
                url: "https://piston-data.mojang.com/client.jar".to_string(),
            },
            client_mappings: None,
            server: None,
            server_mappings: None,
        }),
        id: "1.20.1".to_string(),
        java_version: JavaVersion { component: "java-runtime-gamma".to_string(), major_version: 17 },
        libraries: vec![plain, windows_only],
        logging: Some(LoggingInfo {
            client: LoggingClient {
                argument: "-Dlog4j.configurationFile=${path}".to_string(),
                file: File {
                    id: Some("client-1.12.xml".to_string()),
                    path: None,
                    sha1: "1a2b".to_string(),
                    size: 9,
                    url: "https://piston-data.mojang.com/log4j.xml".to_string(),
                },
                _type: "log4j2-xml".to_string(),
            },
        }),
        main_class: "net.minecraft.client.main.Main".to_string(),
        minecraft_arguments: None,
        minimum_launcher_version: 21,
        release_time: 1_690_000_000,
        time: 1_690_000_000,
        _type: VersionType::Release,
    }
}

#[test]
fn latest_alias_resolves_to_the_manifest_release() {
    let m = manifest();
    assert_eq!(m.resolve_alias(&"latest".to_string()), "1.20.1");
    assert_eq!(m.resolve_alias(&"1.19.4".to_string()), "1.19.4");

    let mut updater = GrindstoneUpdater::new(config("latest"));
    updater.begin_update();
    let task = updater.resolve_version(&m).unwrap();
    assert_eq!(updater.config.version.id, "1.20.1");
    assert_eq!(task.url, "https://piston-meta.mojang.com/v1/packages/1.20.1.json");
    assert_eq!(
        task.file,
        "/home/player/.minecraft/versions/1.20.1/1.20.1.json"
    );
    assert!(task.sha1.is_some());
    assert_eq!(updater.phase, UpdatePhase::FetchingDescriptor);
}

#[test]
fn unknown_version_fails_with_invalid_version() {
    let mut updater = GrindstoneUpdater::new(config("0.0.0"));
    updater.begin_update();
    let r = updater.resolve_version(&manifest());
    assert!(matches!(r, Err(GrindstoneError::InvalidVersion(id)) if id == "0.0.0"));
    assert_eq!(updater.phase, UpdatePhase::Failed);
}

#[test]
fn manifest_lookup_returns_the_matching_summary() {
    let m = manifest();
    let version = MinecraftVersionBuilder::default()
        .version_id("1.19.4".to_string())
        .build();
    let s = m.get_version(&version).unwrap();
    assert_eq!(s.id, "1.19.4");
}

#[test]
fn begin_update_reports_start_events_and_folders() {
    let mut updater = GrindstoneUpdater::new(config("latest"));
    let (events, folders) = updater.begin_update();
    assert_eq!(events.len(), 3);
    assert_eq!(events[0].message, "Starting Updater !");
    assert_eq!(events[1].message, "Creating required folders");
    assert_eq!(events[2].message, "Downloading version manifest");
    assert_eq!(folders, vec![
        "/home/player/.minecraft".to_string(),
        "/srv/updater".to_string(),
    ]);
}

#[test]
fn pipeline_plans_every_phase_in_order() {
    let data = descriptor();
    let mut updater = GrindstoneUpdater::new(config("latest"));
    updater.begin_update();
    updater.resolve_version(&manifest()).unwrap();

    let (target, install_needed) = updater.choose_runtime_target(&data, None);
    assert_eq!(
        target,
        "/home/player/.minecraft/runtime/java-runtime-gamma"
    );
    assert!(install_needed);
    assert_eq!(updater.java_runtime_path, target);

    let libraries = updater.plan_libraries(&data).unwrap();
    assert_eq!(libraries.len(), 1);
    assert_eq!(
        libraries[0].file,
        "/home/player/.minecraft/libraries/com/mojang/brigadier/1.0.18/brigadier-1.0.18.jar"
    );
    assert_eq!(libraries[0].sha1.as_deref(), Some(&[0xaa, 0xbb][..]));

    let index_task = updater.plan_asset_index(&data).unwrap();
    assert_eq!(index_task.url, "https://piston-meta.mojang.com/assets/5.json");
    assert_eq!(
        index_task.file,
        "/home/player/.minecraft/assets/indexes/5.json"
    );

    let index = AssetIndex {
        map_to_resources: true,
        objects: vec![AssetObject {
            key: "music/calm1.ogg".to_string(),
            info: AssetInfo { hash: "0badc0de".to_string(), size: 2 },
        }],
    };
    let (asset_tasks, links) = updater.plan_assets(&index).unwrap();
    assert_eq!(asset_tasks.len(), 1);
    assert_eq!(links.len(), 1);
    assert_eq!(links[0].path, "/home/player/.minecraft/resources/music/calm1.ogg");

    let log_task = updater.plan_log_patch(&data).unwrap().unwrap();
    assert_eq!(
        log_task.file,
        "/home/player/.minecraft/assets/log_configs/client-1.12.xml"
    );
    assert_eq!(log_task.url, "https://piston-data.mojang.com/log4j.xml");

    let client_task = updater.plan_client(&data).unwrap().unwrap();
    assert_eq!(client_task.url, "https://piston-data.mojang.com/client.jar");
    assert_eq!(
        client_task.file,
        "/home/player/.minecraft/versions/1.20.1/1.20.1.jar"
    );
    assert_eq!(updater.phase, UpdatePhase::Done);
}

#[test]
fn preinstalled_runtime_suppresses_installation() {
    let data = descriptor();
    let mut updater = GrindstoneUpdater::new(config("latest"));
    updater.begin_update();
    updater.resolve_version(&manifest()).unwrap();
    let (target, install_needed) =
        updater.choose_runtime_target(&data, Some("/opt/jdk-17".to_string()));
    assert_eq!(target, "/opt/jdk-17");
    assert!(!install_needed);
}

#[test]
fn needed_libraries_filter_through_the_rules() {
    let data = descriptor();
    let needed = data.needed_libraries(&Platform::Linux);
    assert_eq!(needed.len(), 1);
    assert_eq!(needed[0].name, "com.mojang:brigadier:1.0.18");
    let on_windows = data.needed_libraries(&Platform::Windows);
    assert_eq!(on_windows.len(), 2);
}

#[test]
fn runtime_plan_classifies_the_file_tree() {
    let tree = JreRuntimeManifest {
        files: vec![
            JreEntry {
                path: "bin".to_string(),
                file: JreFile {
                    file_type: FileType::Directory,
                    executable: None,
                    downloads: None,
                    target: None,
                },
            },
            JreEntry {
                path: "bin/java".to_string(),
                file: JreFile {
                    file_type: FileType::File,
                    executable: Some(true),
                    downloads: Some(JreFileDownload {
                        raw: DownloadFile {
                            sha1: "0a0b".to_string(),
                            size: 1234,
                            url: "https://piston-data.mojang.com/java".to_string(),
                        },
                    }),
                    target: None,
                },
            },
            JreEntry {
                path: "bin/javaw".to_string(),
                file: JreFile {
                    file_type: FileType::Link,
                    executable: None,
                    downloads: None,
                    target: Some("java".to_string()),
                },
            },
        ],
    };
    let plan = tree.install_plan("/runtime/gamma").unwrap();
    assert_eq!(plan.dirs, vec!["/runtime/gamma/bin".to_string()]);
    assert_eq!(plan.tasks.len(), 1);
    assert_eq!(plan.tasks[0].file, "/runtime/gamma/bin/java");
    assert_eq!(plan.tasks[0].sha1.as_deref(), Some(&[0x0a, 0x0b][..]));
    assert_eq!(plan.links.len(), 1);
    assert_eq!(plan.links[0].path, "/runtime/gamma/bin/javaw");
    assert_eq!(plan.links[0].target, "java");
    assert_eq!(plan.executables, vec!["/runtime/gamma/bin/java".to_string()]);
}

#[test]
fn runtime_plan_rejects_malformed_entries() {
    let no_download = JreRuntimeManifest {
        files: vec![JreEntry {
            path: "bin/java".to_string(),
            file: JreFile {
                file_type: FileType::File,
                executable: None,
                downloads: None,
                target: None,
            },
        }],
    };
    assert!(matches!(
        no_download.install_plan("/r"),
        Err(GrindstoneError::Decode(_))
    ));
    let bad_digest = JreRuntimeManifest {
        files: vec![JreEntry {
            path: "bin/java".to_string(),
            file: JreFile {
                file_type: FileType::File,
                executable: None,
                downloads: Some(JreFileDownload {
                    raw: DownloadFile {
                        sha1: "zz".to_string(),
                        size: 1,
                        url: "https://example.invalid/java".to_string(),
                    },
                }),
                target: None,
            },
        }],
    };
    assert!(matches!(
        bad_digest.install_plan("/r"),
        Err(GrindstoneError::InvalidChecksum(_))
    ));
}

#[test]
fn runtime_lookup_selects_platform_and_component() {
    let runtime = RuntimeData {
        manifest: DownloadFile {
            sha1: "00ff".to_string(),
            size: 5,
            url: "https://piston-meta.mojang.com/java-runtime-gamma.json".to_string(),
        },
        version: RuntimeVersion { name: "17.0.8".to_string(), released: 1_690_000_000 },
    };
    let jre = JreManifest {
        linux: vec![JreComponentEntry {
            key: "java-runtime-gamma".to_string(),
            data: vec![runtime],
        }],
        mac_os: Vec::new(),
        mac_os_arm64: Vec::new(),
        windows: Vec::new(),
    };
    let found = jre.find_runtime(&Platform::Linux, "java-runtime-gamma").unwrap();
    assert_eq!(found.version.name, "17.0.8");
    assert!(jre.find_runtime(&Platform::Windows, "java-runtime-gamma").is_none());
    assert!(jre.find_runtime(&Platform::Other, "java-runtime-gamma").is_none());
    assert!(jre.find_runtime(&Platform::Linux, "java-runtime-beta").is_none());
}

#[test]
fn runtime_search_decides_from_the_probe() {
    let java = grindstone::runtime::Java::new(config("1.20.1"));
    assert_eq!(
        java.runtime_path().unwrap(),
        "/home/player/.minecraft/runtime"
    );
    assert_eq!(
        java.search_jre("java-runtime-gamma", true).unwrap(),
        Some("/home/player/.minecraft/runtime/java-runtime-gamma".to_string())
    );
    assert_eq!(java.search_jre("java-runtime-gamma", false).unwrap(), None);
}

#[test]
fn missing_logging_and_downloads_are_skipped() {
    let mut data = descriptor();
    data.logging = None;
    data.downloads = None;
    let mut updater = GrindstoneUpdater::new(config("1.20.1"));
    updater.begin_update();
    updater.resolve_version(&manifest()).unwrap();
    updater.choose_runtime_target(&data, None);
    updater.plan_libraries(&data).unwrap();
    updater.plan_asset_index(&data).unwrap();
    let index = AssetIndex { map_to_resources: false, objects: Vec::new() };
    let (tasks, links) = updater.plan_assets(&index).unwrap();
    assert!(tasks.is_empty());
    assert!(links.is_empty());
    assert!(updater.plan_log_patch(&data).unwrap().is_none());
    assert!(updater.plan_client(&data).unwrap().is_none());
    assert_eq!(updater.phase, UpdatePhase::Done);
}
