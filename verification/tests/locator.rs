use grindstone::library::{ClassifierEntry, Library, LibraryDownloads};
use grindstone::models::{File, Natives};
use grindstone::os::{Architecture, Platform};

fn plain_library(name: &str) -> Library {
    Library {
        downloads: LibraryDownloads { artifact: None, classifiers: Vec::new() },
        name: name.to_string(),
        natives: None,
        rules: Vec::new(),
        extract: None,
    }
}

fn file(url: &str, sha1: &str, size: usize) -> File {
    File { id: None, path: None, sha1: sha1.to_string(), size, url: url.to_string() }
}

#[test]
fn coordinate_with_explicit_classifier_resolves_path_and_url() {
    let lib = plain_library("org.lwjgl:lwjgl:3.3.1:natives-linux");
    let jar = lib
        .jar_path("/data/libraries", &Platform::Linux, &Architecture::AMD64)
        .unwrap();
    assert_eq!(jar, "/data/libraries/org/lwjgl/lwjgl/3.3.1/lwjgl-3.3.1-natives-linux.jar");
    let (url, sha, size) = lib.download_url(&Platform::Linux, &Architecture::AMD64).unwrap();
    assert_eq!(
        url,
        "https://libraries.minecraft.net/org/lwjgl/lwjgl/3.3.1/lwjgl-3.3.1-natives-linux.jar"
    );
    assert!(sha.is_none());
    assert!(size.is_none());
}

#[test]
fn library_path_maps_dots_to_separators() {
    let lib = plain_library("com.mojang:brigadier:1.0.18");
    let dir = lib.library_path("/base").unwrap();
    assert_eq!(dir, "/base/com/mojang/brigadier/1.0.18");
    let name = lib.jar_name(&Platform::Linux, &Architecture::AMD64).unwrap();
    assert_eq!(name, "brigadier-1.0.18.jar");
}

#[test]
fn short_coordinates_fail_with_library_name_format() {
    for bad in ["", "lwjgl", "org.lwjgl:lwjgl"] {
        let lib = plain_library(bad);
        assert!(matches!(
            lib.jar_name(&Platform::Linux, &Architecture::AMD64),
            Err(grindstone::errors::GrindstoneError::LibraryNameFormat)
        ));
        assert!(matches!(
            lib.library_path("/base"),
            Err(grindstone::errors::GrindstoneError::LibraryNameFormat)
        ));
        assert!(matches!(
            lib.jar_path("/base", &Platform::Linux, &Architecture::AMD64),
            Err(grindstone::errors::GrindstoneError::LibraryNameFormat)
        ));
    }
}

#[test]
fn native_classifier_substitutes_word_width() {
    let mut lib = plain_library("org.lwjgl:lwjgl:2.9.0");
    lib.natives = Some(Natives {
        linux: Some("natives-linux-${arch}".to_string()),
        windows: None,
        osx: None,
    });
    assert_eq!(
        lib.get_native(&Platform::Linux, &Architecture::AMD64),
        Some("natives-linux-64".to_string())
    );
    assert_eq!(
        lib.get_native(&Platform::Linux, &Architecture::I386),
        Some("natives-linux-32".to_string())
    );
    assert_eq!(lib.get_native(&Platform::Windows, &Architecture::AMD64), None);
    assert_eq!(lib.get_native(&Platform::Other, &Architecture::AMD64), None);
    let name = lib.jar_name(&Platform::Linux, &Architecture::AMD64).unwrap();
    assert_eq!(name, "lwjgl-2.9.0-natives-linux-64.jar");
}

#[test]
fn classifier_download_entry_wins_over_fallback() {
    let mut lib = plain_library("org.lwjgl:lwjgl:2.9.0");
    lib.natives = Some(Natives {
        linux: Some("natives-linux".to_string()),
        windows: None,
        osx: None,
    });
    lib.downloads.classifiers.push(ClassifierEntry {
        key: "natives-linux".to_string(),
        file: file("https://example.invalid/lwjgl-natives.jar", "0a1b", 77),
    });
    let (url, sha, size) = lib.download_url(&Platform::Linux, &Architecture::AMD64).unwrap();
    assert_eq!(url, "https://example.invalid/lwjgl-natives.jar");
    assert_eq!(sha.as_deref(), Some("0a1b"));
    assert_eq!(size, Some(77));
}

#[test]
fn artifact_entry_used_when_no_native_applies() {
    let mut lib = plain_library("com.mojang:brigadier:1.0.18");
    lib.downloads.artifact = Some(file("https://example.invalid/brigadier.jar", "ffee", 123));
    let (url, sha, size) = lib.download_url(&Platform::Linux, &Architecture::AMD64).unwrap();
    assert_eq!(url, "https://example.invalid/brigadier.jar");
    assert_eq!(sha.as_deref(), Some("ffee"));
    assert_eq!(size, Some(123));
}

#[test]
fn needs_extract_requires_native_and_directive() {
    let mut lib = plain_library("org.lwjgl:lwjgl:2.9.0");
    assert!(!lib.needs_extract(&Platform::Linux, &Architecture::AMD64));
    lib.extract = Some(grindstone::models::Extract { exclude: vec!["META-INF/".to_string()] });
    assert!(!lib.needs_extract(&Platform::Linux, &Architecture::AMD64));
    lib.natives = Some(Natives {
        linux: Some("natives-linux".to_string()),
        windows: None,
        osx: None,
    });
    assert!(lib.needs_extract(&Platform::Linux, &Architecture::AMD64));
    assert!(!lib.needs_extract(&Platform::Windows, &Architecture::AMD64));
}

#[test]
fn coordinate_suffixes_follow_the_native() {
    let mut lib = plain_library("org.lwjgl:lwjgl:3.3.1:sources");
    lib.natives = Some(Natives {
        linux: Some("natives-linux".to_string()),
        windows: None,
        osx: None,
    });
    let name = lib.jar_name(&Platform::Linux, &Architecture::AMD64).unwrap();
    assert_eq!(name, "lwjgl-3.3.1-natives-linux-sources.jar");
}

#[test]
fn empty_segments_are_kept_by_the_split() {
    let lib = plain_library("org.example::1.0");
    let name = lib.jar_name(&Platform::Linux, &Architecture::AMD64).unwrap();
    assert_eq!(name, "-1.0.jar");
    let dir = lib.library_path("/b").unwrap();
    assert_eq!(dir, "/b/org/example//1.0");
}

#[test]
fn every_arch_placeholder_is_substituted() {
    let mut lib = plain_library("org.example:n:1");
    lib.natives = Some(Natives {
        linux: Some("n-${arch}-x-${arch}".to_string()),
        windows: None,
        osx: None,
    });
    assert_eq!(
        lib.get_native(&Platform::Linux, &Architecture::AMD64),
        Some("n-64-x-64".to_string())
    );
}

#[test]
fn classifier_lookup_takes_the_first_match() {
    let mut lib = plain_library("org.example:n:1");
    lib.natives = Some(Natives { linux: Some("k".to_string()), windows: None, osx: None });
    lib.downloads.classifiers.push(ClassifierEntry {
        key: "k".to_string(),
        file: file("https://example.invalid/first.jar", "01", 1),
    });
    lib.downloads.classifiers.push(ClassifierEntry {
        key: "k".to_string(),
        file: file("https://example.invalid/second.jar", "02", 2),
    });
    let (url, _, _) = lib.download_url(&Platform::Linux, &Architecture::AMD64).unwrap();
    assert_eq!(url, "https://example.invalid/first.jar");
}
