//! The artifact locator: parses colon-delimited library coordinates and
//! derives storage paths, jar file names and download URLs from them.

use vstd::prelude::*;

use crate::errors::{GrindstoneError, GrindstoneResult};
use crate::models::{Extract, File, Natives};
use crate::os::{Architecture, Platform};
use crate::rules::{check_rules, rules_allow, Rule};
use crate::text::{
    dots_to_slashes, dots_to_slashes_text, join_strings, join_text, opt_text, path_join,
    replace_arch, replace_arch_text, split_char, split_text, str_eq,
};
use crate::MC_LIBRARIES_BASE_URL;

verus! {

/// One entry of a library's classifier-download map.
#[derive(Debug)]
pub struct ClassifierEntry {
    /// The classifier this entry is for.
    pub key: String,
    /// The download it points at.
    pub file: File,
}

impl Clone for ClassifierEntry {
    /// Field-for-field copy.
    fn clone(&self) -> (r: Self)
        ensures
            r == *self,
    {
        ClassifierEntry { key: self.key.clone(), file: self.file.clone() }
    }
}

/// The first entry for `key`, if any.
pub open spec fn classifier_find(entries: Seq<ClassifierEntry>, key: Seq<char>) -> Option<File>
    decreases entries.len(),
{
    if entries.len() == 0 {
        None
    } else if entries[0].key@ == key {
        Some(entries[0].file)
    } else {
        classifier_find(entries.skip(1), key)
    }
}

/// Download information of a library.
#[derive(Debug)]
pub struct LibraryDownloads {
    /// The default artifact, if any.
    pub artifact: Option<File>,
    /// Downloads keyed by native classifier.
    pub classifiers: Vec<ClassifierEntry>,
}

impl LibraryDownloads {
    /// Looks `key` up among the classifier downloads.
    pub fn find_classifier(&self, key: &str) -> (r: Option<&File>)
        ensures
            match r {
                Some(f) => classifier_find(self.classifiers@, key@) == Some(*f),
                None => classifier_find(self.classifiers@, key@) is None,
            },
    {
        let mut i: usize = 0;
        proof {
            assert(self.classifiers@.skip(0) =~= self.classifiers@);
        }
        while i < self.classifiers.len()
            invariant
                i <= self.classifiers@.len(),
                classifier_find(self.classifiers@, key@) == classifier_find(
                    self.classifiers@.skip(i as int),
                    key@,
                ),
            decreases self.classifiers@.len() - i,
        {
            proof {
                assert(self.classifiers@.skip(i as int)[0] == self.classifiers@[i as int]);
                assert(self.classifiers@.skip(i as int).skip(1) =~= self.classifiers@.skip(
                    i as int + 1,
                ));
            }
            if str_eq(self.classifiers[i].key.as_str(), key) {
                return Some(&self.classifiers[i].file);
            }
            i += 1;
        }
        proof {
            assert(self.classifiers@.skip(self.classifiers@.len() as int).len() == 0);
        }
        None
    }
}

impl Clone for LibraryDownloads {
    /// Copy with the same artifact and the same classifier entries.
    fn clone(&self) -> (r: Self)
        ensures
            r.artifact == self.artifact,
            r.classifiers@ == self.classifiers@,
    {
        let mut classifiers: Vec<ClassifierEntry> = Vec::new();
        let mut i: usize = 0;
        while i < self.classifiers.len()
            invariant
                i <= self.classifiers@.len(),
                classifiers@.len() == i,
                forall|k: int| 0 <= k < i ==> classifiers@[k] == self.classifiers@[k],
            decreases self.classifiers@.len() - i,
        {
            classifiers.push(self.classifiers[i].clone());
            i += 1;
        }
        proof {
            assert(classifiers@ =~= self.classifiers@);
        }
        LibraryDownloads {
            artifact: match &self.artifact {
                Some(f) => Some(f.clone()),
                None => None,
            },
            classifiers,
        }
    }
}

/// A library needed for running the game, named by a coordinate
/// `package.path:name:version[:suffix...]`.
#[derive(Debug)]
pub struct Library {
    /// Information about downloading the library.
    pub downloads: LibraryDownloads,
    /// The coordinate of the library.
    pub name: String,
    /// Available natives, if any.
    pub natives: Option<Natives>,
    /// Rules gating this library.
    pub rules: Vec<Rule>,
    /// Extract options, if any.
    pub extract: Option<Extract>,
}

/// Whether `a` carries the same data as `b`, comparing list fields by
/// their contents.
pub open spec fn same_library(a: Library, b: Library) -> bool {
    &&& a.name == b.name
    &&& a.downloads.artifact == b.downloads.artifact
    &&& a.downloads.classifiers@ == b.downloads.classifiers@
    &&& a.natives == b.natives
    &&& a.rules@ == b.rules@
    &&& match (a.extract, b.extract) {
        (Some(x), Some(y)) => x.exclude@ == y.exclude@,
        (None, None) => true,
        _ => false,
    }
}

impl Library {
    /// The `:`-separated segments of the coordinate.
    pub open spec fn segments(&self) -> Seq<Seq<char>> {
        split_text(self.name@, ':')
    }

    /// A coordinate is well formed when it has at least three segments.
    pub open spec fn coord_ok(&self) -> bool {
        self.segments().len() >= 3
    }

    /// The platform-specific native classifier, with the word-width
    /// placeholder substituted.
    pub open spec fn native_text(&self, p: Platform, a: Architecture) -> Option<Seq<char>> {
        match self.natives {
            Some(n) => match n.name_for(p) {
                Some(t) => Some(replace_arch_text(t, a.bits_text())),
                None => None,
            },
            None => None,
        }
    }

    /// The `-`-joined parts of the jar file name: artifact name, version,
    /// the native classifier when one applies, then any coordinate
    /// suffixes.
    pub open spec fn jar_parts(&self, p: Platform, a: Architecture) -> Seq<Seq<char>>
        recommends
            self.coord_ok(),
    {
        let segs = self.segments();
        let base = seq![segs[1], segs[2]];
        let with_native = match self.native_text(p, a) {
            Some(n) => base.push(n),
            None => base,
        };
        with_native + segs.skip(3)
    }

    /// The jar file name of the library.
    pub open spec fn jar_name_text(&self, p: Platform, a: Architecture) -> Seq<char>
        recommends
            self.coord_ok(),
    {
        join_text(self.jar_parts(p, a), "-"@) + ".jar"@
    }

    /// The directory the jar is stored under, below `base`: the package
    /// with `.` mapped to `/`, then the artifact name, then the version.
    pub open spec fn dir_text(&self, base: Seq<char>) -> Seq<char>
        recommends
            self.coord_ok(),
    {
        let segs = self.segments();
        base + "/"@ + dots_to_slashes_text(segs[0]) + "/"@ + segs[1] + "/"@ + segs[2]
    }

    /// The complete storage path of the jar below `base`.
    pub open spec fn jar_path_text(&self, base: Seq<char>, p: Platform, a: Architecture) -> Seq<
        char,
    >
        recommends
            self.coord_ok(),
    {
        self.dir_text(base) + "/"@ + self.jar_name_text(p, a)
    }

    /// The fallback URL under the libraries base host.
    pub open spec fn fallback_url_text(&self, p: Platform, a: Architecture) -> Seq<char>
        recommends
            self.coord_ok(),
    {
        let segs = self.segments();
        MC_LIBRARIES_BASE_URL@ + "/"@ + dots_to_slashes_text(segs[0]) + "/"@ + segs[1] + "/"@
            + segs[2] + "/"@ + self.jar_name_text(p, a)
    }

    /// Whether no explicit download entry covers the library, so that the
    /// fallback URL must be synthesized.
    pub open spec fn needs_fallback(&self, p: Platform, a: Architecture) -> bool {
        match self.native_text(p, a) {
            Some(n) => classifier_find(self.downloads.classifiers@, n) is None,
            None => self.downloads.artifact is None,
        }
    }

    /// Whether `t` is the URL, digest and size that the library resolves
    /// to: the classifier download when a native applies and is mapped,
    /// the default artifact when no native applies, and the synthesized
    /// fallback URL with no digest otherwise.
    pub open spec fn url_pick(
        &self,
        p: Platform,
        a: Architecture,
        t: (String, Option<String>, Option<usize>),
    ) -> bool {
        match self.native_text(p, a) {
            Some(n) => match classifier_find(self.downloads.classifiers@, n) {
                Some(f) => t.0@ == f.url@ && opt_text(t.1) == Some(f.sha1@) && t.2 == Some(f.size),
                None => t.0@ == self.fallback_url_text(p, a) && t.1 is None && t.2 is None,
            },
            None => match self.downloads.artifact {
                Some(f) => t.0@ == f.url@ && opt_text(t.1) == Some(f.sha1@) && t.2 == Some(f.size),
                None => t.0@ == self.fallback_url_text(p, a) && t.1 is None && t.2 is None,
            },
        }
    }

    /// Checks whether the library is used on the probed platform.
    pub fn check_use(&self, current: &Platform) -> (r: bool)
        ensures
            r == rules_allow(self.rules@, *current),
    {
        check_rules(&self.rules, current)
    }

    /// The coordinate split on `:`.
    fn split_name(&self) -> (r: Vec<String>)
        ensures
            r.deep_view() == self.segments(),
    {
        split_char(self.name.as_str(), ':')
    }

    /// The native classifier for the probed platform, with `${arch}`
    /// substituted by the word width.
    pub fn get_native(&self, platform: &Platform, arch: &Architecture) -> (r: Option<String>)
        ensures
            opt_text(r) == self.native_text(*platform, *arch),
    {
        match &self.natives {
            Some(natives) => match natives.get_for_current_platform(platform) {
                Some(n) => Some(replace_arch(n.as_str(), arch.bits_str())),
                None => None,
            },
            None => None,
        }
    }

    /// Builds the name of the library jar file.
    /// Fails with `LibraryNameFormat` exactly on malformed coordinates.
    pub fn jar_name(&self, platform: &Platform, arch: &Architecture) -> (r: GrindstoneResult<
        String,
    >)
        ensures
            self.coord_ok() ==> (r matches Ok(s) && s@ == self.jar_name_text(*platform, *arch)),
            !self.coord_ok() ==> (r matches Err(e) && e is LibraryNameFormat),
    {
        let segs = self.split_name();
        proof {
            assert(segs@.len() == segs.deep_view().len());
        }
        if segs.len() < 3 {
            return Err(GrindstoneError::LibraryNameFormat);
        }
        let ghost expected = self.jar_parts(*platform, *arch);
        let mut parts: Vec<String> = Vec::new();
        parts.push(segs[1].clone());
        parts.push(segs[2].clone());
        match self.get_native(platform, arch) {
            Some(n) => {
                parts.push(n);
            },
            None => {},
        }
        let ghost head = parts.deep_view().len() as int;
        proof {
            assert(parts.deep_view() =~= expected.take(head));
        }
        let mut i: usize = 3;
        while i < segs.len()
            invariant
                3 <= i <= segs@.len(),
                segs@.len() == segs.deep_view().len(),
                segs.deep_view() == self.segments(),
                self.coord_ok(),
                expected == self.jar_parts(*platform, *arch),
                expected.len() == head + segs@.len() - 3,
                parts.deep_view().len() == head + i - 3,
                parts.deep_view() =~= expected.take(head + i - 3),
            decreases segs@.len() - i,
        {
            parts.push(segs[i].clone());
            proof {
                assert(expected[head + i - 3] == segs.deep_view()[i as int]);
                assert(parts.deep_view() =~= expected.take(head + i - 2));
            }
            i += 1;
        }
        proof {
            assert(parts.deep_view() =~= expected);
        }
        let mut r = join_strings(&parts, "-");
        r.append(".jar");
        Ok(r)
    }

    /// Builds the directory the library jar is stored under, not
    /// including the file itself.
    /// Fails with `LibraryNameFormat` exactly on malformed coordinates.
    pub fn library_path(&self, libraries_path: &str) -> (r: GrindstoneResult<String>)
        ensures
            self.coord_ok() ==> (r matches Ok(s) && s@ == self.dir_text(libraries_path@)),
            !self.coord_ok() ==> (r matches Err(e) && e is LibraryNameFormat),
    {
        let segs = self.split_name();
        proof {
            assert(segs@.len() == segs.deep_view().len());
        }
        if segs.len() < 3 {
            return Err(GrindstoneError::LibraryNameFormat);
        }
        let pkg = dots_to_slashes(segs[0].as_str());
        let step1 = path_join(libraries_path, pkg.as_str());
        let step2 = path_join(step1.as_str(), segs[1].as_str());
        let r = path_join(step2.as_str(), segs[2].as_str());
        proof {
            assert(r@ =~= self.dir_text(libraries_path@));
        }
        Ok(r)
    }

    /// Builds the complete path of the library jar below `libraries_path`.
    /// Fails with `LibraryNameFormat` exactly on malformed coordinates.
    pub fn jar_path(&self, libraries_path: &str, platform: &Platform, arch: &Architecture) -> (r:
        GrindstoneResult<String>)
        ensures
            self.coord_ok() ==> (r matches Ok(s) && s@ == self.jar_path_text(
                libraries_path@,
                *platform,
                *arch,
            )),
            !self.coord_ok() ==> (r matches Err(e) && e is LibraryNameFormat),
    {
        let dir = match self.library_path(libraries_path) {
            Ok(d) => d,
            Err(e) => {
                return Err(e);
            },
        };
        let name = match self.jar_name(platform, arch) {
            Ok(n) => n,
            Err(e) => {
                return Err(e);
            },
        };
        let r = path_join(dir.as_str(), name.as_str());
        Ok(r)
    }

    /// Synthesizes the fallback URL under the libraries base host.
    fn build_url_from_name(&self, platform: &Platform, arch: &Architecture) -> (r:
        GrindstoneResult<String>)
        ensures
            self.coord_ok() ==> (r matches Ok(s) && s@ == self.fallback_url_text(*platform, *arch)),
            !self.coord_ok() ==> (r matches Err(e) && e is LibraryNameFormat),
    {
        let segs = self.split_name();
        proof {
            assert(segs@.len() == segs.deep_view().len());
        }
        if segs.len() < 3 {
            return Err(GrindstoneError::LibraryNameFormat);
        }
        let name = match self.jar_name(platform, arch) {
            Ok(n) => n,
            Err(e) => {
                return Err(e);
            },
        };
        let pkg = dots_to_slashes(segs[0].as_str());
        let step1 = path_join(MC_LIBRARIES_BASE_URL, pkg.as_str());
        let step2 = path_join(step1.as_str(), segs[1].as_str());
        let step3 = path_join(step2.as_str(), segs[2].as_str());
        let r = path_join(step3.as_str(), name.as_str());
        proof {
            assert(r@ =~= self.fallback_url_text(*platform, *arch));
        }
        Ok(r)
    }

    /// Resolves the download URL, digest and size for the library.
    /// Fails with `LibraryNameFormat` exactly when the fallback URL is
    /// needed and the coordinate is malformed.
    pub fn download_url(&self, platform: &Platform, arch: &Architecture) -> (r: GrindstoneResult<
        (String, Option<String>, Option<usize>),
    >)
        ensures
            match r {
                Ok(t) => self.url_pick(*platform, *arch, t) && (self.needs_fallback(
                    *platform,
                    *arch,
                ) ==> self.coord_ok()),
                Err(e) => e is LibraryNameFormat && !self.coord_ok() && self.needs_fallback(
                    *platform,
                    *arch,
                ),
            },
    {
        match self.get_native(platform, arch) {
            Some(native) => match self.downloads.find_classifier(native.as_str()) {
                Some(f) => Ok((f.url.clone(), Some(f.sha1.clone()), Some(f.size))),
                None => {
                    let url = match self.build_url_from_name(platform, arch) {
                        Ok(u) => u,
                        Err(e) => {
                            return Err(e);
                        },
                    };
                    Ok((url, None, None))
                },
            },
            None => match &self.downloads.artifact {
                Some(f) => Ok((f.url.clone(), Some(f.sha1.clone()), Some(f.size))),
                None => {
                    let url = match self.build_url_from_name(platform, arch) {
                        Ok(u) => u,
                        Err(e) => {
                            return Err(e);
                        },
                    };
                    Ok((url, None, None))
                },
            },
        }
    }

    /// Whether the library needs to be extracted: a native classifier
    /// applies and an extract directive is present.
    pub fn needs_extract(&self, platform: &Platform, arch: &Architecture) -> (r: bool)
        ensures
            r == (self.native_text(*platform, *arch) is Some && self.extract is Some),
    {
        self.get_native(platform, arch).is_some() && self.extract.is_some()
    }
}

impl Clone for Library {
    /// Copy carrying the same coordinate, downloads, natives, rules and
    /// extract options.
    fn clone(&self) -> (r: Self)
        ensures
            same_library(r, *self),
    {
        let mut rules: Vec<Rule> = Vec::new();
        let mut i: usize = 0;
        while i < self.rules.len()
            invariant
                i <= self.rules@.len(),
                rules@.len() == i,
                forall|k: int| 0 <= k < i ==> rules@[k] == self.rules@[k],
            decreases self.rules@.len() - i,
        {
            rules.push(self.rules[i].clone());
            i += 1;
        }
        proof {
            assert(rules@ =~= self.rules@);
        }
        Library {
            downloads: self.downloads.clone(),
            name: self.name.clone(),
            natives: match &self.natives {
                Some(n) => Some(n.clone()),
                None => None,
            },
            rules,
            extract: match &self.extract {
                Some(x) => Some(x.clone()),
                None => None,
            },
        }
    }
}

} // verus!
