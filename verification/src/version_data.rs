//! The version descriptor: the full per-version record that drives an
//! installation.

use vstd::prelude::*;

use crate::arguments::Arguments;
use crate::library::{same_library, Library};
use crate::models::{AssetIndexInfo, Downloads, JavaVersion, LoggingInfo, VersionType};
use crate::os::Platform;
use crate::rules::rules_allow;

verus! {

/// The libraries of `libs` whose rules allow them on `current`, in
/// order.
pub open spec fn needed_of(libs: Seq<Library>, current: Platform) -> Seq<Library>
    decreases libs.len(),
{
    if libs.len() == 0 {
        Seq::empty()
    } else {
        (if rules_allow(libs[0].rules@, current) {
            seq![libs[0]]
        } else {
            Seq::empty()
        }) + needed_of(libs.skip(1), current)
    }
}

/// The full record of one game version: everything needed to install
/// and launch it.
#[derive(Debug)]
pub struct VersionData {
    /// Arguments for launching, on modern versions.
    pub arguments: Option<Arguments>,
    /// Asset index reference.
    pub asset_index: AssetIndexInfo,
    /// Identifier of the used asset index.
    pub assets: String,
    /// Compliance level.
    pub compliance_level: i32,
    /// Downloads of the client and server binaries, if any.
    pub downloads: Option<Downloads>,
    /// Version id.
    pub id: String,
    /// Required Java runtime.
    pub java_version: JavaVersion,
    /// Ordered library list.
    pub libraries: Vec<Library>,
    /// Logging configuration reference, if any.
    pub logging: Option<LoggingInfo>,
    /// Main class, the entry point.
    pub main_class: String,
    /// Legacy argument string, on old versions.
    pub minecraft_arguments: Option<String>,
    /// Minimum launcher version, for the original launcher.
    pub minimum_launcher_version: i32,
    /// Release time, as seconds since the Unix epoch.
    pub release_time: i64,
    /// Listing time, as seconds since the Unix epoch.
    pub time: i64,
    /// The type of the version.
    pub _type: VersionType,
}

impl VersionData {
    /// The libraries whose rules allow them on `current`, in order.
    pub fn needed_libraries(&self, current: &Platform) -> (r: Vec<Library>)
        ensures
            ({
                let needed = needed_of(self.libraries@, *current);
                &&& r@.len() == needed.len()
                &&& forall|i: int| 0 <= i < r@.len() ==> same_library(#[trigger] r@[i], needed[i])
            }),
    {
        let ghost needed = needed_of(self.libraries@, *current);
        let mut r: Vec<Library> = Vec::new();
        let mut i: usize = 0;
        proof {
            assert(self.libraries@.skip(0) =~= self.libraries@);
            assert(needed.skip(0) =~= needed);
        }
        while i < self.libraries.len()
            invariant
                i <= self.libraries@.len(),
                needed == needed_of(self.libraries@, *current),
                r@.len() <= needed.len(),
                needed.skip(r@.len() as int) == needed_of(
                    self.libraries@.skip(i as int),
                    *current,
                ),
                forall|k: int| 0 <= k < r@.len() ==> same_library(#[trigger] r@[k], needed[k]),
            decreases self.libraries@.len() - i,
        {
            proof {
                assert(self.libraries@.skip(i as int)[0] == self.libraries@[i as int]);
                assert(self.libraries@.skip(i as int).skip(1) =~= self.libraries@.skip(
                    i as int + 1,
                ));
            }
            let lib = &self.libraries[i];
            if lib.check_use(current) {
                let ghost j = r@.len() as int;
                proof {
                    assert(needed_of(self.libraries@.skip(i as int), *current) == seq![
                        self.libraries@[i as int],
                    ] + needed_of(self.libraries@.skip(i as int + 1), *current));
                    assert(needed.skip(j).len() >= 1);
                    assert(j < needed.len());
                    assert(needed.skip(j)[0] == self.libraries@[i as int]);
                    assert(needed[j] == self.libraries@[i as int]);
                    assert(needed.skip(j).skip(1) =~= needed.skip(j + 1));
                }
                r.push(lib.clone());
            }
            i += 1;
        }
        proof {
            assert(self.libraries@.skip(self.libraries@.len() as int).len() == 0);
            assert(needed.skip(r@.len() as int).len() == 0);
            assert(r@.len() == needed.len());
        }
        r
    }
}

} // verus!
