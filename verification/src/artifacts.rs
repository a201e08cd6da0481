//! The artifact descriptor: where built headers and libraries land, and the
//! cargo metadata lines a build script emits for them.

use vstd::prelude::*;
use vstd::string::StringExecFns;

use crate::paths::{join_path, spec_join};

verus! {

/// Where an install tree keeps its headers, libraries and binaries, and the
/// names of the static libraries produced. Immutable once produced.
pub struct Artifacts {
    pub include_dir: String,
    pub lib_dir: String,
    pub bin_dir: String,
    pub libs: Vec<String>,
}

/// The mathematical image of an [`Artifacts`] value.
#[verifier::ext_equal]
pub struct ArtifactsModel {
    pub include_dir: Seq<char>,
    pub lib_dir: Seq<char>,
    pub bin_dir: Seq<char>,
    pub libs: Seq<Seq<char>>,
}

impl View for Artifacts {
    type V = ArtifactsModel;

    open spec fn view(&self) -> ArtifactsModel {
        ArtifactsModel {
            include_dir: self.include_dir@,
            lib_dir: self.lib_dir@,
            bin_dir: self.bin_dir@,
            libs: self.libs.deep_view(),
        }
    }
}

/// The descriptor for an install tree rooted at `install_dir`: the fixed
/// `include`/`lib`/`bin` layout and the two libraries the native build
/// system always produces.
pub open spec fn artifacts_for(install_dir: Seq<char>) -> ArtifactsModel {
    ArtifactsModel {
        include_dir: spec_join(install_dir, "include"@),
        lib_dir: spec_join(install_dir, "lib"@),
        bin_dir: spec_join(install_dir, "bin"@),
        libs: seq!["ssl"@, "crypto"@],
    }
}

/// The metadata lines for a descriptor: the library search path, one
/// link request per library, and the include and lib locations.
pub open spec fn metadata_lines(a: ArtifactsModel) -> Seq<Seq<char>> {
    seq!["cargo:rustc-link-search=native="@ + a.lib_dir]
        + Seq::new(a.libs.len(), |i: int| "cargo:rustc-link-lib=static="@ + a.libs[i])
        + seq!["cargo:include="@ + a.include_dir, "cargo:lib="@ + a.lib_dir]
}

impl Artifacts {
    /// Builds the descriptor for an install tree rooted at `install_dir`.
    pub fn for_install_dir(install_dir: &str) -> (r: Artifacts)
        ensures
            r@ == artifacts_for(install_dir@),
    {
        let mut libs: Vec<String> = Vec::new();
        libs.push("ssl".to_owned());
        libs.push("crypto".to_owned());
        let r = Artifacts {
            include_dir: join_path(install_dir, "include"),
            lib_dir: join_path(install_dir, "lib"),
            bin_dir: join_path(install_dir, "bin"),
            libs,
        };
        proof {
            assert(r@ =~~= artifacts_for(install_dir@));
        }
        r
    }

    /// The lines a cargo build script prints so the calling build system can
    /// link against the produced libraries and locate the headers.
    pub fn cargo_metadata_lines(&self) -> (r: Vec<String>)
        ensures
            r.deep_view() == metadata_lines(self@),
    {
        let mut r: Vec<String> = Vec::new();
        let mut line = "cargo:rustc-link-search=native=".to_owned();
        line.append(self.lib_dir.as_str());
        r.push(line);
        let mut i: usize = 0;
        while i < self.libs.len()
            invariant
                i <= self.libs.len(),
                r@.len() == i + 1,
                r@[0]@ == "cargo:rustc-link-search=native="@ + self.lib_dir@,
                forall|k: int|
                    0 <= k < i ==> r@[k + 1]@ == "cargo:rustc-link-lib=static="@ + self.libs@[k]@,
            decreases self.libs.len() - i,
        {
            let mut line = "cargo:rustc-link-lib=static=".to_owned();
            line.append(self.libs[i].as_str());
            r.push(line);
            i += 1;
        }
        let mut line = "cargo:include=".to_owned();
        line.append(self.include_dir.as_str());
        r.push(line);
        let mut line = "cargo:lib=".to_owned();
        line.append(self.lib_dir.as_str());
        r.push(line);
        proof {
            assert(r.deep_view() =~~= metadata_lines(self@));
        }
        r
    }
}

} // verus!
