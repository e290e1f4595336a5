//! GitHub release records of the client JAR and the lookup of its download URL.
use vstd::prelude::*;
use crate::text::text_eq;

verus! {

/// File name of the client JAR among a release's assets, and in the mods folder.
pub const JAR_NAME: &'static str = "onetap-1.0.0.jar";

/// One downloadable file of a release.
#[derive(Debug)]
pub struct GithubAsset {
    pub name: String,
    pub browser_download_url: String,
    pub size: Option<i64>,
}

/// A GitHub release: its tag, title, notes and assets.
#[derive(Debug)]
pub struct GithubRelease {
    pub tag_name: String,
    pub name: String,
    pub body: Option<String>,
    pub assets: Vec<GithubAsset>,
}

/// The download URL of the first asset named `JAR_NAME`, or `None` when no asset has that name.
pub fn get_jar_url(release: &GithubRelease) -> (r: Option<&str>)
    ensures
        match r {
            Some(url) => exists|i: int|
                0 <= i < release.assets@.len() && #[trigger] release.assets@[i].name@ == JAR_NAME@
                    && url@ == release.assets@[i].browser_download_url@ && forall|j: int|
                    0 <= j < i ==> #[trigger] release.assets@[j].name@ != JAR_NAME@,
            None => forall|i: int|
                0 <= i < release.assets@.len() ==> #[trigger] release.assets@[i].name@ != JAR_NAME@,
        },
{
    let mut i: usize = 0;
    while i < release.assets.len()
        invariant
            i <= release.assets@.len(),
            forall|j: int| 0 <= j < i ==> #[trigger] release.assets@[j].name@ != JAR_NAME@,
        decreases release.assets@.len() - i,
    {
        if text_eq(release.assets[i].name.as_str(), JAR_NAME) {
            return Some(release.assets[i].browser_download_url.as_str());
        }
        i = i + 1;
    }
    None
}

} // verus!
