//! Published releases, the archive chosen from one, and the directory an
//! archive is unpacked into.

use vstd::prelude::*;
use crate::text::{join, starts_with, views};

verus! {

/// One downloadable archive of a release.
#[derive(Clone, Debug, PartialEq, Eq)]
pub struct ReleaseAsset {
    pub name: String,
    pub download_url: String,
}

/// The mathematical value of a [`ReleaseAsset`].
pub struct ReleaseAssetView {
    pub name: Seq<char>,
    pub download_url: Seq<char>,
}

impl View for ReleaseAsset {
    type V = ReleaseAssetView;

    open spec fn view(&self) -> ReleaseAssetView {
        ReleaseAssetView { name: self.name@, download_url: self.download_url@ }
    }
}

/// A published release: its version and the archives attached to it.
#[derive(Clone, Debug, PartialEq, Eq)]
pub struct Release {
    pub version: String,
    pub assets: Vec<ReleaseAsset>,
}

/// The mathematical value of a [`Release`].
pub struct ReleaseView {
    pub version: Seq<char>,
    pub assets: Seq<ReleaseAssetView>,
}

impl View for Release {
    type V = ReleaseView;

    open spec fn view(&self) -> ReleaseView {
        ReleaseView { version: self.version@, assets: views(self.assets@) }
    }
}

/// With what the name of every version directory begins.
pub open spec fn directory_prefix() -> Seq<char> {
    "nargo-"@
}

/// The directory a release of the given version is unpacked into.
pub open spec fn version_directory_of(version: Seq<char>) -> Seq<char> {
    directory_prefix() + version
}

/// Where the binary lies once an archive is unpacked into `directory`.
pub open spec fn binary_path_in(directory: Seq<char>) -> Seq<char> {
    directory + "/nargo"@
}

/// The position of the first archive called `name`, if there is one.
pub open spec fn first_named(assets: Seq<ReleaseAssetView>, name: Seq<char>) -> Option<int> {
    if exists|i: int| 0 <= i < assets.len() && assets[i].name == name {
        Some(
            choose|i: int|
                0 <= i < assets.len() && assets[i].name == name && forall|j: int|
                    0 <= j < i ==> assets[j].name != name,
        )
    } else {
        None
    }
}

/// The first archive called `name`, if there is one.
pub open spec fn select_asset(assets: Seq<ReleaseAssetView>, name: Seq<char>) -> Option<
    ReleaseAssetView,
> {
    match first_named(assets, name) {
        Some(i) => Some(assets[i]),
        None => None,
    }
}

/// A directory entry is stale when it is a version directory other than the
/// current one.
pub open spec fn is_stale(name: Seq<char>, current: Seq<char>) -> bool {
    directory_prefix().is_prefix_of(name) && name != current
}

/// The stale entries among `entries`, in the order in which they were listed.
pub open spec fn stale_among(entries: Seq<Seq<char>>, current: Seq<char>) -> Seq<Seq<char>>
    decreases entries.len(),
{
    if entries.len() == 0 {
        Seq::empty()
    } else {
        let earlier = stale_among(entries.drop_last(), current);
        if is_stale(entries.last(), current) {
            earlier.push(entries.last())
        } else {
            earlier
        }
    }
}

/// `first_named` returns the least position that carries the name, and
/// `None` exactly when no position does.
pub proof fn lemma_first_named(assets: Seq<ReleaseAssetView>, name: Seq<char>, i: int)
    requires
        0 <= i < assets.len(),
        assets[i].name == name,
        forall|j: int| 0 <= j < i ==> assets[j].name != name,
    ensures
        first_named(assets, name) == Some(i),
{
    let found = first_named(assets, name);
    assert(found is Some);
    let k = found->0;
    assert(0 <= k < assets.len() && assets[k].name == name && forall|j: int|
        0 <= j < k ==> assets[j].name != name);
    if k < i {
        assert(assets[k].name != name);
    }
    if i < k {
        assert(assets[i].name != name);
    }
}

/// Cleanup removes old versions and nothing else. Every name picked out as
/// stale was listed, is a version directory, and is not the current one;
/// and every listed name of that kind is picked out.
pub proof fn law_cleanup_spares_current(entries: Seq<Seq<char>>, current: Seq<char>)
    ensures
        forall|name: Seq<char>| #[trigger]
            stale_among(entries, current).contains(name) <==> entries.contains(name) && is_stale(
                name,
                current,
            ),
        !stale_among(entries, current).contains(current),
    decreases entries.len(),
{
    if entries.len() == 0 {
    } else {
        let earlier = entries.drop_last();
        let last = entries.last();
        law_cleanup_spares_current(earlier, current);
        let picked = stale_among(entries, current);
        let before = stale_among(earlier, current);
        assert(picked == if is_stale(last, current) {
            before.push(last)
        } else {
            before
        });
        assert forall|name: Seq<char>| #[trigger]
            picked.contains(name) implies entries.contains(name) && is_stale(name, current) by {
            let i = choose|i: int| 0 <= i < picked.len() && picked[i] == name;
            if is_stale(last, current) && i == picked.len() - 1 {
                assert(entries[entries.len() - 1] == name);
            } else {
                assert(before[i] == name);
                assert(before.contains(name));
                assert(earlier.contains(name));
                let j = choose|j: int| 0 <= j < earlier.len() && earlier[j] == name;
                assert(entries[j] == name);
            }
        }
        assert forall|name: Seq<char>| entries.contains(name) && is_stale(name, current) implies
            #[trigger] picked.contains(name) by {
            let j = choose|j: int| 0 <= j < entries.len() && entries[j] == name;
            if j == entries.len() - 1 {
                assert(picked[picked.len() - 1] == name);
            } else {
                assert(earlier[j] == name);
                assert(earlier.contains(name));
                assert(before.contains(name) <==> earlier.contains(name) && is_stale(
                    name,
                    current,
                ));
                let i = choose|i: int| 0 <= i < before.len() && before[i] == name;
                assert(picked[i] == name);
            }
        }
    }
}

/// Names the directory a release of the given version is unpacked into.
pub fn version_directory(version: &str) -> (directory: String)
    ensures
        directory@ == version_directory_of(version@),
{
    join("nargo-", version)
}

/// Names the binary inside a version directory.
pub fn binary_path(directory: &str) -> (path: String)
    ensures
        path@ == binary_path_in(directory@),
{
    join(directory, "/nargo")
}

/// Finds the first archive of the release that is called `name`.
pub fn find_asset<'a>(assets: &'a Vec<ReleaseAsset>, name: &str) -> (found: Option<&'a ReleaseAsset>)
    ensures
        match found {
            Some(asset) => select_asset(views(assets@), name@) == Some(asset@),
            None => select_asset(views(assets@), name@) is None,
        },
{
    let wanted = String::from_str(name);
    let mut i: usize = 0;
    while i < assets.len()
        invariant
            i <= assets.len(),
            wanted@ == name@,
            forall|j: int| 0 <= j < i ==> views(assets@)[j].name != name@,
        decreases assets.len() - i,
    {
        if assets[i].name == wanted {
            proof {
                lemma_first_named(views(assets@), name@, i as int);
            }
            return Some(&assets[i]);
        }
        i = i + 1;
    }
    None
}

/// Tells whether a directory entry is a version directory other than the
/// current one.
pub fn entry_is_stale(name: &String, current: &String) -> (stale: bool)
    ensures
        stale == is_stale(name@, current@),
{
    starts_with(name.as_str(), "nargo-") && !(*name == *current)
}

/// Picks out the stale version directories among the entries of the install
/// root, keeping their order.
pub fn stale_directories(entries: &Vec<String>, current: &String) -> (stale: Vec<String>)
    ensures
        views(stale@) == stale_among(views(entries@), current@),
{
    let mut stale: Vec<String> = Vec::new();
    let mut i: usize = 0;
    while i < entries.len()
        invariant
            i <= entries.len(),
            views(stale@) == stale_among(views(entries@).take(i as int), current@),
        decreases entries.len() - i,
    {
        let ghost before = views(stale@);
        let ghost seen = views(entries@).take(i as int);
        let ghost next = views(entries@).take(i + 1);
        assert(next.drop_last() =~= seen);
        assert(next.last() == entries@[i as int]@);
        if entry_is_stale(&entries[i], current) {
            stale.push(entries[i].clone());
            assert(views(stale@) =~= before.push(entries@[i as int]@));
        }
        i = i + 1;
    }
    assert(views(entries@).take(i as int) =~= views(entries@));
    stale
}

} // verus!
