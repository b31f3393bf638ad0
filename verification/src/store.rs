//! The project store: a state machine over the observed contents of the
//! store root. Its transitions decide everything — slug derivation, marker
//! checks, containment, ordering — and hand back the filesystem actions
//! that realize a transition on disk. The surrounding process applies those
//! actions and re-observes the directory before the next operation.

use vstd::prelude::*;
use vstd::multiset::Multiset;
use vstd::string::StringExecFns;
use crate::BridgeError;
use crate::jsondoc::{metadata_document, metadata_text, scene_document, scene_text};
use crate::paths::{contained, join_path, joined, path_is_contained};
use crate::slug::{sanitize_name, slug_of};

verus! {

/// One listed project: display name, directory path and last-modified time.
#[derive(Debug)]
pub struct ProjectInfo {
    pub name: String,
    pub path: String,
    pub modified: u64,
}

/// What one scan of a child of the store root saw: the directory name, the
/// project markers, the fields read out of the metadata document (absent
/// when the file is missing or unreadable), and the directory's own
/// filesystem timestamp.
#[derive(Debug)]
pub struct DirObservation {
    pub dir_name: String,
    pub is_dir: bool,
    pub has_metadata: bool,
    pub has_assets: bool,
    pub has_build: bool,
    pub meta_name: Option<String>,
    pub meta_modified: Option<u64>,
    pub meta_created: Option<u64>,
    pub fs_modified: u64,
}

/// A filesystem step that realizes a store transition on disk.
#[derive(Debug)]
pub enum FsAction {
    RemoveFile(String),
    RemoveDirAll(String),
    CreateDirAll(String),
    WriteFile(String, String),
}

/// A directory counts as a project when it carries at least one marker:
/// the metadata file, the assets directory or the build directory.
pub open spec fn is_project(e: DirObservation) -> bool {
    e.is_dir && (e.has_metadata || e.has_assets || e.has_build)
}

/// The display name of an entry: the metadata name when one was read,
/// otherwise the directory name.
pub open spec fn display_name(e: DirObservation) -> Seq<char> {
    match e.meta_name {
        Some(n) => n@,
        None => e.dir_name@,
    }
}

/// The modified time of an entry: metadata `modified`, else metadata
/// `created`, else the directory's filesystem timestamp.
pub open spec fn modified_of(e: DirObservation) -> u64 {
    match e.meta_modified {
        Some(m) => m,
        None => match e.meta_created {
            Some(c) => c,
            None => e.fs_modified,
        },
    }
}

/// The (name, path, modified) triple under which an entry is listed.
pub open spec fn info_of(root: Seq<char>, e: DirObservation) -> (Seq<char>, Seq<char>, u64) {
    (display_name(e), joined(root, e.dir_name@), modified_of(e))
}

/// The triple carried by one listed project.
pub open spec fn info_key(p: ProjectInfo) -> (Seq<char>, Seq<char>, u64) {
    (p.name@, p.path@, p.modified)
}

/// The triples of a whole listing.
pub open spec fn keys(s: Seq<ProjectInfo>) -> Seq<(Seq<char>, Seq<char>, u64)> {
    s.map_values(|p: ProjectInfo| info_key(p))
}

/// The listing triples of the child directories among `es`, in scan order.
pub open spec fn listed(root: Seq<char>, es: Seq<DirObservation>) -> Seq<
    (Seq<char>, Seq<char>, u64),
>
    decreases es.len(),
{
    if es.len() == 0 {
        Seq::empty()
    } else {
        (if es.first().is_dir {
            seq![info_of(root, es.first())]
        } else {
            Seq::empty()
        }) + listed(root, es.drop_first())
    }
}

/// Newest first: modified times never increase along the listing.
pub open spec fn sorted_newest_first(s: Seq<ProjectInfo>) -> bool {
    forall|i: int, j: int| 0 <= i < j < s.len() ==> s[i].modified >= s[j].modified
}

/// Some entry already holds a project under this slug.
pub open spec fn slug_taken(es: Seq<DirObservation>, slug: Seq<char>) -> bool {
    exists|i: int| 0 <= i < es.len() && es[i].dir_name@ == slug && is_project(es[i])
}

/// The entries that do not sit at the slug's path (they survive a purge).
pub open spec fn kept(es: Seq<DirObservation>, slug: Seq<char>) -> Seq<DirObservation>
    decreases es.len(),
{
    if es.len() == 0 {
        Seq::empty()
    } else {
        (if es.first().dir_name@ == slug {
            Seq::empty()
        } else {
            seq![es.first()]
        }) + kept(es.drop_first(), slug)
    }
}

/// For each stale entry at the slug's path, whether it is a directory
/// (purged recursively) or a lone file (removed directly).
pub open spec fn stale_kinds(es: Seq<DirObservation>, slug: Seq<char>) -> Seq<bool>
    decreases es.len(),
{
    if es.len() == 0 {
        Seq::empty()
    } else {
        (if es.first().dir_name@ == slug {
            seq![es.first().is_dir]
        } else {
            Seq::empty()
        }) + stale_kinds(es.drop_first(), slug)
    }
}

/// The purge prefix of a create: one removal per stale entry, recursive
/// for directories, plain for files, all aimed at the project path.
pub open spec fn purge_ok(acts: Seq<FsAction>, kinds: Seq<bool>, path: Seq<char>) -> bool {
    &&& acts.len() == kinds.len()
    &&& forall|k: int|
        0 <= k < kinds.len() ==> (if kinds[k] {
            acts[k] matches FsAction::RemoveDirAll(p) && p@ == path
        } else {
            acts[k] matches FsAction::RemoveFile(p) && p@ == path
        })
}

/// The skeleton of a fresh project: its directory, the assets and build
/// directories, the metadata document and the initial scene document.
pub open spec fn skeleton_ok(
    acts: Seq<FsAction>,
    root: Seq<char>,
    slug: Seq<char>,
    name: Seq<char>,
    now: u64,
) -> bool {
    let path = joined(root, slug);
    &&& acts.len() == 5
    &&& acts[0] matches FsAction::CreateDirAll(p) && p@ == path
    &&& acts[1] matches FsAction::CreateDirAll(p) && p@ == joined(path, "assets"@)
    &&& acts[2] matches FsAction::CreateDirAll(p) && p@ == joined(path, "build"@)
    &&& acts[3] matches FsAction::WriteFile(p, c) && p@ == joined(path, "project.json"@) && c@
        == metadata_text(name, now)
    &&& acts[4] matches FsAction::WriteFile(p, c) && p@ == joined(path, "scene.json"@) && c@
        == scene_text()
}

/// The entry recorded for a freshly created project.
pub open spec fn fresh_entry(e: DirObservation, slug: Seq<char>, name: Seq<char>, now: u64) -> bool {
    &&& e.dir_name@ == slug
    &&& e.is_dir
    &&& e.has_metadata
    &&& e.has_assets
    &&& e.has_build
    &&& e.meta_name matches Some(n) && n@ == name
    &&& e.meta_modified == Some(now)
    &&& e.meta_created == Some(now)
    &&& e.fs_modified == now
}

/// The entries whose directories do not lie inside a deleted path.
pub open spec fn surviving(root: Seq<char>, es: Seq<DirObservation>, path: Seq<char>) -> Seq<
    DirObservation,
>
    decreases es.len(),
{
    if es.len() == 0 {
        Seq::empty()
    } else {
        (if contained(joined(root, es.first().dir_name@), path) {
            Seq::empty()
        } else {
            seq![es.first()]
        }) + surviving(root, es.drop_first(), path)
    }
}

/// The store's state machine: the root path and the last observation of
/// its immediate children.
pub struct ProjectManager {
    root: String,
    entries: Vec<DirObservation>,
}

impl ProjectManager {
    /// The root path of the store.
    pub closed spec fn root_view(&self) -> Seq<char> {
        self.root@
    }

    /// The observed children of the root.
    pub closed spec fn entries_view(&self) -> Seq<DirObservation> {
        self.entries@
    }

    /// A store over `root` whose children were observed as `entries`.
    pub fn new(root: String, entries: Vec<DirObservation>) -> (r: ProjectManager)
        ensures
            r.root_view() == root@,
            r.entries_view() == entries@,
    {
        ProjectManager { root, entries }
    }

    /// The store root as text.
    pub fn root(&self) -> (r: &str)
        ensures
            r@ == self.root_view(),
    {
        self.root.as_str()
    }

    /// Lists the observed projects: one triple per child directory, with
    /// the metadata-name and modified-time fallbacks applied, ordered
    /// newest first.
    pub fn list_projects(&self) -> (r: Vec<ProjectInfo>)
        ensures
            keys(r@).to_multiset() == listed(self.root_view(), self.entries_view()).to_multiset(),
            sorted_newest_first(r@),
    {
        let mut built: Vec<ProjectInfo> = Vec::new();
        let n: usize = self.entries.len();
        let mut i: usize = 0;
        while i < n
            invariant
                i <= n,
                n == self.entries@.len(),
                keys(built@) =~= listed(self.root@, self.entries@.take(i as int)),
            decreases n - i,
        {
            let e = &self.entries[i];
            if e.is_dir {
                let name = match &e.meta_name {
                    Some(m) => m.clone(),
                    None => e.dir_name.clone(),
                };
                let path = join_path(self.root.as_str(), e.dir_name.as_str());
                let modified: u64 = match e.meta_modified {
                    Some(m) => m,
                    None => match e.meta_created {
                        Some(c) => c,
                        None => e.fs_modified,
                    },
                };
                let info = ProjectInfo { name, path, modified };
                proof {
                    assert(info_key(info) == info_of(self.root@, self.entries@[i as int]));
                }
                built.push(info);
            }
            proof {
                lemma_listed_take_step(self.root@, self.entries@, i as int);
                assert(keys(built@) =~= listed(self.root@, self.entries@.take(i + 1 as int)));
            }
            i = i + 1;
        }
        proof {
            assert(self.entries@.take(n as int) =~= self.entries@);
        }
        sort_by_modified_desc(built)
    }
}

/// Whether a purge action removes a whole directory (rather than a file).
pub open spec fn acts_kinds(acts: Seq<FsAction>) -> Seq<bool> {
    acts.map_values(|a: FsAction| a matches FsAction::RemoveDirAll(_))
}

/// The complete action sequence of a successful create: first the purge of
/// whatever stale remains sat at the slug's path, then the fresh skeleton.
pub open spec fn create_actions_ok(
    acts: Seq<FsAction>,
    root: Seq<char>,
    slug: Seq<char>,
    name: Seq<char>,
    now: u64,
    old_entries: Seq<DirObservation>,
) -> bool {
    let kinds = stale_kinds(old_entries, slug);
    &&& acts.len() == kinds.len() + 5
    &&& purge_ok(acts.take(kinds.len() as int), kinds, joined(root, slug))
    &&& skeleton_ok(acts.skip(kinds.len() as int), root, slug, name, now)
}

impl ProjectManager {
    /// Creates a project named `name` at time `now`. Fails `InvalidName`
    /// when the slug is empty and `AlreadyExists` when a project already
    /// sits at the slug's path; otherwise purges any orphaned remains at
    /// that path, records the fresh project, and returns its path together
    /// with the filesystem actions that realize it.
    pub fn create_project(&mut self, name: &str, now: u64) -> (r: Result<
        (String, Vec<FsAction>),
        BridgeError,
    >)
        ensures
            final(self).root_view() == old(self).root_view(),
            slug_of(name@).len() == 0 ==> r == Err::<(String, Vec<FsAction>), BridgeError>(
                BridgeError::InvalidName,
            ) && final(self).entries_view() == old(self).entries_view(),
            slug_of(name@).len() > 0 && slug_taken(old(self).entries_view(), slug_of(name@)) ==> r
                == Err::<(String, Vec<FsAction>), BridgeError>(BridgeError::AlreadyExists)
                && final(self).entries_view() == old(self).entries_view(),
            slug_of(name@).len() > 0 && !slug_taken(old(self).entries_view(), slug_of(name@)) ==> {
                &&& r matches Ok(pr)
                &&& (r matches Ok(pr) ==> pr.0@ == joined(old(self).root_view(), slug_of(name@)))
                &&& (r matches Ok(pr) ==> create_actions_ok(
                    pr.1@,
                    old(self).root_view(),
                    slug_of(name@),
                    name@,
                    now,
                    old(self).entries_view(),
                ))
                &&& final(self).entries_view().len() == kept(
                    old(self).entries_view(),
                    slug_of(name@),
                ).len() + 1
                &&& final(self).entries_view().drop_last() == kept(
                    old(self).entries_view(),
                    slug_of(name@),
                )
                &&& fresh_entry(final(self).entries_view().last(), slug_of(name@), name@, now)
            },
    {
        let slug = sanitize_name(name);
        if slug.as_str().is_empty() {
            return Err(BridgeError::InvalidName);
        }
        let n: usize = self.entries.len();
        let mut i: usize = 0;
        while i < n
            invariant
                i <= n,
                n == self.entries@.len(),
                self == old(self),
                slug@ == slug_of(name@),
                slug@.len() > 0,
                forall|k: int|
                    0 <= k < i ==> !(self.entries@[k].dir_name@ == slug@ && is_project(
                        self.entries@[k],
                    )),
            decreases n - i,
        {
            let e = &self.entries[i];
            if e.dir_name == slug {
                if e.is_dir && (e.has_metadata || e.has_assets || e.has_build) {
                    return Err(BridgeError::AlreadyExists);
                }
            }
            i = i + 1;
        }
        proof {
            assert(!slug_taken(self.entries@, slug@));
        }
        let path = join_path(self.root.as_str(), slug.as_str());
        let mut actions: Vec<FsAction> = Vec::new();
        let mut kept_entries: Vec<DirObservation> = Vec::new();
        let ghost orig = self.entries@;
        while self.entries.len() > 0
            invariant
                self.root@ == old(self).root@,
                slug@ == slug_of(name@),
                slug@.len() > 0,
                orig == old(self).entries@,
                !slug_taken(orig, slug@),
                path@ == joined(old(self).root@, slug@),
                kept(orig, slug@) =~= kept_entries@ + kept(self.entries@, slug@),
                acts_kinds(actions@) + stale_kinds(self.entries@, slug@) =~= stale_kinds(
                    orig,
                    slug@,
                ),
                forall|k: int|
                    0 <= k < actions@.len() ==> ((#[trigger] actions@[k]) matches FsAction::RemoveDirAll(p)
                        && p@ == path@) || (actions@[k] matches FsAction::RemoveFile(p) && p@
                        == path@),
            decreases self.entries@.len(),
        {
            let ghost pre = self.entries@;
            let ghost pre_acts = actions@;
            let e = self.entries.remove(0);
            proof {
                assert(pre.drop_first() =~= self.entries@);
                assert(e == pre.first());
            }
            if e.dir_name == slug {
                if e.is_dir {
                    actions.push(FsAction::RemoveDirAll(path.clone()));
                } else {
                    actions.push(FsAction::RemoveFile(path.clone()));
                }
                proof {
                    assert(acts_kinds(actions@) =~= acts_kinds(pre_acts).push(e.is_dir));
                    assert(stale_kinds(pre, slug@) == seq![e.is_dir] + stale_kinds(
                        self.entries@,
                        slug@,
                    ));
                    assert(acts_kinds(actions@) + stale_kinds(self.entries@, slug@) =~= stale_kinds(
                        orig,
                        slug@,
                    ));
                    assert(kept(pre, slug@) == kept(self.entries@, slug@));
                }
            } else {
                kept_entries.push(e);
                proof {
                    assert(kept(pre, slug@) == seq![e] + kept(self.entries@, slug@));
                    assert(kept(orig, slug@) =~= kept_entries@ + kept(self.entries@, slug@));
                }
            }
        }
        proof {
            assert(kept(self.entries@, slug@) =~= Seq::empty());
            assert(stale_kinds(self.entries@, slug@) =~= Seq::empty());
            assert(kept_entries@ =~= kept(orig, slug@));
            assert(acts_kinds(actions@) =~= stale_kinds(orig, slug@));
        }
        let ghost np = actions@.len();
        let assets_path = join_path(path.as_str(), "assets");
        let build_path = join_path(path.as_str(), "build");
        let meta_path = join_path(path.as_str(), "project.json");
        let scene_path = join_path(path.as_str(), "scene.json");
        let ghost purge_acts = actions@;
        actions.push(FsAction::CreateDirAll(path.clone()));
        actions.push(FsAction::CreateDirAll(assets_path));
        actions.push(FsAction::CreateDirAll(build_path));
        actions.push(FsAction::WriteFile(meta_path, metadata_document(name, now)));
        actions.push(FsAction::WriteFile(scene_path, scene_document()));
        let entry = DirObservation {
            dir_name: slug,
            is_dir: true,
            has_metadata: true,
            has_assets: true,
            has_build: true,
            meta_name: Some(name.to_owned()),
            meta_modified: Some(now),
            meta_created: Some(now),
            fs_modified: now,
        };
        kept_entries.push(entry);
        self.entries = kept_entries;
        proof {
            assert(actions@.take(np as int) =~= purge_acts);
            assert(acts_kinds(purge_acts).len() == np);
            assert(purge_ok(actions@.take(np as int), stale_kinds(orig, slug@), path@)) by {
                assert(forall|k: int|
                    0 <= k < np ==> (#[trigger] acts_kinds(purge_acts)[k]) == (
                    purge_acts[k] matches FsAction::RemoveDirAll(_)));
            }
            assert(skeleton_ok(
                actions@.skip(np as int),
                old(self).root@,
                slug_of(name@),
                name@,
                now,
            )) by {
                assert(actions@.skip(np as int).len() == 5);
                assert(actions@.skip(np as int)[0] == actions@[np as int]);
                assert(actions@.skip(np as int)[1] == actions@[np as int + 1]);
                assert(actions@.skip(np as int)[2] == actions@[np as int + 2]);
                assert(actions@.skip(np as int)[3] == actions@[np as int + 3]);
                assert(actions@.skip(np as int)[4] == actions@[np as int + 4]);
            }
            assert(self.entries@.drop_last() =~= kept(orig, slug@));
        }
        Ok((path, actions))
    }

    /// Deletes whatever sits at `path`, given whether the caller observed
    /// the path to exist. Fails `NotFound` for a missing path and
    /// `InvalidPath` for one not lexically inside the store root; in both
    /// cases nothing is removed. Otherwise every observed entry lying
    /// inside the deleted path is dropped and one recursive removal of the
    /// path itself is returned.
    pub fn delete_project(&mut self, path: &str, path_exists: bool) -> (r: Result<
        Vec<FsAction>,
        BridgeError,
    >)
        ensures
            final(self).root_view() == old(self).root_view(),
            !path_exists ==> r == Err::<Vec<FsAction>, BridgeError>(BridgeError::NotFound)
                && final(self).entries_view() == old(self).entries_view(),
            path_exists && !contained(path@, old(self).root_view()) ==> r == Err::<
                Vec<FsAction>,
                BridgeError,
            >(BridgeError::InvalidPath) && final(self).entries_view() == old(self).entries_view(),
            path_exists && contained(path@, old(self).root_view()) ==> {
                &&& r matches Ok(acts)
                &&& (r matches Ok(acts) ==> acts@.len() == 1 && (
                acts@[0] matches FsAction::RemoveDirAll(p) && p@ == path@))
                &&& final(self).entries_view() == surviving(
                    old(self).root_view(),
                    old(self).entries_view(),
                    path@,
                )
            },
    {
        if !path_exists {
            return Err(BridgeError::NotFound);
        }
        if !path_is_contained(path, self.root.as_str()) {
            return Err(BridgeError::InvalidPath);
        }
        let mut kept_entries: Vec<DirObservation> = Vec::new();
        let ghost orig = self.entries@;
        while self.entries.len() > 0
            invariant
                self.root@ == old(self).root@,
                surviving(old(self).root@, orig, path@) =~= kept_entries@ + surviving(
                    old(self).root@,
                    self.entries@,
                    path@,
                ),
            decreases self.entries@.len(),
        {
            let ghost pre = self.entries@;
            let e = self.entries.remove(0);
            proof {
                assert(pre.drop_first() =~= self.entries@);
                assert(e == pre.first());
            }
            let p = join_path(self.root.as_str(), e.dir_name.as_str());
            if !path_is_contained(p.as_str(), path) {
                kept_entries.push(e);
                proof {
                    assert(surviving(old(self).root@, pre, path@) == seq![e] + surviving(
                        old(self).root@,
                        self.entries@,
                        path@,
                    ));
                    assert(surviving(old(self).root@, orig, path@) =~= kept_entries@ + surviving(
                        old(self).root@,
                        self.entries@,
                        path@,
                    ));
                }
            } else {
                proof {
                    assert(surviving(old(self).root@, pre, path@) == surviving(
                        old(self).root@,
                        self.entries@,
                        path@,
                    ));
                }
            }
        }
        proof {
            assert(surviving(old(self).root@, self.entries@, path@) =~= Seq::empty());
            assert(kept_entries@ =~= surviving(old(self).root@, orig, path@));
        }
        self.entries = kept_entries;
        let mut acts: Vec<FsAction> = Vec::new();
        acts.push(FsAction::RemoveDirAll(path.to_owned()));
        Ok(acts)
    }
}

/// One piece of the skeleton a create is expected to leave on disk.
#[derive(Debug, Clone, Copy, PartialEq, Eq, Structural)]
pub enum Artifact {
    ProjectDir,
    AssetsDir,
    BuildDir,
    MetadataFile,
}

/// The first artifact found missing after a create, checked in skeleton
/// order, if any.
pub open spec fn first_missing_spec(
    project_dir: bool,
    assets_dir: bool,
    build_dir: bool,
    metadata_file: bool,
) -> Option<Artifact> {
    if !project_dir {
        Some(Artifact::ProjectDir)
    } else if !assets_dir {
        Some(Artifact::AssetsDir)
    } else if !build_dir {
        Some(Artifact::BuildDir)
    } else if !metadata_file {
        Some(Artifact::MetadataFile)
    } else {
        None
    }
}

/// After a create's actions ran, the caller re-observes the four expected
/// paths and this check names the first missing artifact, so a failure is
/// surfaced loudly and precisely.
pub fn first_missing_artifact(
    project_dir: bool,
    assets_dir: bool,
    build_dir: bool,
    metadata_file: bool,
) -> (r: Option<Artifact>)
    ensures
        r == first_missing_spec(project_dir, assets_dir, build_dir, metadata_file),
{
    if !project_dir {
        Some(Artifact::ProjectDir)
    } else if !assets_dir {
        Some(Artifact::AssetsDir)
    } else if !build_dir {
        Some(Artifact::BuildDir)
    } else if !metadata_file {
        Some(Artifact::MetadataFile)
    } else {
        None
    }
}

/// Creating a valid name and then listing always surfaces the fresh
/// project: whenever a create of `name` succeeded (taking the state from
/// `old_entries` to `new_entries`) and `listing` is a listing of the new
/// state, some listed entry carries the path `<root>/<slug_of(name)>`, the
/// display name `name`, and the creation time. The slug derivation is a
/// function of the name alone, so every create of the same name yields the
/// same path.
pub proof fn lemma_create_then_list(
    root: Seq<char>,
    old_entries: Seq<DirObservation>,
    new_entries: Seq<DirObservation>,
    name: Seq<char>,
    now: u64,
    listing: Seq<ProjectInfo>,
)
    requires
        new_entries.len() == kept(old_entries, slug_of(name)).len() + 1,
        new_entries.drop_last() == kept(old_entries, slug_of(name)),
        fresh_entry(new_entries.last(), slug_of(name), name, now),
        keys(listing).to_multiset() == listed(root, new_entries).to_multiset(),
    ensures
        exists|i: int|
            0 <= i < listing.len() && listing[i].path@ == joined(root, slug_of(name))
                && listing[i].name@ == name && listing[i].modified == now,
{
    broadcast use vstd::seq_lib::group_to_multiset_ensures;

    let e = new_entries.last();
    let t = info_of(root, e);
    assert(t == (name, joined(root, slug_of(name)), now));
    lemma_listed_take_step(root, new_entries, new_entries.len() - 1);
    assert(new_entries.take(new_entries.len() as int) =~= new_entries);
    assert(listed(root, new_entries).contains(t)) by {
        assert(listed(root, new_entries)[listed(root, new_entries).len() - 1] == t);
    }
    assert(listed(root, new_entries).to_multiset().count(t) > 0);
    assert(keys(listing).to_multiset().count(t) > 0);
    assert(keys(listing).contains(t));
    let i = choose|i: int| 0 <= i < keys(listing).len() && keys(listing)[i] == t;
    assert(info_key(listing[i]) == t);
    assert(listing[i].path@ == joined(root, slug_of(name)) && listing[i].name@ == name
        && listing[i].modified == now);
}

/// Unfolds `listed` by one entry at the end of a prefix.
proof fn lemma_listed_take_step(root: Seq<char>, es: Seq<DirObservation>, i: int)
    requires
        0 <= i < es.len(),
    ensures
        listed(root, es.take(i + 1)) == listed(root, es.take(i)) + (if es[i].is_dir {
            seq![info_of(root, es[i])]
        } else {
            Seq::<(Seq<char>, Seq<char>, u64)>::empty()
        }),
    decreases i,
{
    let pre = es.take(i + 1);
    if i == 0 {
        assert(pre.first() == es[0]);
        assert(pre.drop_first() =~= Seq::<DirObservation>::empty());
        assert(listed(root, pre.drop_first()) =~= Seq::empty());
        assert(listed(root, es.take(0)) =~= Seq::empty());
        assert(listed(root, pre) =~= listed(root, es.take(0)) + (if es[0].is_dir {
            seq![info_of(root, es[0])]
        } else {
            Seq::<(Seq<char>, Seq<char>, u64)>::empty()
        }));
    } else {
        lemma_listed_take_step(root, es.drop_first(), i - 1);
        assert(pre.drop_first() =~= es.drop_first().take(i));
        assert(es.take(i).drop_first() =~= es.drop_first().take(i - 1));
        assert(pre.first() == es.take(i).first());
        assert(es.drop_first()[i - 1] == es[i]);
        assert(listed(root, es.take(i)) == (if es.take(i).first().is_dir {
            seq![info_of(root, es.take(i).first())]
        } else {
            Seq::<(Seq<char>, Seq<char>, u64)>::empty()
        }) + listed(root, es.drop_first().take(i - 1)));
        assert(listed(root, pre) =~= listed(root, es.take(i)) + (if es[i].is_dir {
            seq![info_of(root, es[i])]
        } else {
            Seq::<(Seq<char>, Seq<char>, u64)>::empty()
        }));
    }
}

/// Sorts a listing by modified time, newest first, keeping exactly the
/// same triples.
fn sort_by_modified_desc(v: Vec<ProjectInfo>) -> (r: Vec<ProjectInfo>)
    ensures
        keys(r@).to_multiset() == keys(v@).to_multiset(),
        sorted_newest_first(r@),
{
    broadcast use vstd::seq_lib::group_to_multiset_ensures;
    broadcast use vstd::multiset::group_multiset_axioms;

    let mut input = v;
    let ghost orig = input@;
    let mut out: Vec<ProjectInfo> = Vec::new();
    while input.len() > 0
        invariant
            keys(out@).to_multiset().add(keys(input@).to_multiset()) =~= keys(orig).to_multiset(),
            sorted_newest_first(out@),
            forall|a: int, b: int|
                0 <= a < out@.len() && 0 <= b < input@.len() ==> out@[a].modified
                    >= input@[b].modified,
        decreases input@.len(),
    {
        broadcast use vstd::seq_lib::group_to_multiset_ensures;
        broadcast use vstd::multiset::group_multiset_axioms;

        let mut m: usize = 0;
        let mut j: usize = 1;
        while j < input.len()
            invariant
                input@.len() > 0,
                (m as int) < (j as int),
                j <= input@.len(),
                forall|k: int| 0 <= k < j ==> input@[m as int].modified >= input@[k].modified,
            decreases input@.len() - j,
        {
            if input[j].modified > input[m].modified {
                m = j;
            }
            j = j + 1;
        }
        let ghost pre_in = input@;
        let ghost pre_out = out@;
        let x = input.remove(m);
        out.push(x);
        proof {
            assert(keys(pre_in.remove(m as int)) =~= keys(pre_in).remove(m as int));
            assert(keys(pre_out.push(x)) =~= keys(pre_out).push(info_key(x)));
            assert(keys(pre_in)[m as int] == info_key(x));
            assert(keys(pre_in).contains(info_key(x)));
            assert(keys(pre_in).to_multiset().count(info_key(x)) > 0);
            assert(keys(out@).to_multiset().add(keys(input@).to_multiset()) =~= keys(
                pre_out,
            ).to_multiset().add(keys(pre_in).to_multiset()));
        }
    }
    proof {
        assert(keys(input@) =~= Seq::empty());
        assert(keys(input@).to_multiset() =~= Multiset::empty());
        assert(keys(out@).to_multiset() =~= keys(orig).to_multiset());
    }
    out
}

} // verus!
