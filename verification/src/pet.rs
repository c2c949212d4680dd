//! Pet records: what the marketplace describes, what a marketplace bundle
//! declares, what is stored beside an installed pet and what the front end sees.
use vstd::prelude::*;

use crate::paths::{is_path_join, join_path};

verus! {

/// One pet as the marketplace describes it (list entries and details alike).
#[derive(Clone, Debug)]
pub struct CodexPetSummary {
    pub id: String,
    pub display_name: String,
    pub description: Option<String>,
    pub kind: Option<String>,
    pub tags: Vec<String>,
    pub spritesheet_url: Option<String>,
    pub poster_url: Option<String>,
    pub preview_url: Option<String>,
    pub share_image_url: Option<String>,
    pub view_count: Option<u64>,
    pub download_count: Option<u64>,
    pub like_count: Option<u64>,
    pub uploaded_at: Option<String>,
}

/// One page of marketplace search results.
#[derive(Clone, Debug)]
pub struct CodexPetListResponse {
    pub pets: Vec<CodexPetSummary>,
    pub page: u32,
    pub page_size: u32,
    pub total: u64,
    pub total_pages: u32,
}

/// The descriptor that a marketplace bundle carries in place of local metadata.
#[derive(Clone, Debug)]
pub struct CodexManifest {
    pub id: String,
    pub display_name: String,
    pub description: Option<String>,
    pub kind: Option<String>,
    /// File name of the sprite sheet inside the package.
    pub spritesheet_path: String,
    /// 1: standard 9-row atlas, 2: extended 11-row atlas.
    pub sprite_version_number: Option<u32>,
}

/// The `meta.json` kept beside an installed pet.
#[derive(Clone, Debug)]
pub struct LocalPetMeta {
    pub id: String,
    pub display_name: String,
    pub description: Option<String>,
    pub kind: Option<String>,
    pub tags: Vec<String>,
    /// `builtin`, `downloaded`, `imported` or `uploaded`.
    pub source: String,
    pub spritesheet_file: String,
    pub poster_file: Option<String>,
    pub spritesheet_url: Option<String>,
    /// Upload time on the marketplace, in milliseconds since the epoch.
    pub version: Option<u64>,
    pub sprite_version_number: Option<u32>,
    pub installed_at: Option<String>,
}

/// An installed pet as the front end sees it: its metadata with absolute paths.
#[derive(Clone, Debug)]
pub struct LocalPetInfo {
    pub id: String,
    pub display_name: String,
    pub description: Option<String>,
    pub kind: Option<String>,
    pub tags: Vec<String>,
    pub source: String,
    pub spritesheet_path: String,
    pub poster_path: Option<String>,
    pub spritesheet_url: Option<String>,
    pub version: Option<u64>,
    pub sprite_version_number: Option<u32>,
    pub installed_at: Option<String>,
}

/// The text of an optional string, for contracts.
pub open spec fn opt_view(o: Option<String>) -> Option<Seq<char>> {
    match o {
        Some(s) => Some(s@),
        None => None,
    }
}

/// The texts of a list of strings, for contracts.
pub open spec fn texts_view(v: Vec<String>) -> Seq<Seq<char>> {
    v@.map_values(|s: String| s@)
}

/// A copy of a string.
pub fn copy_text(s: &String) -> (r: String)
    ensures
        r@ == s@,
{
    s.clone()
}

/// A copy of an optional string.
pub fn copy_opt_text(o: &Option<String>) -> (r: Option<String>)
    ensures
        opt_view(r) == opt_view(*o),
{
    match o {
        Some(s) => Some(s.clone()),
        None => None,
    }
}

/// A copy of a list of strings.
pub fn copy_texts(v: &Vec<String>) -> (r: Vec<String>)
    ensures
        texts_view(r) == texts_view(*v),
{
    let mut r: Vec<String> = Vec::new();
    let n = v.len();
    for i in 0..n
        invariant
            n == v.len(),
            r@.len() == i,
            forall|k: int| 0 <= k < i ==> #[trigger] r@[k]@ == v@[k]@,
    {
        r.push(v[i].clone());
    }
    assert(texts_view(r) =~= texts_view(*v));
    r
}


/// `info` is `meta` of the pet installed in `dir`, with its files as paths.
pub open spec fn is_info_of(info: LocalPetInfo, dir: Seq<char>, meta: LocalPetMeta) -> bool {
    &&& info.id@ == meta.id@
    &&& info.display_name@ == meta.display_name@
    &&& opt_view(info.description) == opt_view(meta.description)
    &&& opt_view(info.kind) == opt_view(meta.kind)
    &&& texts_view(info.tags) == texts_view(meta.tags)
    &&& info.source@ == meta.source@
    &&& is_path_join(info.spritesheet_path@, dir, meta.spritesheet_file@)
    &&& (match meta.poster_file {
        Some(name) => info.poster_path matches Some(p) && is_path_join(p@, dir, name@),
        None => info.poster_path is None,
    })
    &&& opt_view(info.spritesheet_url) == opt_view(meta.spritesheet_url)
    &&& info.version == meta.version
    &&& info.sprite_version_number == meta.sprite_version_number
    &&& opt_view(info.installed_at) == opt_view(meta.installed_at)
}

/// What the front end sees of the pet installed in `dir` with metadata `meta`:
/// every field carried over, file names turned into paths under `dir`.
pub fn meta_to_info(dir: &str, meta: &LocalPetMeta) -> (info: LocalPetInfo)
    ensures
        is_info_of(info, dir@, *meta),
{
    let spritesheet_path = join_path(dir, meta.spritesheet_file.as_str());
    let poster_path = match &meta.poster_file {
        Some(name) => Some(join_path(dir, name.as_str())),
        None => None,
    };
    LocalPetInfo {
        id: copy_text(&meta.id),
        display_name: copy_text(&meta.display_name),
        description: copy_opt_text(&meta.description),
        kind: copy_opt_text(&meta.kind),
        tags: copy_texts(&meta.tags),
        source: copy_text(&meta.source),
        spritesheet_path,
        poster_path,
        spritesheet_url: copy_opt_text(&meta.spritesheet_url),
        version: meta.version,
        sprite_version_number: meta.sprite_version_number,
        installed_at: copy_opt_text(&meta.installed_at),
    }
}

} // verus!
