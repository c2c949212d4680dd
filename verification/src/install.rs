//! Installing pets: the metadata written for a downloaded, imported or
//! unpacked pet, and the checks that stop an installation.
use vstd::prelude::*;

use crate::image::{detect_image_ext, image_ext};
use crate::paths::{file_stem, is_bare_name, is_part_of, is_path_to_file, stem_of_name};
use crate::pet::{
    copy_opt_text, copy_text, copy_texts, opt_view, texts_view, CodexManifest, CodexPetSummary,
    LocalPetMeta,
};
use crate::text::{owned, trim, trim_seq};

verus! {

/// File name of the sprite sheet of a downloaded pet.
pub open spec fn spritesheet_file_name() -> Seq<char> {
    "spritesheet.webp"@
}

/// File name of the poster of a downloaded pet.
pub open spec fn poster_file_name() -> Seq<char> {
    "poster.webp"@
}

/// `spritesheet.webp`.
pub fn spritesheet_file() -> (r: String)
    ensures
        r@ == spritesheet_file_name(),
{
    proof {
        reveal_strlit("spritesheet.webp");
    }
    owned("spritesheet.webp")
}

/// `poster.webp`.
pub fn poster_file() -> (r: String)
    ensures
        r@ == poster_file_name(),
{
    proof {
        reveal_strlit("poster.webp");
    }
    owned("poster.webp")
}

/// `"<before><pet_id><after>"`.
fn pet_message(before: &str, pet_id: &str, after: &str) -> (r: String)
    ensures
        r@ == before@ + pet_id@ + after@,
{
    let mut r = owned(before);
    r.append(pet_id);
    r.append(after);
    r
}

// ---------------------------------------------------------------------------
// Marketplace bundles extracted into the pets folder
// ---------------------------------------------------------------------------

/// The metadata kept for a marketplace bundle that carries only its descriptor,
/// installed at `installed_at`.
pub open spec fn is_meta_of_manifest(
    meta: LocalPetMeta,
    manifest: CodexManifest,
    installed_at: Seq<char>,
) -> bool {
    &&& meta.id@ == manifest.id@
    &&& meta.display_name@ == manifest.display_name@
    &&& opt_view(meta.description) == opt_view(manifest.description)
    &&& opt_view(meta.kind) == opt_view(manifest.kind)
    &&& meta.tags@.len() == 0
    &&& meta.source@ == "imported"@
    &&& meta.spritesheet_file@ == manifest.spritesheet_path@
    &&& meta.poster_file is None
    &&& meta.spritesheet_url is None
    &&& meta.version is None
    &&& meta.sprite_version_number == manifest.sprite_version_number
    &&& opt_view(meta.installed_at) == Some(installed_at)
}

/// Maps the descriptor of a marketplace bundle extracted into the pets folder to the
/// metadata kept beside an installed pet.
pub fn manifest_to_meta(manifest: &CodexManifest, installed_at: String) -> (meta: LocalPetMeta)
    ensures
        is_meta_of_manifest(meta, *manifest, installed_at@),
{
    proof {
        reveal_strlit("imported");
    }
    LocalPetMeta {
        id: copy_text(&manifest.id),
        display_name: copy_text(&manifest.display_name),
        description: copy_opt_text(&manifest.description),
        kind: copy_opt_text(&manifest.kind),
        tags: Vec::new(),
        source: owned("imported"),
        spritesheet_file: copy_text(&manifest.spritesheet_path),
        poster_file: None,
        spritesheet_url: None,
        version: None,
        sprite_version_number: manifest.sprite_version_number,
        installed_at: Some(installed_at),
    }
}

/// What to do for one shipped pet when the application starts.
#[derive(Clone, Copy, Debug, PartialEq, Eq)]
pub enum BuiltinStep {
    /// The bundle lacks the sprite sheet (development builds): leave the pet alone.
    Skip,
    /// The sprite sheet is installed: only refresh the metadata.
    SyncMeta,
    /// Copy the sprite sheet (and the poster, when the bundle has one), then
    /// refresh the metadata.
    CopyThenSyncMeta { with_poster: bool },
}

/// The step for a shipped pet, from whether its sprite sheet is installed,
/// whether the bundle holds it, and whether the bundle holds a poster. An
/// installed sprite sheet is never copied again.
pub fn builtin_step(installed: bool, bundled: bool, poster_bundled: bool) -> (r: BuiltinStep)
    ensures
        installed ==> r == BuiltinStep::SyncMeta,
        !installed && !bundled ==> r == BuiltinStep::Skip,
        !installed && bundled ==> r == (BuiltinStep::CopyThenSyncMeta { with_poster: poster_bundled }),
{
    if installed {
        BuiltinStep::SyncMeta
    } else if !bundled {
        BuiltinStep::Skip
    } else {
        BuiltinStep::CopyThenSyncMeta { with_poster: poster_bundled }
    }
}

/// The installation time recorded for a shipped pet: the bundle's own when
/// it has one, else the time already recorded for the installed pet, else
/// `now` (the first installation).
pub open spec fn kept_install_time(
    bundled: Option<Seq<char>>,
    installed: Option<Seq<char>>,
    now: Seq<char>,
) -> Seq<char> {
    match bundled {
        Some(t) => t,
        None => match installed {
            Some(t) => t,
            None => now,
        },
    }
}

/// The metadata of a shipped pet as the bundle has it, with the installation
/// time kept: the bundle's, else the one already recorded for the installed
/// pet (`installed_at`), else `now`.
pub fn with_install_time(meta: LocalPetMeta, installed_at: Option<String>, now: String) -> (r:
    LocalPetMeta)
    ensures
        r == (LocalPetMeta { installed_at: r.installed_at, ..meta }),
        opt_view(r.installed_at) == Some(
            kept_install_time(opt_view(meta.installed_at), opt_view(installed_at), now@),
        ),
{
    if meta.installed_at.is_some() {
        meta
    } else {
        match installed_at {
            Some(t) => LocalPetMeta { installed_at: Some(t), ..meta },
            None => LocalPetMeta { installed_at: Some(now), ..meta },
        }
    }
}

/// Installing the shipped pets again changes nothing: once a time is
/// recorded, every later start keeps it, whatever the clock says.
pub proof fn law_install_time_is_kept(
    bundled: Option<Seq<char>>,
    installed: Option<Seq<char>>,
    first: Seq<char>,
    later: Seq<char>,
)
    ensures
        kept_install_time(bundled, Some(kept_install_time(bundled, installed, first)), later)
            == kept_install_time(bundled, installed, first),
{
}

// ---------------------------------------------------------------------------
// Downloads from the marketplace
// ---------------------------------------------------------------------------

/// What `DateTime<Utc>::from_str` followed by `timestamp_millis` gives for
/// `text`: the instant that the RFC 3339 text names, in milliseconds since
/// the epoch, or `None` when chrono does not accept the text.
pub uninterp spec fn rfc3339_millis(text: Seq<char>) -> Option<i64>;

/// Parses `text` with chrono (`text.parse::<DateTime<Utc>>()`) and takes
/// `timestamp_millis` of the instant. The contract names the result and
/// claims nothing about it beyond that it depends on `text` alone.
#[verifier::external_body]
fn parse_rfc3339_millis(text: &str) -> (r: Option<i64>)
    ensures
        r == rfc3339_millis(text@),
{
    match text.parse::<chrono::DateTime<chrono::Utc>>() {
        Ok(instant) => Some(instant.timestamp_millis()),
        Err(_) => None,
    }
}

/// The version kept for a pet uploaded `millis` milliseconds after the epoch
/// (the milliseconds as a `u64`, as `as u64` converts them).
pub open spec fn version_of_millis(millis: Option<i64>) -> Option<u64> {
    match millis {
        Some(m) => Some(m as u64),
        None => None,
    }
}

/// The version kept for a pet uploaded `millis` milliseconds after the epoch.
pub fn version_from_millis(millis: Option<i64>) -> (r: Option<u64>)
    ensures
        r == version_of_millis(millis),
{
    match millis {
        Some(m) => Some(m as u64),
        None => None,
    }
}

/// The version kept for a pet whose marketplace upload time is `uploaded_at`.
pub open spec fn version_of_upload(uploaded_at: Option<Seq<char>>) -> Option<u64> {
    match uploaded_at {
        Some(t) => version_of_millis(rfc3339_millis(t)),
        None => None,
    }
}

/// The version kept for a pet whose marketplace upload time is `uploaded_at`:
/// the upload instant in milliseconds, or `None` when there is none or it
/// does not parse.
pub fn version_from_uploaded_at(uploaded_at: &Option<String>) -> (r: Option<u64>)
    ensures
        r == version_of_upload(opt_view(*uploaded_at)),
{
    match uploaded_at {
        Some(t) => version_from_millis(parse_rfc3339_millis(t.as_str())),
        None => None,
    }
}

/// The sprite sheet URL of a pet about to be downloaded; a pet without one
/// cannot be downloaded.
pub fn spritesheet_url_of(detail: &CodexPetSummary, pet_id: &str) -> (r: Result<String, String>)
    ensures
        r is Ok <==> detail.spritesheet_url is Some,
        r is Ok ==> r->Ok_0@ == detail.spritesheet_url->0@,
        r is Err ==> r->Err_0@ == "宠物 "@ + pet_id@ + " 未提供 spritesheetUrl"@,
{
    match &detail.spritesheet_url {
        Some(url) => Ok(copy_text(url)),
        None => Err(pet_message("宠物 ", pet_id, " 未提供 spritesheetUrl")),
    }
}

/// Refuses an empty sprite sheet downloaded for `pet_id`.
pub fn check_sprite_bytes(len: usize, pet_id: &str) -> (r: Result<(), String>)
    ensures
        r is Ok <==> len > 0,
        r is Err ==> r->Err_0@ == "宠物 "@ + pet_id@ + " 的精灵图为空"@,
{
    if len == 0 {
        Err(pet_message("宠物 ", pet_id, " 的精灵图为空"))
    } else {
        Ok(())
    }
}

/// Refuses an empty sprite sheet fetched for a marketplace preview.
pub fn check_remote_sprite_bytes(len: usize) -> (r: Result<(), String>)
    ensures
        r is Ok <==> len > 0,
        r is Err ==> r->Err_0@ == "远程精灵图为空"@,
{
    if len == 0 {
        proof {
            reveal_strlit("远程精灵图为空");
        }
        Err(owned("远程精灵图为空"))
    } else {
        Ok(())
    }
}

/// The metadata kept for a pet downloaded from the marketplace.
pub open spec fn is_meta_of_download(
    meta: LocalPetMeta,
    detail: CodexPetSummary,
    spritesheet_url: Seq<char>,
    poster_file: Option<Seq<char>>,
    installed_at: Seq<char>,
) -> bool {
    &&& meta.id@ == detail.id@
    &&& meta.display_name@ == detail.display_name@
    &&& opt_view(meta.description) == opt_view(detail.description)
    &&& opt_view(meta.kind) == opt_view(detail.kind)
    &&& texts_view(meta.tags) == texts_view(detail.tags)
    &&& meta.source@ == "downloaded"@
    &&& meta.spritesheet_file@ == spritesheet_file_name()
    &&& opt_view(meta.poster_file) == poster_file
    &&& opt_view(meta.spritesheet_url) == Some(spritesheet_url)
    &&& meta.version == version_of_upload(opt_view(detail.uploaded_at))
    &&& meta.sprite_version_number is None
    &&& opt_view(meta.installed_at) == Some(installed_at)
}

/// The metadata written for a pet downloaded from the marketplace, whose
/// sprite sheet came from `spritesheet_url` and whose poster, if one was
/// saved, is `poster_file`.
pub fn downloaded_meta(
    detail: &CodexPetSummary,
    spritesheet_url: String,
    poster_file: Option<String>,
    installed_at: String,
) -> (meta: LocalPetMeta)
    ensures
        is_meta_of_download(meta, *detail, spritesheet_url@, opt_view(poster_file), installed_at@),
{
    proof {
        reveal_strlit("downloaded");
    }
    LocalPetMeta {
        id: copy_text(&detail.id),
        display_name: copy_text(&detail.display_name),
        description: copy_opt_text(&detail.description),
        kind: copy_opt_text(&detail.kind),
        tags: copy_texts(&detail.tags),
        source: owned("downloaded"),
        spritesheet_file: spritesheet_file(),
        poster_file,
        spritesheet_url: Some(spritesheet_url),
        version: version_from_uploaded_at(&detail.uploaded_at),
        sprite_version_number: None,
        installed_at: Some(installed_at),
    }
}

// ---------------------------------------------------------------------------
// Imports from local image files
// ---------------------------------------------------------------------------

/// The message for an empty file to import.
pub open spec fn empty_file_message() -> Seq<char> {
    "文件为空"@
}

/// The message for a file that is neither a PNG nor a WebP.
pub open spec fn unsupported_format_message() -> Seq<char> {
    "不支持的图片格式（仅支持 PNG / WebP）"@
}

/// The extension under which an imported image is stored: refuses an empty
/// file, and any file that is neither a PNG nor a WebP.
pub fn import_sprite_ext(bytes: &[u8]) -> (r: Result<&'static str, String>)
    ensures
        r is Ok <==> bytes@.len() > 0 && image_ext(bytes@) is Some,
        r is Ok ==> r->Ok_0@ == image_ext(bytes@)->0,
        bytes@.len() == 0 ==> r is Err && r->Err_0@ == empty_file_message(),
        bytes@.len() > 0 && image_ext(bytes@) is None ==> r is Err && r->Err_0@
            == unsupported_format_message(),
{
    if bytes.len() == 0 {
        proof {
            reveal_strlit("文件为空");
        }
        return Err(owned("文件为空"));
    }
    match detect_image_ext(bytes) {
        Some(ext) => Ok(ext),
        None => {
            proof {
                reveal_strlit("不支持的图片格式（仅支持 PNG / WebP）");
            }
            Err(owned("不支持的图片格式（仅支持 PNG / WebP）"))
        },
    }
}

/// The display name given to an imported pet: the name asked for, trimmed,
/// when it is not blank; else the stem of the imported file's name; else `导入宠物`.
pub open spec fn chosen_display_name(asked: Option<Seq<char>>, stem: Option<Seq<char>>) -> Seq<
    char,
> {
    if asked is Some && trim_seq(asked->0).len() > 0 {
        trim_seq(asked->0)
    } else if stem is Some {
        stem->0
    } else {
        "导入宠物"@
    }
}

/// Chooses the display name of an imported pet from the name asked for and
/// the stem of the imported file's name.
pub fn choose_display_name(asked: &Option<String>, stem: Option<String>) -> (r: String)
    ensures
        r@ == chosen_display_name(opt_view(*asked), opt_view(stem)),
{
    if let Some(name) = asked {
        let trimmed = trim(name.as_str());
        if !trimmed.is_empty() {
            return owned(trimmed);
        }
    }
    match stem {
        Some(s) => s,
        None => {
            proof {
                reveal_strlit("导入宠物");
            }
            owned("导入宠物")
        },
    }
}

/// The display name of a pet imported from `file_path`: the name asked for,
/// trimmed, unless it is blank; else the stem of the file's name (a part of
/// `file_path` without `/`; for a bare file name, or a path `<dir>/<name>`
/// read alike on every platform, the name before its final `.`), else `导入宠物`.
pub fn import_display_name(asked: &Option<String>, file_path: &str) -> (r: String)
    ensures
        asked is Some && trim_seq(asked->0@).len() > 0 ==> r@ == trim_seq(asked->0@),
        !(asked is Some && trim_seq(asked->0@).len() > 0) ==> r@ == "导入宠物"@ || (is_part_of(
            r@,
            file_path@,
        ) && !r@.contains('/')),
        !(asked is Some && trim_seq(asked->0@).len() > 0) && is_bare_name(file_path@) ==> r@
            == stem_of_name(file_path@),
        forall|name: Seq<char>|
            !(asked is Some && trim_seq(asked->0@).len() > 0) && #[trigger] is_path_to_file(
                file_path@,
                name,
            ) ==> r@ == stem_of_name(name),
{
    choose_display_name(asked, file_stem(file_path))
}

/// The metadata kept for a pet imported from a local image.
pub open spec fn is_meta_of_upload(
    meta: LocalPetMeta,
    id: Seq<char>,
    ext: Seq<char>,
    display_name: Seq<char>,
    installed_at: Seq<char>,
) -> bool {
    &&& meta.id@ == id
    &&& meta.display_name@ == display_name
    &&& meta.description is None
    &&& meta.kind is None
    &&& meta.tags@.len() == 0
    &&& meta.source@ == "uploaded"@
    &&& meta.spritesheet_file@ == "spritesheet."@ + ext
    &&& meta.poster_file is None
    &&& meta.spritesheet_url is None
    &&& meta.version is None
    &&& meta.sprite_version_number is None
    &&& opt_view(meta.installed_at) == Some(installed_at)
}

/// The file name of an imported sprite sheet with extension `ext`.
pub fn imported_spritesheet_file(ext: &str) -> (r: String)
    ensures
        r@ == "spritesheet."@ + ext@,
{
    let mut r = owned("spritesheet.");
    r.append(ext);
    r
}

/// The metadata written for a pet imported from a local image.
pub fn uploaded_meta(id: String, ext: &str, display_name: String, installed_at: String) -> (meta:
    LocalPetMeta)
    ensures
        is_meta_of_upload(meta, id@, ext@, display_name@, installed_at@),
{
    proof {
        reveal_strlit("uploaded");
    }
    LocalPetMeta {
        id,
        display_name,
        description: None,
        kind: None,
        tags: Vec::new(),
        source: owned("uploaded"),
        spritesheet_file: imported_spritesheet_file(ext),
        poster_file: None,
        spritesheet_url: None,
        version: None,
        sprite_version_number: None,
        installed_at: Some(installed_at),
    }
}

} // verus!
