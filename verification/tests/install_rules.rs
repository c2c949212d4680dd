use zcode_pet::image::{uploaded_id_from_nanos, detect_image_ext};
use zcode_pet::install::{
    builtin_step, BuiltinStep,
    check_remote_sprite_bytes, check_sprite_bytes, choose_display_name, downloaded_meta,
    import_display_name, import_sprite_ext, manifest_to_meta, poster_file, spritesheet_file,
    spritesheet_url_of, uploaded_meta, version_from_millis, version_from_uploaded_at,
    with_install_time,
};
use zcode_pet::pet::{CodexManifest, CodexPetSummary, LocalPetMeta};

fn summary(url: Option<&str>, uploaded_at: Option<&str>) -> CodexPetSummary {
    CodexPetSummary {
        id: "cat".to_string(),
        display_name: "Cat".to_string(),
        description: Some("meow".to_string()),
        kind: Some("animal".to_string()),
        tags: vec!["cute".to_string()],
        spritesheet_url: url.map(|s| s.to_string()),
        poster_url: None,
        preview_url: None,
        share_image_url: None,
        view_count: Some(3),
        download_count: None,
        like_count: None,
        uploaded_at: uploaded_at.map(|s| s.to_string()),
    }
}

#[test]
fn manifest_becomes_imported_meta() {
    let manifest = CodexManifest {
        id: "fox".to_string(),
        display_name: "Fox".to_string(),
        description: None,
        kind: Some("animal".to_string()),
        spritesheet_path: "sheet.webp".to_string(),
        sprite_version_number: Some(2),
    };
    let meta = manifest_to_meta(&manifest, "2024-05-01T10:00:00+00:00".to_string());
    assert_eq!(meta.id, "fox");
    assert_eq!(meta.display_name, "Fox");
    assert_eq!(meta.description, None);
    assert_eq!(meta.kind.as_deref(), Some("animal"));
    assert!(meta.tags.is_empty());
    assert_eq!(meta.source, "imported");
    assert_eq!(meta.spritesheet_file, "sheet.webp");
    assert_eq!(meta.poster_file, None);
    assert_eq!(meta.spritesheet_url, None);
    assert_eq!(meta.version, None);
    assert_eq!(meta.sprite_version_number, Some(2));
    assert_eq!(meta.installed_at.as_deref(), Some("2024-05-01T10:00:00+00:00"));
}

#[test]
fn upload_time_becomes_version_in_millis() {
    assert_eq!(
        version_from_uploaded_at(&Some("2024-01-01T00:00:00Z".to_string())),
        Some(1_704_067_200_000)
    );
    assert_eq!(
        version_from_uploaded_at(&Some("2001-09-09T01:46:40.555Z".to_string())),
        Some(1_000_000_000_555)
    );
    assert_eq!(
        version_from_uploaded_at(&Some("2024-01-01T08:00:00+08:00".to_string())),
        Some(1_704_067_200_000)
    );
    assert_eq!(version_from_uploaded_at(&Some("yesterday".to_string())), None);
    assert_eq!(version_from_uploaded_at(&None), None);
}

#[test]
fn millis_convert_as_unsigned() {
    assert_eq!(version_from_millis(Some(5)), Some(5));
    assert_eq!(version_from_millis(Some(-1)), Some(u64::MAX));
    assert_eq!(version_from_millis(None), None);
}

#[test]
fn download_needs_a_spritesheet_url() {
    assert_eq!(
        spritesheet_url_of(&summary(Some("https://x/s.webp"), None), "cat"),
        Ok("https://x/s.webp".to_string())
    );
    assert_eq!(
        spritesheet_url_of(&summary(None, None), "cat"),
        Err("宠物 cat 未提供 spritesheetUrl".to_string())
    );
}

#[test]
fn empty_sprites_are_refused() {
    assert_eq!(check_sprite_bytes(10, "cat"), Ok(()));
    assert_eq!(
        check_sprite_bytes(0, "cat"),
        Err("宠物 cat 的精灵图为空".to_string())
    );
    assert_eq!(check_remote_sprite_bytes(1), Ok(()));
    assert_eq!(check_remote_sprite_bytes(0), Err("远程精灵图为空".to_string()));
}

#[test]
fn downloaded_meta_records_the_download() {
    let detail = summary(Some("https://x/s.webp"), Some("2024-01-01T00:00:00Z"));
    let meta = downloaded_meta(
        &detail,
        "https://x/s.webp".to_string(),
        Some("poster.webp".to_string()),
        "2024-06-01T00:00:00+00:00".to_string(),
    );
    assert_eq!(meta.id, "cat");
    assert_eq!(meta.display_name, "Cat");
    assert_eq!(meta.description.as_deref(), Some("meow"));
    assert_eq!(meta.tags, vec!["cute".to_string()]);
    assert_eq!(meta.source, "downloaded");
    assert_eq!(meta.spritesheet_file, "spritesheet.webp");
    assert_eq!(meta.poster_file.as_deref(), Some("poster.webp"));
    assert_eq!(meta.spritesheet_url.as_deref(), Some("https://x/s.webp"));
    assert_eq!(meta.version, Some(1_704_067_200_000));
    assert_eq!(meta.sprite_version_number, None);
    assert_eq!(meta.installed_at.as_deref(), Some("2024-06-01T00:00:00+00:00"));
    assert_eq!(spritesheet_file(), "spritesheet.webp");
    assert_eq!(poster_file(), "poster.webp");
}

#[test]
fn import_checks_the_image() {
    assert_eq!(import_sprite_ext(b""), Err("文件为空".to_string()));
    assert_eq!(
        import_sprite_ext(b"GIF89a........"),
        Err("不支持的图片格式（仅支持 PNG / WebP）".to_string())
    );
    assert_eq!(
        import_sprite_ext(b"\x89PNG\r\n\x1a\n rest"),
        Ok("png")
    );
    assert_eq!(import_sprite_ext(b"RIFF1234WEBPVP8 "), Ok("webp"));
}

#[test]
fn image_detection_needs_the_whole_header() {
    assert_eq!(detect_image_ext(b"\x89PNG\r\n\x1a"), None);
    assert_eq!(detect_image_ext(b"RIFF1234WEB"), None);
    assert_eq!(detect_image_ext(b"RIFX1234WEBP"), None);
}

#[test]
fn display_name_prefers_the_asked_name() {
    assert_eq!(
        choose_display_name(&Some("  Kitty ".to_string()), Some("file".to_string())),
        "Kitty"
    );
    assert_eq!(
        choose_display_name(&Some("   ".to_string()), Some("file".to_string())),
        "file"
    );
    assert_eq!(choose_display_name(&None, None), "导入宠物");
    assert_eq!(import_display_name(&None, "/home/u/pics/my-cat.png"), "my-cat");
    assert_eq!(import_display_name(&Some("Tom".to_string()), "/x/y.png"), "Tom");
    assert_eq!(import_display_name(&None, "a.tar.gz"), "a.tar");
    assert_eq!(import_display_name(&None, ".hidden"), ".hidden");
    assert_eq!(import_display_name(&None, "..foo"), ".");
    assert_eq!(import_display_name(&None, "plain"), "plain");
    assert_eq!(import_display_name(&None, "/Users/x/cat.png"), "cat");
    assert_eq!(import_display_name(&None, "pics/.hidden"), ".hidden");
}

#[test]
fn uploaded_meta_records_the_import() {
    let meta = uploaded_meta(
        "uploaded-00000000000000ff".to_string(),
        "png",
        "Kitty".to_string(),
        "now".to_string(),
    );
    assert_eq!(meta.id, "uploaded-00000000000000ff");
    assert_eq!(meta.display_name, "Kitty");
    assert_eq!(meta.source, "uploaded");
    assert_eq!(meta.spritesheet_file, "spritesheet.png");
    assert!(meta.tags.is_empty());
    assert_eq!(meta.poster_file, None);
    assert_eq!(meta.installed_at.as_deref(), Some("now"));
}

#[test]
fn uploaded_ids_are_hex_of_the_time() {
    assert_eq!(uploaded_id_from_nanos(255), "uploaded-00000000000000ff");
    assert_eq!(
        uploaded_id_from_nanos(0x1234_5678_9abc_def0_1),
        "uploaded-123456789abcdef01"
    );
}

#[test]
fn shipped_meta_keeps_its_install_time() {
    let bundled = LocalPetMeta {
        id: "trump".to_string(),
        display_name: "Trump".to_string(),
        description: None,
        kind: None,
        tags: vec![],
        source: "builtin".to_string(),
        spritesheet_file: "spritesheet.webp".to_string(),
        poster_file: None,
        spritesheet_url: None,
        version: None,
        sprite_version_number: None,
        installed_at: None,
    };
    // First start: nothing recorded yet.
    let first = with_install_time(bundled.clone(), None, "t1".to_string());
    assert_eq!(first.installed_at.as_deref(), Some("t1"));
    assert_eq!(first.display_name, "Trump");
    // Later starts keep the recorded time.
    let again = with_install_time(bundled.clone(), first.installed_at.clone(), "t2".to_string());
    assert_eq!(again.installed_at.as_deref(), Some("t1"));
    // A bundle that carries its own time keeps it.
    let mut stamped = bundled;
    stamped.installed_at = Some("t0".to_string());
    let kept = with_install_time(stamped, Some("t1".to_string()), "t2".to_string());
    assert_eq!(kept.installed_at.as_deref(), Some("t0"));
}

#[test]
fn shipped_pet_steps() {
    assert_eq!(builtin_step(true, true, true), BuiltinStep::SyncMeta);
    assert_eq!(builtin_step(true, false, false), BuiltinStep::SyncMeta);
    assert_eq!(builtin_step(false, false, true), BuiltinStep::Skip);
    assert_eq!(
        builtin_step(false, true, true),
        BuiltinStep::CopyThenSyncMeta { with_poster: true }
    );
    assert_eq!(
        builtin_step(false, true, false),
        BuiltinStep::CopyThenSyncMeta { with_poster: false }
    );
}
