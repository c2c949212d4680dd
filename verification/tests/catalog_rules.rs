use zcode_pet::catalog::{
    builtin_rank_of, check_deletable, is_builtin_pet, pet_cache_dir, sort_local_pets,
    BUILTIN_PET_COUNT,
};
use zcode_pet::pet::{meta_to_info, LocalPetInfo, LocalPetMeta};

fn info(id: &str) -> LocalPetInfo {
    LocalPetInfo {
        id: id.to_string(),
        display_name: id.to_uppercase(),
        description: None,
        kind: None,
        tags: vec![],
        source: "downloaded".to_string(),
        spritesheet_path: format!("/pets/{}/spritesheet.webp", id),
        poster_path: None,
        spritesheet_url: None,
        version: None,
        sprite_version_number: None,
        installed_at: None,
    }
}

fn ids(v: &[LocalPetInfo]) -> Vec<String> {
    v.iter().map(|p| p.id.clone()).collect()
}

#[test]
fn listing_puts_builtin_pets_first_in_their_order() {
    let input = vec![
        info("zeta"),
        info("fat-guga"),
        info("alpha"),
        info("ice-tea-hooper"),
        info("trump"),
        info("jige-kunkun"),
        info("mid"),
    ];
    let sorted = sort_local_pets(input);
    assert_eq!(
        ids(&sorted),
        vec!["ice-tea-hooper", "trump", "jige-kunkun", "fat-guga", "alpha", "mid", "zeta"]
    );
}

#[test]
fn listing_orders_other_pets_by_code_point() {
    let sorted = sort_local_pets(vec![info("b"), info("B"), info("ab"), info("a"), info("")]);
    assert_eq!(ids(&sorted), vec!["", "B", "a", "ab", "b"]);
}

#[test]
fn listing_keeps_ties_in_input_order() {
    let mut first = info("same");
    first.display_name = "first".to_string();
    let mut second = info("same");
    second.display_name = "second".to_string();
    let sorted = sort_local_pets(vec![first, info("trump"), second]);
    assert_eq!(ids(&sorted), vec!["trump", "same", "same"]);
    assert_eq!(sorted[1].display_name, "first");
    assert_eq!(sorted[2].display_name, "second");
}

#[test]
fn listing_of_nothing_is_empty() {
    assert!(sort_local_pets(vec![]).is_empty());
}

#[test]
fn builtin_ranks_follow_the_shipped_order() {
    assert_eq!(builtin_rank_of("ice-tea-hooper"), 0);
    assert_eq!(builtin_rank_of("trump"), 1);
    assert_eq!(builtin_rank_of("jige-kunkun"), 2);
    assert_eq!(builtin_rank_of("fat-guga"), 3);
    assert_eq!(builtin_rank_of("trumpet"), BUILTIN_PET_COUNT);
    assert!(is_builtin_pet("trump"));
    assert!(!is_builtin_pet("Trump"));
}

#[test]
fn shipped_pets_cannot_be_deleted() {
    assert_eq!(check_deletable("trump"), Err("内置宠物不能删除".to_string()));
    assert_eq!(check_deletable("fat-guga"), Err("内置宠物不能删除".to_string()));
}

#[test]
fn deleting_checks_the_id() {
    assert_eq!(check_deletable("my-pet-2"), Ok(()));
    assert_eq!(
        check_deletable("../etc"),
        Err("非法的宠物 id: ../etc".to_string())
    );
    assert_eq!(
        check_deletable("Upper"),
        Err("非法的宠物 id: Upper".to_string())
    );
}

#[test]
fn cache_dir_joins_valid_ids() {
    let dir = pet_cache_dir("/cache/pets_cache", "my-pet").unwrap();
    let expected = std::path::Path::new("/cache/pets_cache")
        .join("my-pet")
        .to_string_lossy()
        .to_string();
    assert_eq!(dir, expected);
    assert!(dir.starts_with("/cache/pets_cache"));
    assert!(dir.ends_with("my-pet"));
    assert_ne!(dir, "/cache/pets_cache");
}

#[test]
fn cache_dir_of_the_empty_id_is_the_joined_root() {
    let expected = std::path::Path::new("/cache")
        .join("")
        .to_string_lossy()
        .to_string();
    assert_eq!(pet_cache_dir("/cache", ""), Ok(expected));
    assert_eq!(
        pet_cache_dir("/data/pets_cache", "jige-kunkun"),
        Ok(std::path::Path::new("/data/pets_cache").join("jige-kunkun").to_string_lossy().to_string())
    );
}

#[test]
fn cache_dir_adds_no_separator_after_a_trailing_slash() {
    assert_eq!(pet_cache_dir("a/", "b"), Ok("a/b".to_string()));
}

#[test]
fn cache_dir_refuses_traversal() {
    assert_eq!(
        pet_cache_dir("/cache", "../../x"),
        Err("非法的宠物 id: ../../x".to_string())
    );
    assert_eq!(
        pet_cache_dir("/cache", "a/b"),
        Err("非法的宠物 id: a/b".to_string())
    );
}

#[test]
fn info_carries_meta_and_paths() {
    let meta = LocalPetMeta {
        id: "cat".to_string(),
        display_name: "Cat".to_string(),
        description: Some("a cat".to_string()),
        kind: Some("animal".to_string()),
        tags: vec!["cute".to_string(), "small".to_string()],
        source: "downloaded".to_string(),
        spritesheet_file: "spritesheet.webp".to_string(),
        poster_file: Some("poster.webp".to_string()),
        spritesheet_url: Some("https://x/s.webp".to_string()),
        version: Some(42),
        sprite_version_number: Some(2),
        installed_at: Some("2024-01-01T00:00:00Z".to_string()),
    };
    let info = meta_to_info("/pets/cat", &meta);
    let join = |f: &str| {
        std::path::Path::new("/pets/cat")
            .join(f)
            .to_string_lossy()
            .to_string()
    };
    assert_eq!(info.id, "cat");
    assert_eq!(info.display_name, "Cat");
    assert_eq!(info.description.as_deref(), Some("a cat"));
    assert_eq!(info.kind.as_deref(), Some("animal"));
    assert_eq!(info.tags, vec!["cute".to_string(), "small".to_string()]);
    assert_eq!(info.source, "downloaded");
    assert_eq!(info.spritesheet_path, join("spritesheet.webp"));
    assert_eq!(info.poster_path, Some(join("poster.webp")));
    assert_eq!(info.spritesheet_url.as_deref(), Some("https://x/s.webp"));
    assert_eq!(info.version, Some(42));
    assert_eq!(info.sprite_version_number, Some(2));
    assert_eq!(info.installed_at.as_deref(), Some("2024-01-01T00:00:00Z"));
    assert_ne!(info.spritesheet_path, "spritesheet.webp");
}

#[test]
fn info_without_poster_has_no_poster_path() {
    let meta = LocalPetMeta {
        id: "dog".to_string(),
        display_name: "Dog".to_string(),
        description: None,
        kind: None,
        tags: vec![],
        source: "builtin".to_string(),
        spritesheet_file: "spritesheet.webp".to_string(),
        poster_file: None,
        spritesheet_url: None,
        version: None,
        sprite_version_number: None,
        installed_at: None,
    };
    let info = meta_to_info("/pets/dog", &meta);
    assert_eq!(info.poster_path, None);
    assert!(info.spritesheet_path.ends_with("spritesheet.webp"));
}

#[test]
fn relisting_changes_nothing() {
    let once = sort_local_pets(vec![
        info("m"),
        info("jige-kunkun"),
        info("a"),
        info("ice-tea-hooper"),
        info("a"),
    ]);
    let twice = sort_local_pets(once.clone());
    assert_eq!(ids(&twice), ids(&once));
    assert_eq!(ids(&once), vec!["ice-tea-hooper", "jige-kunkun", "a", "a", "m"]);
}
