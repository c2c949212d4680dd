use zcode_pet::zcode::{
    count_from, data_dir_candidates, first_existing_index, model_rows, node_version_from,
    normalize_data_dir, override_dir_from, today_stats, DataDir, RawModelRow,
    DB_FILE_COMPONENTS,
};

#[test]
fn negative_counts_become_zero() {
    assert_eq!(count_from(-5), 0);
    assert_eq!(count_from(0), 0);
    assert_eq!(count_from(123), 123);
}

#[test]
fn stats_from_query_results() {
    let rows = vec![
        Some(RawModelRow {
            model_id: Some("glm-5.2".to_string()),
            calls: 3,
            total_tokens: Some(900),
        }),
        None,
        Some(RawModelRow {
            model_id: None,
            calls: 1,
            total_tokens: None,
        }),
    ];
    let stats = today_stats("/db.sqlite".to_string(), 100, -1, 900, 4, rows);
    assert_eq!(stats.db_path, "/db.sqlite");
    assert_eq!(stats.today_input_tokens, 100);
    assert_eq!(stats.today_output_tokens, 0);
    assert_eq!(stats.today_total_tokens, 900);
    assert_eq!(stats.today_calls, 4);
    assert_eq!(stats.active_models.len(), 2);
    assert_eq!(stats.active_models[0].model_id, "glm-5.2");
    assert_eq!(stats.active_models[0].calls, 3);
    assert_eq!(stats.active_models[0].total_tokens, 900);
    assert_eq!(stats.active_models[1].model_id, "");
    assert_eq!(stats.active_models[1].calls, 1);
    assert_eq!(stats.active_models[1].total_tokens, 0);
}

#[test]
fn model_row_numbers_convert_as_unsigned() {
    let rows = model_rows(vec![Some(RawModelRow {
        model_id: Some("m".to_string()),
        calls: -1,
        total_tokens: Some(-2),
    })]);
    assert_eq!(rows[0].calls, u64::MAX);
    assert_eq!(rows[0].total_tokens, u64::MAX - 1);
}

#[test]
fn database_file_is_under_cli_db() {
    assert_eq!(DB_FILE_COMPONENTS, ["cli", "db", "db.sqlite"]);
}

#[test]
fn candidates_follow_the_priority_chain() {
    let all = data_dir_candidates(
        &Some("/override".to_string()),
        &Some("  /storage ".to_string()),
        true,
    );
    assert_eq!(
        all,
        vec![
            DataDir::At("/override".to_string()),
            DataDir::At("/storage".to_string()),
            DataDir::InHome(".zcode-beta".to_string()),
            DataDir::InHome(".zcode".to_string()),
        ]
    );
    let blank_env = data_dir_candidates(&None, &Some("   ".to_string()), true);
    assert_eq!(
        blank_env,
        vec![DataDir::InHome(".zcode-beta".to_string()), DataDir::InHome(".zcode".to_string())]
    );
    // Without a home directory the override and ZCODE_STORAGE_DIR are still looked at.
    let no_home = data_dir_candidates(&Some("/o".to_string()), &Some("/s".to_string()), false);
    assert_eq!(no_home, vec![DataDir::At("/o".to_string()), DataDir::At("/s".to_string())]);
    assert_eq!(
        data_dir_candidates(&None, &Some("/s".to_string()), false),
        vec![DataDir::At("/s".to_string())]
    );
    assert!(data_dir_candidates(&None, &None, false).is_empty());
}

#[test]
fn first_existing_database_wins() {
    assert_eq!(first_existing_index(&vec![false, true, true]), Some(1));
    assert_eq!(first_existing_index(&vec![true, true, true]), Some(0));
    assert_eq!(first_existing_index(&vec![false, false, false]), None);
    assert_eq!(first_existing_index(&vec![]), None);
}

#[test]
fn data_dir_settings_are_normalised() {
    assert_eq!(normalize_data_dir(&Some("  /data  ".to_string())), Some("/data".to_string()));
    assert_eq!(normalize_data_dir(&Some("   ".to_string())), None);
    assert_eq!(normalize_data_dir(&None), None);
    assert_eq!(override_dir_from(Some("".to_string())), None);
    assert_eq!(override_dir_from(Some(" x ".to_string())), Some(" x ".to_string()));
    assert_eq!(override_dir_from(None), None);
}

#[test]
fn node_version_is_read_from_the_output() {
    assert_eq!(node_version_from(true, "v20.11.0\n"), Ok("v20.11.0".to_string()));
    assert_eq!(
        node_version_from(true, "  \n"),
        Err("无法读取 Node.js 版本".to_string())
    );
    assert_eq!(
        node_version_from(false, "v20"),
        Err("Node.js 不可用（node --version 执行失败）".to_string())
    );
}
