use upload_gui::{validate_r2_connection, AppSettings, Record, Value};

fn filled() -> AppSettings {
    AppSettings {
        r2_account_id: "account-1".to_string(),
        r2_access_key_id: "key-id".to_string(),
        r2_secret_access_key: "very secret".to_string(),
        r2_bucket_name: "videos".to_string(),
        gpu_enabled: false,
        parallel_processing_count: 3,
        max_parallel_processing: 8,
        delete_original_after_conversion: true,
        cleanup_hls_temp_files: false,
        keep_original_mp4: false,
        include_480p: true,
    }
}

#[test]
fn default_settings_are_the_documented_ones() {
    let settings = AppSettings::default();
    assert_eq!(settings.r2_account_id, "");
    assert_eq!(settings.r2_access_key_id, "");
    assert_eq!(settings.r2_secret_access_key, "");
    assert_eq!(settings.r2_bucket_name, "");
    assert!(settings.gpu_enabled);
    assert_eq!(settings.parallel_processing_count, 2);
    assert_eq!(settings.max_parallel_processing, 4);
    assert!(!settings.delete_original_after_conversion);
    assert!(settings.cleanup_hls_temp_files);
    assert!(settings.keep_original_mp4);
    assert!(!settings.include_480p);
}

#[test]
fn clone_keeps_every_field() {
    let settings = filled();
    assert_eq!(settings.clone(), settings);
    assert_eq!(AppSettings::default().clone(), AppSettings::default());
}

#[test]
fn stored_form_has_one_entry_for_each_field() {
    let record = filled().to_record();
    assert_eq!(record.fields().len(), 11);
    assert_eq!(record.get("r2_account_id"), Some(&Value::Text("account-1".to_string())));
    assert_eq!(record.get("r2_access_key_id"), Some(&Value::Text("key-id".to_string())));
    assert_eq!(record.get("r2_secret_access_key"), Some(&Value::Text("very secret".to_string())));
    assert_eq!(record.get("r2_bucket_name"), Some(&Value::Text("videos".to_string())));
    assert_eq!(record.get("gpu_enabled"), Some(&Value::Bool(false)));
    assert_eq!(record.get("parallel_processing_count"), Some(&Value::Unsigned(3)));
    assert_eq!(record.get("max_parallel_processing"), Some(&Value::Unsigned(8)));
    assert_eq!(record.get("delete_original_after_conversion"), Some(&Value::Bool(true)));
    assert_eq!(record.get("cleanup_hls_temp_files"), Some(&Value::Bool(false)));
    assert_eq!(record.get("keep_original_mp4"), Some(&Value::Bool(false)));
    assert_eq!(record.get("include_480p"), Some(&Value::Bool(true)));
}

#[test]
fn stored_form_reads_back() {
    for settings in [filled(), AppSettings::default()] {
        assert_eq!(AppSettings::from_record(&settings.to_record()), Some(settings));
    }
}

#[test]
fn largest_counts_read_back() {
    let mut settings = filled();
    settings.parallel_processing_count = u32::MAX;
    settings.max_parallel_processing = 0;
    let record = settings.to_record();
    assert_eq!(record.get("parallel_processing_count"), Some(&Value::Unsigned(4294967295)));
    assert_eq!(AppSettings::from_record(&record), Some(settings));
}

#[test]
fn empty_record_holds_no_settings() {
    assert_eq!(AppSettings::from_record(&Record::new()), None);
}

#[test]
fn record_with_a_missing_field_holds_no_settings() {
    let names = [
        "r2_account_id",
        "r2_access_key_id",
        "r2_secret_access_key",
        "r2_bucket_name",
        "gpu_enabled",
        "parallel_processing_count",
        "max_parallel_processing",
        "delete_original_after_conversion",
        "cleanup_hls_temp_files",
        "keep_original_mp4",
        "include_480p",
    ];
    let whole = filled().to_record();
    for missing in names {
        let mut record = Record::new();
        for field in whole.fields() {
            if field.name != missing {
                record.insert(field.name.clone(), field.value.clone());
            }
        }
        assert_eq!(record.fields().len(), 10);
        assert_eq!(AppSettings::from_record(&record), None, "without {}", missing);
    }
}

#[test]
fn record_with_a_value_of_another_kind_holds_no_settings() {
    let mut record = filled().to_record();
    record.insert("gpu_enabled".to_string(), Value::Text("true".to_string()));
    assert_eq!(AppSettings::from_record(&record), None);

    let mut record = filled().to_record();
    record.insert("r2_bucket_name".to_string(), Value::Other);
    assert_eq!(AppSettings::from_record(&record), None);

    let mut record = filled().to_record();
    record.insert("max_parallel_processing".to_string(), Value::Bool(true));
    assert_eq!(AppSettings::from_record(&record), None);

    let mut record = filled().to_record();
    record.insert("include_480p".to_string(), Value::Unsigned(1));
    assert_eq!(AppSettings::from_record(&record), None);
}

#[test]
fn record_with_a_count_out_of_range_holds_no_settings() {
    let mut record = filled().to_record();
    record.insert("parallel_processing_count".to_string(), Value::Unsigned(4294967296));
    assert_eq!(AppSettings::from_record(&record), None);

    let mut record = filled().to_record();
    record.insert("max_parallel_processing".to_string(), Value::Unsigned(u64::MAX));
    assert_eq!(AppSettings::from_record(&record), None);

    let mut record = filled().to_record();
    record.insert("parallel_processing_count".to_string(), Value::Unsigned(4294967295));
    let read = AppSettings::from_record(&record).expect("the largest count fits");
    assert_eq!(read.parallel_processing_count, u32::MAX);
}

#[test]
fn names_of_no_field_are_ignored() {
    let mut record = filled().to_record();
    record.insert("theme".to_string(), Value::Text("dark".to_string()));
    record.insert("window_width".to_string(), Value::Unsigned(1280));
    assert_eq!(AppSettings::from_record(&record), Some(filled()));
}

#[test]
fn validation_fails_without_any_credential() {
    assert_eq!(
        validate_r2_connection(AppSettings::default()),
        Err("All R2 credentials are required".to_string())
    );
}

#[test]
fn validation_succeeds_with_all_four_credentials() {
    assert_eq!(validate_r2_connection(filled()), Ok(true));

    let mut settings = AppSettings::default();
    settings.r2_account_id = "a".to_string();
    settings.r2_access_key_id = "b".to_string();
    settings.r2_secret_access_key = "c".to_string();
    settings.r2_bucket_name = " ".to_string();
    assert_eq!(validate_r2_connection(settings), Ok(true));
}

#[test]
fn validation_fails_when_one_credential_is_empty() {
    let mut settings = filled();
    settings.r2_account_id = String::new();
    assert_eq!(
        validate_r2_connection(settings),
        Err("All R2 credentials are required".to_string())
    );

    let mut settings = filled();
    settings.r2_access_key_id = String::new();
    assert_eq!(
        validate_r2_connection(settings),
        Err("All R2 credentials are required".to_string())
    );

    let mut settings = filled();
    settings.r2_secret_access_key = String::new();
    assert_eq!(
        validate_r2_connection(settings),
        Err("All R2 credentials are required".to_string())
    );

    let mut settings = filled();
    settings.r2_bucket_name = String::new();
    assert_eq!(
        validate_r2_connection(settings),
        Err("All R2 credentials are required".to_string())
    );
}

#[test]
fn validation_looks_only_at_the_credentials() {
    let mut settings = filled();
    settings.gpu_enabled = true;
    settings.parallel_processing_count = 0;
    settings.max_parallel_processing = 0;
    settings.include_480p = false;
    assert_eq!(validate_r2_connection(settings), Ok(true));
}
