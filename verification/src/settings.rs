//! The application settings: the schema, its defaults, the stored form of a
//! settings record and the check of the storage credentials.

use crate::record::{bool_under, text_under, unsigned_under, Record, Value, ValueView};
use vstd::prelude::*;

verus! {

/// The settings of the application, one flat record.
#[derive(Debug, PartialEq, Eq)]
pub struct AppSettings {
    /// Account that owns the storage bucket.
    pub r2_account_id: String,
    /// Identifier of the access key for the bucket.
    pub r2_access_key_id: String,
    /// Secret that belongs to the access key.
    pub r2_secret_access_key: String,
    /// Name of the bucket that receives the uploads.
    pub r2_bucket_name: String,
    /// Whether hardware acceleration is used where it is available.
    pub gpu_enabled: bool,
    /// How many files are processed at the same time.
    pub parallel_processing_count: u32,
    /// The most files that may be processed at the same time.
    pub max_parallel_processing: u32,
    /// Whether the source file is deleted once it has been converted.
    pub delete_original_after_conversion: bool,
    /// Whether the temporary segment files are removed after an upload.
    pub cleanup_hls_temp_files: bool,
    /// Whether the source video is kept beside the converted output.
    pub keep_original_mp4: bool,
    /// Whether the lowest resolution is produced as well.
    pub include_480p: bool,
}

/// The mathematical model of [`AppSettings`]: the same fields, with text as
/// sequences of characters.
pub struct SettingsView {
    pub r2_account_id: Seq<char>,
    pub r2_access_key_id: Seq<char>,
    pub r2_secret_access_key: Seq<char>,
    pub r2_bucket_name: Seq<char>,
    pub gpu_enabled: bool,
    pub parallel_processing_count: u32,
    pub max_parallel_processing: u32,
    pub delete_original_after_conversion: bool,
    pub cleanup_hls_temp_files: bool,
    pub keep_original_mp4: bool,
    pub include_480p: bool,
}

impl View for AppSettings {
    type V = SettingsView;

    open spec fn view(&self) -> SettingsView {
        SettingsView {
            r2_account_id: self.r2_account_id@,
            r2_access_key_id: self.r2_access_key_id@,
            r2_secret_access_key: self.r2_secret_access_key@,
            r2_bucket_name: self.r2_bucket_name@,
            gpu_enabled: self.gpu_enabled,
            parallel_processing_count: self.parallel_processing_count,
            max_parallel_processing: self.max_parallel_processing,
            delete_original_after_conversion: self.delete_original_after_conversion,
            cleanup_hls_temp_files: self.cleanup_hls_temp_files,
            keep_original_mp4: self.keep_original_mp4,
            include_480p: self.include_480p,
        }
    }
}

/// The settings of a fresh installation: no credentials, acceleration on,
/// two files at a time out of at most four, sources and the original video
/// kept, temporary files cleaned up, no lowest resolution.
pub open spec fn default_settings() -> SettingsView {
    SettingsView {
        r2_account_id: Seq::<char>::empty(),
        r2_access_key_id: Seq::<char>::empty(),
        r2_secret_access_key: Seq::<char>::empty(),
        r2_bucket_name: Seq::<char>::empty(),
        gpu_enabled: true,
        parallel_processing_count: 2,
        max_parallel_processing: 4,
        delete_original_after_conversion: false,
        cleanup_hls_temp_files: true,
        keep_original_mp4: true,
        include_480p: false,
    }
}

impl Default for AppSettings {
    fn default() -> (settings: Self)
        ensures
            settings@ == default_settings(),
    {
        AppSettings {
            r2_account_id: String::new(),
            r2_access_key_id: String::new(),
            r2_secret_access_key: String::new(),
            r2_bucket_name: String::new(),
            gpu_enabled: true,
            parallel_processing_count: 2,
            max_parallel_processing: 4,
            delete_original_after_conversion: false,
            cleanup_hls_temp_files: true,
            keep_original_mp4: true,
            include_480p: false,
        }
    }
}

impl Clone for AppSettings {
    fn clone(&self) -> (copy: Self)
        ensures
            copy@ == self@,
    {
        AppSettings {
            r2_account_id: self.r2_account_id.clone(),
            r2_access_key_id: self.r2_access_key_id.clone(),
            r2_secret_access_key: self.r2_secret_access_key.clone(),
            r2_bucket_name: self.r2_bucket_name.clone(),
            gpu_enabled: self.gpu_enabled,
            parallel_processing_count: self.parallel_processing_count,
            max_parallel_processing: self.max_parallel_processing,
            delete_original_after_conversion: self.delete_original_after_conversion,
            cleanup_hls_temp_files: self.cleanup_hls_temp_files,
            keep_original_mp4: self.keep_original_mp4,
            include_480p: self.include_480p,
        }
    }
}

/// The stored form of a settings record: one entry for each field, under the
/// field's name, text as text, switches as truth values, counts as whole
/// numbers.
pub open spec fn stored_form(settings: SettingsView) -> Map<Seq<char>, ValueView> {
    Map::<Seq<char>, ValueView>::empty().insert(
        "r2_account_id"@,
        ValueView::Text(settings.r2_account_id),
    ).insert("r2_access_key_id"@, ValueView::Text(settings.r2_access_key_id)).insert(
        "r2_secret_access_key"@,
        ValueView::Text(settings.r2_secret_access_key),
    ).insert("r2_bucket_name"@, ValueView::Text(settings.r2_bucket_name)).insert(
        "gpu_enabled"@,
        ValueView::Bool(settings.gpu_enabled),
    ).insert(
        "parallel_processing_count"@,
        ValueView::Unsigned(settings.parallel_processing_count as nat),
    ).insert(
        "max_parallel_processing"@,
        ValueView::Unsigned(settings.max_parallel_processing as nat),
    ).insert(
        "delete_original_after_conversion"@,
        ValueView::Bool(settings.delete_original_after_conversion),
    ).insert("cleanup_hls_temp_files"@, ValueView::Bool(settings.cleanup_hls_temp_files)).insert(
        "keep_original_mp4"@,
        ValueView::Bool(settings.keep_original_mp4),
    ).insert("include_480p"@, ValueView::Bool(settings.include_480p))
}

/// The count held under `name`, where the mapping holds a whole number there
/// that a count can take.
pub open spec fn count_under(record: Map<Seq<char>, ValueView>, name: Seq<char>) -> Option<u32> {
    match unsigned_under(record, name) {
        Some(count) => if count <= u32::MAX {
            Some(count as u32)
        } else {
            None
        },
        None => None,
    }
}

/// Whether a stored mapping holds a whole settings record: every field is
/// present under its name and holds a value of the field's kind. Names that
/// belong to no field are of no account.
pub open spec fn holds_settings(record: Map<Seq<char>, ValueView>) -> bool {
    &&& text_under(record, "r2_account_id"@) is Some
    &&& text_under(record, "r2_access_key_id"@) is Some
    &&& text_under(record, "r2_secret_access_key"@) is Some
    &&& text_under(record, "r2_bucket_name"@) is Some
    &&& bool_under(record, "gpu_enabled"@) is Some
    &&& count_under(record, "parallel_processing_count"@) is Some
    &&& count_under(record, "max_parallel_processing"@) is Some
    &&& bool_under(record, "delete_original_after_conversion"@) is Some
    &&& bool_under(record, "cleanup_hls_temp_files"@) is Some
    &&& bool_under(record, "keep_original_mp4"@) is Some
    &&& bool_under(record, "include_480p"@) is Some
}

/// The settings that a stored mapping holds, where it holds a whole record.
pub open spec fn settings_in(record: Map<Seq<char>, ValueView>) -> Option<SettingsView> {
    if holds_settings(record) {
        Some(
            SettingsView {
                r2_account_id: text_under(record, "r2_account_id"@)->0,
                r2_access_key_id: text_under(record, "r2_access_key_id"@)->0,
                r2_secret_access_key: text_under(record, "r2_secret_access_key"@)->0,
                r2_bucket_name: text_under(record, "r2_bucket_name"@)->0,
                gpu_enabled: bool_under(record, "gpu_enabled"@)->0,
                parallel_processing_count: count_under(record, "parallel_processing_count"@)->0,
                max_parallel_processing: count_under(record, "max_parallel_processing"@)->0,
                delete_original_after_conversion: bool_under(
                    record,
                    "delete_original_after_conversion"@,
                )->0,
                cleanup_hls_temp_files: bool_under(record, "cleanup_hls_temp_files"@)->0,
                keep_original_mp4: bool_under(record, "keep_original_mp4"@)->0,
                include_480p: bool_under(record, "include_480p"@)->0,
            },
        )
    } else {
        None
    }
}

/// The names of the settings fields differ from one another.
proof fn lemma_field_names_differ()
    ensures
        "r2_account_id"@.len() == 13,
        "r2_access_key_id"@.len() == 16,
        "r2_secret_access_key"@.len() == 20,
        "r2_bucket_name"@.len() == 14,
        "gpu_enabled"@.len() == 11,
        "parallel_processing_count"@.len() == 25,
        "max_parallel_processing"@.len() == 23,
        "delete_original_after_conversion"@.len() == 32,
        "cleanup_hls_temp_files"@.len() == 22,
        "keep_original_mp4"@.len() == 17,
        "include_480p"@.len() == 12,
{
    reveal_strlit("r2_account_id");
    reveal_strlit("r2_access_key_id");
    reveal_strlit("r2_secret_access_key");
    reveal_strlit("r2_bucket_name");
    reveal_strlit("gpu_enabled");
    reveal_strlit("parallel_processing_count");
    reveal_strlit("max_parallel_processing");
    reveal_strlit("delete_original_after_conversion");
    reveal_strlit("cleanup_hls_temp_files");
    reveal_strlit("keep_original_mp4");
    reveal_strlit("include_480p");
}

/// Reading the stored form of a settings record gives that record back, in
/// every field.
pub proof fn lemma_stored_form_reads_back(settings: SettingsView)
    ensures
        holds_settings(stored_form(settings)),
        settings_in(stored_form(settings)) == Some(settings),
{
    lemma_field_names_differ();
}

impl AppSettings {
    /// The stored form of these settings.
    pub fn to_record(&self) -> (record: Record)
        ensures
            record@ == stored_form(self@),
    {
        let mut record = Record::new();
        record.insert("r2_account_id".to_owned(), Value::Text(self.r2_account_id.clone()));
        record.insert("r2_access_key_id".to_owned(), Value::Text(self.r2_access_key_id.clone()));
        record.insert(
            "r2_secret_access_key".to_owned(),
            Value::Text(self.r2_secret_access_key.clone()),
        );
        record.insert("r2_bucket_name".to_owned(), Value::Text(self.r2_bucket_name.clone()));
        record.insert("gpu_enabled".to_owned(), Value::Bool(self.gpu_enabled));
        record.insert(
            "parallel_processing_count".to_owned(),
            Value::Unsigned(self.parallel_processing_count as u64),
        );
        record.insert(
            "max_parallel_processing".to_owned(),
            Value::Unsigned(self.max_parallel_processing as u64),
        );
        record.insert(
            "delete_original_after_conversion".to_owned(),
            Value::Bool(self.delete_original_after_conversion),
        );
        record.insert("cleanup_hls_temp_files".to_owned(), Value::Bool(self.cleanup_hls_temp_files));
        record.insert("keep_original_mp4".to_owned(), Value::Bool(self.keep_original_mp4));
        record.insert("include_480p".to_owned(), Value::Bool(self.include_480p));
        record
    }

    /// Reads settings from a stored record. The result is `None` exactly
    /// where the record does not hold a whole settings record: a field is
    /// missing, holds a value of another kind, or holds a count too large
    /// for the field.
    pub fn from_record(record: &Record) -> (settings: Option<AppSettings>)
        ensures
            match settings {
                Some(read) => settings_in(record@) == Some(read@),
                None => settings_in(record@) is None,
            },
    {
        let r2_account_id = record.text("r2_account_id");
        let r2_access_key_id = record.text("r2_access_key_id");
        let r2_secret_access_key = record.text("r2_secret_access_key");
        let r2_bucket_name = record.text("r2_bucket_name");
        let gpu_enabled = record.bool("gpu_enabled");
        let parallel_processing_count = count_of(record, "parallel_processing_count");
        let max_parallel_processing = count_of(record, "max_parallel_processing");
        let delete_original_after_conversion = record.bool("delete_original_after_conversion");
        let cleanup_hls_temp_files = record.bool("cleanup_hls_temp_files");
        let keep_original_mp4 = record.bool("keep_original_mp4");
        let include_480p = record.bool("include_480p");
        match (
            r2_account_id,
            r2_access_key_id,
            r2_secret_access_key,
            r2_bucket_name,
            gpu_enabled,
            parallel_processing_count,
            max_parallel_processing,
            delete_original_after_conversion,
            cleanup_hls_temp_files,
            keep_original_mp4,
            include_480p,
        ) {
            (
                Some(r2_account_id),
                Some(r2_access_key_id),
                Some(r2_secret_access_key),
                Some(r2_bucket_name),
                Some(gpu_enabled),
                Some(parallel_processing_count),
                Some(max_parallel_processing),
                Some(delete_original_after_conversion),
                Some(cleanup_hls_temp_files),
                Some(keep_original_mp4),
                Some(include_480p),
            ) => Some(
                AppSettings {
                    r2_account_id,
                    r2_access_key_id,
                    r2_secret_access_key,
                    r2_bucket_name,
                    gpu_enabled,
                    parallel_processing_count,
                    max_parallel_processing,
                    delete_original_after_conversion,
                    cleanup_hls_temp_files,
                    keep_original_mp4,
                    include_480p,
                },
            ),
            _ => None,
        }
    }
}

/// The count held under `name` of `record`, where it holds one.
fn count_of(record: &Record, name: &str) -> (count: Option<u32>)
    ensures
        count == count_under(record@, name@),
{
    match record.unsigned(name) {
        Some(held) => if held <= u32::MAX as u64 {
            Some(held as u32)
        } else {
            None
        },
        None => None,
    }
}

/// Whether all four storage credentials are filled in.
pub open spec fn credentials_complete(settings: SettingsView) -> bool {
    &&& settings.r2_account_id.len() > 0
    &&& settings.r2_access_key_id.len() > 0
    &&& settings.r2_secret_access_key.len() > 0
    &&& settings.r2_bucket_name.len() > 0
}

/// The message that reports missing credentials.
pub open spec fn missing_credentials_message() -> Seq<char> {
    "All R2 credentials are required"@
}

/// Checks the storage credentials of `settings`. The check succeeds, with
/// `true`, exactly where none of the four credential fields is empty; it
/// looks at nothing else and contacts no server.
pub fn validate_r2_connection(settings: AppSettings) -> (outcome: Result<bool, String>)
    ensures
        outcome is Err <==> !credentials_complete(settings@),
        outcome matches Ok(valid) ==> valid,
        outcome matches Err(message) ==> message@ == missing_credentials_message(),
{
    if settings.r2_account_id.as_str().is_empty() || settings.r2_access_key_id.as_str().is_empty()
        || settings.r2_secret_access_key.as_str().is_empty()
        || settings.r2_bucket_name.as_str().is_empty() {
        return Err("All R2 credentials are required".to_owned());
    }
    Ok(true)
}

} // verus!
