//! Loading and saving the settings against a key-value store.
//!
//! The store is passed to each operation. [`MemoryStore`] is the store as
//! the library sees it: whole records under names, held in memory. Whoever
//! keeps the records on disk reads them into a `MemoryStore` and writes them
//! out of it, and reports what went wrong there as a [`StoreError`].

use crate::record::{Record, ValueView};
use crate::settings::{default_settings, settings_in, stored_form, AppSettings, SettingsView};
use crate::settings::lemma_stored_form_reads_back;
use vstd::hash_map::StringHashMap;
use vstd::prelude::*;

verus! {

/// The file in which the settings store is kept.
pub const STORE_FILE: &'static str = "settings.json";

/// The name under which the settings record is stored.
pub const SETTINGS_KEY: &'static str = "app_settings";

/// The name under which the settings record is stored, as a sequence of
/// characters.
pub open spec fn settings_key() -> Seq<char> {
    "app_settings"@
}

/// A key-value store held in memory: records under names.
pub struct MemoryStore {
    records: StringHashMap<Record>,
}

impl View for MemoryStore {
    type V = Map<Seq<char>, Map<Seq<char>, ValueView>>;

    closed spec fn view(&self) -> Map<Seq<char>, Map<Seq<char>, ValueView>> {
        self.records@.map_values(|record: Record| record@)
    }
}

impl MemoryStore {
    /// The store that holds nothing.
    pub fn new() -> (store: MemoryStore)
        ensures
            store@ == Map::<Seq<char>, Map<Seq<char>, ValueView>>::empty(),
    {
        let store = MemoryStore { records: StringHashMap::new() };
        assert(store@ =~= Map::<Seq<char>, Map<Seq<char>, ValueView>>::empty());
        store
    }

    /// The record stored under `key`, or `None` where nothing is stored
    /// there.
    pub fn get(&self, key: &str) -> (record: Option<&Record>)
        ensures
            match record {
                Some(stored) => self@.contains_key(key@) && stored@ == self@[key@],
                None => !self@.contains_key(key@),
            },
    {
        self.records.get(key)
    }

    /// Stores `record` under `key`, in place of what was stored there. What
    /// is stored under other keys stays.
    pub fn set(&mut self, key: String, record: Record)
        ensures
            final(self)@ == old(self)@.insert(key@, record@),
    {
        self.records.insert(key, record);
        assert(self@ =~= old(self)@.insert(key@, record@));
    }
}

/// The settings that loading from a store yields: the record stored under
/// the settings key where it holds a whole settings record, the defaults
/// where the key is absent or what is stored there cannot be read.
pub open spec fn loaded_settings(
    store: Map<Seq<char>, Map<Seq<char>, ValueView>>,
) -> SettingsView {
    if store.contains_key(settings_key()) {
        match settings_in(store[settings_key()]) {
            Some(settings) => settings,
            None => default_settings(),
        }
    } else {
        default_settings()
    }
}

/// The store after `settings` have been saved to it.
pub open spec fn store_after_save(
    store: Map<Seq<char>, Map<Seq<char>, ValueView>>,
    settings: SettingsView,
) -> Map<Seq<char>, Map<Seq<char>, ValueView>> {
    store.insert(settings_key(), stored_form(settings))
}

/// Loads the settings from `store`. A store without a settings record gives
/// the defaults, and so does a stored record that cannot be read: that it
/// was unreadable is not reported.
pub fn load_settings(store: &MemoryStore) -> (settings: AppSettings)
    ensures
        settings@ == loaded_settings(store@),
        !store@.contains_key(settings_key()) ==> settings@ == default_settings(),
{
    match store.get(SETTINGS_KEY) {
        Some(stored) => match AppSettings::from_record(stored) {
            Some(settings) => settings,
            None => AppSettings::default(),
        },
        None => AppSettings::default(),
    }
}

/// Saves `settings` to `store`: the whole record replaces what was stored
/// under the settings key, and nothing else in the store changes. Loading
/// from the store afterwards gives `settings` back.
pub fn save_settings(store: &mut MemoryStore, settings: AppSettings)
    ensures
        final(store)@ == store_after_save(old(store)@, settings@),
        loaded_settings(final(store)@) == settings@,
{
    let record = settings.to_record();
    store.set(SETTINGS_KEY.to_owned(), record);
    proof {
        lemma_load_after_save(old(store)@, settings@);
    }
}

/// Loading from a store that holds no settings record gives the defaults.
pub proof fn lemma_load_without_record(store: Map<Seq<char>, Map<Seq<char>, ValueView>>)
    requires
        !store.contains_key(settings_key()),
    ensures
        loaded_settings(store) == default_settings(),
        loaded_settings(Map::<Seq<char>, Map<Seq<char>, ValueView>>::empty()) == default_settings(),
{
}

/// Saving a settings record and then loading gives a record equal to the
/// saved one in every field, whatever the store held before.
pub proof fn lemma_load_after_save(
    store: Map<Seq<char>, Map<Seq<char>, ValueView>>,
    settings: SettingsView,
)
    ensures
        loaded_settings(store_after_save(store, settings)) == settings,
{
    lemma_stored_form_reads_back(settings);
}

/// Saving `changed` over a saved `original` and then loading gives `changed`:
/// every field in which the two differ has the value it has in `changed`,
/// and every field in which they agree has the value it had in `original`.
pub proof fn lemma_load_after_change(
    store: Map<Seq<char>, Map<Seq<char>, ValueView>>,
    original: SettingsView,
    changed: SettingsView,
)
    ensures
        ({
            let loaded = loaded_settings(
                store_after_save(store_after_save(store, original), changed),
            );
            &&& loaded == changed
            &&& changed.r2_account_id == original.r2_account_id ==> loaded.r2_account_id
                == original.r2_account_id
            &&& changed.r2_access_key_id == original.r2_access_key_id ==> loaded.r2_access_key_id
                == original.r2_access_key_id
            &&& changed.r2_secret_access_key == original.r2_secret_access_key
                ==> loaded.r2_secret_access_key == original.r2_secret_access_key
            &&& changed.r2_bucket_name == original.r2_bucket_name ==> loaded.r2_bucket_name
                == original.r2_bucket_name
            &&& changed.gpu_enabled == original.gpu_enabled ==> loaded.gpu_enabled
                == original.gpu_enabled
            &&& changed.parallel_processing_count == original.parallel_processing_count
                ==> loaded.parallel_processing_count == original.parallel_processing_count
            &&& changed.max_parallel_processing == original.max_parallel_processing
                ==> loaded.max_parallel_processing == original.max_parallel_processing
            &&& changed.delete_original_after_conversion
                == original.delete_original_after_conversion
                ==> loaded.delete_original_after_conversion
                == original.delete_original_after_conversion
            &&& changed.cleanup_hls_temp_files == original.cleanup_hls_temp_files
                ==> loaded.cleanup_hls_temp_files == original.cleanup_hls_temp_files
            &&& changed.keep_original_mp4 == original.keep_original_mp4 ==> loaded.keep_original_mp4
                == original.keep_original_mp4
            &&& changed.include_480p == original.include_480p ==> loaded.include_480p
                == original.include_480p
        }),
{
    lemma_load_after_save(store_after_save(store, original), changed);
}

/// What can go wrong around the store.
#[derive(Debug, PartialEq, Eq)]
pub enum StoreError {
    /// The store could not be opened.
    Unavailable,
    /// The settings could not be brought into their stored form; the text
    /// says why.
    Serialize(String),
    /// The store could not be written out; the text says why.
    Persist(String),
}

impl StoreError {
    /// The text of the message for this error.
    pub open spec fn message_text(&self) -> Seq<char> {
        match self {
            StoreError::Unavailable => "Failed to get store"@,
            StoreError::Serialize(detail) => "Failed to serialize settings: "@ + detail@,
            StoreError::Persist(detail) => "Failed to persist settings: "@ + detail@,
        }
    }

    /// The message that reports this error to the caller.
    pub fn message(&self) -> (text: String)
        ensures
            text@ == self.message_text(),
    {
        match self {
            StoreError::Unavailable => "Failed to get store".to_owned(),
            StoreError::Serialize(detail) => {
                let mut text = "Failed to serialize settings: ".to_owned();
                text.append(detail.as_str());
                text
            },
            StoreError::Persist(detail) => {
                let mut text = "Failed to persist settings: ".to_owned();
                text.append(detail.as_str());
                text
            },
        }
    }
}

} // verus!
