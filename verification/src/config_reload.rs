//! Configuration hot reload: versions of the configuration, change detection
//! by content hash, which fields may change at run time, and snapshots of
//! configuration values.
use std::collections::hash_map::DefaultHasher;
use std::hash::Hasher;
use vstd::prelude::*;
use vstd::std_specs::hash::DefaultHasherAdditionalSpecFns;
use vstd::string::*;
use vstd::utf8::encode_utf8;
use crate::decimal::{hex, push_hex};
use crate::table::{find_key, has_key, keys_distinct, lemma_key_pos_unique, lemma_table_push, lemma_table_update, table_map};

verus! {

/// Configuration reload error types
#[derive(Debug)]
pub enum ConfigReloadError {
    Io(std::io::Error),
    Parse(String),
    Validation(String),
    AlreadyInProgress,
    Unchanged,
}

/// The message of each reload error but an I/O error.
pub open spec fn reload_error_message(e: ConfigReloadError) -> Seq<char> {
    match e {
        ConfigReloadError::Io(_) => "IO error: "@,
        ConfigReloadError::Parse(m) => "Parse error: "@ + m@,
        ConfigReloadError::Validation(m) => "Validation error: "@ + m@,
        ConfigReloadError::AlreadyInProgress => "Reload already in progress"@,
        ConfigReloadError::Unchanged => "Configuration unchanged"@,
    }
}

impl ConfigReloadError {
    /// The error's message; an I/O error's message continues with the
    /// operating system's text.
    pub fn to_string(&self) -> (r: String)
        ensures
            self is Io ==> r@.subrange(0, 10) == reload_error_message(*self),
            !(self is Io) ==> r@ == reload_error_message(*self),
    {
        match self {
            ConfigReloadError::Io(e) => {
                let mut s = "IO error: ".to_owned();
                let t = crate::platform::io_error_text(e);
                s.append(t.as_str());
                proof {
                    reveal_strlit("IO error: ");
                }
                assert(s@.subrange(0, 10) =~= "IO error: "@);
                s
            },
            ConfigReloadError::Parse(m) => {
                let mut s = "Parse error: ".to_owned();
                s.append(m.as_str());
                s
            },
            ConfigReloadError::Validation(m) => {
                let mut s = "Validation error: ".to_owned();
                s.append(m.as_str());
                s
            },
            ConfigReloadError::AlreadyInProgress => "Reload already in progress".to_owned(),
            ConfigReloadError::Unchanged => "Configuration unchanged".to_owned(),
        }
    }
}

/// Configuration change event
#[derive(Debug, Clone)]
pub enum ConfigChange {
    /// Full configuration reload
    FullReload,
    /// Partial configuration update
    PartialUpdate(Vec<String>),
    /// Rules directory changed
    RulesChanged,
    /// Alert output configuration changed
    AlertOutputChanged,
}

/// Configuration version tracking
#[derive(Debug, Clone)]
pub struct ConfigVersion {
    /// Version number (incremented on each reload)
    pub version: u64,
    /// Timestamp of last reload
    pub timestamp: std::time::SystemTime,
    /// Configuration hash for detecting changes
    pub hash: String,
}

impl ConfigVersion {
    /// A version stamped with the current time.
    pub fn new(version: u64, hash: String) -> (v: Self)
        ensures
            v.version == version,
            v.hash == hash,
    {
        ConfigVersion { version, timestamp: crate::clock::system_time_now(), hash }
    }
}

/// The hash of a configuration text, as lower-case hexadecimal: a fresh
/// `DefaultHasher` fed the text as `str` hashing feeds it, its UTF-8 bytes
/// and then the byte 0xff.
pub open spec fn content_hash(content: Seq<char>) -> Seq<char> {
    hex(DefaultHasher::spec_finish(seq![encode_utf8(content), seq![0xffu8]]) as nat)
}

/// The hash of a configuration text, as lower-case hexadecimal.
pub fn compute_hash(content: &str) -> (r: String)
    ensures
        r@ == content_hash(content@),
{
    let mut hasher = DefaultHasher::new();
    hasher.write(content.as_bytes());
    assert(hasher@ =~= seq![encode_utf8(content@)]);
    let end: Vec<u8> = vec![0xff];
    assert(end@ =~= seq![0xffu8]);
    hasher.write(end.as_slice());
    assert(hasher@ =~= seq![encode_utf8(content@), seq![0xffu8]]);
    let n = hasher.finish();
    let mut r = String::new();
    push_hex(&mut r, n);
    assert(r@ =~= content_hash(content@));
    r
}

/// Equal configuration texts have equal hashes, so an unchanged file is
/// never taken for a change.
pub proof fn law_same_content_same_hash(a: Seq<char>, b: Seq<char>)
    requires
        a == b,
    ensures
        content_hash(a) == content_hash(b),
{
}

/// The fields that can be reloaded at run time.
pub open spec fn default_reloadable_fields() -> Seq<Seq<char>> {
    seq![
        "rules.directory"@,
        "rules.watch_enabled"@,
        "alert.output"@,
        "metrics.enabled"@,
        "metrics.interval"@,
        "log.level"@,
        "pool.size"@,
        "pool.max_wait_ms"@,
        "backpressure.queue_depth"@,
        "backpressure.timeout_ms"@,
    ]
}

/// Hot-reloadable configuration manager: the current version, the hash of
/// the configuration last loaded, the fields that may be reloaded and the
/// configuration file, if any.
pub struct ConfigManager {
    version: ConfigVersion,
    reloadable_fields: Vec<String>,
    config_path: Option<String>,
    last_hash: String,
}

impl ConfigManager {
    /// The current version.
    pub closed spec fn version_spec(&self) -> ConfigVersion {
        self.version
    }

    /// The hash of the configuration last loaded.
    pub closed spec fn last_hash_spec(&self) -> Seq<char> {
        self.last_hash@
    }

    /// The configuration file, if any.
    pub closed spec fn config_path_spec(&self) -> Option<Seq<char>> {
        match self.config_path {
            Some(p) => Some(p@),
            None => None,
        }
    }

    /// The fields that may be reloaded.
    pub closed spec fn reloadable_spec(&self) -> Seq<Seq<char>> {
        self.reloadable_fields@.map_values(|f: String| f@)
    }

    /// A manager at version 0 with hash `init`, no configuration file and the
    /// default reloadable fields.
    pub fn new() -> (m: Self)
        ensures
            m.version_spec().version == 0,
            m.version_spec().hash@ == "init"@,
            m.last_hash_spec() == "init"@,
            m.config_path_spec() is None,
            m.reloadable_spec() == default_reloadable_fields(),
    {
        let fields = vec![
            "rules.directory".to_owned(),
            "rules.watch_enabled".to_owned(),
            "alert.output".to_owned(),
            "metrics.enabled".to_owned(),
            "metrics.interval".to_owned(),
            "log.level".to_owned(),
            "pool.size".to_owned(),
            "pool.max_wait_ms".to_owned(),
            "backpressure.queue_depth".to_owned(),
            "backpressure.timeout_ms".to_owned(),
        ];
        let m = ConfigManager {
            version: ConfigVersion::new(0, "init".to_owned()),
            reloadable_fields: fields,
            config_path: None,
            last_hash: "init".to_owned(),
        };
        assert(m.reloadable_spec() =~= default_reloadable_fields());
        m
    }

    /// The same manager reading its configuration from `path`.
    pub fn with_config_path(self, path: &str) -> (m: Self)
        ensures
            m.config_path_spec() == Some(path@),
            m.version_spec() == self.version_spec(),
            m.last_hash_spec() == self.last_hash_spec(),
            m.reloadable_spec() == self.reloadable_spec(),
    {
        let mut m = self;
        m.config_path = Some(path.to_owned());
        m
    }

    /// The configuration file to watch, or a validation error when none is
    /// set.
    pub fn watch_path(&self) -> (r: Result<&str, ConfigReloadError>)
        ensures
            match self.config_path_spec() {
                Some(p) => r matches Ok(s) && s@ == p,
                None => r matches Err(ConfigReloadError::Validation(m)) && m@ == "Config path not set"@,
            },
    {
        match &self.config_path {
            Some(p) => Ok(p.as_str()),
            None => Err(ConfigReloadError::Validation("Config path not set".to_owned())),
        }
    }

    /// Whether a configuration text differs from the one last loaded.
    pub fn has_changed(&self, content: &str) -> (r: bool)
        ensures
            r == (content_hash(content@) != self.last_hash_spec()),
    {
        let hash = compute_hash(content);
        !string_eq(&hash, &self.last_hash)
    }

    /// Get current configuration version
    pub fn current_version(&self) -> (v: ConfigVersion)
        ensures
            v.version == self.version_spec().version,
            v.hash == self.version_spec().hash,
    {
        ConfigVersion { version: self.version.version, timestamp: self.version.timestamp, hash: self.version.hash.clone() }
    }

    /// Reload the configuration: with a configuration file, given its text,
    /// the version advances only when the text differs from the one last
    /// loaded, and an unchanged text is refused; without one, the version
    /// always advances.
    pub fn reload(&mut self, file_content: Option<&str>) -> (r: Result<(), ConfigReloadError>)
        requires
            old(self).version_spec().version < u64::MAX,
            old(self).config_path_spec() is Some ==> file_content is Some,
        ensures
            final(self).last_hash_spec() == old(self).last_hash_spec(),
            final(self).config_path_spec() == old(self).config_path_spec(),
            final(self).reloadable_spec() == old(self).reloadable_spec(),
            final(self).version_spec().hash == old(self).version_spec().hash,
            ({
                let refused = old(self).config_path_spec() is Some && content_hash(file_content->0@) == old(self).last_hash_spec();
                &&& refused ==> (r matches Err(ConfigReloadError::Unchanged) && final(self).version_spec() == old(self).version_spec())
                &&& !refused ==> r is Ok && final(self).version_spec().version == old(self).version_spec().version + 1
            }),
    {
        if self.config_path.is_some() {
            let content = file_content.unwrap();
            if !self.has_changed(content) {
                return Err(ConfigReloadError::Unchanged);
            }
        }
        self.version.version = self.version.version + 1;
        self.version.timestamp = crate::clock::system_time_now();
        Ok(())
    }

    /// Record the text of a configuration just loaded.
    pub fn mark_reloaded(&mut self, content: &str)
        ensures
            final(self).last_hash_spec() == content_hash(content@),
            final(self).version_spec() == old(self).version_spec(),
            final(self).config_path_spec() == old(self).config_path_spec(),
            final(self).reloadable_spec() == old(self).reloadable_spec(),
    {
        self.last_hash = compute_hash(content);
    }

    /// Get list of reloadable fields
    pub fn reloadable_fields(&self) -> (r: &[String])
        ensures
            r@.map_values(|f: String| f@) == self.reloadable_spec(),
    {
        self.reloadable_fields.as_slice()
    }

    /// Check if a field is reloadable
    pub fn is_reloadable(&self, field: &str) -> (r: bool)
        ensures
            r == self.reloadable_spec().contains(field@),
    {
        let mut i: usize = 0;
        while i < self.reloadable_fields.len()
            invariant
                i <= self.reloadable_fields@.len(),
                forall|j: int| 0 <= j < i ==> (#[trigger] self.reloadable_fields@[j])@ != field@,
            decreases self.reloadable_fields@.len() - i,
        {
            if str_eq(self.reloadable_fields[i].as_str(), field) {
                assert(self.reloadable_spec()[i as int] == field@);
                return true;
            }
            i = i + 1;
        }
        assert forall|j: int| 0 <= j < self.reloadable_spec().len() implies self.reloadable_spec()[j] != field@ by {
            assert(self.reloadable_spec()[j] == self.reloadable_fields@[j]@);
        }
        false
    }
}

impl Default for ConfigManager {
    fn default() -> (m: Self)
        ensures
            m.version_spec().version == 0,
            m.config_path_spec() is None,
            m.reloadable_spec() == default_reloadable_fields(),
    {
        Self::new()
    }
}

/// Whether two strings hold the same text.
fn str_eq(a: &str, b: &str) -> (r: bool)
    ensures
        r == (a@ == b@),
{
    let a2 = a.to_owned();
    let b2 = b.to_owned();
    string_eq(&a2, &b2)
}

/// Whether two strings hold the same text.
fn string_eq(a: &String, b: &String) -> (r: bool)
    ensures
        r == (a@ == b@),
{
    *a == *b
}

/// Configuration snapshot for atomic updates: a version and values by
/// distinct keys.
#[derive(Debug, Clone)]
pub struct ConfigSnapshot {
    pub version: u64,
    pub values: Vec<(String, String)>,
}

impl ConfigSnapshot {
    /// The values as a map from keys.
    pub open spec fn value_map(&self) -> Map<Seq<char>, String> {
        table_map(self.values@)
    }

    /// An empty snapshot at the given version.
    pub fn new(version: u64) -> (s: Self)
        ensures
            s.version == version,
            keys_distinct(s.values@),
            s.value_map() == Map::<Seq<char>, String>::empty(),
    {
        let s = ConfigSnapshot { version, values: Vec::new() };
        assert(s.value_map() =~= Map::<Seq<char>, String>::empty());
        s
    }

    /// The same snapshot with the given values.
    pub fn with_values(self, values: Vec<(String, String)>) -> (s: Self)
        ensures
            s.version == self.version,
            s.values == values,
    {
        let mut s = self;
        s.values = values;
        s
    }

    /// The value under a key.
    pub fn get(&self, key: &str) -> (r: Option<&String>)
        requires
            keys_distinct(self.values@),
        ensures
            match r {
                Some(v) => self.value_map().contains_key(key@) && *v == self.value_map()[key@],
                None => !self.value_map().contains_key(key@),
            },
    {
        match find_key(&self.values, key) {
            Some(i) => {
                proof {
                    lemma_key_pos_unique(self.values@, i as int);
                }
                Some(&self.values[i].1)
            },
            None => None,
        }
    }

    /// Set the value under a key.
    pub fn set(&mut self, key: String, value: String)
        requires
            keys_distinct(old(self).values@),
        ensures
            keys_distinct(final(self).values@),
            final(self).version == old(self).version,
            final(self).value_map() == old(self).value_map().insert(key@, value),
    {
        match find_key(&self.values, key.as_str()) {
            Some(i) => {
                proof {
                    lemma_table_update(self.values@, i as int, value);
                }
                let k = self.values[i].0.clone();
                self.values.set(i, (k, value));
            },
            None => {
                proof {
                    lemma_table_push(self.values@, key, value);
                }
                self.values.push((key, value));
            },
        }
    }
}

} // verus!
