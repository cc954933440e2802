//! Discovery, validation, loading and caching of model artifacts.
//!
//! The loader decides; its caller touches the disk. The caller lists the base
//! directory and reads the file it is told to, and hands the loader what it
//! found as plain values.

use std::sync::Arc;
use vstd::prelude::*;
use vstd::string::*;
use crate::cache::{after_get, after_insert, has_key, value_of, zero_size_error, Cache};
use crate::config::{cache_size_from_json, cache_size_spec, opt_view, Config};
use crate::errors::{concat3_owned, prefixed, AiCoreError};
use crate::json::{Json, JsonView};
use crate::text::{clone_pairs, find_text, first_value, str_eq, text_pairs};

verus! {

/// The serialization formats a model artifact may be stored in.
#[derive(Clone, Copy, Debug, PartialEq, Eq, Structural, Hash)]
pub enum ModelFormat {
    Gguf,
    Onnx,
    Other,
}

/// The name of a format, as it appears in reports and messages.
pub open spec fn format_label(format: ModelFormat) -> Seq<char> {
    match format {
        ModelFormat::Gguf => "Gguf"@,
        ModelFormat::Onnx => "Onnx"@,
        ModelFormat::Other => "Other"@,
    }
}

/// The name of a format, as it appears in reports and messages.
pub fn format_name(format: ModelFormat) -> (name: &'static str)
    ensures
        name@ == format_label(format),
{
    match format {
        ModelFormat::Gguf => "Gguf",
        ModelFormat::Onnx => "Onnx",
        ModelFormat::Other => "Other",
    }
}

/// The format that a file extension stands for.
pub open spec fn format_of_extension(extension: Option<Seq<char>>) -> Option<ModelFormat> {
    match extension {
        Some(e) => if e == "gguf"@ {
            Some(ModelFormat::Gguf)
        } else if e == "onnx"@ {
            Some(ModelFormat::Onnx)
        } else {
            None
        },
        None => None,
    }
}

/// The format that a file extension stands for: `gguf` and `onnx` are
/// known; anything else, or no extension, is not.
pub fn format_from_extension(extension: Option<&str>) -> (r: Option<ModelFormat>)
    ensures
        r == format_of_extension(
            match extension {
                Some(e) => Some(e@),
                None => None,
            },
        ),
{
    match extension {
        Some(e) => if str_eq(e, "gguf") {
            Some(ModelFormat::Gguf)
        } else if str_eq(e, "onnx") {
            Some(ModelFormat::Onnx)
        } else {
            None
        },
        None => None,
    }
}

/// What `std::path::Path::join` makes of a base and a path.
pub uninterp spec fn path_join(base: Seq<char>, path: Seq<char>) -> Seq<char>;

/// What `std::path::Path::extension` finds in a path.
pub uninterp spec fn path_extension(path: Seq<char>) -> Option<Seq<char>>;

/// What `std::path::Path::file_name` finds in a path; empty where it finds none.
pub uninterp spec fn path_file_name(path: Seq<char>) -> Seq<char>;

/// What `md5::compute` gives for a content, as 32 lower-case hex digits.
pub uninterp spec fn md5_hex(content: Seq<u8>) -> Seq<char>;

/// `std::path::Path::join`: `path` appended to `base` by the platform's
/// rules. The contract only names the outcome.
#[verifier::external_body]
fn join_outside(base: &str, path: &str) -> (joined: String)
    ensures
        joined@ == path_join(base@, path@),
{
    std::path::Path::new(base).join(path).to_string_lossy().into_owned()
}

/// `std::path::Path::extension`: the part of the file name after its last
/// dot, if any. The contract only names the outcome.
#[verifier::external_body]
fn extension_outside(path: &str) -> (extension: Option<String>)
    ensures
        match extension {
            Some(e) => path_extension(path@) == Some(e@),
            None => path_extension(path@) is None,
        },
{
    std::path::Path::new(path).extension().and_then(|e| e.to_str()).map(|e| e.to_owned())
}

/// `std::path::Path::file_name`: the last component of the path, empty
/// where there is none. The contract only names the outcome.
#[verifier::external_body]
fn file_name_outside(path: &str) -> (name: String)
    ensures
        name@ == path_file_name(path@),
{
    std::path::Path::new(path).file_name().unwrap_or_default().to_string_lossy().into_owned()
}

/// `md5::compute`, written in lower-case hex. The contract only names the
/// outcome.
#[verifier::external_body]
fn md5_outside(content: &Vec<u8>) -> (digest: String)
    ensures
        digest@ == md5_hex(content@),
{
    format!("{:x}", md5::compute(content))
}

/// A loaded model: where it came from, how to run it, and its bytes.
#[derive(Debug)]
pub struct Model {
    /// The resolved path the model was read from.
    pub path: String,
    pub format: ModelFormat,
    /// The backend that runs the model.
    pub backend: String,
    /// Facts about the model, in the order they were recorded.
    pub metadata: Vec<(String, String)>,
    /// The content of the model file, shared between its holders.
    pub data: Arc<Vec<u8>>,
}

/// The mathematical value of a `Model`.
pub struct ModelView {
    pub path: Seq<char>,
    pub format: ModelFormat,
    pub backend: Seq<char>,
    pub metadata: Seq<(Seq<char>, Seq<char>)>,
    pub data: Seq<u8>,
}

impl View for Model {
    type V = ModelView;

    open spec fn view(&self) -> ModelView {
        ModelView {
            path: self.path@,
            format: self.format,
            backend: self.backend@,
            metadata: text_pairs(self.metadata@),
            data: (*self.data)@,
        }
    }
}

impl Clone for Model {
    fn clone(&self) -> (copy: Self)
        ensures
            copy@ == self@,
    {
        Model {
            path: self.path.clone(),
            format: self.format,
            backend: self.backend.clone(),
            metadata: clone_pairs(&self.metadata),
            data: self.data.clone(),
        }
    }
}

/// One entry of a directory listing.
#[derive(Debug)]
pub struct FileEntry {
    /// The full path of the entry.
    pub path: String,
    /// Whether the entry is a regular file.
    pub is_file: bool,
    /// When the entry was last modified, on any scale that grows with time;
    /// zero where that is unknown.
    pub modified: u64,
}

/// What the caller found when it went to read a model file.
#[derive(Debug)]
pub enum FileProbe {
    /// No file exists at the path.
    Missing,
    /// The file exists but reading it failed, with the text of the failure.
    Unreadable(String),
    /// The full content of the file.
    Content(Vec<u8>),
}

/// The formats that a configured list names: `gguf` and `onnx`, in the
/// order given; any other item is left out.
pub open spec fn named_formats(items: Seq<JsonView>) -> Seq<ModelFormat>
    decreases items.len(),
{
    if items.len() == 0 {
        Seq::empty()
    } else {
        let rest = named_formats(items.drop_last());
        match format_of_extension(items.last().as_str()) {
            Some(f) => rest.push(f),
            None => rest,
        }
    }
}

/// The default list of accepted formats.
pub open spec fn default_formats() -> Seq<ModelFormat> {
    seq![ModelFormat::Gguf, ModelFormat::Onnx]
}

/// The accepted formats that a configuration value stands for: the formats
/// an array names, or the default where it names none or is no array.
pub open spec fn formats_spec(v: Option<JsonView>) -> Seq<ModelFormat> {
    match v {
        Some(JsonView::Array(items)) => if named_formats(items).len() == 0 {
            default_formats()
        } else {
            named_formats(items)
        },
        _ => default_formats(),
    }
}

/// The text of a value, empty where it is no text.
pub open spec fn text_or_empty(v: JsonView) -> Seq<char> {
    match v {
        JsonView::Str(s) => s,
        _ => Seq::empty(),
    }
}

/// The expected checksums that a configuration value stands for: one pair
/// for each member of an object, none for anything else.
pub open spec fn checksums_spec(v: Option<JsonView>) -> Seq<(Seq<char>, Seq<char>)> {
    match v {
        Some(JsonView::Object(members)) => Seq::new(
            members.len(),
            |i: int| (members[i].0, text_or_empty(members[i].1)),
        ),
        _ => Seq::empty(),
    }
}

/// The accepted formats that a configured value names.
#[verifier::loop_isolation(false)]
pub fn formats_from_json(v: &Option<Json>) -> (formats: Vec<ModelFormat>)
    ensures
        formats@ == formats_spec(opt_view(*v)),
{
    let mut formats: Vec<ModelFormat> = Vec::new();
    match v {
        Some(Json::Array(items)) => {
            let ghost views = v->Some_0@->Array_0;
            let mut i: usize = 0;
            while i < items.len()
                invariant
                    i <= items.len(),
                    formats@ == named_formats(views.take(i as int)),
                decreases items.len() - i,
            {
                proof {
                    assert(views.take(i + 1).drop_last() == views.take(i as int));
                    assert(views.take(i + 1).last() == items@[i as int]@);
                }
                match format_from_extension(items[i].as_str()) {
                    Some(f) => {
                        formats.push(f);
                    },
                    None => {},
                }
                i += 1;
            }
            proof {
                assert(views.take(items.len() as int) == views);
            }
        },
        _ => {},
    }
    if formats.len() == 0 {
        formats.push(ModelFormat::Gguf);
        formats.push(ModelFormat::Onnx);
        assert(formats@ =~= default_formats());
    }
    formats
}

/// The expected checksums that a configured value holds.
#[verifier::loop_isolation(false)]
pub fn checksums_from_json(v: &Option<Json>) -> (sums: Vec<(String, String)>)
    ensures
        text_pairs(sums@) == checksums_spec(opt_view(*v)),
{
    let mut sums: Vec<(String, String)> = Vec::new();
    match v {
        Some(Json::Object(members)) => {
            let ghost views = v->Some_0@->Object_0;
            let mut i: usize = 0;
            while i < members.len()
                invariant
                    i <= members.len(),
                    sums@.len() == i,
                    forall|j: int|
                        0 <= j < i ==> (#[trigger] sums@[j]).0@ == views[j].0 && sums@[j].1@
                            == text_or_empty(views[j].1),
                decreases members.len() - i,
            {
                let value: String = match members[i].1.as_str() {
                    Some(s) => s.to_owned(),
                    None => String::new(),
                };
                sums.push((members[i].0.clone(), value));
                i += 1;
            }
            assert(text_pairs(sums@) =~= checksums_spec(opt_view(*v)));
        },
        _ => {
            assert(text_pairs(sums@) =~= checksums_spec(opt_view(*v)));
        },
    }
    sums
}

/// Loads models on behalf of a caller that does the reading, and keeps the
/// loaded ones in a bounded cache keyed by resolved path.
pub struct ModelLoader {
    /// The directory that relative paths are resolved against.
    pub base_path: String,
    /// The backend given to every model this loader loads.
    pub default_backend: String,
    /// Whether a load without a path may pick a model from the base directory.
    pub auto_discover: bool,
    /// The formats this loader accepts.
    pub supported_formats: Vec<ModelFormat>,
    /// The loaded models, by resolved path.
    pub cache: Cache<Model>,
    /// Expected content digests, by file name.
    pub checksums: Vec<(String, String)>,
    /// How many models were taken from a file's content, not from the cache.
    pub disk_loads: u64,
}

/// How a load ends, as decided from the loader's state, the resolved path
/// and what the caller found on disk.
pub enum LoadVerdict {
    /// The path is cached: the cached model is returned.
    Cached,
    /// No file exists at the path.
    NotFound,
    /// The path has no extension, or one that names no format.
    UnknownFormat,
    /// The format is known but not accepted by this loader.
    UnsupportedFormat(ModelFormat),
    /// The file could not be read.
    Unreadable,
    /// The content's digest differs from the expected one.
    ChecksumMismatch,
    /// The content becomes a model of the given format.
    Loaded(ModelFormat),
}

/// The entry at `a` is listed before the entry at `b`: it was modified
/// later, or at the same time and comes later in the listing.
pub open spec fn newer(entries: Seq<FileEntry>, a: int, b: int) -> bool {
    entries[a].modified > entries[b].modified || (entries[a].modified == entries[b].modified && a
        > b)
}

/// The two loaders have the same settings; their caches and counters may differ.
pub open spec fn same_settings(a: ModelLoader, b: ModelLoader) -> bool {
    &&& a.base_path@ == b.base_path@
    &&& a.default_backend@ == b.default_backend@
    &&& a.auto_discover == b.auto_discover
    &&& a.supported_formats@ == b.supported_formats@
    &&& text_pairs(a.checksums@) == text_pairs(b.checksums@)
    &&& a.cache.limit() == b.cache.limit()
}

/// The metadata recorded for every loaded model.
pub open spec fn base_metadata() -> Seq<(Seq<char>, Seq<char>)> {
    seq![("version"@, "1.0"@)]
}

fn accepts_format(formats: &Vec<ModelFormat>, format: ModelFormat) -> (found: bool)
    ensures
        found == formats@.contains(format),
{
    let mut i: usize = 0;
    while i < formats.len()
        invariant
            i <= formats.len(),
            forall|j: int| 0 <= j < i ==> formats@[j] != format,
        decreases formats.len() - i,
    {
        if formats[i] == format {
            return true;
        }
        i += 1;
    }
    false
}

impl ModelLoader {
    /// The model cache is well-formed.
    pub open spec fn wf(&self) -> bool {
        self.cache.wf()
    }

    /// The loader accepts the format.
    pub open spec fn accepts(&self, format: ModelFormat) -> bool {
        self.supported_formats@.contains(format)
    }

    /// The entry is a regular file whose extension names an accepted format.
    pub open spec fn eligible(&self, entry: FileEntry) -> bool {
        entry.is_file && match format_of_extension(path_extension(entry.path@)) {
            Some(f) => self.accepts(f),
            None => false,
        }
    }

    /// `order` lists exactly the eligible entries of the listing, each
    /// before every entry that it is newer than.
    pub open spec fn newest_first(&self, entries: Seq<FileEntry>, order: Seq<usize>) -> bool {
        &&& forall|k: int|
            0 <= k < order.len() ==> (#[trigger] order[k]) < entries.len() && self.eligible(
                entries[order[k] as int],
            )
        &&& forall|i: int|
            0 <= i < entries.len() && self.eligible(#[trigger] entries[i]) ==> exists|k: int|
                0 <= k < order.len() && #[trigger] order[k] == i
        &&& forall|k1: int, k2: int|
            0 <= k1 < k2 < order.len() ==> newer(
                entries,
                (#[trigger] order[k1]) as int,
                (#[trigger] order[k2]) as int,
            )
    }

    /// How a load of `path` with `probe` ends.
    pub open spec fn verdict(&self, path: Seq<char>, probe: FileProbe) -> LoadVerdict {
        if has_key(self.cache@, path) {
            LoadVerdict::Cached
        } else if probe is Missing {
            LoadVerdict::NotFound
        } else {
            match format_of_extension(path_extension(path)) {
                None => LoadVerdict::UnknownFormat,
                Some(f) => if !self.accepts(f) {
                    LoadVerdict::UnsupportedFormat(f)
                } else {
                    match probe {
                        FileProbe::Content(bytes) => match first_value(
                            text_pairs(self.checksums@),
                            path_file_name(path),
                        ) {
                            Some(expected) => if md5_hex(bytes@) == expected {
                                LoadVerdict::Loaded(f)
                            } else {
                                LoadVerdict::ChecksumMismatch
                            },
                            None => LoadVerdict::Loaded(f),
                        },
                        _ => LoadVerdict::Unreadable,
                    }
                },
            }
        }
    }

    /// A loader with the settings that the configuration holds:
    /// `/models/base_path` (required), `/models/backend` (`onnx` if absent),
    /// `/models/auto_discover` (on if absent), `/models/supported_formats`,
    /// `/models/checksums`, and `/cache/max_size` for the model cache (100 if
    /// absent, zero rejected).
    pub fn from_config(config: &Config) -> (r: Result<ModelLoader, AiCoreError>)
        ensures
            match r {
                Ok(loader) => config.lookup("/models/base_path"@) matches Some(JsonView::Str(base))
                    && loader.configured(*config, base),
                Err(e) => if config.lookup("/models/base_path"@) matches Some(JsonView::Str(_)) {
                    zero_size_error(e) && cache_size_spec(config.lookup("/cache/max_size"@)) == 0
                } else {
                    e matches AiCoreError::InvalidArgument { message } && message@
                        == "Missing models.base_path"@
                },
            },
    {
        let base_path = match config.get_string("/models/base_path") {
            Some(b) => b,
            None => {
                return Err(AiCoreError::invalid_arg("Missing models.base_path"));
            },
        };
        ModelLoader::with_base(config, base_path)
    }

    /// The loader has the base directory `base`, the other settings that
    /// the configuration holds, an empty cache and no loads.
    pub open spec fn configured(&self, config: Config, base: Seq<char>) -> bool {
        &&& self.wf()
        &&& self.base_path@ == base
        &&& self.default_backend@ == match config.lookup("/models/backend"@) {
            Some(JsonView::Str(b)) => b,
            _ => "onnx"@,
        }
        &&& self.auto_discover == match config.lookup("/models/auto_discover"@) {
            Some(JsonView::Bool(b)) => b,
            _ => true,
        }
        &&& self.supported_formats@ == formats_spec(config.lookup("/models/supported_formats"@))
        &&& text_pairs(self.checksums@) == checksums_spec(config.lookup("/models/checksums"@))
        &&& self.cache@.len() == 0
        &&& self.cache.limit() == cache_size_spec(config.lookup("/cache/max_size"@))
        &&& cache_size_spec(config.lookup("/cache/max_size"@)) > 0
        &&& self.disk_loads == 0
    }

    /// A loader over the base directory `base_path`, with the other
    /// settings that the configuration holds. A cache size of zero is rejected.
    pub fn with_base(config: &Config, base_path: String) -> (r: Result<ModelLoader, AiCoreError>)
        ensures
            match r {
                Ok(loader) => loader.configured(*config, base_path@),
                Err(e) => zero_size_error(e) && cache_size_spec(config.lookup("/cache/max_size"@))
                    == 0,
            },
    {
        let default_backend = config.get_or_default("/models/backend", "onnx");
        let auto_discover = match config.get_bool("/models/auto_discover") {
            Some(b) => b,
            None => true,
        };
        let supported_formats = formats_from_json(&config.get("/models/supported_formats"));
        let checksums = checksums_from_json(&config.get("/models/checksums"));
        let size = cache_size_from_json(&config.get("/cache/max_size"));
        let cache = match Cache::new(size) {
            Ok(c) => c,
            Err(e) => {
                return Err(e);
            },
        };
        Ok(
            ModelLoader {
                base_path,
                default_backend,
                auto_discover,
                supported_formats,
                cache,
                checksums,
                disk_loads: 0,
            },
        )
    }

    /// The format that the extension of `path` names, if any.
    pub fn detect_format(&self, path: &str) -> (r: Option<ModelFormat>)
        ensures
            r == format_of_extension(path_extension(path@)),
    {
        match extension_outside(path) {
            Some(e) => format_from_extension(Some(e.as_str())),
            None => format_from_extension(None),
        }
    }

    /// The first step of a load: the full path of a model given by a
    /// relative path. Without a path the result is `None` where the caller
    /// is to list the base directory and choose by `discover_model`, and an
    /// error where auto-discovery is off.
    pub fn resolve(&self, relative_path: Option<&str>) -> (r: Result<Option<String>, AiCoreError>)
        ensures
            match relative_path {
                Some(p) => r matches Ok(Some(full)) && full@ == path_join(self.base_path@, p@),
                None => if self.auto_discover {
                    r matches Ok(None)
                } else {
                    r matches Err(AiCoreError::InvalidArgument { message }) && message@
                        == "No path provided and auto-discover disabled"@
                },
            },
    {
        match relative_path {
            Some(p) => Ok(Some(join_outside(self.base_path.as_str(), p))),
            None => if self.auto_discover {
                Ok(None)
            } else {
                Err(AiCoreError::invalid_arg("No path provided and auto-discover disabled"))
            },
        }
    }

    /// The eligible files of a directory listing, newest first; among files
    /// modified at the same time, the one listed later comes first. A
    /// listing without an eligible file is an error.
    pub fn discover_model(&self, entries: &Vec<FileEntry>) -> (r: Result<Vec<String>, AiCoreError>)
        ensures
            match r {
                Ok(paths) => paths@.len() > 0 && exists|order: Seq<usize>|
                    #![auto]
                    self.newest_first(entries@, order) && order.len() == paths@.len() && forall|
                        k: int,
                    |
                        0 <= k < order.len() ==> (#[trigger] paths@[k])@
                            == entries@[order[k] as int].path@,
                Err(e) => e matches AiCoreError::NotFound { what } && what@
                    == "no supported model found in "@ + self.base_path@ && forall|i: int|
                    0 <= i < entries@.len() ==> !self.eligible(#[trigger] entries@[i]),
            },
    {
        let mut order: Vec<usize> = Vec::new();
        let mut i: usize = 0;
        while i < entries.len()
            invariant
                i <= entries.len(),
                forall|k: int|
                    0 <= k < order@.len() ==> (#[trigger] order@[k]) < i && self.eligible(
                        entries@[order@[k] as int],
                    ),
                forall|j: int|
                    0 <= j < i && self.eligible(#[trigger] entries@[j]) ==> exists|k: int|
                        0 <= k < order@.len() && #[trigger] order@[k] == j,
                forall|k1: int, k2: int|
                    0 <= k1 < k2 < order@.len() ==> newer(
                        entries@,
                        (#[trigger] order@[k1]) as int,
                        (#[trigger] order@[k2]) as int,
                    ),
            decreases entries.len() - i,
        {
            let entry = &entries[i];
            let eligible = entry.is_file && match self.detect_format(entry.path.as_str()) {
                Some(f) => accepts_format(&self.supported_formats, f),
                None => false,
            };
            if eligible {
                let mut p: usize = 0;
                while p < order.len() && entries[order[p]].modified > entry.modified
                    invariant
                        p <= order@.len(),
                        i < entries.len(),
                        entry == &entries@[i as int],
                        forall|k: int| 0 <= k < order@.len() ==> (#[trigger] order@[k]) < i,
                        forall|k: int|
                            0 <= k < p ==> entries@[(#[trigger] order@[k]) as int].modified
                                > entry.modified,
                    decreases order@.len() - p,
                {
                    p += 1;
                }
                let ghost before = order@;
                order.insert(p, i);
                proof {
                    let after = order@;
                    assert forall|k: int| 0 <= k < after.len() implies (#[trigger] after[k]) < i + 1
                        && self.eligible(entries@[after[k] as int]) by {
                        if k < p {
                            assert(after[k] == before[k]);
                        } else if k > p {
                            assert(after[k] == before[k - 1]);
                        }
                    }
                    assert forall|j: int|
                        0 <= j < i + 1 && self.eligible(#[trigger] entries@[j]) implies exists|
                        k: int,
                    |
                        0 <= k < after.len() && #[trigger] after[k] == j by {
                        if j == i {
                            assert(after[p as int] == j);
                        } else {
                            let k0 = choose|k: int| 0 <= k < before.len() && #[trigger] before[k] == j;
                            if k0 < p {
                                assert(after[k0] == j);
                            } else {
                                assert(after[k0 + 1] == j);
                            }
                        }
                    }
                    assert forall|k1: int, k2: int| 0 <= k1 < k2 < after.len() implies newer(
                        entries@,
                        (#[trigger] after[k1]) as int,
                        (#[trigger] after[k2]) as int,
                    ) by {
                        if k2 < p {
                            assert(after[k1] == before[k1] && after[k2] == before[k2]);
                        } else if k1 > p {
                            assert(after[k1] == before[k1 - 1] && after[k2] == before[k2 - 1]);
                        } else if k1 < p && k2 > p {
                            assert(after[k1] == before[k1] && after[k2] == before[k2 - 1]);
                        } else if k2 == p {
                            assert(after[k1] == before[k1]);
                        } else {
                            // k1 == p < k2
                            assert(after[k2] == before[k2 - 1]);
                            assert(before[k2 - 1] < i);
                            if k2 - 1 > p {
                                assert(newer(entries@, before[p as int] as int, before[k2 - 1] as int));
                            }
                        }
                    }
                }
            }
            i += 1;
        }
        if order.len() == 0 {
            proof {
                assert forall|j: int| 0 <= j < entries@.len() implies !self.eligible(
                    #[trigger] entries@[j],
                ) by {
                    if self.eligible(entries@[j]) {
                        let k = choose|k: int| 0 <= k < order@.len() && #[trigger] order@[k] == j;
                    }
                }
            }
            return Err(
                AiCoreError::NotFound {
                    what: prefixed("no supported model found in ", self.base_path.as_str()),
                },
            );
        }
        let mut paths: Vec<String> = Vec::new();
        let mut k: usize = 0;
        while k < order.len()
            invariant
                k <= order@.len(),
                paths@.len() == k,
                forall|j: int| 0 <= j < order@.len() ==> (#[trigger] order@[j]) < entries@.len(),
                forall|j: int|
                    0 <= j < k ==> (#[trigger] paths@[j])@ == entries@[order@[j] as int].path@,
            decreases order@.len() - k,
        {
            paths.push(entries[order[k]].path.clone());
            k += 1;
        }
        proof {
            assert(self.newest_first(entries@, order@));
        }
        Ok(paths)
    }

    /// The model cached under `path`, if any; a model that is found becomes
    /// the most recently used.
    pub fn cached(&mut self, path: &str) -> (r: Option<Model>)
        requires
            old(self).wf(),
        ensures
            final(self).wf(),
            same_settings(*old(self), *final(self)),
            final(self).disk_loads == old(self).disk_loads,
            final(self).cache@ == after_get(old(self).cache@, path@),
            match r {
                Some(m) => has_key(old(self).cache@, path@) && m@ == value_of(
                    old(self).cache@,
                    path@,
                )@,
                None => !has_key(old(self).cache@, path@),
            },
    {
        self.cache.get(path)
    }

    /// The last step of a load: the model at the resolved `path`, from the
    /// cache where it is there, else from what the caller found on disk.
    /// A model made from content is cached under `path`.
    pub fn load(&mut self, path: String, probe: FileProbe) -> (r: Result<Model, AiCoreError>)
        requires
            old(self).wf(),
        ensures
            final(self).wf(),
            same_settings(*old(self), *final(self)),
            match old(self).verdict(path@, probe) {
                LoadVerdict::Cached => r matches Ok(m) && m@ == value_of(old(self).cache@, path@)@
                    && final(self).cache@ == after_get(old(self).cache@, path@)
                    && final(self).disk_loads == old(self).disk_loads,
                LoadVerdict::NotFound => r matches Err(AiCoreError::NotFound { what }) && what@
                    == "model file "@ + path@ && final(self).cache@ == old(self).cache@
                    && final(self).disk_loads == old(self).disk_loads,
                LoadVerdict::UnknownFormat => r matches Err(AiCoreError::Unsupported { what })
                    && what@ == "unknown model format for "@ + path@ && final(self).cache@ == old(self).cache@ && final(self).disk_loads == old(self).disk_loads,
                LoadVerdict::UnsupportedFormat(f) => r matches Err(
                    AiCoreError::Unsupported { what },
                ) && what@ == "unsupported model format "@ + format_label(f) + " for "@ + path@
                    && final(self).cache@ == old(self).cache@ && final(self).disk_loads == old(self).disk_loads,
                LoadVerdict::Unreadable => r matches Err(
                    AiCoreError::Other { message, source: Some(cause) },
                ) && message@ == "reading model file at "@ + path@ && probe is Unreadable && cause@
                    == probe->Unreadable_0@ && final(self).cache@ == old(self).cache@
                    && final(self).disk_loads == old(self).disk_loads,
                LoadVerdict::ChecksumMismatch => r matches Err(AiCoreError::Cache { message })
                    && message@ == "checksum mismatch"@ && final(self).cache@ == old(self).cache@
                    && final(self).disk_loads == old(self).disk_loads,
                LoadVerdict::Loaded(f) => r matches Ok(m) && probe is Content && m@ == (ModelView {
                    path: path@,
                    format: f,
                    backend: old(self).default_backend@,
                    metadata: base_metadata(),
                    data: probe->Content_0@,
                }) && (exists|stored: Model|
                    stored@ == m@ && final(self).cache@ == after_insert(
                        old(self).cache@,
                        path@,
                        stored,
                        old(self).cache.limit(),
                    )) && final(self).disk_loads == crate::cache::bump(old(self).disk_loads),
            },
    {
        match self.cache.get(path.as_str()) {
            Some(m) => {
                return Ok(m);
            },
            None => {},
        }
        let bytes = match probe {
            FileProbe::Missing => {
                return Err(AiCoreError::NotFound { what: prefixed("model file ", path.as_str()) });
            },
            FileProbe::Unreadable(text) => Err(text),
            FileProbe::Content(bytes) => Ok(bytes),
        };
        let format = match self.detect_format(path.as_str()) {
            Some(f) => f,
            None => {
                return Err(
                    AiCoreError::Unsupported {
                        what: prefixed("unknown model format for ", path.as_str()),
                    },
                );
            },
        };
        if !accepts_format(&self.supported_formats, format) {
            let mut what = concat3_owned("unsupported model format ", format_name(format), " for ");
            what.append(path.as_str());
            return Err(AiCoreError::Unsupported { what });
        }
        let content = match bytes {
            Ok(content) => content,
            Err(text) => {
                let message = prefixed("reading model file at ", path.as_str());
                return Err(AiCoreError::Other { message, source: Some(text) });
            },
        };
        let name = file_name_outside(path.as_str());
        match find_text(&self.checksums, name.as_str()) {
            Some(expected) => {
                let actual = md5_outside(&content);
                if !str_eq(actual.as_str(), expected.as_str()) {
                    return Err(AiCoreError::cache("checksum mismatch"));
                }
            },
            None => {},
        }
        let mut metadata: Vec<(String, String)> = Vec::new();
        metadata.push(("version".to_owned(), "1.0".to_owned()));
        assert(text_pairs(metadata@) =~= base_metadata());
        let model = Model {
            path: path.clone(),
            format,
            backend: self.default_backend.clone(),
            metadata,
            data: Arc::new(content),
        };
        let handed = model.clone();
        self.cache.insert(path, model);
        self.disk_loads = if self.disk_loads == u64::MAX {
            self.disk_loads
        } else {
            self.disk_loads + 1
        };
        Ok(handed)
    }
}

/// A digest that differs from the configured one ends a load with a
/// checksum mismatch, whatever else holds of the content; a file without a
/// configured digest becomes a model. Both are said of a path that is not
/// cached and names an accepted format.
pub proof fn lemma_checksum_enforced(loader: ModelLoader, path: Seq<char>, content: Vec<u8>)
    requires
        !has_key(loader.cache@, path),
        format_of_extension(path_extension(path)) matches Some(f) && loader.accepts(f),
    ensures
        match first_value(text_pairs(loader.checksums@), path_file_name(path)) {
            Some(expected) => if md5_hex(content@) == expected {
                loader.verdict(path, FileProbe::Content(content)) is Loaded
            } else {
                loader.verdict(path, FileProbe::Content(content)) is ChecksumMismatch
            },
            None => loader.verdict(path, FileProbe::Content(content)) is Loaded,
        },
{
}

/// After a model was made from content and cached under its path, every
/// further load of that path ends in the cache, whatever the caller found
/// on disk, and hands out the model that was stored.
pub proof fn lemma_second_load_is_cached(
    before: ModelLoader,
    after: ModelLoader,
    path: Seq<char>,
    stored: Model,
    probe: FileProbe,
)
    requires
        before.wf(),
        after.cache@ == after_insert(before.cache@, path, stored, before.cache.limit()),
    ensures
        after.verdict(path, probe) is Cached,
        value_of(after.cache@, path) == stored,
{
    before.cache.lemma_bounded();
    crate::cache::lemma_after_insert(before.cache@, path, stored, before.cache.limit());
}

} // verus!
