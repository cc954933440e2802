//! The orchestrator: one stateful front for the model loader, the inference
//! engine and the cache of inference results.

use vstd::prelude::*;
use vstd::string::*;
use crate::cache::{
    after_get, after_insert, bump, has_key, value_of, zero_size_error, Cache,
};
use crate::clock::{elapsed_millis, instant_now, timestamp_now};
use crate::config::{cache_size_spec, Config};
use crate::errors::AiCoreError;
use crate::inference::{run_memo, run_output, InferenceEngine};
use crate::json::JsonView;
use crate::model_loader::{
    format_label, format_name, same_settings, FileEntry, FileProbe, LoadVerdict,
    Model, ModelLoader, ModelView, path_join,
};
use crate::text::{decimal, push_decimal};

verus! {

/// The capacity of the cache of inference results.
pub const RESULT_CACHE_SIZE: usize = 1000;

/// Facts about a model that was just loaded.
#[derive(Debug)]
pub struct ModelInfo {
    /// The name of the model's format.
    pub format: String,
    /// The size of the model's content in bytes.
    pub size_bytes: u64,
    /// When the model was loaded, as RFC 3339 text.
    pub loaded_at: String,
}

/// The outcome of one inference.
#[derive(Debug)]
pub struct InferenceResult {
    pub text: String,
    pub tokens_generated: usize,
    pub inference_time_ms: u64,
    /// The label of the model that ran.
    pub model_used: String,
}

/// The mathematical value of an `InferenceResult`.
pub struct InferenceResultView {
    pub text: Seq<char>,
    pub tokens_generated: usize,
    pub inference_time_ms: u64,
    pub model_used: Seq<char>,
}

impl View for InferenceResult {
    type V = InferenceResultView;

    open spec fn view(&self) -> InferenceResultView {
        InferenceResultView {
            text: self.text@,
            tokens_generated: self.tokens_generated,
            inference_time_ms: self.inference_time_ms,
            model_used: self.model_used@,
        }
    }
}

impl Clone for InferenceResult {
    fn clone(&self) -> (copy: Self)
        ensures
            copy@ == self@,
    {
        InferenceResult {
            text: self.text.clone(),
            tokens_generated: self.tokens_generated,
            inference_time_ms: self.inference_time_ms,
            model_used: self.model_used.clone(),
        }
    }
}

/// Counters of the orchestrator's work; they only grow.
#[derive(Clone, Copy, Debug, PartialEq, Eq, Structural)]
pub struct AiStats {
    pub models_loaded: u64,
    pub inferences_performed: u64,
    pub cache_hits: u64,
    pub cache_misses: u64,
    /// The time since the orchestrator was made, in seconds.
    pub uptime: u64,
}

/// What the caller is to do next for a load.
#[derive(Debug)]
pub enum LoadStep {
    /// Nothing: the model was cached and is now the current model.
    Done(ModelInfo),
    /// List this directory and call `choose_model` with its entries.
    Scan { dir: String },
    /// Look for this file, read it, and call `load_model` with what was found.
    Read { path: String },
}

/// The base directory that a configuration names: `/models/base_path`,
/// else `/ai/model_path`, else the current directory.
pub open spec fn base_path_spec(config: Config) -> Seq<char> {
    match config.lookup("/models/base_path"@) {
        Some(JsonView::Str(base)) => base,
        _ => match config.lookup("/ai/model_path"@) {
            Some(JsonView::Str(base)) => base,
            _ => "."@,
        },
    }
}

/// The key under which a result is cached: input, budget and model label.
pub open spec fn result_key(input: Seq<char>, max_tokens: nat, label: Seq<char>) -> Seq<char> {
    input + ":"@ + decimal(max_tokens) + ":"@ + label
}

/// The rough number of tokens credited to an inference: a quarter of the
/// input's length in bytes, at most the budget.
pub open spec fn credited_tokens(input_bytes: nat, max_tokens: nat) -> nat {
    if max_tokens < input_bytes / 4 {
        max_tokens
    } else {
        input_bytes / 4
    }
}

/// The label under which a model is known: the path it was asked for by,
/// or `default` where none was given.
pub open spec fn model_label(model_path: Option<&str>) -> Seq<char> {
    match model_path {
        Some(p) => p@,
        None => "default"@,
    }
}

/// The orchestrator.
pub struct AiCore {
    pub model_loader: ModelLoader,
    pub inference_engine: InferenceEngine,
    /// Inference results, by input, budget and model label.
    pub cache: Cache<InferenceResult>,
    pub current_model: Option<Model>,
    /// The label of the current model.
    pub current_model_path: Option<String>,
    pub stats: AiStats,
    pub start_time: std::time::Instant,
}

impl AiCore {
    /// The loader, the engine and the result cache are well-formed.
    pub open spec fn wf(&self) -> bool {
        self.model_loader.wf() && self.inference_engine.wf() && self.cache.wf()
    }

    /// `model` became the current model under `label` and was counted;
    /// the engine, the result cache and the other counters are as before.
    pub open spec fn installed(old_self: Self, new_self: Self, model: ModelView, label: Seq<char>) -> bool {
        &&& new_self.current_model matches Some(m) && m@ == model
        &&& new_self.current_model_path matches Some(l) && l@ == label
        &&& new_self.stats == (AiStats {
            models_loaded: bump(old_self.stats.models_loaded),
            ..old_self.stats
        })
        &&& new_self.inference_engine == old_self.inference_engine
        &&& new_self.cache == old_self.cache
    }

    /// Nothing but the model loader changed.
    pub open spec fn only_loader_changed(old_self: Self, new_self: Self) -> bool {
        &&& new_self.current_model == old_self.current_model
        &&& new_self.current_model_path == old_self.current_model_path
        &&& new_self.stats == old_self.stats
        &&& new_self.inference_engine == old_self.inference_engine
        &&& new_self.cache == old_self.cache
    }

    /// What looking for `path` in the model cache came to: a cached model
    /// became the current model under the label `default`; any other path
    /// is to be read.
    pub open spec fn opened(old_self: Self, new_self: Self, step: LoadStep, path: Seq<char>) -> bool {
        &&& new_self.model_loader.cache@ == after_get(old_self.model_loader.cache@, path)
        &&& if has_key(old_self.model_loader.cache@, path) {
            step matches LoadStep::Done(info) && Self::info_of(
                info,
                value_of(old_self.model_loader.cache@, path)@,
            ) && Self::installed(
                old_self,
                new_self,
                value_of(old_self.model_loader.cache@, path)@,
                "default"@,
            )
        } else {
            step matches LoadStep::Read { path: p } && p@ == path && Self::only_loader_changed(
                old_self,
                new_self,
            )
        }
    }

    /// The orchestrator is as the configuration describes it and has done
    /// nothing yet: no model is loaded, the counters are at zero, the
    /// engine has no memo and the result cache is empty.
    pub open spec fn fresh(&self, config: Config) -> bool {
        &&& self.wf()
        &&& self.model_loader.configured(config, base_path_spec(config))
        &&& self.inference_engine.cache is None
        &&& self.cache@.len() == 0
        &&& self.cache.limit() == RESULT_CACHE_SIZE
        &&& self.current_model is None
        &&& self.current_model_path is None
        &&& self.stats.models_loaded == 0
        &&& self.stats.inferences_performed == 0
        &&& self.stats.cache_hits == 0
        &&& self.stats.cache_misses == 0
    }

    /// The label of the current model, `unknown` where it has none.
    pub open spec fn label(&self) -> Seq<char> {
        match self.current_model_path {
            Some(l) => l@,
            None => "unknown"@,
        }
    }

    /// The key under which a result for the current model is cached.
    pub open spec fn key_for(&self, input: Seq<char>, max_tokens: nat) -> Seq<char> {
        result_key(input, max_tokens, self.label())
    }

    /// What an inference for `input` within `max_tokens` comes to. Without
    /// a current model it fails and changes nothing. A result cached for
    /// the same input, budget and model label is returned as it is and
    /// counts as a hit; any other is computed by the engine, credited with
    /// tokens, cached and counted.
    pub open spec fn inferred(
        old_self: Self,
        new_self: Self,
        input: Seq<char>,
        max_tokens: nat,
        r: Result<InferenceResult, AiCoreError>,
    ) -> bool {
        &&& new_self.model_loader == old_self.model_loader
        &&& new_self.current_model == old_self.current_model
        &&& new_self.current_model_path == old_self.current_model_path
        &&& new_self.stats.models_loaded == old_self.stats.models_loaded
        &&& match old_self.current_model {
            None => r is Err && r->Err_0 is ModelNotLoaded && new_self == old_self,
            Some(model) => {
                let label = old_self.label();
                let key = old_self.key_for(input, max_tokens);
                &&& r is Ok
                &&& if has_key(old_self.cache@, key) {
                    &&& r->Ok_0@ == value_of(old_self.cache@, key)@
                    &&& new_self.cache@ == after_get(old_self.cache@, key)
                    &&& new_self.stats.cache_hits == bump(old_self.stats.cache_hits)
                    &&& new_self.stats.cache_misses == old_self.stats.cache_misses
                    &&& new_self.stats.inferences_performed == old_self.stats.inferences_performed
                    &&& new_self.inference_engine == old_self.inference_engine
                } else {
                    &&& r->Ok_0.text@ == run_output(
                        old_self.inference_engine.memo(),
                        input,
                        max_tokens,
                    )
                    &&& r->Ok_0.tokens_generated == credited_tokens(
                        (vstd::utf8::encode_utf8(input).len() as usize) as nat,
                        max_tokens,
                    )
                    &&& r->Ok_0.model_used@ == label
                    &&& exists|stored: InferenceResult|
                        stored@ == r->Ok_0@ && new_self.cache@ == #[trigger] after_insert(
                            old_self.cache@,
                            key,
                            stored,
                            old_self.cache.limit(),
                        )
                    &&& new_self.inference_engine.memo() == run_memo(
                        old_self.inference_engine.memo(),
                        input,
                        max_tokens,
                        old_self.inference_engine.memo_limit(),
                    )
                    &&& new_self.stats.cache_hits == old_self.stats.cache_hits
                    &&& new_self.stats.cache_misses == bump(old_self.stats.cache_misses)
                    &&& new_self.stats.inferences_performed == bump(
                        old_self.stats.inferences_performed,
                    )
                }
            },
        }
    }

    /// The facts reported of a model.
    pub open spec fn info_of(info: ModelInfo, model: ModelView) -> bool {
        info.format@ == format_label(model.format) && info.size_bytes == model.data.len()
    }

    /// An orchestrator as the configuration describes it: no model loaded,
    /// all counters at zero, an engine without a memo and an empty result
    /// cache of 1000 entries. Unlike `ModelLoader::from_config`, which
    /// fails without `/models/base_path`, the orchestrator falls back for
    /// its loader's base directory to `/ai/model_path` and then to the
    /// current directory, so that it can be made from a configuration
    /// that names no model directory. Only a model cache of size zero is
    /// rejected.
    pub fn new(config: &Config) -> (r: Result<Self, AiCoreError>)
        ensures
            match r {
                Ok(core) => core.fresh(*config),
                Err(e) => zero_size_error(e) && cache_size_spec(config.lookup("/cache/max_size"@))
                    == 0,
            },
    {
        let base = match config.get_string("/models/base_path") {
            Some(b) => b,
            None => match config.get_string("/ai/model_path") {
                Some(b) => b,
                None => ".".to_owned(),
            },
        };
        let model_loader = match ModelLoader::with_base(config, base) {
            Ok(l) => l,
            Err(e) => {
                return Err(e);
            },
        };
        let cache = match Cache::new(RESULT_CACHE_SIZE) {
            Ok(c) => c,
            Err(e) => {
                return Err(e);
            },
        };
        Ok(
            AiCore {
                model_loader,
                inference_engine: InferenceEngine::new(),
                cache,
                current_model: None,
                current_model_path: None,
                stats: AiStats {
                    models_loaded: 0,
                    inferences_performed: 0,
                    cache_hits: 0,
                    cache_misses: 0,
                    uptime: 0,
                },
                start_time: instant_now(),
            },
        )
    }

    fn install(&mut self, model: Model, label: &str) -> (info: ModelInfo)
        ensures
            Self::installed(*old(self), *final(self), model@, label@),
            Self::info_of(info, model@),
            final(self).model_loader == old(self).model_loader,
    {
        let size: usize = model.data.len();
        let info = ModelInfo {
            format: format_name(model.format).to_owned(),
            size_bytes: size as u64,
            loaded_at: timestamp_now(),
        };
        self.current_model = Some(model);
        self.current_model_path = Some(label.to_owned());
        self.stats.models_loaded = if self.stats.models_loaded == u64::MAX {
            u64::MAX
        } else {
            self.stats.models_loaded + 1
        };
        info
    }

    fn open(&mut self, label: &str, path: String) -> (r: LoadStep)
        requires
            old(self).wf(),
        ensures
            final(self).wf(),
            same_settings(old(self).model_loader, final(self).model_loader),
            final(self).model_loader.cache@ == after_get(old(self).model_loader.cache@, path@),
            final(self).model_loader.disk_loads == old(self).model_loader.disk_loads,
            if has_key(old(self).model_loader.cache@, path@) {
                r matches LoadStep::Done(info) && Self::installed(
                    *old(self),
                    *final(self),
                    value_of(old(self).model_loader.cache@, path@)@,
                    label@,
                ) && Self::info_of(info, value_of(old(self).model_loader.cache@, path@)@)
            } else {
                r matches LoadStep::Read { path: p } && p@ == path@ && Self::only_loader_changed(
                    *old(self),
                    *final(self),
                )
            },
    {
        match self.model_loader.cached(path.as_str()) {
            Some(model) => LoadStep::Done(self.install(model, label)),
            None => LoadStep::Read { path },
        }
    }

    /// The first step of loading a model: decides what the caller must do.
    /// A model that is cached under its resolved path becomes the current
    /// model at once. Without a path, and with auto-discovery on, the
    /// caller is to list the base directory.
    pub fn begin_load(&mut self, model_path: Option<&str>) -> (r: Result<LoadStep, AiCoreError>)
        requires
            old(self).wf(),
        ensures
            final(self).wf(),
            same_settings(old(self).model_loader, final(self).model_loader),
            final(self).model_loader.disk_loads == old(self).model_loader.disk_loads,
            match model_path {
                Some(p) => {
                    let full = path_join(old(self).model_loader.base_path@, p@);
                    &&& final(self).model_loader.cache@ == after_get(
                        old(self).model_loader.cache@,
                        full,
                    )
                    &&& if has_key(old(self).model_loader.cache@, full) {
                        r matches Ok(LoadStep::Done(info)) && Self::installed(
                            *old(self),
                            *final(self),
                            value_of(old(self).model_loader.cache@, full)@,
                            p@,
                        ) && Self::info_of(info, value_of(old(self).model_loader.cache@, full)@)
                    } else {
                        r matches Ok(LoadStep::Read { path }) && path@ == full
                            && Self::only_loader_changed(*old(self), *final(self))
                    }
                },
                None => *final(self) == *old(self) && (if old(self).model_loader.auto_discover {
                    r matches Ok(LoadStep::Scan { dir }) && dir@ == old(self).model_loader.base_path@
                } else {
                    r is Err && r->Err_0 is InvalidArgument
                }),
            },
    {
        match self.model_loader.resolve(model_path) {
            Err(e) => Err(e),
            Ok(None) => Ok(LoadStep::Scan { dir: self.model_loader.base_path.clone() }),
            Ok(Some(full)) => {
                let label: &str = match model_path {
                    Some(p) => p,
                    None => "default",
                };
                Ok(self.open(label, full))
            },
        }
    }

    /// The step after listing the base directory: picks the newest eligible
    /// file. A pick that is cached becomes the current model at once, under
    /// the label `default`; any other is to be read.
    pub fn choose_model(&mut self, entries: &Vec<FileEntry>) -> (r: Result<LoadStep, AiCoreError>)
        requires
            old(self).wf(),
        ensures
            final(self).wf(),
            same_settings(old(self).model_loader, final(self).model_loader),
            final(self).model_loader.disk_loads == old(self).model_loader.disk_loads,
            match r {
                Ok(step) => exists|order: Seq<usize>|
                    #![trigger old(self).model_loader.newest_first(entries@, order)]
                    old(self).model_loader.newest_first(entries@, order) && order.len() > 0
                        && Self::opened(
                        *old(self),
                        *final(self),
                        step,
                        entries@[order[0] as int].path@,
                    ),
                Err(e) => e is NotFound && *final(self) == *old(self) && forall|i: int|
                    0 <= i < entries@.len() ==> !old(self).model_loader.eligible(
                        #[trigger] entries@[i],
                    ),
            },
    {
        let mut paths = match self.model_loader.discover_model(entries) {
            Ok(paths) => paths,
            Err(e) => {
                return Err(e);
            },
        };
        let path = paths.swap_remove(0);
        Ok(self.open("default", path))
    }

    /// The last step of loading a model: makes a model of what the caller
    /// found at `path` and makes it the current model, under the label
    /// `model_path` or `default`. A failure leaves the current model as it was.
    pub fn load_model(&mut self, model_path: Option<&str>, path: String, probe: FileProbe) -> (r:
        Result<ModelInfo, AiCoreError>)
        requires
            old(self).wf(),
        ensures
            final(self).wf(),
            same_settings(old(self).model_loader, final(self).model_loader),
            match r {
                Ok(info) => {
                    let verdict = old(self).model_loader.verdict(path@, probe);
                    &&& verdict is Cached || verdict is Loaded
                    &&& final(self).current_model matches Some(m) && Self::installed(
                        *old(self),
                        *final(self),
                        m@,
                        model_label(model_path),
                    ) && Self::info_of(info, m@) && m@.path == (match verdict {
                        LoadVerdict::Cached => value_of(old(self).model_loader.cache@, path@)@.path,
                        _ => path@,
                    })
                },
                Err(e) => {
                    let verdict = old(self).model_loader.verdict(path@, probe);
                    &&& !(verdict is Cached) && !(verdict is Loaded)
                    &&& Self::only_loader_changed(*old(self), *final(self))
                    &&& final(self).model_loader.cache@ == old(self).model_loader.cache@
                    &&& verdict is NotFound <==> e is NotFound
                    &&& (verdict is UnknownFormat || verdict is UnsupportedFormat) <==> e
                        is Unsupported
                },
            },
    {
        let model = match self.model_loader.load(path, probe) {
            Ok(model) => model,
            Err(e) => {
                return Err(e);
            },
        };
        let label: &str = match model_path {
            Some(p) => p,
            None => "default",
        };
        Ok(self.install(model, label))
    }

    /// Runs the current model on `input` within `max_tokens`. A result
    /// cached for the same input, budget and model label is returned as it
    /// is and counts as a hit; any other is computed, cached and counted.
    /// Without a current model the call fails and changes nothing.
    pub fn inference(&mut self, input_text: &str, max_tokens: usize) -> (r: Result<
        InferenceResult,
        AiCoreError,
    >)
        requires
            old(self).wf(),
        ensures
            final(self).wf(),
            Self::inferred(*old(self), *final(self), input_text@, max_tokens as nat, r),
    {
        let model = match &self.current_model {
            Some(model) => model,
            None => {
                return Err(AiCoreError::ModelNotLoaded);
            },
        };
        let label: String = match &self.current_model_path {
            Some(l) => l.clone(),
            None => "unknown".to_owned(),
        };
        let mut key: String = input_text.to_owned();
        key.append(":");
        push_decimal(&mut key, max_tokens as u64);
        key.append(":");
        key.append(label.as_str());
        match self.cache.get(key.as_str()) {
            Some(cached) => {
                self.stats.cache_hits = if self.stats.cache_hits == u64::MAX {
                    u64::MAX
                } else {
                    self.stats.cache_hits + 1
                };
                return Ok(cached);
            },
            None => {},
        }
        self.stats.cache_misses = if self.stats.cache_misses == u64::MAX {
            u64::MAX
        } else {
            self.stats.cache_misses + 1
        };
        let started = instant_now();
        let output = match self.inference_engine.run(model, input_text, max_tokens) {
            Ok(output) => output,
            Err(e) => {
                return Err(e);
            },
        };
        let quarter: usize = input_text.len() / 4;
        let result = InferenceResult {
            text: output,
            tokens_generated: if max_tokens < quarter {
                max_tokens
            } else {
                quarter
            },
            inference_time_ms: elapsed_millis(&started),
            model_used: label,
        };
        let stored = result.clone();
        let ghost before = self.cache@;
        self.cache.put(key, stored);
        proof {
            assert(key@ == old(self).key_for(input_text@, max_tokens as nat));
            assert(stored@ == result@ && self.cache@ == after_insert(
                before,
                old(self).key_for(input_text@, max_tokens as nat),
                stored,
                self.cache.limit(),
            ));
        }
        self.stats.inferences_performed = if self.stats.inferences_performed == u64::MAX {
            u64::MAX
        } else {
            self.stats.inferences_performed + 1
        };
        Ok(result)
    }

    /// The counters, with the uptime brought up to date.
    pub fn get_stats(&mut self) -> (stats: AiStats)
        ensures
            stats == final(self).stats,
            stats.models_loaded == old(self).stats.models_loaded,
            stats.inferences_performed == old(self).stats.inferences_performed,
            stats.cache_hits == old(self).stats.cache_hits,
            stats.cache_misses == old(self).stats.cache_misses,
            final(self).model_loader == old(self).model_loader,
            final(self).inference_engine == old(self).inference_engine,
            final(self).cache == old(self).cache,
            final(self).current_model == old(self).current_model,
            final(self).current_model_path == old(self).current_model_path,
    {
        self.stats.uptime = elapsed_millis(&self.start_time) / 1000;
        self.stats
    }

    /// Whether a model is loaded.
    pub fn is_model_loaded(&self) -> (loaded: bool)
        ensures
            loaded == self.current_model is Some,
    {
        self.current_model.is_some()
    }

    /// The label of the current model.
    pub fn current_model_info(&self) -> (label: Option<String>)
        ensures
            crate::text::opt_text(label) == crate::text::opt_text(self.current_model_path),
    {
        crate::text::clone_opt_text(&self.current_model_path)
    }

    /// Empties the result cache; everything else stays.
    pub fn clear_cache(&mut self)
        requires
            old(self).wf(),
        ensures
            final(self).wf(),
            final(self).cache@.len() == 0,
            final(self).cache.limit() == old(self).cache.limit(),
            final(self).model_loader == old(self).model_loader,
            final(self).inference_engine == old(self).inference_engine,
            final(self).current_model == old(self).current_model,
            final(self).current_model_path == old(self).current_model_path,
            final(self).stats == old(self).stats,
    {
        self.cache.clear();
    }

    /// The number of cached results and the capacity of their cache.
    pub fn cache_stats(&self) -> (r: (usize, usize))
        ensures
            r.0 == self.cache@.len(),
            r.1 == self.cache.limit(),
    {
        (self.cache.len(), self.cache.capacity())
    }
}

} // verus!
