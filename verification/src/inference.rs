//! Synchronous inference with optional memoization by input text.

use vstd::prelude::*;
use vstd::string::*;
use crate::cache::{after_get, after_insert, has_key, lemma_map_values, map_values, value_of, Cache};
use crate::config::Config;
use crate::errors::AiCoreError;
use crate::json::{Json, JsonView};
use crate::config::opt_view;
use crate::model_loader::Model;
use crate::text::{push_decimal, decimal, text_pairs};

verus! {

/// The token budget of `infer`.
pub const DEFAULT_MAX_TOKENS: usize = 512;

/// The text that the stand-in backend returns for an input and a budget.
pub open spec fn completion_text(input: Seq<char>, max_tokens: nat) -> Seq<char> {
    "Response to '"@ + input + "' (max_tokens: "@ + decimal(max_tokens) + ")"@
}

/// The stand-in for the execution backend: a text made of the input and
/// the token budget. The model's bytes are not consulted.
pub fn complete(model: &Model, input: &str, max_tokens: usize) -> (out: String)
    ensures
        out@ == completion_text(input@, max_tokens as nat),
{
    let mut out: String = "Response to '".to_owned();
    out.append(input);
    out.append("' (max_tokens: ");
    push_decimal(&mut out, max_tokens as u64);
    out.append(")");
    out
}

/// The memoized completions as texts.
pub open spec fn memo_texts(entries: Seq<(Seq<char>, String)>) -> Seq<(Seq<char>, Seq<char>)> {
    map_values(entries, |s: String| s@)
}

/// What `run` returns: the memoized completion of the input where there
/// is one, whatever budget it was made with, else a fresh completion.
pub open spec fn run_output(
    memo: Option<Seq<(Seq<char>, Seq<char>)>>,
    input: Seq<char>,
    max_tokens: nat,
) -> Seq<char> {
    match memo {
        Some(m) => if has_key(m, input) {
            value_of(m, input)
        } else {
            completion_text(input, max_tokens)
        },
        None => completion_text(input, max_tokens),
    }
}

/// What `run` leaves in the memo: a hit moves to the front, a miss is
/// stored at the front.
pub open spec fn run_memo(
    memo: Option<Seq<(Seq<char>, Seq<char>)>>,
    input: Seq<char>,
    max_tokens: nat,
    limit: nat,
) -> Option<Seq<(Seq<char>, Seq<char>)>> {
    match memo {
        Some(m) => if has_key(m, input) {
            Some(after_get(m, input))
        } else {
            Some(after_insert(m, input, completion_text(input, max_tokens), limit))
        },
        None => None,
    }
}

/// The outputs of running the inputs one after the other with the default budget.
pub open spec fn batch_outputs(
    memo: Option<Seq<(Seq<char>, Seq<char>)>>,
    inputs: Seq<Seq<char>>,
    limit: nat,
) -> Seq<Seq<char>>
    decreases inputs.len(),
{
    if inputs.len() == 0 {
        Seq::empty()
    } else {
        seq![run_output(memo, inputs[0], DEFAULT_MAX_TOKENS as nat)] + batch_outputs(
            run_memo(memo, inputs[0], DEFAULT_MAX_TOKENS as nat, limit),
            inputs.drop_first(),
            limit,
        )
    }
}

/// The memo after running the inputs one after the other with the default budget.
pub open spec fn batch_memo(
    memo: Option<Seq<(Seq<char>, Seq<char>)>>,
    inputs: Seq<Seq<char>>,
    limit: nat,
) -> Option<Seq<(Seq<char>, Seq<char>)>>
    decreases inputs.len(),
{
    if inputs.len() == 0 {
        memo
    } else {
        batch_memo(
            run_memo(memo, inputs[0], DEFAULT_MAX_TOKENS as nat, limit),
            inputs.drop_first(),
            limit,
        )
    }
}

/// Whether a configured value is acceptable as metric labels: absent, or an
/// object whose members are all texts.
pub open spec fn labels_ok(v: Option<JsonView>) -> bool {
    match v {
        None => true,
        Some(JsonView::Object(members)) => forall|i: int|
            0 <= i < members.len() ==> (#[trigger] members[i]).1 is Str,
        Some(_) => false,
    }
}

/// The labels that a configured value holds; an error where it is present
/// and not an object of texts.
#[verifier::loop_isolation(false)]
pub fn labels_from_json(v: &Option<Json>) -> (r: Result<Vec<(String, String)>, AiCoreError>)
    ensures
        match r {
            Ok(labels) => labels_ok(opt_view(*v)) && (match opt_view(*v) {
                Some(JsonView::Object(members)) => text_pairs(labels@) == Seq::new(
                    members.len(),
                    |i: int| (members[i].0, members[i].1->Str_0),
                ),
                _ => labels@.len() == 0,
            }),
            Err(e) => e matches AiCoreError::Inference { message } && message@
                == "failed to parse inference labels"@ && !labels_ok(opt_view(*v)),
        },
{
    let mut labels: Vec<(String, String)> = Vec::new();
    match v {
        None => Ok(labels),
        Some(Json::Object(members)) => {
            let ghost views = v->Some_0@->Object_0;
            let mut i: usize = 0;
            while i < members.len()
                invariant
                    i <= members.len(),
                    labels@.len() == i,
                    forall|j: int|
                        0 <= j < i ==> (#[trigger] views[j]).1 is Str && labels@[j].0@ == views[j].0
                            && labels@[j].1@ == views[j].1->Str_0,
                decreases members.len() - i,
            {
                match members[i].1.as_str() {
                    Some(s) => {
                        labels.push((members[i].0.clone(), s.to_owned()));
                    },
                    None => {
                        assert(!(views[i as int].1 is Str));
                        return Err(AiCoreError::inference("failed to parse inference labels"));
                    },
                }
                i += 1;
            }
            assert(text_pairs(labels@) =~= Seq::new(
                views.len(),
                |i: int| (views[i].0, views[i].1->Str_0),
            ));
            Ok(labels)
        },
        Some(_) => Err(AiCoreError::inference("failed to parse inference labels")),
    }
}

/// Runs completions on a loaded model, memoizing them by input where a
/// memo is configured.
pub struct InferenceEngine {
    /// The memo of completions, keyed by input text alone.
    pub cache: Option<Cache<String>>,
    /// Labels attached to this engine's reports.
    pub metrics_labels: Vec<(String, String)>,
}

impl InferenceEngine {
    /// The memo, where there is one, is well-formed.
    pub open spec fn wf(&self) -> bool {
        self.cache matches Some(c) ==> c.wf()
    }

    /// The memo as texts, most recently used first; `None` without a memo.
    pub open spec fn memo(&self) -> Option<Seq<(Seq<char>, Seq<char>)>> {
        match self.cache {
            Some(c) => Some(memo_texts(c@)),
            None => None,
        }
    }

    /// The limit of the memo; zero without a memo.
    pub open spec fn memo_limit(&self) -> nat {
        match self.cache {
            Some(c) => c.limit(),
            None => 0,
        }
    }

    /// An engine without a memo.
    pub fn new() -> (engine: Self)
        ensures
            engine.wf(),
            engine.cache is None,
            engine.metrics_labels@.len() == 0,
    {
        InferenceEngine { cache: None, metrics_labels: Vec::new() }
    }

    /// An engine as the configuration describes it: with an empty memo of
    /// 100 entries where `/inference/cache_enabled` is true, and with the
    /// labels under `/inference/labels`.
    pub fn from_config(config: &Config) -> (r: Result<Self, AiCoreError>)
        ensures
            match r {
                Ok(engine) => {
                    &&& engine.wf()
                    &&& labels_ok(config.lookup("/inference/labels"@))
                    &&& if config.lookup("/inference/cache_enabled"@) == Some(JsonView::Bool(true)) {
                        engine.cache matches Some(c) && c@.len() == 0 && c.limit() == 100
                    } else {
                        engine.cache is None
                    }
                },
                Err(e) => e is Inference && !labels_ok(config.lookup("/inference/labels"@)),
            },
    {
        let enabled = match config.get_bool("/inference/cache_enabled") {
            Some(b) => b,
            None => false,
        };
        let cache: Option<Cache<String>> = if enabled {
            match Cache::new(100) {
                Ok(c) => Some(c),
                Err(e) => {
                    return Err(e);
                },
            }
        } else {
            None
        };
        let metrics_labels = match labels_from_json(&config.get("/inference/labels")) {
            Ok(labels) => labels,
            Err(e) => {
                return Err(e);
            },
        };
        Ok(InferenceEngine { cache, metrics_labels })
    }

    /// Completes `input` on `model` within `max_tokens`. With a memo, a
    /// completion stored for the same input is returned as it is, and a
    /// fresh one is stored.
    pub fn run(&mut self, model: &Model, input: &str, max_tokens: usize) -> (r: Result<
        String,
        AiCoreError,
    >)
        requires
            old(self).wf(),
        ensures
            final(self).wf(),
            final(self).memo_limit() == old(self).memo_limit(),
            r matches Ok(out) && out@ == run_output(old(self).memo(), input@, max_tokens as nat),
            final(self).memo() == run_memo(
                old(self).memo(),
                input@,
                max_tokens as nat,
                old(self).memo_limit(),
            ),
    {
        let ghost f: spec_fn(String) -> Seq<char> = |s: String| s@;
        match &mut self.cache {
            Some(cache) => {
                let ghost before = cache@;
                let ghost limit = cache.limit();
                proof {
                    cache.lemma_bounded();
                    lemma_map_values(before, f, input@, arbitrary(), limit);
                    assert(map_values(before, f) =~= memo_texts(before));
                    assert(map_values(after_get(before, input@), f) =~= memo_texts(
                        after_get(before, input@),
                    ));
                }
                match cache.get(input) {
                    Some(out) => {
                        return Ok(out);
                    },
                    None => {},
                }
                let out = complete(model, input, max_tokens);
                let stored = out.clone();
                proof {
                    lemma_map_values(before, f, input@, stored, limit);
                    assert(map_values(after_insert(before, input@, stored, limit), f)
                        =~= memo_texts(after_insert(before, input@, stored, limit)));
                }
                cache.insert(input.to_owned(), stored);
                Ok(out)
            },
            None => Ok(complete(model, input, max_tokens)),
        }
    }

    /// `run` with the default budget.
    pub fn infer(&mut self, model: &Model, input: &str) -> (r: Result<String, AiCoreError>)
        requires
            old(self).wf(),
        ensures
            final(self).wf(),
            final(self).memo_limit() == old(self).memo_limit(),
            r matches Ok(out) && out@ == run_output(
                old(self).memo(),
                input@,
                DEFAULT_MAX_TOKENS as nat,
            ),
            final(self).memo() == run_memo(
                old(self).memo(),
                input@,
                DEFAULT_MAX_TOKENS as nat,
                old(self).memo_limit(),
            ),
    {
        self.run(model, input, DEFAULT_MAX_TOKENS)
    }

    /// Runs the inputs one after the other and returns their outputs in the
    /// same order. The first failure ends the batch and is returned alone.
    pub fn infer_batch(&mut self, model: &Model, inputs: &Vec<String>) -> (r: Result<
        Vec<String>,
        AiCoreError,
    >)
        requires
            old(self).wf(),
        ensures
            final(self).wf(),
            final(self).memo_limit() == old(self).memo_limit(),
            r matches Ok(outputs) && outputs@.map_values(|s: String| s@) == batch_outputs(
                old(self).memo(),
                inputs@.map_values(|s: String| s@),
                old(self).memo_limit(),
            ),
            final(self).memo() == batch_memo(
                old(self).memo(),
                inputs@.map_values(|s: String| s@),
                old(self).memo_limit(),
            ),
    {
        let ghost texts = inputs@.map_values(|s: String| s@);
        let ghost memo0 = self.memo();
        let ghost limit = self.memo_limit();
        let mut outputs: Vec<String> = Vec::new();
        let mut i: usize = 0;
        proof {
            assert(texts.skip(0) =~= texts);
            assert(outputs@.map_values(|s: String| s@) + batch_outputs(memo0, texts, limit)
                =~= batch_outputs(memo0, texts, limit));
        }
        while i < inputs.len()
            invariant
                i <= inputs.len(),
                self.wf(),
                self.memo_limit() == limit,
                texts == inputs@.map_values(|s: String| s@),
                outputs@.len() == i,
                outputs@.map_values(|s: String| s@) + batch_outputs(
                    self.memo(),
                    texts.skip(i as int),
                    limit,
                ) == batch_outputs(memo0, texts, limit),
                batch_memo(self.memo(), texts.skip(i as int), limit) == batch_memo(
                    memo0,
                    texts,
                    limit,
                ),
            decreases inputs.len() - i,
        {
            let ghost memo_i = self.memo();
            let ghost done = outputs@.map_values(|s: String| s@);
            let out = match self.infer(model, inputs[i].as_str()) {
                Ok(out) => out,
                Err(e) => {
                    return Err(e);
                },
            };
            outputs.push(out);
            proof {
                let rest = texts.skip(i as int);
                assert(rest[0] == inputs@[i as int]@);
                assert(rest.drop_first() == texts.skip(i + 1));
                assert(outputs@.map_values(|s: String| s@) =~= done.push(out@));
                assert(done.push(out@) + batch_outputs(self.memo(), texts.skip(i + 1), limit)
                    =~= done + batch_outputs(memo_i, rest, limit));
            }
            i += 1;
        }
        proof {
            assert(texts.skip(inputs@.len() as int) =~= Seq::<Seq<char>>::empty());
            assert(outputs@.map_values(|s: String| s@) + Seq::<Seq<char>>::empty()
                =~= outputs@.map_values(|s: String| s@));
        }
        Ok(outputs)
    }
}

} // verus!
