//! Turning a model into a mixture of experts: which repositories the experts come from, and which
//! of their tensors are loaded.

use std::sync::Arc;
use regex_automata::meta::{BuildError, Regex};
use vstd::prelude::*;
use crate::config::copy_text;
use crate::outside::regex_is_match;
#[allow(unused_imports)]
use crate::outside::{matched_texts, refusals, texts_of_pattern};
use crate::outcome::all_done;
#[allow(unused_imports)]
use crate::outcome::{all_ok, is_first_error};
use crate::pipeline::{NormalPipeline, PipelineParts};
use crate::text::{chars_of, parse_chars};
#[allow(unused_imports)]
use crate::text::number_in;

verus! {

/// `pattern` stands in `text` at `i`.
pub open spec fn occurs_at(text: Seq<char>, pattern: Seq<char>, i: int) -> bool {
    0 <= i && i + pattern.len() <= text.len() && text.subrange(i, i + pattern.len()) == pattern
}

/// `pattern` stands in `text` at `i`, and nowhere before.
pub open spec fn is_first_occurrence(text: Seq<char>, pattern: Seq<char>, i: int) -> bool {
    occurs_at(text, pattern, i) && forall|j: int| 0 <= j < i ==> !#[trigger] occurs_at(
        text,
        pattern,
        j,
    )
}

/// The last dot among the first `end` characters of `text` is at `i`.
pub open spec fn is_last_dot(text: Seq<char>, end: int, i: int) -> bool {
    0 <= i < end && text[i] == '.' && forall|j: int| i < j < end ==> #[trigger] text[j] != '.'
}

/// The character takes up one byte.
pub open spec fn is_one_byte(c: char) -> bool {
    (c as u32) < 0x80
}

/// `key` names layer `n` right before `pattern`, with the first occurrence of `pattern` at `at`
/// and the dot before the number at `dot`: as in `layers.3.mlp`, where the pattern is `mlp`.
pub open spec fn names_layer_at(
    key: Seq<char>,
    pattern: Seq<char>,
    at: int,
    dot: int,
    n: usize,
) -> bool {
    &&& is_first_occurrence(key, pattern, at)
    &&& at >= 1
    &&& is_one_byte(key[at - 1])
    &&& is_last_dot(key, at - 1, dot)
    &&& number_in(key.subrange(dot + 1, at - 1)) == Some(n)
}

/// `key` names layer `n` right before `pattern`.
pub open spec fn names_layer(key: Seq<char>, pattern: Seq<char>, n: usize) -> bool {
    exists|at: int, dot: int| #[trigger] names_layer_at(key, pattern, at, dot, n)
}

/// The layer that `key` names right before `pattern`, if any.
pub open spec fn layer_of(key: Seq<char>, pattern: Seq<char>) -> Option<usize> {
    if exists|n: usize| names_layer(key, pattern, n) {
        Some(choose|n: usize| names_layer(key, pattern, n))
    } else {
        None
    }
}

/// A key names at most one layer.
pub proof fn law_key_names_one_layer(key: Seq<char>, pattern: Seq<char>, a: usize, b: usize)
    requires
        names_layer(key, pattern, a),
        names_layer(key, pattern, b),
    ensures
        a == b,
{
    let (at, dot) = choose|at: int, dot: int| #[trigger] names_layer_at(key, pattern, at, dot, a);
    let (at2, dot2) = choose|at: int, dot: int| #[trigger] names_layer_at(key, pattern, at, dot, b);
    assert(at == at2);
    assert(dot == dot2);
}

fn find_chars(text: &Vec<char>, pattern: &Vec<char>) -> (r: Option<usize>)
    ensures
        match r {
            Some(i) => is_first_occurrence(text@, pattern@, i as int),
            None => forall|i: int| !#[trigger] occurs_at(text@, pattern@, i),
        },
{
    if pattern.len() > text.len() {
        return None;
    }
    let last: usize = text.len() - pattern.len();
    let mut i: usize = 0;
    while i <= last
        invariant
            i <= last,
            last == text.len() - pattern@.len(),
            forall|j: int| 0 <= j < i ==> !#[trigger] occurs_at(text@, pattern@, j),
        decreases last - i,
    {
        let mut k: usize = 0;
        while k < pattern.len() && text[i + k] == pattern[k]
            invariant
                k <= pattern@.len(),
                i + pattern@.len() <= text.len(),
                forall|j: int| 0 <= j < k ==> text@[i + j] == #[trigger] pattern@[j],
            decreases pattern.len() - k,
        {
            k = k + 1;
        }
        if k == pattern.len() {
            proof {
                assert(text@.subrange(i as int, i + pattern@.len()) =~= pattern@);
            }
            return Some(i);
        }
        proof {
            if occurs_at(text@, pattern@, i as int) {
                assert(text@.subrange(i as int, i + pattern@.len())[k as int] == pattern@[k as int]);
            }
        }
        if i == last {
            return None;
        }
        i = i + 1;
    }
    None
}

fn find_last_dot(text: &Vec<char>, end: usize) -> (r: Option<usize>)
    requires
        end <= text@.len(),
    ensures
        match r {
            Some(i) => is_last_dot(text@, end as int, i as int),
            None => forall|i: int| !#[trigger] is_last_dot(text@, end as int, i),
        },
{
    let mut i: usize = end;
    while i > 0
        invariant
            i <= end <= text@.len(),
            forall|j: int| i <= j < end ==> #[trigger] text@[j] != '.',
        decreases i,
    {
        i = i - 1;
        if text[i] == '.' {
            return Some(i);
        }
    }
    None
}

/// Reads the layer that a tensor's key names right before `pattern`.
pub fn layer_number(key: &str, pattern: &str) -> (r: Option<usize>)
    ensures
        r == layer_of(key@, pattern@),
{
    let text = chars_of(key);
    let found = find_chars(&text, &chars_of(pattern));
    let at: usize = match found {
        Some(at) => at,
        None => {
            return None;
        },
    };
    proof {
        assert forall|at2: int, dot: int, n: usize| #[trigger]
            names_layer_at(key@, pattern@, at2, dot, n) implies at2 == at by {
            assert(occurs_at(key@, pattern@, at as int));
        }
    }
    if at < 1 || text[at - 1] as u32 >= 0x80 {
        return None;
    }
    let end: usize = at - 1;
    let dot: usize = match find_last_dot(&text, end) {
        Some(dot) => dot,
        None => {
            return None;
        },
    };
    proof {
        assert forall|at2: int, dot2: int, n: usize| #[trigger]
            names_layer_at(key@, pattern@, at2, dot2, n) implies dot2 == dot by {}
    }
    let r = parse_chars(&text, dot + 1, end).ok();
    proof {
        match r {
            Some(n) => {
                assert(names_layer_at(key@, pattern@, at as int, dot as int, n));
                assert(names_layer(key@, pattern@, n));
                let chosen = choose|n: usize| names_layer(key@, pattern@, n);
                law_key_names_one_layer(key@, pattern@, n, chosen);
            },
            None => {},
        }
    }
    r
}

/// Why a model is not turned into a mixture of experts.
#[derive(Debug)]
pub enum AmoeError {
    /// The pattern that selects the layers is no regular expression.
    InvalidPattern { reason: BuildError },
}

/// A regular expression that tells which tensors belong to the expert layers.
pub struct LayerMatcher {
    regex: Regex,
    text: String,
}

/// Whether a tensor is loaded: where its key matches, and names one of `layers` or there is no
/// choice of layers. Nothing is settled where the key matches and names no layer.
pub open spec fn selection(
    matched: bool,
    key: Seq<char>,
    pattern: Seq<char>,
    layers: Seq<usize>,
) -> Option<bool> {
    if !matched {
        Some(false)
    } else {
        match layer_of(key, pattern) {
            Some(n) => Some(layers.contains(n) || layers.len() == 0),
            None => None,
        }
    }
}

fn contains_layer(layers: &Vec<usize>, n: usize) -> (r: bool)
    ensures
        r == layers@.contains(n),
{
    let mut i: usize = 0;
    while i < layers.len()
        invariant
            i <= layers.len(),
            forall|j: int| 0 <= j < i ==> #[trigger] layers@[j] != n,
        decreases layers.len() - i,
    {
        if layers[i] == n {
            return true;
        }
        i = i + 1;
    }
    false
}

/// Decides whether a tensor is loaded, given whether its key matches.
pub fn select_key(matched: bool, key: &str, pattern: &str, layers: &Vec<usize>) -> (r: Option<bool>)
    ensures
        r == selection(matched, key@, pattern@, layers@),
{
    if !matched {
        return Some(false);
    }
    match layer_number(key, pattern) {
        Some(n) => Some(contains_layer(layers, n) || layers.len() == 0),
        None => None,
    }
}

impl LayerMatcher {
    #[verifier::type_invariant]
    spec fn inv(self) -> bool {
        matched_texts(self.regex) == texts_of_pattern(self.text@)
    }

    /// The pattern, which is also what is looked for to find the number of a layer.
    pub closed spec fn pattern(self) -> Seq<char> {
        self.text@
    }

    /// Makes a matcher of what compiling `pattern` came to.
    pub fn compiled(regex: Result<Regex, BuildError>, pattern: &str) -> (r: Result<
        LayerMatcher,
        AmoeError,
    >)
        requires
            regex matches Ok(regex) ==> matched_texts(regex) == texts_of_pattern(pattern@),
        ensures
            match regex {
                Ok(_) => r matches Ok(matcher) && matcher.pattern() == pattern@,
                Err(reason) => r == Err::<LayerMatcher, AmoeError>(
                    AmoeError::InvalidPattern { reason },
                ),
            },
    {
        match regex {
            Ok(regex) => Ok(LayerMatcher { regex, text: String::from_str(pattern) }),
            Err(reason) => Err(AmoeError::InvalidPattern { reason }),
        }
    }

    /// Compiles the pattern. Which patterns compile is up to the regex engine; a pattern is
    /// refused only with an error that the engine may have for it.
    pub fn new(pattern: &str) -> (r: Result<LayerMatcher, AmoeError>)
        ensures
            match r {
                Ok(matcher) => matcher.pattern() == pattern@,
                Err(AmoeError::InvalidPattern { reason }) => refusals(pattern@).contains(reason),
            },
    {
        LayerMatcher::compiled(Regex::new(pattern), pattern)
    }

    /// Decides whether a tensor is loaded.
    pub fn selects(&self, key: &str, layers: &Vec<usize>) -> (r: Option<bool>)
        ensures
            r == selection(
                texts_of_pattern(self.pattern()).contains(key@),
                key@,
                self.pattern(),
                layers@,
            ),
    {
        proof {
            use_type_invariant(self);
        }
        select_key(regex_is_match(&self.regex, key), key, self.text.as_str(), layers)
    }
}

/// A repository on the model hub, and how it is reached.
#[derive(Debug)]
pub struct RepoRequest {
    pub model_id: String,
    pub revision: String,
    pub progress: bool,
    /// Where files are kept, unless in the usual place.
    pub cache_dir: Option<String>,
}

/// The revision that is asked for, `main` unless given.
pub open spec fn revision_text(revision: Option<String>) -> Seq<char> {
    match revision {
        Some(r) => r@,
        None => "main"@,
    }
}

/// `r` reaches the repository `model_id`.
pub open spec fn is_repo_request(
    model_id: Seq<char>,
    revision: Option<String>,
    silent: bool,
    cache_dir: Option<String>,
    r: RepoRequest,
) -> bool {
    &&& r.model_id@ == model_id
    &&& r.revision@ == revision_text(revision)
    &&& r.progress == !silent
    &&& r.cache_dir == cache_dir
}

/// Reaches a repository on the hub.
pub fn repo_request(
    model_id: &String,
    revision: &Option<String>,
    silent: bool,
    cache_dir: &Option<String>,
) -> (r: RepoRequest)
    ensures
        is_repo_request(model_id@, *revision, silent, *cache_dir, r),
{
    let revision: String = match revision {
        Some(r) => r.clone(),
        None => String::from_str("main"),
    };
    RepoRequest {
        model_id: model_id.clone(),
        revision,
        progress: !silent,
        cache_dir: copy_text(cache_dir),
    }
}

/// What a mixture of experts is asked for with. `C` is its config, and `X` the sort of its experts.
pub struct AmoeRequest<C, X> {
    pub model_ids: Vec<String>,
    pub revision: Option<String>,
    pub match_regex: String,
    pub config: C,
    /// What the names of the layers begin with.
    pub prefix: String,
    /// The part of a layer that is turned into a mixture.
    pub mlp: String,
    pub layers: Vec<usize>,
    pub expert_type: X,
    pub silent: bool,
    pub gate_model_id: Option<String>,
    /// `HF_HUB_CACHE`, where it is set.
    pub cache_dir: Option<String>,
}

/// What turning a model into a mixture of experts takes.
pub struct AmoePlan<C, X> {
    /// Shared by the experts that are loaded by it.
    pub matcher: Arc<LayerMatcher>,
    /// The repositories of the experts, in order.
    pub experts: Vec<RepoRequest>,
    /// The repository of trained gates, where there is one.
    pub gate: Option<RepoRequest>,
    pub config: C,
    pub prefix: String,
    pub mlp: String,
    pub layers: Vec<usize>,
    pub expert_type: X,
}

/// What every model is turned into a mixture of experts with. `W` are the weights of one
/// repository.
pub struct LayersCall<W, C, X> {
    /// The weights of the experts, in order.
    pub experts: Vec<W>,
    pub config: C,
    pub prefix: String,
    pub mlp: String,
    pub layers: Vec<usize>,
    pub expert_type: X,
    /// The weights of the gates, where they are trained.
    pub gate: Option<W>,
}

impl<C, X> AmoeRequest<C, X> {
    /// `plan` takes every expert from its own repository, and the gates from theirs; the rest is
    /// as asked for.
    pub open spec fn is_planned(self, plan: AmoePlan<C, X>) -> bool {
        &&& plan.config == self.config
        &&& plan.prefix == self.prefix
        &&& plan.mlp == self.mlp
        &&& plan.layers == self.layers
        &&& plan.expert_type == self.expert_type
        &&& plan.experts@.len() == self.model_ids@.len()
        &&& forall|i: int|
            0 <= i < self.model_ids@.len() ==> is_repo_request(
                self.model_ids@[i]@,
                self.revision,
                self.silent,
                self.cache_dir,
                #[trigger] plan.experts@[i],
            )
        &&& match self.gate_model_id {
            Some(id) => plan.gate matches Some(gate) && is_repo_request(
                id@,
                self.revision,
                self.silent,
                self.cache_dir,
                gate,
            ),
            None => plan.gate is None,
        }
    }
}

/// Plans a mixture of experts once its pattern is compiled, or not.
pub fn plan_experts<C, X>(
    matcher: Result<LayerMatcher, AmoeError>,
    request: AmoeRequest<C, X>,
) -> (r: Result<AmoePlan<C, X>, AmoeError>)
    ensures
        match matcher {
            Ok(m) => r matches Ok(plan) && *plan.matcher == m && request.is_planned(plan),
            Err(e) => r == Err::<AmoePlan<C, X>, AmoeError>(e),
        },
{
    let matcher = match matcher {
        Ok(m) => m,
        Err(e) => {
            return Err(e);
        },
    };
    let mut experts: Vec<RepoRequest> = Vec::new();
    let mut i: usize = 0;
    while i < request.model_ids.len()
        invariant
            i <= request.model_ids@.len(),
            experts@.len() == i,
            forall|j: int|
                0 <= j < i ==> is_repo_request(
                    request.model_ids@[j]@,
                    request.revision,
                    request.silent,
                    request.cache_dir,
                    #[trigger] experts@[j],
                ),
        decreases request.model_ids.len() - i,
    {
        experts.push(
            repo_request(
                &request.model_ids[i],
                &request.revision,
                request.silent,
                &request.cache_dir,
            ),
        );
        i = i + 1;
    }
    let gate: Option<RepoRequest> = match &request.gate_model_id {
        Some(id) => Some(repo_request(id, &request.revision, request.silent, &request.cache_dir)),
        None => None,
    };
    Ok(
        AmoePlan {
            matcher: Arc::new(matcher),
            experts,
            gate,
            config: request.config,
            prefix: request.prefix,
            mlp: request.mlp,
            layers: request.layers,
            expert_type: request.expert_type,
        },
    )
}

impl<C, X> AmoePlan<C, X> {
    /// Settles what the models are turned into mixtures with, once the weights are loaded.
    pub fn layers_call<W>(self, experts: Vec<W>, gate: Option<W>) -> (r: LayersCall<W, C, X>)
        requires
            experts@.len() == self.experts@.len(),
            gate is Some <==> self.gate is Some,
        ensures
            r == (LayersCall {
                experts,
                config: self.config,
                prefix: self.prefix,
                mlp: self.mlp,
                layers: self.layers,
                expert_type: self.expert_type,
                gate,
            }),
    {
        LayersCall {
            experts,
            config: self.config,
            prefix: self.prefix,
            mlp: self.mlp,
            layers: self.layers,
            expert_type: self.expert_type,
            gate,
        }
    }
}

impl PipelineParts {
    /// The rank whose model is turned into a mixture next: rank after rank, up to the first that
    /// fails. `created` is what those before came to.
    pub open spec fn next_to_turn<E>(self, created: Seq<Result<(), E>>) -> Option<int> {
        if created.len() < self.parallel_models@.len() && all_ok(created) {
            Some(created.len() as int)
        } else {
            None
        }
    }

    /// `created` is what turning the models came to, rank after rank, each once, up to the first
    /// that failed.
    pub open spec fn were_turned<E>(self, created: Seq<Result<(), E>>) -> bool {
        &&& created.len() <= self.parallel_models@.len()
        &&& forall|k: int|
            0 <= k < created.len() ==> #[trigger] self.next_to_turn(created.take(k)) == Some(k)
        &&& self.next_to_turn(created) is None
    }
}

impl NormalPipeline {
    /// Plans turning the models into mixtures of experts. The pattern is compiled first; whether
    /// it can be is up to the regex engine.
    pub fn amoe_create_layers<C, X>(&self, request: AmoeRequest<C, X>) -> (r: Result<
        AmoePlan<C, X>,
        AmoeError,
    >)
        ensures
            match r {
                Ok(plan) => plan.matcher.pattern() == request.match_regex@ && request.is_planned(
                    plan,
                ),
                Err(AmoeError::InvalidPattern { reason }) => refusals(
                    request.match_regex@,
                ).contains(reason),
            },
    {
        plan_experts(LayerMatcher::new(request.match_regex.as_str()), request)
    }

    /// Decides which rank's model is turned into a mixture next, given what those before came to.
    pub fn amoe_next_rank<E>(&self, created: &Vec<Result<(), E>>) -> (r: Option<usize>)
        ensures
            match r {
                Some(rank) => self@.next_to_turn(created@) == Some(rank as int),
                None => self@.next_to_turn(created@) is None,
            },
    {
        let mut i: usize = 0;
        while i < created.len()
            invariant
                i <= created@.len(),
                forall|j: int| 0 <= j < i ==> (#[trigger] created@[j]) is Ok,
            decreases created.len() - i,
        {
            if created[i].is_err() {
                return None;
            }
            i = i + 1;
        }
        if created.len() < self.parts().parallel_models.len() {
            Some(created.len())
        } else {
            None
        }
    }

    /// Whether all models are turned into mixtures of experts, or the error of the one that
    /// failed, which is the last that was tried.
    pub fn amoe_layers_created<E>(&self, created: Vec<Result<(), E>>) -> (r: Result<(), E>)
        requires
            self@.were_turned(created@),
        ensures
            match r {
                Ok(_) => all_ok(created@) && created@.len() == self@.parallel_models@.len(),
                Err(e) => created@.len() > 0 && created@.last() == Err::<(), E>(e)
                    && is_first_error(created@, e),
            },
    {
        proof {
            if created@.len() > 0 {
                let k = created@.len() - 1;
                assert(self@.next_to_turn(created@.take(k)) == Some(k));
                assert forall|j: int| 0 <= j < k implies (#[trigger] created@[j]) is Ok by {
                    assert(created@.take(k)[j] == created@[j]);
                }
            }
        }
        all_done(created)
    }
}

/// The ending of the files that hold tensors.
pub open spec fn tensor_suffix() -> Seq<char> {
    ".safetensors"@
}

/// `text` ends in `suffix`.
pub open spec fn ends_in(text: Seq<char>, suffix: Seq<char>) -> bool {
    suffix.len() <= text.len() && text.skip(text.len() - suffix.len()) == suffix
}

/// The files that hold tensors.
pub open spec fn tensor_files(files: Seq<String>) -> Seq<String> {
    files.filter(|f: String| ends_in(f@, tensor_suffix()))
}

fn ends_with(text: &str, suffix: &str) -> (r: bool)
    ensures
        r == ends_in(text@, suffix@),
{
    let t = chars_of(text);
    let s = chars_of(suffix);
    if s.len() > t.len() {
        return false;
    }
    let start: usize = t.len() - s.len();
    let mut i: usize = 0;
    while i < s.len()
        invariant
            i <= s@.len(),
            t@ == text@,
            s@ == suffix@,
            start == t.len() - s@.len(),
            forall|j: int| 0 <= j < i ==> t@[start + j] == #[trigger] s@[j],
        decreases s.len() - i,
    {
        if t[start + i] != s[i] {
            proof {
                assert(text@.skip(start as int)[i as int] == t@[start + i]);
            }
            return false;
        }
        i = i + 1;
    }
    proof {
        assert(text@.skip(start as int) =~= suffix@);
    }
    true
}

/// Picks the files that hold tensors from a listing, in order.
pub fn safetensors_files(files: &Vec<String>) -> (r: Vec<String>)
    ensures
        r@ == tensor_files(files@),
{
    let mut r: Vec<String> = Vec::new();
    let mut i: usize = 0;
    let ghost wanted = |f: String| ends_in(f@, tensor_suffix());
    proof {
        reveal(Seq::filter);
        assert(files@.take(0).filter(wanted) =~= Seq::<String>::empty());
    }
    while i < files.len()
        invariant
            i <= files@.len(),
            wanted == (|f: String| ends_in(f@, tensor_suffix())),
            r@ == files@.take(i as int).filter(wanted),
        decreases files.len() - i,
    {
        let keep = ends_with(files[i].as_str(), ".safetensors");
        proof {
            reveal(Seq::filter);
            assert(files@.take(i + 1).drop_last() =~= files@.take(i as int));
            assert(files@.take(i + 1).last() == files@[i as int]);
        }
        if keep {
            r.push(files[i].clone());
        }
        i = i + 1;
    }
    proof {
        assert(files@.take(i as int) =~= files@);
    }
    r
}

/// Picks the file with the gates from a listing: there must be exactly one that holds tensors.
pub fn gate_file(files: &Vec<String>) -> (r: Option<String>)
    ensures
        r == (if tensor_files(files@).len() == 1 {
            Some(tensor_files(files@)[0])
        } else {
            None
        }),
{
    let found = safetensors_files(files);
    if found.len() == 1 {
        Some(found[0].clone())
    } else {
        None
    }
}

/// A key that matches and names layer `n` is selected where `n` stands anywhere in the choice of
/// layers, and where there is no choice; where there is one without `n`, it is not. Keys that do
/// not match never are.
pub proof fn law_listed_layers_are_selected(
    key: Seq<char>,
    pattern: Seq<char>,
    layers: Seq<usize>,
    n: usize,
    i: int,
)
    requires
        layer_of(key, pattern) == Some(n),
    ensures
        0 <= i < layers.len() && layers[i] == n ==> selection(true, key, pattern, layers) == Some(true),
        layers.len() == 0 ==> selection(true, key, pattern, layers) == Some(true),
        layers.len() > 0 && (forall|j: int| 0 <= j < layers.len() ==> #[trigger] layers[j] != n)
            ==> selection(true, key, pattern, layers) == Some(false),
        selection(false, key, pattern, layers) == Some(false),
{
}

/// The choice of layers is a set: two lists with the same layers select the same keys, and nothing
/// is settled for a key that matches and names no layer.
pub proof fn law_order_of_layers_does_not_matter(
    key: Seq<char>,
    pattern: Seq<char>,
    one: Seq<usize>,
    other: Seq<usize>,
)
    requires
        forall|n: usize| #[trigger] one.contains(n) <==> other.contains(n),
    ensures
        selection(true, key, pattern, one) == selection(true, key, pattern, other),
        layer_of(key, pattern) is None ==> selection(true, key, pattern, one) is None,
{
    if one.len() > 0 {
        assert(one.contains(one[0]));
    }
    if other.len() > 0 {
        assert(other.contains(other[0]));
        assert(one.contains(other[0]));
    }
    if let Some(n) = layer_of(key, pattern) {
        assert(one.contains(n) <==> other.contains(n));
    }
}

/// The layer of a key is the number between the last dot and the character before the pattern, at
/// the first place where the pattern stands; whatever comes before that dot or behind the pattern
/// does not matter.
pub proof fn law_layer_stands_before_the_pattern(
    head: Seq<char>,
    number: Seq<char>,
    mark: char,
    pattern: Seq<char>,
    rest: Seq<char>,
    n: usize,
)
    requires
        number_in(number) == Some(n),
        (mark as u32) < 0x80,
        forall|i: int| 0 <= i < number.len() ==> #[trigger] number[i] != '.',
        forall|j: int|
            0 <= j < head.len() + 2 + number.len() && j + pattern.len() <= head.len() + 2
                + number.len() + pattern.len() + rest.len() ==> #[trigger] (head + seq!['.']
                + number + seq![mark] + pattern + rest).subrange(j, j + pattern.len()) != pattern,
    ensures
        layer_of(head + seq!['.'] + number + seq![mark] + pattern + rest, pattern) == Some(n),
{
    let key = head + seq!['.'] + number + seq![mark] + pattern + rest;
    let dot = head.len() as int;
    let at = dot + 2 + number.len();
    assert(key.subrange(at, at + pattern.len()) =~= pattern);
    assert(occurs_at(key, pattern, at));
    assert forall|j: int| 0 <= j < at implies !#[trigger] occurs_at(key, pattern, j) by {
        if occurs_at(key, pattern, j) {
            assert(key.subrange(j, j + pattern.len()) == pattern);
        }
    }
    assert(key[at - 1] == mark);
    assert(key[dot] == '.');
    assert forall|j: int| dot < j < at - 1 implies #[trigger] key[j] != '.' by {
        assert(key[j] == number[j - dot - 1]);
    }
    assert(key.subrange(dot + 1, at - 1) =~= number);
    assert(names_layer_at(key, pattern, at, dot, n));
    assert(names_layer(key, pattern, n));
    let chosen = choose|m: usize| names_layer(key, pattern, m);
    law_key_names_one_layer(key, pattern, n, chosen);
}

/// A key that names layer `n` writes it out: between the last dot before a character of one byte
/// and that character, which stands right before the first occurrence of the pattern. The places of
/// the pattern and of the dot are given back.
pub proof fn law_named_layer_is_written_out(key: Seq<char>, pattern: Seq<char>, n: usize) -> (place: (
    int,
    int,
))
    requires
        layer_of(key, pattern) == Some(n),
    ensures
        ({
            let (at, dot) = place;
            &&& 0 <= dot < at - 1
            &&& at + pattern.len() <= key.len()
            &&& key.subrange(at, at + pattern.len()) == pattern
            &&& forall|j: int| 0 <= j < at ==> #[trigger] key.subrange(j, j + pattern.len()) != pattern
            &&& (key[at - 1] as u32) < 0x80
            &&& key[dot] == '.'
            &&& forall|j: int| dot < j < at - 1 ==> #[trigger] key[j] != '.'
            &&& number_in(key.subrange(dot + 1, at - 1)) == Some(n)
        }),
{
    let (at, dot) = choose|at: int, dot: int| #[trigger] names_layer_at(key, pattern, at, dot, n);
    assert forall|j: int| 0 <= j < at implies #[trigger] key.subrange(j, j + pattern.len())
        != pattern by {
        assert(!occurs_at(key, pattern, j));
    }
    (at, dot)
}

/// A key names no layer where the pattern does not stand in it, where it stands at the very
/// beginning, and where there is no dot before it.
pub proof fn law_keys_without_a_layer(key: Seq<char>, pattern: Seq<char>)
    ensures
        (forall|j: int|
            0 <= j && j + pattern.len() <= key.len() ==> #[trigger] key.subrange(j, j + pattern.len())
                != pattern) ==> layer_of(key, pattern) is None,
        pattern.len() <= key.len() && key.take(pattern.len() as int) == pattern ==> layer_of(
            key,
            pattern,
        ) is None,
        (forall|j: int| 0 <= j < key.len() ==> #[trigger] key[j] != '.') ==> layer_of(key, pattern)
            is None,
{
    if let Some(n) = layer_of(key, pattern) {
        let (at, dot) = choose|at: int, dot: int| #[trigger]
            names_layer_at(key, pattern, at, dot, n);
        assert(key.subrange(at, at + pattern.len()) == pattern);
        assert(key[dot] == '.');
        if pattern.len() <= key.len() && key.take(pattern.len() as int) == pattern {
            assert(key.subrange(0, 0 + pattern.len() as int) =~= key.take(pattern.len() as int));
            assert(occurs_at(key, pattern, 0));
        }
    }
}

/// Every expert has a repository at its own place, reached under its own id, at the revision that
/// was asked for or `main`, with progress shown unless silence was asked for; and the layers, names
/// and settings are those that were asked for.
pub proof fn law_plan_is_as_asked<C, X>(request: AmoeRequest<C, X>, plan: AmoePlan<C, X>, i: int)
    requires
        request.is_planned(plan),
    ensures
        plan.experts@.len() == request.model_ids@.len(),
        0 <= i < plan.experts@.len() ==> {
            &&& plan.experts@[i].model_id@ == request.model_ids@[i]@
            &&& request.revision matches Some(v) ==> plan.experts@[i].revision@ == v@
            &&& request.revision is None ==> plan.experts@[i].revision@ == "main"@
            &&& plan.experts@[i].progress != request.silent
            &&& plan.experts@[i].cache_dir == request.cache_dir
        },
        request.gate_model_id is None ==> plan.gate is None,
        request.gate_model_id matches Some(id) ==> (plan.gate matches Some(gate) && {
            &&& gate.model_id@ == id@
            &&& request.revision matches Some(v) ==> gate.revision@ == v@
            &&& request.revision is None ==> gate.revision@ == "main"@
            &&& gate.progress != request.silent
            &&& gate.cache_dir == request.cache_dir
        }),
        plan.config == request.config,
        plan.prefix == request.prefix,
        plan.mlp == request.mlp,
        plan.layers == request.layers,
        plan.expert_type == request.expert_type,
{
}

/// The models are turned in rank order, each once: the next is the one behind those that are done,
/// until one fails or there is none left.
pub proof fn law_models_are_turned_in_rank_order<E>(
    p: PipelineParts,
    created: Seq<Result<(), E>>,
    k: int,
)
    ensures
        0 <= k < created.len() && created[k] is Err ==> p.next_to_turn(created) is None,
        created.len() >= p.parallel_models@.len() ==> p.next_to_turn(created) is None,
        created.len() < p.parallel_models@.len() && (forall|j: int|
            0 <= j < created.len() ==> (#[trigger] created[j]) is Ok) ==> p.next_to_turn(created)
            == Some(created.len() as int),
        p.were_turned(created) && 0 <= k < created.len() - 1 ==> created[k] is Ok,
        p.were_turned(created) && all_ok(created) ==> created.len() == p.parallel_models@.len(),
{
    if p.were_turned(created) && 0 <= k < created.len() - 1 {
        let last = created.len() - 1;
        assert(p.next_to_turn(created.take(last)) == Some(last));
        assert(created.take(last)[k] == created[k]);
    }
}

/// What turning the models came to can be told wherever all were turned, and wherever the last that
/// was tried is the only one that failed.
pub proof fn law_every_turning_can_be_told<E>(p: PipelineParts, created: Seq<Result<(), E>>)
    requires
        created.len() <= p.parallel_models@.len(),
        forall|j: int| 0 <= j < created.len() - 1 ==> (#[trigger] created[j]) is Ok,
        created.len() > 0 && created.last() is Err || created.len() == p.parallel_models@.len(),
    ensures
        p.were_turned(created),
{
    assert forall|k: int| 0 <= k < created.len() implies #[trigger] p.next_to_turn(created.take(k))
        == Some(k) by {
        assert forall|j: int| 0 <= j < k implies (#[trigger] created.take(k)[j]) is Ok by {
            assert(created.take(k)[j] == created[j]);
        }
    }
}

/// A file with any name that ends in `.safetensors` holds tensors, and no other does; lists of
/// files are gone through in order, and none of them is lost.
pub proof fn law_tensor_files_are_kept_in_order(
    before: Seq<String>,
    f: String,
    stem: Seq<char>,
)
    ensures
        f@ == stem + ".safetensors"@ ==> tensor_files(before.push(f)) == tensor_files(before).push(f),
        (forall|s: Seq<char>| f@ != #[trigger] (s + ".safetensors"@)) ==> tensor_files(before.push(f))
            == tensor_files(before),
        tensor_files(Seq::<String>::empty()) == Seq::<String>::empty(),
{
    let suffix = ".safetensors"@;
    let wanted = |g: String| ends_in(g@, tensor_suffix());
    reveal(Seq::filter);
    assert(before.push(f).drop_last() =~= before);
    if f@ == stem + suffix {
        assert(f@.skip(f@.len() - suffix.len()) =~= suffix);
    }
    if wanted(f) {
        let s = f@.take(f@.len() - suffix.len());
        assert(f@ =~= s + suffix);
    }
}

} // verus!
