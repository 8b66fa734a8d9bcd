use normal_pipeline::amoe::{
    gate_file, layer_number, plan_experts, safetensors_files, select_key, AmoeError, AmoeRequest,
    LayerMatcher,
};
use regex_automata::meta::Regex;

fn texts(x: &[&str]) -> Vec<String> {
    x.iter().map(|s| s.to_string()).collect()
}

#[test]
fn layer_is_read_right_before_the_pattern() {
    assert_eq!(layer_number("model.layers.3.mlp.up_proj", "mlp"), Some(3));
    assert_eq!(layer_number("model.layers.12.mlp", "mlp"), Some(12));
    assert_eq!(layer_number("a.b.7/mlp", "mlp"), Some(7));
    assert_eq!(layer_number("a.1.mlp.2.mlp", "mlp"), Some(1));
    assert_eq!(layer_number("a.+5.mlp", "mlp"), Some(5));
}

#[test]
fn keys_without_a_layer_are_told_apart() {
    assert_eq!(layer_number("model.norm", "mlp"), None);
    assert_eq!(layer_number("mlp", "mlp"), None);
    assert_eq!(layer_number("3.mlp", "mlp"), None);
    assert_eq!(layer_number("a.x.mlp", "mlp"), None);
    assert_eq!(layer_number("a..mlp", "mlp"), None);
    assert_eq!(layer_number("a.3ömlp", "mlp"), None);
    assert_eq!(layer_number("a.3.mlp", ""), None);
    assert_eq!(layer_number("", "mlp"), None);
}

#[test]
fn tensors_are_selected_by_pattern_and_layer() {
    let m = LayerMatcher::new("mlp").unwrap();
    assert_eq!(m.selects("model.layers.3.mlp.w", &vec![1, 3]), Some(true));
    assert_eq!(m.selects("model.layers.2.mlp.w", &vec![1, 3]), Some(false));
    assert_eq!(m.selects("model.layers.2.mlp.w", &vec![]), Some(true));
    assert_eq!(m.selects("model.layers.2.attn.w", &vec![]), Some(false));
    assert_eq!(m.selects("mlp", &vec![]), None);
}

#[test]
fn pattern_is_a_regex_but_its_text_marks_the_layer() {
    let m = LayerMatcher::new("ml.").unwrap();
    assert_eq!(m.selects("layers.3.mlp", &vec![]), None);
    assert_eq!(m.selects("layers.3.ml.", &vec![]), Some(true));
    assert_eq!(m.selects("layers.3.attn", &vec![]), Some(false));
    assert_eq!(select_key(true, "layers.3.mlp", "mlp", &vec![4]), Some(false));
    assert_eq!(select_key(false, "mlp", "mlp", &vec![]), Some(false));
}

#[test]
fn pattern_that_does_not_compile_is_refused() {
    assert!(matches!(LayerMatcher::new("("), Err(AmoeError::InvalidPattern { .. })));
}

#[test]
fn matcher_goes_by_what_compiling_came_to() {
    let m = LayerMatcher::compiled(Regex::new("mlp"), "mlp").ok().unwrap();
    assert_eq!(m.selects("layers.3.mlp", &vec![]), Some(true));
    let reason = Regex::new("(").err().unwrap().to_string();
    match LayerMatcher::compiled(Regex::new("("), "(") {
        Err(AmoeError::InvalidPattern { reason: got }) => assert_eq!(got.to_string(), reason),
        Ok(_) => panic!(),
    }
}

fn request(pattern: &str) -> AmoeRequest<(), ()> {
    AmoeRequest {
        model_ids: texts(&["a/one", "b/two"]),
        revision: None,
        match_regex: pattern.to_string(),
        config: (),
        prefix: "model.layers".to_string(),
        mlp: "mlp".to_string(),
        layers: vec![1, 2],
        expert_type: (),
        silent: true,
        gate_model_id: Some("c/gate".to_string()),
        cache_dir: Some("/cache".to_string()),
    }
}

#[test]
fn every_expert_has_its_repository() {
    let plan = plan_experts(LayerMatcher::new("mlp"), request("mlp")).ok().unwrap();
    assert_eq!(plan.layers, vec![1, 2]);
    assert_eq!(plan.experts.len(), 2);
    assert_eq!(plan.experts[0].model_id, "a/one");
    assert_eq!(plan.experts[1].model_id, "b/two");
    assert_eq!(plan.experts[1].revision, "main");
    assert!(!plan.experts[1].progress);
    assert_eq!(plan.experts[0].cache_dir.as_deref(), Some("/cache"));
    assert_eq!(plan.gate.unwrap().model_id, "c/gate");
    assert_eq!(plan.matcher.selects("x.2.mlp", &plan.layers), Some(true));
    let mut r = request("mlp");
    r.revision = Some("v2".to_string());
    r.gate_model_id = None;
    r.silent = false;
    r.cache_dir = None;
    let plan = plan_experts(LayerMatcher::new("mlp"), r).ok().unwrap();
    assert!(plan.gate.is_none());
    assert_eq!(plan.experts[0].revision, "v2");
    assert!(plan.experts[0].progress);
    assert!(plan.experts[0].cache_dir.is_none());
    assert!(plan_experts(LayerMatcher::new("["), request("[")).is_err());
}

#[test]
fn tensor_files_are_picked_in_order() {
    let files = texts(&["b.safetensors", "config.json", ".safetensors", "a.safetensors.bak", "a.safetensors"]);
    assert_eq!(
        safetensors_files(&files),
        texts(&["b.safetensors", ".safetensors", "a.safetensors"])
    );
}

#[test]
fn gates_come_in_a_single_file() {
    assert_eq!(
        gate_file(&texts(&["README.md", "gate.safetensors"])).as_deref(),
        Some("gate.safetensors")
    );
    assert_eq!(gate_file(&texts(&["README.md"])), None);
    assert_eq!(gate_file(&texts(&["a.safetensors", "b.safetensors"])), None);
}
