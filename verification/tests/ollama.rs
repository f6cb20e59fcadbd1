use hermes_dms::ipc::ModelInfo;
use hermes_dms::ollama::{
    check_status, loaded_set, merge_models, LoadedModel, OllamaError, OllamaRouterClient,
};

fn ids(list: &[&str]) -> Vec<String> {
    list.iter().map(|s| s.to_string()).collect()
}

fn entry(name: Option<&str>, model: Option<&str>) -> LoadedModel {
    LoadedModel { name: name.map(String::from), model: model.map(String::from) }
}

#[test]
fn merges_catalog_with_loaded_set() {
    let client = OllamaRouterClient::new("http://o", Some("t".into()));
    assert_eq!(client.list_models().url, "http://o/v1/models");
    assert_eq!(client.loaded_request().url, "http://o/api/ps");
    assert_eq!(client.list_models().bearer.as_deref(), Some("t"));

    let catalog = ids(&["qwen3.6-medium", "gpt-oss", "gemma4:e4b"]);
    let loaded = Ok(vec![entry(Some("qwen3.6-medium"), Some("qwen3.6-medium"))]);
    let models = merge_models(&catalog, &loaded);

    assert_eq!(models.len(), 3);
    let loaded: Vec<_> = models.iter().filter(|m| m.loaded).map(|m| &m.id).collect();
    assert_eq!(loaded, vec!["qwen3.6-medium"]);
    assert!(models.iter().all(|m| !m.active));
}

#[test]
fn loaded_probe_failure_degrades_to_unloaded() {
    let client = OllamaRouterClient::new("http://o", None);
    assert_eq!(client.list_models().bearer, None);
    let probe = check_status(404).map(|_| Vec::new());
    assert_eq!(probe, Err(OllamaError::Status { status: 404 }));
    let models = merge_models(&ids(&["gpt-oss"]), &probe);
    assert_eq!(models.len(), 1);
    assert!(!models[0].loaded);
}

#[test]
fn either_name_counts_as_loaded() {
    let probe = Ok(vec![entry(Some("a"), None), entry(None, Some("b")), entry(None, None)]);
    assert_eq!(
        merge_models(&ids(&["b", "c", "a", "a"]), &probe),
        vec![
            ModelInfo { id: "b".into(), loaded: true, active: false },
            ModelInfo { id: "c".into(), loaded: false, active: false },
            ModelInfo { id: "a".into(), loaded: true, active: false },
            ModelInfo { id: "a".into(), loaded: true, active: false },
        ]
    );
    let set = loaded_set(&vec![entry(Some("a"), Some("b"))]);
    assert!(set.contains("a") && set.contains("b") && !set.contains("c"));
}

#[test]
fn statuses_and_errors() {
    assert_eq!(check_status(200), Ok(()));
    assert_eq!(check_status(204), Ok(()));
    assert_eq!(check_status(300), Err(OllamaError::Status { status: 300 }));
    assert_eq!(
        OllamaError::Status { status: 502 }.message(),
        "ollama-router returned 502"
    );
    assert_eq!(
        OllamaError::Transport("refused".into()).message(),
        "HTTP transport error: refused"
    );
}

#[test]
fn base_url_loses_its_slashes() {
    let req = OllamaRouterClient::new("http://o//", None).list_models();
    assert_eq!(req.url, "http://o/v1/models");
    assert_eq!(req.timeout_secs, Some(10));
}
