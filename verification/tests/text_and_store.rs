use llm_engine::api::status_of;
use llm_engine::locate::{candidate_model_paths, first_match, require_model_path};
use llm_engine::messages::timeline_args;
use llm_engine::session::{get_db_path, SessionStore, UserDemographics};
use llm_engine::text::{
    classify_unlock_error, contains_substring, finalize_content, join_comma, model_name_from_path,
    strip_end_markers, trim_string,
};

#[test]
fn trim_removes_surrounding_whitespace() {
    assert_eq!(trim_string(&"  hello \n\t".to_string()), "hello");
    assert_eq!(trim_string(&"".to_string()), "");
    assert_eq!(trim_string(&" \u{00A0}\u{3000} ".to_string()), "");
    assert_eq!(trim_string(&"inner space kept".to_string()), "inner space kept");
}

#[test]
fn strip_removes_every_trailing_marker() {
    assert_eq!(strip_end_markers("x<|im_end|><|im_end|>".to_string()), "x");
    assert_eq!(strip_end_markers("<|im_end|>".to_string()), "");
    assert_eq!(strip_end_markers("no marker".to_string()), "no marker");
    assert_eq!(strip_end_markers("<|im_end|>leading stays".to_string()), "<|im_end|>leading stays");
}

#[test]
fn finalize_trims_strips_and_retrims() {
    assert_eq!(finalize_content(&"  A<|im_end|>  ".to_string()), "A");
    assert_eq!(finalize_content(&" answer \n<|im_end|>".to_string()), "answer");
    assert_eq!(finalize_content(&"plain".to_string()), "plain");
    assert_eq!(finalize_content(&"   ".to_string()), "");
}

#[test]
fn substring_search_finds_needles() {
    assert!(contains_substring("Unsupported state or unable", "Unsupported state"));
    assert!(contains_substring("error: bad decrypt near", "bad decrypt"));
    assert!(!contains_substring("clean output", "bad decrypt"));
    assert!(contains_substring("anything", ""));
    assert!(!contains_substring("ab", "abc"));
}

#[test]
fn unlock_errors_are_classified() {
    assert_eq!(
        classify_unlock_error(&"x Unsupported state y".to_string()),
        "Incorrect passphrase"
    );
    assert_eq!(classify_unlock_error(&"zz bad decrypt".to_string()), "Incorrect passphrase");
    assert_eq!(
        classify_unlock_error(&"disk full".to_string()),
        "Database error: disk full"
    );
}

#[test]
fn join_comma_matches_expected_values() {
    assert_eq!(join_comma(&vec![]), "");
    assert_eq!(join_comma(&vec!["lab".to_string()]), "lab");
    assert_eq!(
        join_comma(&vec!["lab".to_string(), "symptom".to_string(), "med".to_string()]),
        "lab,symptom,med"
    );
}

#[test]
fn timeline_args_follow_the_filters() {
    let types = vec!["lab".to_string(), "symptom".to_string()];
    let args = timeline_args(&types, &Some("2024-01-01".to_string()), &None);
    assert_eq!(args, vec!["get-timeline", "lab,symptom", "2024-01-01"]);
    let args2 = timeline_args(&vec![], &None, &Some("2024-12-31".to_string()));
    assert_eq!(args2, vec!["get-timeline", "", "", "2024-12-31"]);
}

#[test]
fn model_name_comes_from_the_base_name() {
    assert_eq!(
        model_name_from_path(&"/data/models/Qwen2.5-7B-Instruct-Q4_K_M.gguf".to_string()),
        "Qwen2.5-7B-Instruct-Q4_K_M"
    );
    assert_eq!(model_name_from_path(&"models/qwen3-4b-instruct-q4_k_m.gguf".to_string()),
        "qwen3-4b-instruct-q4_k_m");
    assert_eq!(model_name_from_path(&"bare".to_string()), "bare");
    assert_eq!(model_name_from_path(&".hidden".to_string()), ".hidden");
    assert_eq!(model_name_from_path(&"dir/".to_string()), "unknown");
    assert_eq!(model_name_from_path(&"".to_string()), "unknown");
}

#[test]
fn db_path_is_under_the_data_dir() {
    assert_eq!(get_db_path(&"/home/u/data".to_string()), "/home/u/data/biological-self.db");
}

#[test]
fn candidates_are_probed_in_order() {
    let dir = Some("/data".to_string());
    let paths = candidate_model_paths(&dir);
    assert_eq!(paths.len(), 8);
    assert_eq!(paths[0], "/data/biological-self/models/Qwen2.5-7B-Instruct-Q4_K_M.gguf");
    assert_eq!(paths[1], "models/Qwen2.5-7B-Instruct-Q4_K_M.gguf");
    assert_eq!(paths[4], "../models/Qwen2.5-7B-Instruct-Q4_K_M.gguf");
    assert_eq!(paths[6], "/data/biological-self/models/qwen3-4b-instruct-q4_k_m.gguf");
    let no_dir = candidate_model_paths(&None);
    assert_eq!(no_dir.len(), 5);
    assert_eq!(no_dir[0], "models/Qwen2.5-7B-Instruct-Q4_K_M.gguf");
}

#[test]
fn no_existing_candidate_means_no_model() {
    assert_eq!(first_match(&vec![false, false, false]), None);
    assert_eq!(first_match(&vec![]), None);
    assert_eq!(first_match(&vec![false, true, true]), Some(1));
    assert_eq!(first_match(&vec![true]), Some(0));
}

#[test]
fn missing_model_fails_then_a_found_model_recovers() {
    // No candidate exists: the load pipeline fails with model-not-found,
    // and the health report shows the engine unavailable.
    assert_eq!(first_match(&vec![false, false, false, false, false]), None);
    let failed = require_model_path(None);
    let err = failed.expect_err("no artifact at any candidate path");
    assert_eq!(err, "No model file found. Please download a GGUF model.");
    let st = status_of(&Err(err));
    assert!(!st.available);
    // A model is made available afterwards: the next attempt succeeds.
    let ok = require_model_path(Some("models/qwen3-4b-instruct-q4_k_m.gguf".to_string()));
    assert_eq!(ok.unwrap(), "models/qwen3-4b-instruct-q4_k_m.gguf");
}

#[test]
fn session_store_remembers_and_forgets() {
    let mut store = SessionStore::new();
    assert!(store.get_passphrase().is_none());
    store.set_passphrase("correct horse".to_string());
    assert_eq!(store.get_passphrase().as_deref(), Some("correct horse"));
    store.clear_passphrase();
    assert!(store.get_passphrase().is_none());

    let demo = UserDemographics {
        height_cm: 180,
        weight_kg: 75,
        age: 40,
        sex: "F".to_string(),
        body_type: "average".to_string(),
        ethnicity: None,
        bmi_milli: Some(23_150),
        body_fat_estimate_milli: None,
    };
    store.set_demographics_store(demo);
    let got = store.get_demographics_store().expect("stored demographics");
    assert_eq!(got.height_cm, 180);
    assert_eq!(got.sex, "F");
    assert_eq!(got.bmi_milli, Some(23_150));
    store.clear_demographics_store();
    assert!(store.get_demographics_store().is_none());
}

#[test]
fn lock_clears_everything() {
    let mut store = SessionStore::new();
    store.set_passphrase("secret".to_string());
    store.set_demographics_store(UserDemographics {
        height_cm: 170,
        weight_kg: 60,
        age: 30,
        sex: "M".to_string(),
        body_type: "slim".to_string(),
        ethnicity: Some("unspecified".to_string()),
        bmi_milli: None,
        body_fat_estimate_milli: None,
    });
    store.lock();
    assert!(store.get_passphrase().is_none());
    assert!(store.get_demographics_store().is_none());
}
