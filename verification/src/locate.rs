//! The model locator: resolves a filesystem path to a quantized model
//! artifact by probing an ordered, fixed list of candidate locations — the
//! platform data directory, bundled resources, development paths, and a
//! smaller fallback model — returning the first existing match.  Absence
//! of a model is a reportable state, not a fault.

use vstd::prelude::*;

verus! {

/// Relies on dirs::data_dir: the platform data directory, if the platform
/// defines one; its value depends on the environment.
#[verifier::external_body]
fn platform_data_dir() -> Option<String> {
    dirs::data_dir().and_then(|p| p.to_str().map(|s| s.to_string()))
}

/// Relies on std::path::Path::exists: whether a filesystem entity exists
/// at the path; the answer depends on what is on disk.
#[verifier::external_body]
fn path_exists(path: &str) -> bool {
    std::path::Path::new(path).exists()
}

/// A data-directory candidate: the model file under the application's
/// models directory inside the platform data directory.
pub open spec fn spec_data_dir_candidate(dir: Seq<char>, file: Seq<char>) -> Seq<char> {
    dir + "/biological-self/models/"@ + file
}

/// The ordered candidate locations probed for a model artifact, given the
/// platform data directory when one exists.
pub open spec fn spec_candidates(data_dir: Option<Seq<char>>) -> Seq<Seq<char>> {
    match data_dir {
        Some(d) => seq![
            spec_data_dir_candidate(d, "Qwen2.5-7B-Instruct-Q4_K_M.gguf"@),
            "models/Qwen2.5-7B-Instruct-Q4_K_M.gguf"@,
            spec_data_dir_candidate(d, "qwen2.5-7b-instruct-q4_k_m.gguf"@),
            "models/qwen2.5-7b-instruct-q4_k_m.gguf"@,
            "../models/Qwen2.5-7B-Instruct-Q4_K_M.gguf"@,
            "../models/qwen2.5-7b-instruct-q4_k_m.gguf"@,
            spec_data_dir_candidate(d, "qwen3-4b-instruct-q4_k_m.gguf"@),
            "models/qwen3-4b-instruct-q4_k_m.gguf"@,
        ],
        None => seq![
            "models/Qwen2.5-7B-Instruct-Q4_K_M.gguf"@,
            "models/qwen2.5-7b-instruct-q4_k_m.gguf"@,
            "../models/Qwen2.5-7B-Instruct-Q4_K_M.gguf"@,
            "../models/qwen2.5-7b-instruct-q4_k_m.gguf"@,
            "models/qwen3-4b-instruct-q4_k_m.gguf"@,
        ],
    }
}

/// View of an optional owned string.
pub open spec fn spec_opt_string(s: Option<String>) -> Option<Seq<char>> {
    match s {
        Some(t) => Some(t@),
        None => None,
    }
}

fn data_dir_candidate(dir: &String, file: &str) -> (r: String)
    ensures
        r@ == spec_data_dir_candidate(dir@, file@),
{
    let mut r = dir.clone();
    r.append("/biological-self/models/");
    r.append(file);
    r
}

/// Builds the ordered candidate path list for a given platform data
/// directory.
pub fn candidate_model_paths(data_dir: &Option<String>) -> (r: Vec<String>)
    ensures
        r@.len() == spec_candidates(spec_opt_string(*data_dir)).len(),
        forall|i: int|
            0 <= i < r@.len() ==> r@[i]@ == spec_candidates(spec_opt_string(*data_dir))[i],
{
    let mut r: Vec<String> = Vec::new();
    match data_dir {
        Some(d) => {
            r.push(data_dir_candidate(d, "Qwen2.5-7B-Instruct-Q4_K_M.gguf"));
            r.push(String::from_str("models/Qwen2.5-7B-Instruct-Q4_K_M.gguf"));
            r.push(data_dir_candidate(d, "qwen2.5-7b-instruct-q4_k_m.gguf"));
            r.push(String::from_str("models/qwen2.5-7b-instruct-q4_k_m.gguf"));
            r.push(String::from_str("../models/Qwen2.5-7B-Instruct-Q4_K_M.gguf"));
            r.push(String::from_str("../models/qwen2.5-7b-instruct-q4_k_m.gguf"));
            r.push(data_dir_candidate(d, "qwen3-4b-instruct-q4_k_m.gguf"));
            r.push(String::from_str("models/qwen3-4b-instruct-q4_k_m.gguf"));
        },
        None => {
            r.push(String::from_str("models/Qwen2.5-7B-Instruct-Q4_K_M.gguf"));
            r.push(String::from_str("models/qwen2.5-7b-instruct-q4_k_m.gguf"));
            r.push(String::from_str("../models/Qwen2.5-7B-Instruct-Q4_K_M.gguf"));
            r.push(String::from_str("../models/qwen2.5-7b-instruct-q4_k_m.gguf"));
            r.push(String::from_str("models/qwen3-4b-instruct-q4_k_m.gguf"));
        },
    }
    r
}

/// The index of the first existing candidate: the first position whose
/// probe answered yes, if any did.
pub open spec fn spec_first_match(exists: Seq<bool>) -> Option<int>
    decreases exists.len(),
{
    if exists.len() == 0 {
        None
    } else if exists[0] {
        Some(0)
    } else {
        match spec_first_match(exists.drop_first()) {
            Some(i) => Some(i + 1),
            None => None,
        }
    }
}

proof fn lemma_first_match_at(exists: Seq<bool>, i: int)
    requires
        0 <= i < exists.len(),
        exists[i],
        forall|j: int| 0 <= j < i ==> !exists[j],
    ensures
        spec_first_match(exists) == Some(i),
    decreases i,
{
    if i > 0 {
        lemma_first_match_at(exists.drop_first(), i - 1);
    }
}

/// If no candidate exists, there is no first match.
pub proof fn lemma_no_candidate_no_match(exists: Seq<bool>)
    requires
        forall|j: int| 0 <= j < exists.len() ==> !exists[j],
    ensures
        spec_first_match(exists) is None,
    decreases exists.len(),
{
    if exists.len() > 0 {
        lemma_no_candidate_no_match(exists.drop_first());
    }
}

/// Picks the first position whose probe answered yes.
pub fn first_match(exists: &Vec<bool>) -> (r: Option<usize>)
    ensures
        r == match spec_first_match(exists@) {
            Some(i) => Some(i as usize),
            None => None::<usize>,
        },
        r is Some ==> r->0 < exists@.len() && exists@[r->0 as int],
{
    let mut i: usize = 0;
    while i < exists.len()
        invariant
            i <= exists@.len(),
            forall|j: int| 0 <= j < i ==> !exists@[j],
        decreases exists@.len() - i,
    {
        if exists[i] {
            proof {
                lemma_first_match_at(exists@, i as int);
            }
            return Some(i);
        }
        i += 1;
    }
    proof {
        lemma_no_candidate_no_match(exists@);
    }
    None
}

/// Probes the ordered candidate locations and returns the first that
/// exists on disk, or nothing when no candidate exists — a valid,
/// reportable state.  The returned path is always one of the candidates
/// for the platform's data directory.
pub fn locate_model() -> (r: Option<String>)
    ensures
        r matches Some(p) ==> exists|d: Option<Seq<char>>, i: int|
            0 <= i < spec_candidates(d).len() && p@ == #[trigger] spec_candidates(d)[i],
{
    let data_dir = platform_data_dir();
    let paths = candidate_model_paths(&data_dir);
    let mut flags: Vec<bool> = Vec::new();
    let mut i: usize = 0;
    while i < paths.len()
        invariant
            flags@.len() == i,
            i <= paths@.len(),
        decreases paths@.len() - i,
    {
        let e = path_exists(paths[i].as_str());
        flags.push(e);
        i += 1;
    }
    match first_match(&flags) {
        Some(idx) => {
            let p = paths[idx].clone();
            proof {
                let d = spec_opt_string(data_dir);
                assert(p@ == spec_candidates(d)[idx as int]);
            }
            Some(p)
        },
        None => None,
    }
}

/// Turns the locator's outcome into the load pipeline's first step: a
/// found artifact path, or the model-not-found error — exactly when no
/// candidate path exists.
pub fn require_model_path(located: Option<String>) -> (r: Result<String, String>)
    ensures
        match located {
            Some(p) => r == Ok::<String, String>(p),
            None => r is Err && r->Err_0@
                == "No model file found. Please download a GGUF model."@,
        },
{
    match located {
        Some(p) => Ok(p),
        None => Err(String::from_str("No model file found. Please download a GGUF model.")),
    }
}

} // verus!
