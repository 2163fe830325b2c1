//! Plain data carried between the host shell and its helper bridges:
//! health summaries, timeline filters, symptom input, AI and voice bridge
//! payloads, and journey bookkeeping results.  The shell serializes these
//! at its boundary; the library holds them as plain values.

use vstd::prelude::*;

use crate::text::{join_comma, spec_join_comma, spec_strs};

verus! {

/// Counts of the records held in the health database.
#[derive(Debug)]
pub struct HealthSummary {
    pub total_conditions: u32,
    pub total_medications: u32,
    pub total_lab_results: u32,
    pub total_whoop_cycles: u32,
    pub total_apple_health_days: u32,
    pub last_updated: Option<String>,
}

/// A diagnosed condition.
#[derive(Debug)]
pub struct ConditionSummary {
    pub id: String,
    pub name: String,
    pub status: String,
    pub severity: Option<String>,
    pub diagnosed_date: Option<String>,
}

/// A current medication.
#[derive(Debug)]
pub struct MedicationSummary {
    pub id: String,
    pub name: String,
    pub dosage: Option<String>,
    pub frequency: Option<String>,
}

/// A recorded symptom.
#[derive(Debug)]
pub struct SymptomSummary {
    pub id: String,
    pub description: String,
    pub severity: u32,
    pub location: Option<String>,
    pub onset_date: String,
}

/// Filters applied to a timeline query.
#[derive(Debug)]
pub struct TimelineFilters {
    pub types: Vec<String>,
    pub start_date: Option<String>,
    pub end_date: Option<String>,
}

/// How long a symptom has lasted.
#[derive(Debug)]
pub struct SymptomDuration {
    pub value: u32,
    pub unit: String,
}

/// A symptom as entered by the user.
#[derive(Debug)]
pub struct SymptomInput {
    pub description: String,
    pub severity: u32,
    pub body_location: String,
    pub onset_date: String,
    pub duration: Option<SymptomDuration>,
    pub status: String,
    pub associated_factors: Option<Vec<String>>,
    pub frequency: Option<String>,
    pub time_of_day: Option<String>,
    pub notes: Option<String>,
}

/// Availability of the external AI bridge.
#[derive(Debug)]
pub struct AIHealthResponse {
    pub available: bool,
    pub version: Option<String>,
    pub error: Option<String>,
}

/// Details of a model served by the external model server.
#[derive(Debug)]
pub struct OllamaModelDetails {
    pub format: Option<String>,
    pub family: Option<String>,
    pub parameter_size: Option<String>,
    pub quantization_level: Option<String>,
}

/// A model served by the external model server.
#[derive(Debug)]
pub struct OllamaModel {
    pub name: String,
    pub modified_at: String,
    pub size: u64,
    pub digest: String,
    pub details: Option<OllamaModelDetails>,
}

/// The external model server's model list.
#[derive(Debug)]
pub struct AIModelsResponse {
    pub models: Vec<OllamaModel>,
}

/// One message of an external AI chat.
#[derive(Debug)]
pub struct ChatMessage {
    pub role: String,
    pub content: String,
}

/// The external AI bridge's chat answer.
#[derive(Debug)]
pub struct AIChatResponse {
    pub content: String,
    pub model: String,
    pub done: bool,
}

/// Options for retrieval-augmented chat.
#[derive(Debug)]
pub struct RAGOptions {
    pub structure_name: Option<String>,
    pub symptom: Option<String>,
    pub lab_name: Option<String>,
    pub lab_value: Option<String>,
    pub system: Option<String>,
    pub complexity_level: Option<u8>,
    pub max_tokens: Option<u32>,
}

/// A source citation attached to a retrieval-augmented answer.
#[derive(Debug)]
pub struct Citation {
    pub index: u32,
    pub source: String,
    pub section: Option<String>,
    pub url: Option<String>,
}

/// Bookkeeping of the retrieval step.
#[derive(Debug)]
pub struct RAGContext {
    pub chunks_used: u32,
    pub total_tokens: u32,
    pub processing_time_ms: u32,
}

/// The retrieval-augmented chat answer with its citations.
#[derive(Debug)]
pub struct AIChatRAGResponse {
    pub content: String,
    pub model: String,
    pub done: bool,
    pub citations: Vec<Citation>,
    pub rag_context: Option<RAGContext>,
}

/// Acknowledgement of one recorded journey action.
#[derive(Debug)]
pub struct JourneyAddActionResult {
    pub success: bool,
    pub action_id: String,
}

/// How many actions a session has recorded.
#[derive(Debug)]
pub struct JourneyCountResult {
    pub count: u32,
}

/// The identifier of a newly started journey.
#[derive(Debug)]
pub struct JourneyStartResult {
    pub journey_id: String,
}

/// Aggregate statistics over the journey store.
#[derive(Debug)]
pub struct JourneyStatsResult {
    pub total_actions: u32,
    pub total_journeys: u32,
    pub oldest_action: Option<String>,
    pub newest_action: Option<String>,
}

/// Availability of the intent-prediction bridge.
#[derive(Debug)]
pub struct PredictionHealthResponse {
    pub available: bool,
    pub model: Option<String>,
    pub error: Option<String>,
}

/// Synthesized speech, as audio the host can play.
#[derive(Debug)]
pub struct VoiceSynthesisResult {
    pub audio_base64: String,
    pub format: String,
    pub sample_rate: u32,
    pub duration_ms: u64,
}

/// The argument list passed to the timeline bridge command: the event
/// types joined with commas, the start date or an empty placeholder, and
/// the end date only when one was given.
pub open spec fn spec_timeline_args(
    types: Seq<Seq<char>>,
    start: Option<Seq<char>>,
    end: Option<Seq<char>>,
) -> Seq<Seq<char>> {
    let base = seq![
        "get-timeline"@,
        spec_join_comma(types),
        match start {
            Some(s) => s,
            None => ""@,
        },
    ];
    match end {
        Some(e) => base.push(e),
        None => base,
    }
}

/// Builds the timeline bridge's argument list from the query's filters.
pub fn timeline_args(
    types: &Vec<String>,
    start_date: &Option<String>,
    end_date: &Option<String>,
) -> (r: Vec<String>)
    ensures
        ({
            let expected = spec_timeline_args(
                spec_strs(types@),
                crate::locate::spec_opt_string(*start_date),
                crate::locate::spec_opt_string(*end_date),
            );
            &&& r@.len() == expected.len()
            &&& forall|i: int| 0 <= i < r@.len() ==> r@[i]@ == expected[i]
        }),
{
    let mut r: Vec<String> = Vec::new();
    r.push(String::from_str("get-timeline"));
    r.push(join_comma(types));
    match start_date {
        Some(s) => r.push(s.clone()),
        None => r.push(String::new()),
    }
    match end_date {
        Some(e) => r.push(e.clone()),
        None => {},
    }
    proof {
        let expected = spec_timeline_args(
            spec_strs(types@),
            crate::locate::spec_opt_string(*start_date),
            crate::locate::spec_opt_string(*end_date),
        );
        reveal_strlit("");
        assert(""@ =~= Seq::<char>::empty());
        assert(r@[0]@ == expected[0]);
        assert(r@[1]@ == expected[1]);
        assert(r@[2]@ == expected[2]);
        if end_date is Some {
            assert(r@[3]@ == expected[3]);
        }
        assert(forall|i: int| 0 <= i < r@.len() ==> #[trigger] r@[i]@ == expected[i]) by {
            assert(r@.len() <= 4);
        }
    }
    r
}

} // verus!
