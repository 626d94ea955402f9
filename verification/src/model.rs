use vstd::prelude::*;

verus! {

use crate::feedback::{
    all_strings, decoded_feedback, lemma_decode_verbatim, string_items, FeedbackModel,
};
use crate::textscan::{is_first_of, is_last_of};

/// Where and as whom the generation API is called.
pub struct GeminiConfig {
    pub api_key: String,
    pub model: String,
    pub base_url: String,
}

/// Outbound request body for one generation call.
pub struct GeminiRequest {
    pub contents: Vec<Content>,
    pub generation_config: GenerationConfig,
    pub safety_settings: Vec<SafetySetting>,
}

/// One turn of conversation content.
pub struct Content {
    pub parts: Vec<Part>,
    pub role: Option<String>,
}

/// One piece of text within a turn.
pub struct Part {
    pub text: String,
}

/// Sampling parameters. Temperature and top-p are held in hundredths
/// (70 = 0.70), so the library can reason about them as plain integers.
pub struct GenerationConfig {
    pub temperature_hundredths: u32,
    pub top_k: i32,
    pub top_p_hundredths: u32,
    pub max_output_tokens: i32,
}

/// A content-safety threshold for one harm category.
pub struct SafetySetting {
    pub category: String,
    pub threshold: String,
}

/// The generation API's reply.
pub struct GeminiResponse {
    pub candidates: Vec<Candidate>,
    pub usage_metadata: Option<UsageMetadata>,
}

/// One alternative generated completion.
pub struct Candidate {
    pub content: Content,
    pub finish_reason: Option<String>,
    pub index: i32,
    pub safety_ratings: Vec<SafetyRating>,
}

/// A harm-probability rating attached to a candidate.
pub struct SafetyRating {
    pub category: String,
    pub probability: String,
}

/// Token-usage accounting attached to a reply.
pub struct UsageMetadata {
    pub prompt_token_count: i32,
    pub candidates_token_count: i32,
    pub total_token_count: i32,
}

/// What went wrong while asking the generation API for text.
#[derive(Clone, Copy, Debug, PartialEq, Eq, Structural)]
pub enum GenError {
    /// The network call itself failed.
    Transport,
    /// The reply body did not match the expected schema.
    Decode,
    /// A well-formed reply carried an empty candidate list.
    NoCandidates,
    /// An operation was invoked before the service was configured.
    Uninitialized,
}

/// The first candidate's text: the one part of a reply that is consulted.
pub fn first_candidate_text(response: &GeminiResponse) -> (r: Result<String, GenError>)
    ensures
        response.candidates@.len() == 0 ==> r == Result::<String, GenError>::Err(
            GenError::NoCandidates,
        ),
        response.candidates@.len() > 0 && response.candidates@[0].content.parts@.len() == 0
            ==> r == Result::<String, GenError>::Err(GenError::Decode),
        response.candidates@.len() > 0 && response.candidates@[0].content.parts@.len() > 0 ==> (
        r matches Ok(t) && t@ == response.candidates@[0].content.parts@[0].text@),
{
    if response.candidates.len() == 0 {
        Err(GenError::NoCandidates)
    } else {
        let candidate = &response.candidates[0];
        if candidate.content.parts.len() == 0 {
            Err(GenError::Decode)
        } else {
            Ok(candidate.content.parts[0].text.clone())
        }
    }
}

/// Law: a well-formed reply with at least one candidate whose text
/// carries a brace span that parses as JSON with all six schema fields,
/// the tips an array of strings, decodes to those six values verbatim.
pub proof fn lemma_response_decodes_verbatim(
    response: GeminiResponse,
    i: int,
    j: int,
    encouragement: Seq<char>,
    specific_feedback: Seq<char>,
    tips: Seq<Option<Seq<char>>>,
    next_challenge: Seq<char>,
    motivation_level: Seq<char>,
    difficulty_adjustment: Seq<char>,
)
    requires
        response.candidates@.len() >= 1,
        response.candidates@[0].content.parts@.len() >= 1,
        ({
            let text = response.candidates@[0].content.parts@[0].text@;
            &&& is_first_of(text, '{', i)
            &&& is_last_of(text, '}', j)
            &&& i <= j
            &&& crate::jsontext::json_doc_ok(text.subrange(i, j + 1))
            &&& crate::jsontext::json_str_field(text.subrange(i, j + 1), "encouragement"@)
                == Some(encouragement)
            &&& crate::jsontext::json_str_field(text.subrange(i, j + 1), "specific_feedback"@)
                == Some(specific_feedback)
            &&& crate::jsontext::json_array_field(text.subrange(i, j + 1), "improvement_tips"@)
                == Some(tips)
            &&& all_strings(tips)
            &&& crate::jsontext::json_str_field(text.subrange(i, j + 1), "next_challenge"@)
                == Some(next_challenge)
            &&& crate::jsontext::json_str_field(text.subrange(i, j + 1), "motivation_level"@)
                == Some(motivation_level)
            &&& crate::jsontext::json_str_field(text.subrange(i, j + 1), "difficulty_adjustment"@)
                == Some(difficulty_adjustment)
        }),
    ensures
        decoded_feedback(response.candidates@[0].content.parts@[0].text@) == (FeedbackModel {
            encouragement,
            specific_feedback,
            improvement_tips: string_items(tips),
            next_challenge,
            motivation_level,
            difficulty_adjustment,
        }),
{
    lemma_decode_verbatim(
        response.candidates@[0].content.parts@[0].text@,
        i,
        j,
        encouragement,
        specific_feedback,
        tips,
        next_challenge,
        motivation_level,
        difficulty_adjustment,
    );
}

} // verus!
