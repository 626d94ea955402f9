use vstd::prelude::*;

verus! {

use vstd::string::StringExecFns;
use crate::textscan::str_eq;

/// The practice text served without the generation API: a fixed table
/// keyed by topic and difficulty, with a generic sentence for any
/// other combination.
pub open spec fn fallback_content_model(topic: Seq<char>, difficulty: Seq<char>) -> Seq<char> {
    if topic == "daily"@ && difficulty == "beginner"@ {
        "Hello! How are you today? I hope you have a great day. What are your plans for this weekend?"@
    } else if topic == "daily"@ && difficulty == "intermediate"@ {
        "Good morning! I was wondering if you could help me with something. I'm looking for a good restaurant nearby. Do you have any recommendations?"@
    } else if topic == "business"@ && difficulty == "beginner"@ {
        "Good morning. I would like to schedule a meeting. When would be a good time for you? Thank you for your time."@
    } else if topic == "business"@ && difficulty == "intermediate"@ {
        "I'd like to discuss our quarterly results and explore new opportunities for growth. Could we arrange a conference call with the team next week?"@
    } else {
        "Practice makes perfect. The more you speak, the more confident you become. Keep up the great work and don't be afraid to make mistakes."@
    }
}

/// Produces practice text without any network dependency.
pub fn create_fallback_content(topic: &str, difficulty_level: &str) -> (r: String)
    ensures
        r@ == fallback_content_model(topic@, difficulty_level@),
{
    if str_eq(topic, "daily") && str_eq(difficulty_level, "beginner") {
        String::from_str(
            "Hello! How are you today? I hope you have a great day. What are your plans for this weekend?",
        )
    } else if str_eq(topic, "daily") && str_eq(difficulty_level, "intermediate") {
        String::from_str(
            "Good morning! I was wondering if you could help me with something. I'm looking for a good restaurant nearby. Do you have any recommendations?",
        )
    } else if str_eq(topic, "business") && str_eq(difficulty_level, "beginner") {
        String::from_str(
            "Good morning. I would like to schedule a meeting. When would be a good time for you? Thank you for your time.",
        )
    } else if str_eq(topic, "business") && str_eq(difficulty_level, "intermediate") {
        String::from_str(
            "I'd like to discuss our quarterly results and explore new opportunities for growth. Could we arrange a conference call with the team next week?",
        )
    } else {
        String::from_str(
            "Practice makes perfect. The more you speak, the more confident you become. Keep up the great work and don't be afraid to make mistakes.",
        )
    }
}

} // verus!
