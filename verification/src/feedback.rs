use vstd::prelude::*;

verus! {

use vstd::string::StrSliceExecFns;
use vstd::string::StringExecFns;
use crate::jsontext::{
    json_doc_ok, json_str_field, json_array_field, json_parses, json_string_field,
    json_string_items_field,
};
use crate::textscan::{
    is_first_of, is_last_of, find_first, find_last, lemma_first_of_unique, lemma_last_of_unique,
};

/// AI tutor feedback record handed back to the UI.
pub struct TutorFeedback {
    pub encouragement: String,
    pub specific_feedback: String,
    pub improvement_tips: Vec<String>,
    pub next_challenge: String,
    pub motivation_level: String,
    pub difficulty_adjustment: String,
}

/// Mathematical model of a feedback record.
pub ghost struct FeedbackModel {
    pub encouragement: Seq<char>,
    pub specific_feedback: Seq<char>,
    pub improvement_tips: Seq<Seq<char>>,
    pub next_challenge: Seq<char>,
    pub motivation_level: Seq<char>,
    pub difficulty_adjustment: Seq<char>,
}

impl View for TutorFeedback {
    type V = FeedbackModel;

    open spec fn view(&self) -> FeedbackModel {
        FeedbackModel {
            encouragement: self.encouragement@,
            specific_feedback: self.specific_feedback@,
            improvement_tips: self.improvement_tips.deep_view(),
            next_challenge: self.next_challenge@,
            motivation_level: self.motivation_level@,
            difficulty_adjustment: self.difficulty_adjustment@,
        }
    }
}

/// The canned record returned when the reply holds no JSON span at all.
pub open spec fn no_json_feedback() -> FeedbackModel {
    FeedbackModel {
        encouragement: "很棒的嘗試！每一次練習都是進步。"@,
        specific_feedback: "您的努力很值得讚賞，繼續保持這種學習態度。"@,
        improvement_tips: seq!["保持每日練習的習慣"@, "錄音後多聽幾遍自己的發音"@],
        next_challenge: "挑戰更長的對話練習"@,
        motivation_level: "high"@,
        difficulty_adjustment: "maintain"@,
    }
}

/// The canned record returned when a JSON span was found but did not parse.
pub open spec fn invalid_json_feedback() -> FeedbackModel {
    FeedbackModel {
        encouragement: "很好的練習！您正在進步中。"@,
        specific_feedback: "繼續保持練習的節奏，您會看到明顯的改善。"@,
        improvement_tips: seq![
            "每天堅持練習15分鐘"@,
            "注意單詞的重音位置"@,
            "模仿母語者的語調"@,
        ],
        next_challenge: "嘗試朗讀一段新聞文章"@,
        motivation_level: "medium"@,
        difficulty_adjustment: "maintain"@,
    }
}

/// The two-item tip list substituted when `improvement_tips` is absent
/// or is not an array.
pub open spec fn default_tips() -> Seq<Seq<char>> {
    seq!["多聽多練"@, "注意語調"@]
}

/// The string at `key`, or `dflt` when the document holds none.
pub open spec fn str_field_or(s: Seq<char>, key: Seq<char>, dflt: Seq<char>) -> Seq<char> {
    match json_str_field(s, key) {
        Some(v) => v,
        None => dflt,
    }
}

/// Whether every element of the extracted array is a string.
pub open spec fn all_strings(items: Seq<Option<Seq<char>>>) -> bool {
    forall|k: int| 0 <= k < items.len() ==> items[k] is Some
}

/// The string elements of an array, in order, non-strings dropped.
pub open spec fn string_items(items: Seq<Option<Seq<char>>>) -> Seq<Seq<char>>
    decreases items.len(),
{
    if items.len() == 0 {
        Seq::empty()
    } else {
        let rest = string_items(items.drop_last());
        match items.last() {
            Some(v) => rest.push(v),
            None => rest,
        }
    }
}

/// The tip list read from a parsed JSON document: the array's values
/// when the field holds an array of strings, the two-item default when
/// the field is absent, not an array, or an array with any non-string
/// element.
pub open spec fn tips_field_model(slice: Seq<char>) -> Seq<Seq<char>> {
    match json_array_field(slice, "improvement_tips"@) {
        Some(items) => if all_strings(items) {
            string_items(items)
        } else {
            default_tips()
        },
        None => default_tips(),
    }
}

/// The record read from a parsed JSON document, each field falling back
/// independently when absent or of the wrong type.
pub open spec fn parsed_fields_model(slice: Seq<char>) -> FeedbackModel {
    FeedbackModel {
        encouragement: str_field_or(slice, "encouragement"@, "很好的嘗試！繼續加油！"@),
        specific_feedback: str_field_or(
            slice,
            "specific_feedback"@,
            "您的發音整體不錯，繼續練習會更好。"@,
        ),
        improvement_tips: tips_field_model(slice),
        next_challenge: str_field_or(slice, "next_challenge"@, "嘗試更複雜的句子練習"@),
        motivation_level: str_field_or(slice, "motivation_level"@, "medium"@),
        difficulty_adjustment: str_field_or(slice, "difficulty_adjustment"@, "maintain"@),
    }
}

/// Whether the text holds a first `{` at or before a last `}`.
pub open spec fn has_brace_span(s: Seq<char>) -> bool {
    exists|i: int, j: int| is_first_of(s, '{', i) && is_last_of(s, '}', j) && i <= j
}

/// The span from the first `{` to the last `}`, when there is one.
pub open spec fn brace_span(s: Seq<char>) -> (int, int) {
    choose|i: int, j: int| is_first_of(s, '{', i) && is_last_of(s, '}', j) && i <= j
}

/// The brace span is exactly the first `{` / last `}` pair.
pub proof fn lemma_brace_span_at(s: Seq<char>, i: int, j: int)
    requires
        is_first_of(s, '{', i),
        is_last_of(s, '}', j),
        i <= j,
    ensures
        has_brace_span(s),
        brace_span(s) == (i, j),
{
    assert(has_brace_span(s));
    let (ci, cj): (int, int) = brace_span(s);
    assert(is_first_of(s, '{', ci) && is_last_of(s, '}', cj) && ci <= cj);
    lemma_first_of_unique(s, '{', i, ci);
    lemma_last_of_unique(s, '}', j, cj);
}

/// What decoding yields on a reply text: the parsed fields when the
/// brace span parses as JSON, a canned record otherwise.
pub open spec fn decoded_feedback(s: Seq<char>) -> FeedbackModel {
    if has_brace_span(s) {
        let (i, j) = brace_span(s);
        let slice = s.subrange(i, j + 1);
        if json_doc_ok(slice) {
            parsed_fields_model(slice)
        } else {
            invalid_json_feedback()
        }
    } else {
        no_json_feedback()
    }
}

/// Builds the canned record for a reply without a JSON span.
fn no_json_canned() -> (r: TutorFeedback)
    ensures
        r@ == no_json_feedback(),
{
    let mut tips: Vec<String> = Vec::new();
    tips.push(String::from_str("保持每日練習的習慣"));
    tips.push(String::from_str("錄音後多聽幾遍自己的發音"));
    let r = TutorFeedback {
        encouragement: String::from_str("很棒的嘗試！每一次練習都是進步。"),
        specific_feedback: String::from_str("您的努力很值得讚賞，繼續保持這種學習態度。"),
        improvement_tips: tips,
        next_challenge: String::from_str("挑戰更長的對話練習"),
        motivation_level: String::from_str("high"),
        difficulty_adjustment: String::from_str("maintain"),
    };
    proof {
        assert(r.improvement_tips.deep_view() =~= no_json_feedback().improvement_tips);
    }
    r
}

/// Builds the canned record for a JSON span that did not parse.
fn invalid_json_canned() -> (r: TutorFeedback)
    ensures
        r@ == invalid_json_feedback(),
{
    let mut tips: Vec<String> = Vec::new();
    tips.push(String::from_str("每天堅持練習15分鐘"));
    tips.push(String::from_str("注意單詞的重音位置"));
    tips.push(String::from_str("模仿母語者的語調"));
    let r = TutorFeedback {
        encouragement: String::from_str("很好的練習！您正在進步中。"),
        specific_feedback: String::from_str("繼續保持練習的節奏，您會看到明顯的改善。"),
        improvement_tips: tips,
        next_challenge: String::from_str("嘗試朗讀一段新聞文章"),
        motivation_level: String::from_str("medium"),
        difficulty_adjustment: String::from_str("maintain"),
    };
    proof {
        assert(r.improvement_tips.deep_view() =~= invalid_json_feedback().improvement_tips);
    }
    r
}

/// Builds the two-item default tip list.
fn default_tips_vec() -> (r: Vec<String>)
    ensures
        r.deep_view() == default_tips(),
{
    let mut tips: Vec<String> = Vec::new();
    tips.push(String::from_str("多聽多練"));
    tips.push(String::from_str("注意語調"));
    proof {
        assert(tips.deep_view() =~= default_tips());
    }
    tips
}

/// Whether every element of the extracted array is a string.
fn all_strings_in(items: &Vec<Option<String>>) -> (r: bool)
    ensures
        r == all_strings(items.deep_view()),
{
    let ghost dv: Seq<Option<Seq<char>>> = items.deep_view();
    let mut k: usize = 0;
    while k < items.len()
        invariant
            dv == items.deep_view(),
            dv.len() == items@.len(),
            k <= items@.len(),
            forall|m: int| 0 <= m < k ==> dv[m] is Some,
        decreases items@.len() - k,
    {
        if items[k].is_none() {
            proof {
                assert(dv[k as int] is None);
            }
            return false;
        }
        k = k + 1;
    }
    true
}

/// Keeps the string elements of the extracted array, in order.
fn collect_strings(items: &Vec<Option<String>>) -> (r: Vec<String>)
    ensures
        r.deep_view() == string_items(items.deep_view()),
{
    let ghost dv: Seq<Option<Seq<char>>> = items.deep_view();
    let mut out: Vec<String> = Vec::new();
    let mut k: usize = 0;
    while k < items.len()
        invariant
            dv == items.deep_view(),
            dv.len() == items@.len(),
            k <= items@.len(),
            out.deep_view() == string_items(dv.take(k as int)),
        decreases items@.len() - k,
    {
        let ghost pre = out.deep_view();
        match &items[k] {
            Some(s) => {
                out.push(s.clone());
                proof {
                    assert(out.deep_view() =~= pre.push(s@));
                }
            },
            None => {},
        }
        proof {
            assert(dv.take(k as int + 1).drop_last() =~= dv.take(k as int));
            assert(dv.take(k as int + 1).last() == dv[k as int]);
        }
        k = k + 1;
    }
    proof {
        assert(dv.take(dv.len() as int) =~= dv);
    }
    out
}

/// Decodes a model reply into a feedback record. Never fails: fields
/// fall back independently, and an absent or unparseable JSON span
/// yields a canned record.
pub fn parse_tutor_response(content: &str) -> (r: TutorFeedback)
    ensures
        r@ == decoded_feedback(content@),
{
    let first = find_first(content, '{');
    let last = find_last(content, '}');
    match (first, last) {
        (Some(i), Some(j)) => {
            if i <= j {
                proof {
                    lemma_brace_span_at(content@, i as int, j as int);
                }
                // the length bound keeps j + 1 within usize
                let n = content.unicode_len();
                let slice = content.substring_char(i, j + 1);
                if json_parses(slice) {
                    let encouragement = match json_string_field(slice, "encouragement") {
                        Some(v) => v,
                        None => String::from_str("很好的嘗試！繼續加油！"),
                    };
                    let specific_feedback = match json_string_field(slice, "specific_feedback") {
                        Some(v) => v,
                        None => String::from_str("您的發音整體不錯，繼續練習會更好。"),
                    };
                    let improvement_tips = match json_string_items_field(
                        slice,
                        "improvement_tips",
                    ) {
                        Some(items) => {
                            if all_strings_in(&items) {
                                collect_strings(&items)
                            } else {
                                default_tips_vec()
                            }
                        },
                        None => default_tips_vec(),
                    };
                    let next_challenge = match json_string_field(slice, "next_challenge") {
                        Some(v) => v,
                        None => String::from_str("嘗試更複雜的句子練習"),
                    };
                    let motivation_level = match json_string_field(slice, "motivation_level") {
                        Some(v) => v,
                        None => String::from_str("medium"),
                    };
                    let difficulty_adjustment = match json_string_field(
                        slice,
                        "difficulty_adjustment",
                    ) {
                        Some(v) => v,
                        None => String::from_str("maintain"),
                    };
                    TutorFeedback {
                        encouragement,
                        specific_feedback,
                        improvement_tips,
                        next_challenge,
                        motivation_level,
                        difficulty_adjustment,
                    }
                } else {
                    invalid_json_canned()
                }
            } else {
                proof {
                    assert(!has_brace_span(content@)) by {
                        if has_brace_span(content@) {
                            let (i2, j2): (int, int) = choose|x: int, y: int|
                                is_first_of(content@, '{', x) && is_last_of(content@, '}', y) && x
                                    <= y;
                            lemma_first_of_unique(content@, '{', i as int, i2);
                            lemma_last_of_unique(content@, '}', j as int, j2);
                        }
                    }
                }
                no_json_canned()
            }
        },
        _ => {
            proof {
                assert(!has_brace_span(content@)) by {
                    if has_brace_span(content@) {
                        let (i2, j2): (int, int) = choose|x: int, y: int|
                            is_first_of(content@, '{', x) && is_last_of(content@, '}', y) && x
                                <= y;
                    }
                }
            }
            no_json_canned()
        },
    }
}

/// Performance scores held in tenths of a point (850 = 85.0),
/// each within [0, 1000].
pub struct PerformanceMetrics {
    pub overall: u64,
    pub pronunciation: u64,
    pub fluency: u64,
    pub completeness: u64,
}

/// The score, or 0 for a metric the caller did not supply.
pub open spec fn score_or_zero(o: Option<u64>) -> u64 {
    match o {
        Some(v) => v,
        None => 0u64,
    }
}

impl PerformanceMetrics {
    /// All scores lie within the 0.0 to 100.0 range.
    pub open spec fn wf(&self) -> bool {
        &&& self.overall <= 1000
        &&& self.pronunciation <= 1000
        &&& self.fluency <= 1000
        &&& self.completeness <= 1000
    }

    /// Gathers per-metric scores; a metric left out scores 0.
    pub fn new(
        overall: Option<u64>,
        pronunciation: Option<u64>,
        fluency: Option<u64>,
        completeness: Option<u64>,
    ) -> (r: Self)
        requires
            overall matches Some(v) ==> v <= 1000,
            pronunciation matches Some(v) ==> v <= 1000,
            fluency matches Some(v) ==> v <= 1000,
            completeness matches Some(v) ==> v <= 1000,
        ensures
            r.wf(),
            r.overall == score_or_zero(overall),
            r.pronunciation == score_or_zero(pronunciation),
            r.fluency == score_or_zero(fluency),
            r.completeness == score_or_zero(completeness),
    {
        PerformanceMetrics {
            overall: unwrap_zero(overall),
            pronunciation: unwrap_zero(pronunciation),
            fluency: unwrap_zero(fluency),
            completeness: unwrap_zero(completeness),
        }
    }
}

/// The supplied score, or 0.
fn unwrap_zero(o: Option<u64>) -> (r: u64)
    ensures
        r == score_or_zero(o),
{
    match o {
        Some(v) => v,
        None => 0,
    }
}

/// The feedback produced without the generation API, branching on the
/// overall score: at or above 80.0 highly encouraging, at or above
/// 60.0 steady progress, below that an encouraging reframing that
/// still motivates highly.
pub open spec fn fallback_feedback_model(overall_tenths: int) -> FeedbackModel {
    FeedbackModel {
        encouragement: if overall_tenths >= 800 {
            "太棒了！您的發音非常標準，繼續保持這種優秀的表現！"@
        } else if overall_tenths >= 600 {
            "很好的進步！您正在穩步提升，繼續努力！"@
        } else {
            "每一次練習都是進步，不要氣餒，您一定會越來越好！"@
        },
        specific_feedback: "您的努力很值得讚賞，在發音準確度方面有不錯的表現。"@,
        improvement_tips: seq![
            "每天堅持練習15-20分鐘"@,
            "注意單詞的重音和語調"@,
            "多聽母語者的發音並模仿"@,
        ],
        next_challenge: "嘗試挑戰更複雜的句型練習"@,
        motivation_level: if overall_tenths >= 800 {
            "high"@
        } else if overall_tenths >= 600 {
            "medium"@
        } else {
            "high"@
        },
        difficulty_adjustment: "maintain"@,
    }
}

/// Produces feedback without any network dependency, branching on the
/// overall score.
pub fn create_fallback_feedback(user_performance: &PerformanceMetrics) -> (r: TutorFeedback)
    ensures
        r@ == fallback_feedback_model(user_performance.overall as int),
{
    let overall = user_performance.overall;
    let encouragement: String;
    let motivation_level: String;
    if overall >= 800 {
        encouragement = String::from_str("太棒了！您的發音非常標準，繼續保持這種優秀的表現！");
        motivation_level = String::from_str("high");
    } else if overall >= 600 {
        encouragement = String::from_str("很好的進步！您正在穩步提升，繼續努力！");
        motivation_level = String::from_str("medium");
    } else {
        encouragement = String::from_str("每一次練習都是進步，不要氣餒，您一定會越來越好！");
        motivation_level = String::from_str("high");
    }
    let mut tips: Vec<String> = Vec::new();
    tips.push(String::from_str("每天堅持練習15-20分鐘"));
    tips.push(String::from_str("注意單詞的重音和語調"));
    tips.push(String::from_str("多聽母語者的發音並模仿"));
    let r = TutorFeedback {
        encouragement,
        specific_feedback: String::from_str("您的努力很值得讚賞，在發音準確度方面有不錯的表現。"),
        improvement_tips: tips,
        next_challenge: String::from_str("嘗試挑戰更複雜的句型練習"),
        motivation_level,
        difficulty_adjustment: String::from_str("maintain"),
    };
    proof {
        assert(r.improvement_tips.deep_view() =~= fallback_feedback_model(
            user_performance.overall as int,
        ).improvement_tips);
    }
    r
}

/// Law: a text whose brace span parses as JSON and carries all six
/// fields with their schema types decodes to those six values verbatim.
pub proof fn lemma_decode_verbatim(
    s: Seq<char>,
    i: int,
    j: int,
    encouragement: Seq<char>,
    specific_feedback: Seq<char>,
    tips: Seq<Option<Seq<char>>>,
    next_challenge: Seq<char>,
    motivation_level: Seq<char>,
    difficulty_adjustment: Seq<char>,
)
    requires
        is_first_of(s, '{', i),
        is_last_of(s, '}', j),
        i <= j,
        json_doc_ok(s.subrange(i, j + 1)),
        json_str_field(s.subrange(i, j + 1), "encouragement"@) == Some(encouragement),
        json_str_field(s.subrange(i, j + 1), "specific_feedback"@) == Some(specific_feedback),
        json_array_field(s.subrange(i, j + 1), "improvement_tips"@) == Some(tips),
        all_strings(tips),
        json_str_field(s.subrange(i, j + 1), "next_challenge"@) == Some(next_challenge),
        json_str_field(s.subrange(i, j + 1), "motivation_level"@) == Some(motivation_level),
        json_str_field(s.subrange(i, j + 1), "difficulty_adjustment"@) == Some(
            difficulty_adjustment,
        ),
    ensures
        decoded_feedback(s) == (FeedbackModel {
            encouragement,
            specific_feedback,
            improvement_tips: string_items(tips),
            next_challenge,
            motivation_level,
            difficulty_adjustment,
        }),
{
    lemma_brace_span_at(s, i, j);
}

/// Law: a text without a first-`{`-then-last-`}` pair decodes to the
/// designated no-JSON canned record.
pub proof fn lemma_decode_no_json(s: Seq<char>)
    requires
        !s.contains('{') || !s.contains('}') || !has_brace_span(s),
    ensures
        decoded_feedback(s) == no_json_feedback(),
{
    assert(!has_brace_span(s)) by {
        if has_brace_span(s) {
            let (i2, j2): (int, int) = choose|x: int, y: int|
                is_first_of(s, '{', x) && is_last_of(s, '}', y) && x <= y;
            assert(s[i2] == '{');
            assert(s[j2] == '}');
            assert(s.contains('{'));
            assert(s.contains('}'));
        }
    }
}

/// Law: a text whose brace span fails to parse as JSON decodes to the
/// designated invalid-JSON canned record, which differs from the
/// no-JSON one.
pub proof fn lemma_decode_invalid_json(s: Seq<char>, i: int, j: int)
    requires
        is_first_of(s, '{', i),
        is_last_of(s, '}', j),
        i <= j,
        !json_doc_ok(s.subrange(i, j + 1)),
    ensures
        decoded_feedback(s) == invalid_json_feedback(),
        invalid_json_feedback() != no_json_feedback(),
{
    lemma_brace_span_at(s, i, j);
    reveal_strlit("很好的練習！您正在進步中。");
    reveal_strlit("很棒的嘗試！每一次練習都是進步。");
    assert(invalid_json_feedback().encouragement.len() != no_json_feedback().encouragement.len());
}

/// Law: a parseable brace span whose `improvement_tips` is absent, not
/// an array, or an array with a non-string element decodes with exactly
/// the two-item default tip list, every other present field kept
/// verbatim.
pub proof fn lemma_decode_default_tips(s: Seq<char>, i: int, j: int)
    requires
        is_first_of(s, '{', i),
        is_last_of(s, '}', j),
        i <= j,
        json_doc_ok(s.subrange(i, j + 1)),
        json_array_field(s.subrange(i, j + 1), "improvement_tips"@) matches Some(items)
            ==> !all_strings(items),
    ensures
        decoded_feedback(s).improvement_tips == seq!["多聽多練"@, "注意語調"@],
        forall|v: Seq<char>|
            json_str_field(s.subrange(i, j + 1), "encouragement"@) == Some(v)
                ==> decoded_feedback(s).encouragement == v,
        forall|v: Seq<char>|
            json_str_field(s.subrange(i, j + 1), "specific_feedback"@) == Some(v)
                ==> decoded_feedback(s).specific_feedback == v,
        forall|v: Seq<char>|
            json_str_field(s.subrange(i, j + 1), "next_challenge"@) == Some(v)
                ==> decoded_feedback(s).next_challenge == v,
        forall|v: Seq<char>|
            json_str_field(s.subrange(i, j + 1), "motivation_level"@) == Some(v)
                ==> decoded_feedback(s).motivation_level == v,
        forall|v: Seq<char>|
            json_str_field(s.subrange(i, j + 1), "difficulty_adjustment"@) == Some(v)
                ==> decoded_feedback(s).difficulty_adjustment == v,
{
    lemma_brace_span_at(s, i, j);
}

} // verus!
