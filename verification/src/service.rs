use vstd::prelude::*;

verus! {

use vstd::string::StringExecFns;
use crate::content::{create_fallback_content, fallback_content_model};
use crate::feedback::{
    create_fallback_feedback, decoded_feedback, fallback_feedback_model, parse_tutor_response,
    PerformanceMetrics, TutorFeedback,
};
use crate::jsontext::{trim_of, trim_text};
use crate::model::{
    Content, GeminiConfig, GeminiRequest, GenError, GenerationConfig, Part, SafetySetting,
};
use crate::numfmt::{fmt_tenths, tenths_str};
use crate::textscan::{join_with, joined_with, prefix_chars};

/// The tutoring-feedback prompt: scores and context embedded in a
/// template that demands a six-field JSON reply.
pub open spec fn tutor_prompt_model(
    context: Seq<char>,
    overall: int,
    pronunciation: int,
    fluency: int,
    completeness: int,
) -> Seq<char> {
    "你是一位專業的英語口語私人導師，具有豐富的教學經驗和激勵學生的能力。請根據學生的練習表現提供個性化的反饋和指導。\n\n學生練習情況：\n- 練習內容："@
        + context + "\n- 總體得分："@ + tenths_str(overall) + "分\n- 發音準確度："@ + tenths_str(
        pronunciation,
    ) + "分\n- 流利度："@ + tenths_str(fluency) + "分\n- 完整度："@ + tenths_str(completeness)
        + "分\n\n請以JSON格式回應，包含以下字段：\n{\n  \"encouragement\": \"鼓勵性話語，要具體且真誠\",\n  \"specific_feedback\": \"針對具體表現的詳細反饋\",\n  \"improvement_tips\": [\"改進建議1\", \"改進建議2\", \"改進建議3\"],\n  \"next_challenge\": \"下一步挑戰或練習建議\",\n  \"motivation_level\": \"根據表現判斷激勵程度：high/medium/low\",\n  \"difficulty_adjustment\": \"難度調整建議：increase/maintain/decrease\"\n}\n\n要求：\n1. 鼓勵為主，建設性批評為輔\n2. 提供具體可行的改進建議\n3. 根據分數水平調整激勵策略\n4. 像Duolingo一樣提供即時、積極的反饋\n5. 使用繁體中文回應"@
}

/// The practice-content prompt: topic, difficulty tier and the
/// comma-joined interest list embedded in a plain-text template.
pub open spec fn practice_prompt_model(
    topic: Seq<char>,
    difficulty: Seq<char>,
    interests: Seq<Seq<char>>,
) -> Seq<char> {
    "作為英語口語教學專家，請為學生生成個性化的練習內容。\n\n要求：\n- 主題："@ + topic
        + "\n- 難度等級："@ + difficulty + "\n- 學生興趣："@ + joined_with(interests, "、"@)
        + "\n\n請生成一段適合的英語練習文本（50-100詞），要求：\n1. 符合指定主題和難度\n2. 融入學生的興趣點\n3. 語言自然流暢\n4. 適合口語練習\n5. 包含常用詞彙和句型\n\n只返回練習文本，不要其他說明。"@
}

/// The speech-annotation prompt: the raw text embedded in a template
/// that asks for annotated plain text.
pub open spec fn speech_prompt_model(text: Seq<char>) -> Seq<char> {
    "請將以下文本轉換為適合語音合成的格式，添加適當的語調標記和停頓：\n\n原文："@ + text
        + "\n\n要求：\n1. 保持原意不變\n2. 添加適當的語調變化\n3. 標記重音位置\n4. 適合英語學習者聽讀\n\n只返回優化後的文本，不要其他說明。"@
}

/// The JSON-shaped payload handed back by the speech-annotation
/// operation; the texts are embedded verbatim, unescaped.
pub open spec fn speech_payload_model(enhanced: Seq<char>, original: Seq<char>) -> Seq<char> {
    "{\"enhanced_text\": \""@ + enhanced + "\", \"original_text\": \""@ + original + "\"}"@
}

/// Builds prompts and request bodies for the generation API.
pub struct GeminiService {
    pub config: GeminiConfig,
}

impl GeminiService {
    /// A service aimed at the fixed model and endpoint.
    pub fn new(api_key: String) -> (r: Self)
        ensures
            r.config.api_key@ == api_key@,
            r.config.model@ == "gemini-1.5-pro"@,
            r.config.base_url@ == "https://gemini.66666618.xyz/v1beta/models"@,
    {
        GeminiService {
            config: GeminiConfig {
                api_key,
                model: String::from_str("gemini-1.5-pro"),
                base_url: String::from_str("https://gemini.66666618.xyz/v1beta/models"),
            },
        }
    }

    /// The endpoint URL for one generation call, keyed in the query string.
    pub fn generate_url(&self) -> (r: String)
        ensures
            r@ == self.config.base_url@ + "/"@ + self.config.model@ + ":generateContent?key="@
                + self.config.api_key@,
    {
        let mut s = String::new();
        s.append(self.config.base_url.as_str());
        s.append("/");
        s.append(self.config.model.as_str());
        s.append(":generateContent?key=");
        s.append(self.config.api_key.as_str());
        s
    }

    /// Renders the tutoring-feedback prompt, scores to one decimal place.
    pub fn create_tutor_prompt(
        &self,
        user_performance: &PerformanceMetrics,
        practice_context: &str,
    ) -> (r: String)
        requires
            user_performance.wf(),
        ensures
            r@ == tutor_prompt_model(
                practice_context@,
                user_performance.overall as int,
                user_performance.pronunciation as int,
                user_performance.fluency as int,
                user_performance.completeness as int,
            ),
    {
        let mut s = String::from_str(
            "你是一位專業的英語口語私人導師，具有豐富的教學經驗和激勵學生的能力。請根據學生的練習表現提供個性化的反饋和指導。\n\n學生練習情況：\n- 練習內容：",
        );
        s.append(practice_context);
        s.append("\n- 總體得分：");
        let overall = fmt_tenths(user_performance.overall);
        s.append(overall.as_str());
        s.append("分\n- 發音準確度：");
        let pronunciation = fmt_tenths(user_performance.pronunciation);
        s.append(pronunciation.as_str());
        s.append("分\n- 流利度：");
        let fluency = fmt_tenths(user_performance.fluency);
        s.append(fluency.as_str());
        s.append("分\n- 完整度：");
        let completeness = fmt_tenths(user_performance.completeness);
        s.append(completeness.as_str());
        s.append(
            "分\n\n請以JSON格式回應，包含以下字段：\n{\n  \"encouragement\": \"鼓勵性話語，要具體且真誠\",\n  \"specific_feedback\": \"針對具體表現的詳細反饋\",\n  \"improvement_tips\": [\"改進建議1\", \"改進建議2\", \"改進建議3\"],\n  \"next_challenge\": \"下一步挑戰或練習建議\",\n  \"motivation_level\": \"根據表現判斷激勵程度：high/medium/low\",\n  \"difficulty_adjustment\": \"難度調整建議：increase/maintain/decrease\"\n}\n\n要求：\n1. 鼓勵為主，建設性批評為輔\n2. 提供具體可行的改進建議\n3. 根據分數水平調整激勵策略\n4. 像Duolingo一樣提供即時、積極的反饋\n5. 使用繁體中文回應",
        );
        s
    }

    /// Renders the practice-content prompt.
    pub fn create_practice_prompt(
        &self,
        topic: &str,
        difficulty_level: &str,
        user_interests: &Vec<String>,
    ) -> (r: String)
        ensures
            r@ == practice_prompt_model(topic@, difficulty_level@, user_interests.deep_view()),
    {
        let mut s = String::from_str(
            "作為英語口語教學專家，請為學生生成個性化的練習內容。\n\n要求：\n- 主題：",
        );
        s.append(topic);
        s.append("\n- 難度等級：");
        s.append(difficulty_level);
        s.append("\n- 學生興趣：");
        let interests = join_with(user_interests, "、");
        s.append(interests.as_str());
        s.append(
            "\n\n請生成一段適合的英語練習文本（50-100詞），要求：\n1. 符合指定主題和難度\n2. 融入學生的興趣點\n3. 語言自然流暢\n4. 適合口語練習\n5. 包含常用詞彙和句型\n\n只返回練習文本，不要其他說明。",
        );
        s
    }

    /// Renders the speech-annotation prompt.
    pub fn create_speech_prompt(&self, text: &str) -> (r: String)
        ensures
            r@ == speech_prompt_model(text@),
    {
        let mut s = String::from_str(
            "請將以下文本轉換為適合語音合成的格式，添加適當的語調標記和停頓：\n\n原文：",
        );
        s.append(text);
        s.append(
            "\n\n要求：\n1. 保持原意不變\n2. 添加適當的語調變化\n3. 標記重音位置\n4. 適合英語學習者聽讀\n\n只返回優化後的文本，不要其他說明。",
        );
        s
    }

    /// The tutoring-feedback request: balanced sampling with two
    /// safety categories blocked at medium and above.
    pub fn build_tutor_request(&self, prompt: String) -> (r: GeminiRequest)
        ensures
            r.contents@.len() == 1,
            r.contents@[0].parts@.len() == 1,
            r.contents@[0].parts@[0].text@ == prompt@,
            r.contents@[0].role matches Some(u) && u@ == "user"@,
            r.generation_config == (GenerationConfig {
                temperature_hundredths: 70u32,
                top_k: 40i32,
                top_p_hundredths: 95u32,
                max_output_tokens: 1024i32,
            }),
            r.safety_settings@.len() == 2,
            r.safety_settings@[0].category@ == "HARM_CATEGORY_HARASSMENT"@,
            r.safety_settings@[0].threshold@ == "BLOCK_MEDIUM_AND_ABOVE"@,
            r.safety_settings@[1].category@ == "HARM_CATEGORY_HATE_SPEECH"@,
            r.safety_settings@[1].threshold@ == "BLOCK_MEDIUM_AND_ABOVE"@,
    {
        let mut safety_settings: Vec<SafetySetting> = Vec::new();
        safety_settings.push(
            SafetySetting {
                category: String::from_str("HARM_CATEGORY_HARASSMENT"),
                threshold: String::from_str("BLOCK_MEDIUM_AND_ABOVE"),
            },
        );
        safety_settings.push(
            SafetySetting {
                category: String::from_str("HARM_CATEGORY_HATE_SPEECH"),
                threshold: String::from_str("BLOCK_MEDIUM_AND_ABOVE"),
            },
        );
        GeminiRequest {
            contents: single_user_content(prompt),
            generation_config: GenerationConfig {
                temperature_hundredths: 70,
                top_k: 40,
                top_p_hundredths: 95,
                max_output_tokens: 1024,
            },
            safety_settings,
        }
    }

    /// The practice-content request: freer sampling, no safety filters.
    pub fn build_practice_request(&self, prompt: String) -> (r: GeminiRequest)
        ensures
            r.contents@.len() == 1,
            r.contents@[0].parts@.len() == 1,
            r.contents@[0].parts@[0].text@ == prompt@,
            r.contents@[0].role matches Some(u) && u@ == "user"@,
            r.generation_config == (GenerationConfig {
                temperature_hundredths: 80u32,
                top_k: 40i32,
                top_p_hundredths: 95u32,
                max_output_tokens: 512i32,
            }),
            r.safety_settings@.len() == 0,
    {
        GeminiRequest {
            contents: single_user_content(prompt),
            generation_config: GenerationConfig {
                temperature_hundredths: 80,
                top_k: 40,
                top_p_hundredths: 95,
                max_output_tokens: 512,
            },
            safety_settings: Vec::new(),
        }
    }

    /// The speech-annotation request: near-deterministic sampling, no
    /// safety filters.
    pub fn build_speech_request(&self, prompt: String) -> (r: GeminiRequest)
        ensures
            r.contents@.len() == 1,
            r.contents@[0].parts@.len() == 1,
            r.contents@[0].parts@[0].text@ == prompt@,
            r.contents@[0].role matches Some(u) && u@ == "user"@,
            r.generation_config == (GenerationConfig {
                temperature_hundredths: 30u32,
                top_k: 20i32,
                top_p_hundredths: 80u32,
                max_output_tokens: 256i32,
            }),
            r.safety_settings@.len() == 0,
    {
        GeminiRequest {
            contents: single_user_content(prompt),
            generation_config: GenerationConfig {
                temperature_hundredths: 30,
                top_k: 20,
                top_p_hundredths: 80,
                max_output_tokens: 256,
            },
            safety_settings: Vec::new(),
        }
    }
}

/// One user turn holding the whole prompt.
fn single_user_content(prompt: String) -> (r: Vec<Content>)
    ensures
        r@.len() == 1,
        r@[0].parts@.len() == 1,
        r@[0].parts@[0].text@ == prompt@,
        r@[0].role matches Some(u) && u@ == "user"@,
{
    let mut parts: Vec<Part> = Vec::new();
    parts.push(Part { text: prompt });
    let mut contents: Vec<Content> = Vec::new();
    contents.push(Content { parts, role: Some(String::from_str("user")) });
    contents
}

/// Feedback boundary policy: a reply is decoded resiliently, and any
/// failure of the call itself is replaced by score-branched fallback
/// feedback — an error never reaches the caller.
pub fn feedback_from_outcome(
    user_performance: &PerformanceMetrics,
    outcome: Result<String, GenError>,
) -> (r: TutorFeedback)
    ensures
        outcome matches Ok(text) ==> r@ == decoded_feedback(text@),
        outcome matches Err(_) ==> r@ == fallback_feedback_model(user_performance.overall as int),
{
    match outcome {
        Ok(text) => parse_tutor_response(text.as_str()),
        Err(_) => create_fallback_feedback(user_performance),
    }
}

/// Practice-content boundary policy: a reply is trimmed, and any
/// failure of the call is replaced by the fixed fallback table.
pub fn content_from_outcome(
    topic: &str,
    difficulty_level: &str,
    outcome: Result<String, GenError>,
) -> (r: String)
    ensures
        outcome matches Ok(raw) ==> r@ == trim_of(raw@),
        outcome matches Err(_) ==> r@ == fallback_content_model(topic@, difficulty_level@),
{
    match outcome {
        Ok(raw) => trim_text(raw.as_str()),
        Err(_) => create_fallback_content(topic, difficulty_level),
    }
}

/// Speech-annotation boundary policy: no fallback — a failure of the
/// call is surfaced to the caller unchanged.
pub fn speech_from_outcome(text: &str, outcome: Result<String, GenError>) -> (r: Result<
    String,
    GenError,
>)
    ensures
        outcome matches Ok(raw) ==> (r matches Ok(p) && p@ == speech_payload_model(
            trim_of(raw@),
            text@,
        )),
        outcome matches Err(e) ==> r == Result::<String, GenError>::Err(e),
{
    match outcome {
        Ok(raw) => {
            let enhanced = trim_text(raw.as_str());
            let mut s = String::from_str("{\"enhanced_text\": \"");
            s.append(enhanced.as_str());
            s.append("\", \"original_text\": \"");
            s.append(text);
            s.append("\"}");
            Ok(s)
        },
        Err(e) => Err(e),
    }
}

/// The report for a completed (re-)initialization.
pub fn initialized_message() -> (r: String)
    ensures
        r@ == "Gemini service initialized successfully"@,
{
    String::from_str("Gemini service initialized successfully")
}

/// The message surfaced when an operation runs before configuration.
pub fn uninitialized_message() -> (r: String)
    ensures
        r@ == "Gemini service not initialized. Please set up your API key first."@,
{
    String::from_str("Gemini service not initialized. Please set up your API key first.")
}

/// The error string surfaced when speech annotation fails.
pub fn speech_failure_message(detail: &str) -> (r: String)
    ensures
        r@ == "Gemini語音合成失敗: "@ + detail@,
{
    let mut s = String::from_str("Gemini語音合成失敗: ");
    s.append(detail);
    s
}

/// The report for a connection test that came back with content; at
/// most the first 50 characters of the content are echoed.
pub fn connection_success_message(content: &str) -> (r: String)
    ensures
        r@ == "連接測試成功！生成的測試內容："@ + (if content@.len() <= 50 {
            content@
        } else {
            content@.subrange(0, 50)
        }),
{
    let mut s = String::from_str("連接測試成功！生成的測試內容：");
    let sample = prefix_chars(content, 50);
    s.append(sample.as_str());
    s
}

/// The report for a connection test that failed.
pub fn connection_failure_message(detail: &str) -> (r: String)
    ensures
        r@ == "連接測試失敗："@ + detail@,
{
    let mut s = String::from_str("連接測試失敗：");
    s.append(detail);
    s
}

} // verus!
