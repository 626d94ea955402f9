use gemini_tutor::content::create_fallback_content;
use gemini_tutor::feedback::{create_fallback_feedback, PerformanceMetrics};

fn metrics_with_overall(overall_tenths: u64) -> PerformanceMetrics {
    PerformanceMetrics::new(Some(overall_tenths), Some(700), Some(650), Some(900))
}

#[test]
fn fallback_feedback_high_branch_at_85() {
    let fb = create_fallback_feedback(&metrics_with_overall(850));
    assert_eq!(fb.encouragement, "太棒了！您的發音非常標準，繼續保持這種優秀的表現！");
    assert_eq!(fb.motivation_level, "high");
    assert_eq!(fb.difficulty_adjustment, "maintain");
}

#[test]
fn fallback_feedback_medium_branch_at_65() {
    let fb = create_fallback_feedback(&metrics_with_overall(650));
    assert_eq!(fb.encouragement, "很好的進步！您正在穩步提升，繼續努力！");
    assert_eq!(fb.motivation_level, "medium");
}

#[test]
fn fallback_feedback_reframing_branch_at_30() {
    let fb = create_fallback_feedback(&metrics_with_overall(300));
    assert_eq!(fb.encouragement, "每一次練習都是進步，不要氣餒，您一定會越來越好！");
    assert_eq!(fb.motivation_level, "high");
}

#[test]
fn fallback_feedback_branch_boundaries() {
    assert_eq!(create_fallback_feedback(&metrics_with_overall(800)).motivation_level, "high");
    assert_eq!(create_fallback_feedback(&metrics_with_overall(799)).motivation_level, "medium");
    assert_eq!(create_fallback_feedback(&metrics_with_overall(600)).motivation_level, "medium");
    assert_eq!(
        create_fallback_feedback(&metrics_with_overall(599)).encouragement,
        "每一次練習都是進步，不要氣餒，您一定會越來越好！"
    );
}

#[test]
fn fallback_feedback_fixed_fields() {
    let fb = create_fallback_feedback(&metrics_with_overall(0));
    assert_eq!(fb.specific_feedback, "您的努力很值得讚賞，在發音準確度方面有不錯的表現。");
    assert_eq!(
        fb.improvement_tips,
        vec![
            "每天堅持練習15-20分鐘".to_string(),
            "注意單詞的重音和語調".to_string(),
            "多聽母語者的發音並模仿".to_string()
        ]
    );
    assert_eq!(fb.next_challenge, "嘗試挑戰更複雜的句型練習");
}

#[test]
fn metrics_missing_scores_default_to_zero() {
    let m = PerformanceMetrics::new(None, None, Some(420), None);
    assert_eq!(m.overall, 0);
    assert_eq!(m.pronunciation, 0);
    assert_eq!(m.fluency, 420);
    assert_eq!(m.completeness, 0);
}

#[test]
fn fallback_content_table() {
    assert_eq!(
        create_fallback_content("daily", "beginner"),
        "Hello! How are you today? I hope you have a great day. What are your plans for this weekend?"
    );
    assert_eq!(
        create_fallback_content("daily", "intermediate"),
        "Good morning! I was wondering if you could help me with something. I'm looking for a good restaurant nearby. Do you have any recommendations?"
    );
    assert_eq!(
        create_fallback_content("business", "beginner"),
        "Good morning. I would like to schedule a meeting. When would be a good time for you? Thank you for your time."
    );
    assert_eq!(
        create_fallback_content("business", "intermediate"),
        "I'd like to discuss our quarterly results and explore new opportunities for growth. Could we arrange a conference call with the team next week?"
    );
}

#[test]
fn fallback_content_default_sentence() {
    let generic = "Practice makes perfect. The more you speak, the more confident you become. Keep up the great work and don't be afraid to make mistakes.";
    assert_eq!(create_fallback_content("travel", "beginner"), generic);
    assert_eq!(create_fallback_content("daily", "advanced"), generic);
    assert_eq!(create_fallback_content("", ""), generic);
}
