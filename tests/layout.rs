use grindset::lang::LeetcodeSupportedLang;
use grindset::record::{
    attempt_folder_name, datetime_string, question_attributes_toml, AttemptAttributes,
    QuestionDifficulty, Timestamp,
};
use grindset::session::{
    find_boilerplate, plan_attempt, question_files, question_folder_name, topic_names,
    CodeSnippet, QuestionMeta, TopicTag,
};

fn stamp(second: u8) -> Timestamp {
    Timestamp::new(2024, 1, 2, 3, 4, second, 60).unwrap()
}

fn two_sum() -> QuestionMeta {
    QuestionMeta {
        frontend_id: "1".to_string(),
        title: "Two Sum".to_string(),
        difficulty: QuestionDifficulty::Easy,
    }
}

fn snippet(slug: &str, code: &str) -> CodeSnippet {
    CodeSnippet {
        lang: slug.to_uppercase(),
        lang_slug: slug.to_string(),
        code: code.to_string(),
    }
}

#[test]
fn folder_name_replaces_every_space() {
    assert_eq!(question_folder_name("16", "3Sum Closest"), "16_3Sum_Closest");
    assert_eq!(question_folder_name("7", " a  b "), "7__a__b_");
    assert_eq!(question_folder_name("9", "Don't-Stop"), "9_Don't-Stop");
}

#[test]
fn two_sum_scenario() {
    let files = question_files("py", &two_sum());
    assert_eq!(files.dir, "py/1_Two_Sum");
    assert_eq!(files.description_path, "py/1_Two_Sum/question.md");
    assert_eq!(files.attributes_path, "py/1_Two_Sum/question_attributes.toml");

    let tags = vec![
        TopicTag { name: "Array".to_string() },
        TopicTag { name: "Hash Table".to_string() },
    ];
    let topics = topic_names(&tags);
    assert_eq!(topics, vec!["Array".to_string(), "Hash Table".to_string()]);
    let text = question_attributes_toml(QuestionDifficulty::Easy, &topics);
    assert_eq!(text, "difficulty = \"Easy\"\ntopics = [\"Array\", \"Hash Table\"]\n");

    let snippets = vec![
        snippet("cpp", "class Solution {};"),
        snippet("python3", "def twoSum(...): ..."),
    ];
    let lang = LeetcodeSupportedLang::Python3;
    let plan = plan_attempt(&files.dir, "py", lang, stamp(5), &snippets);
    assert_eq!(plan.dir, "py/1_Two_Sum/20240102_030405");
    assert_eq!(plan.code_path, "py/1_Two_Sum/20240102_030405/attempt.py");
    assert_eq!(plan.code, Some("def twoSum(...): ...".to_string()));
    assert_eq!(plan.diagnostic, None);
    assert_eq!(
        plan.attributes_path,
        "py/1_Two_Sum/20240102_030405/attempt_attributes.toml"
    );
}

#[test]
fn missing_boilerplate_is_reported() {
    let snippets = vec![snippet("cpp", "class Solution {};")];
    let plan = plan_attempt(
        "py/1_Two_Sum",
        "py",
        LeetcodeSupportedLang::Python3,
        stamp(5),
        &snippets,
    );
    assert_eq!(plan.code, None);
    assert_eq!(
        plan.diagnostic,
        Some("No boilerplate for language: python3".to_string())
    );
    assert!(!plan.attributes.is_empty());
}

#[test]
fn first_matching_snippet_wins() {
    let snippets = vec![
        snippet("rust", "first"),
        snippet("golang", "go code"),
        snippet("rust", "second"),
    ];
    assert_eq!(
        find_boilerplate(&snippets, LeetcodeSupportedLang::Rust),
        Some("first".to_string())
    );
    assert_eq!(
        find_boilerplate(&snippets, LeetcodeSupportedLang::Go),
        Some("go code".to_string())
    );
    assert_eq!(find_boilerplate(&snippets, LeetcodeSupportedLang::C), None);
    assert_eq!(find_boilerplate(&Vec::new(), LeetcodeSupportedLang::C), None);
}

#[test]
fn attempt_record_reads_back() {
    let plan = plan_attempt("q", "rs", LeetcodeSupportedLang::Rust, stamp(5), &Vec::new());
    assert_eq!(
        plan.attributes,
        "success = false\n\
         perceived_trickiness = 1 # 7-point scale: 1 is brain-dead, 7 is diabolical\n\
         attempt_start_time = 2024-01-02T03:04:05+01:00\n\
         attempt_end_time = 2024-01-02T03:04:05+01:00\n\
         reflections = \"\"\"\"\"\" # This is multiline!\n"
    );
    let parsed: toml::Table = plan.attributes.parse().unwrap();
    assert_eq!(parsed["success"].as_bool(), Some(false));
    assert_eq!(parsed["perceived_trickiness"].as_integer(), Some(1));
    assert_eq!(parsed["reflections"].as_str(), Some(""));
    assert!(parsed["attempt_start_time"].as_datetime().is_some());
    assert_eq!(parsed["attempt_start_time"], parsed["attempt_end_time"]);
}

#[test]
fn record_with_reflections_reads_back() {
    let mut record = AttemptAttributes::new_attempt(stamp(9));
    record.success = true;
    record.perceived_trickiness = 7;
    record.reflections = "went fine".to_string();
    let text = record.to_toml();
    let parsed: toml::Table = text.parse().unwrap();
    assert_eq!(parsed["success"].as_bool(), Some(true));
    assert_eq!(parsed["perceived_trickiness"].as_integer(), Some(7));
    assert_eq!(parsed["reflections"].as_str(), Some("went fine"));
}

#[test]
fn repeated_runs_keep_question_files_and_add_attempts() {
    let first = question_files("py", &two_sum());
    let second = question_files("py", &two_sum());
    assert_eq!(first.dir, second.dir);
    let topics = vec!["Array".to_string()];
    assert_eq!(
        question_attributes_toml(QuestionDifficulty::Easy, &topics),
        question_attributes_toml(QuestionDifficulty::Easy, &topics)
    );
    let a = plan_attempt(&first.dir, "py", LeetcodeSupportedLang::Python3, stamp(5), &Vec::new());
    let b = plan_attempt(&first.dir, "py", LeetcodeSupportedLang::Python3, stamp(6), &Vec::new());
    assert_ne!(a.dir, b.dir);
}

#[test]
fn folder_name_is_zero_padded() {
    let t = Timestamp::new(987, 3, 9, 0, 7, 0, 0).unwrap();
    assert_eq!(attempt_folder_name(&t), "09870309_000700");
    assert_eq!(datetime_string(&t), "0987-03-09T00:07:00+00:00");
}

#[test]
fn negative_offsets_are_signed() {
    let t = Timestamp::new(2023, 12, 31, 23, 59, 59, -330).unwrap();
    assert_eq!(datetime_string(&t), "2023-12-31T23:59:59-05:30");
}

#[test]
fn out_of_range_fields_are_refused() {
    assert!(Timestamp::new(2024, 13, 1, 0, 0, 0, 0).is_none());
    assert!(Timestamp::new(2024, 0, 1, 0, 0, 0, 0).is_none());
    assert!(Timestamp::new(2024, 1, 32, 0, 0, 0, 0).is_none());
    assert!(Timestamp::new(2024, 1, 1, 24, 0, 0, 0).is_none());
    assert!(Timestamp::new(2024, 1, 1, 0, 60, 0, 0).is_none());
    assert!(Timestamp::new(2024, 1, 1, 0, 0, 60, 0).is_none());
    assert!(Timestamp::new(10000, 1, 1, 0, 0, 0, 0).is_none());
    assert!(Timestamp::new(2024, 1, 1, 0, 0, 0, 1440).is_none());
    assert!(Timestamp::new(9999, 12, 31, 23, 59, 59, -1439).is_some());
}

#[test]
fn topic_strings_are_quoted_as_toml() {
    let topics = vec!["say \"hi\"".to_string(), "b\\c".to_string()];
    let text = question_attributes_toml(QuestionDifficulty::Hard, &topics);
    assert_eq!(text, "difficulty = \"Hard\"\ntopics = ['say \"hi\"', 'b\\c']\n");
    let parsed: toml::Table = text.parse().unwrap();
    assert_eq!(parsed["topics"][0].as_str(), Some("say \"hi\""));
    assert_eq!(parsed["topics"][1].as_str(), Some("b\\c"));
    assert_eq!(
        question_attributes_toml(QuestionDifficulty::Medium, &Vec::new()),
        "difficulty = \"Medium\"\ntopics = []\n"
    );
}

#[test]
fn tabs_in_topics_are_escaped() {
    let topics = vec!["a\tb".to_string(), "Hash Table".to_string()];
    let text = question_attributes_toml(QuestionDifficulty::Medium, &topics);
    assert_eq!(text, "difficulty = \"Medium\"\ntopics = [\"a\\tb\", \"Hash Table\"]\n");
    let parsed: toml::Table = text.parse().unwrap();
    assert_eq!(parsed["topics"][0].as_str(), Some("a\tb"));
}
