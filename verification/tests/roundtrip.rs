use openai_rs::endpoints::answer::Answer;
use openai_rs::endpoints::classification::Classification;
use openai_rs::endpoints::search::Search;
use openai_rs::json::Decimal;

#[test]
fn answer_body_parses_back_field_by_field() {
    let answer = Answer {
        question: String::from("Where is the Valley of Kings?"),
        examples: vec![[
            String::from("What is human life expectancy in the United States?"),
            String::from("78 years."),
        ]],
        examples_context: String::from("In 2017, U.S. life expectancy was 78.6 years."),
        documents: vec![String::from("Egypt"), String::from("The Nile")],
        max_tokens: 5,
        n: 2,
        logit_bias: vec![(String::from("50256"), -100)],
        stop: Some(['\n', '.', ',', ' ']),
        user: String::from("user-123"),
        ..Answer::default()
    };
    let json = answer.to_json();
    let value: serde_json::Value = serde_json::from_str(&json).unwrap();
    assert_eq!(value["model"].as_str(), Some("ada"));
    assert_eq!(value["question"].as_str(), Some("Where is the Valley of Kings?"));
    assert_eq!(value["examples"][0][1].as_str(), Some("78 years."));
    assert_eq!(value["documents"].as_array().unwrap().len(), 2);
    assert_eq!(value["documents"][1].as_str(), Some("The Nile"));
    assert_eq!(value["file"], serde_json::Value::Null);
    assert_eq!(value["max_rerank"].as_u64(), Some(200));
    assert_eq!(value["temperature"].as_f64(), Some(0.0));
    assert_eq!(value["max_tokens"].as_u64(), Some(5));
    assert_eq!(value["n"].as_u64(), Some(2));
    assert_eq!(value["stop"][0].as_str(), Some("\n"));
    assert_eq!(value["stop"][3].as_str(), Some(" "));
    assert_eq!(value["logit_bias"]["50256"].as_i64(), Some(-100));
    assert_eq!(value["return_metadata"].as_bool(), Some(false));
    assert_eq!(value["user"].as_str(), Some("user-123"));
}

#[test]
fn classification_body_parses_back_field_by_field() {
    let classification = Classification {
        query: String::from("It is a raining day :("),
        examples: vec![
            [String::from("A happy moment"), String::from("Positive")],
            [String::from("I am sad."), String::from("Negative")],
        ],
        labels: vec![
            String::from("Positive"),
            String::from("Negative"),
            String::from("Neutral"),
        ],
        temperature: Decimal { negative: false, mantissa: 9, scale: 1 },
        logit_bias: vec![(String::from("198"), 21)],
        ..Classification::default()
    };
    let json = classification.to_json();
    let value: serde_json::Value = serde_json::from_str(&json).unwrap();
    assert_eq!(value["model"].as_str(), Some("davinci"));
    assert_eq!(value["search_model"].as_str(), Some("ada"));
    assert_eq!(value["query"].as_str(), Some("It is a raining day :("));
    assert_eq!(value["examples"].as_array().unwrap().len(), 2);
    assert_eq!(value["examples"][1][0].as_str(), Some("I am sad."));
    assert_eq!(value["labels"][2].as_str(), Some("Neutral"));
    assert_eq!(value["temperature"].as_f64(), Some(0.9));
    assert_eq!(value["max_examples"].as_u64(), Some(200));
    assert_eq!(value["logit_bias"]["198"].as_i64(), Some(21));
}

#[test]
fn search_body_with_escapes_parses_back() {
    let search = Search {
        query: String::from("a \"quoted\"\tquery\nwith control \u{1b} bytes"),
        documents: vec![String::from("White House"), String::from("hospital\\school")],
        file: Some(String::from("file-123")),
        max_rerank: 5,
        return_metadata: true,
        ..Search::default()
    };
    let json = search.to_json();
    let value: serde_json::Value = serde_json::from_str(&json).unwrap();
    assert_eq!(
        value["query"].as_str(),
        Some("a \"quoted\"\tquery\nwith control \u{1b} bytes")
    );
    assert_eq!(value["documents"][1].as_str(), Some("hospital\\school"));
    assert_eq!(value["file"].as_str(), Some("file-123"));
    assert_eq!(value["max_rerank"].as_u64(), Some(5));
    assert_eq!(value["return_metadata"].as_bool(), Some(true));
}

#[test]
fn decimal_values_parse_as_numbers() {
    let search = Search::default();
    let json = search.to_json();
    assert!(serde_json::from_str::<serde_json::Value>(&json).is_ok());
    let classification = Classification {
        temperature: Decimal { negative: true, mantissa: 1275, scale: 2 },
        ..Classification::default()
    };
    let value: serde_json::Value =
        serde_json::from_str(&classification.to_json()).unwrap();
    assert_eq!(value["temperature"].as_f64(), Some(-12.75));
}
