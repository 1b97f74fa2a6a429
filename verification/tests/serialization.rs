use openai_rs::endpoints::answer::Answer;
use openai_rs::endpoints::classification::Classification;
use openai_rs::endpoints::edits::Edit;
use openai_rs::endpoints::search::Search;
use openai_rs::json::Decimal;

#[test]
fn edit_default_serializes_to_documented_defaults() {
    let edit = Edit::default();
    assert_eq!(
        edit.to_json(),
        "{\"input\":\"\",\"instruction\":\"\",\"temperature\":0.0,\"top_p\":0.0}"
    );
}

#[test]
fn search_default_serializes_to_documented_defaults() {
    let search = Search::default();
    assert_eq!(
        search.to_json(),
        "{\"query\":\"\",\"documents\":[],\"file\":null,\"max_rerank\":200,\
         \"return_metadata\":false,\"user\":\"\"}"
    );
}

#[test]
fn classification_default_serializes_to_documented_defaults() {
    let classification = Classification::default();
    assert_eq!(
        classification.to_json(),
        "{\"model\":\"davinci\",\"query\":\"\",\"examples\":[],\"file\":null,\
         \"labels\":[],\"search_model\":\"ada\",\"temperature\":0.0,\"logprobs\":0,\
         \"max_examples\":200,\"logit_bias\":{},\"return_prompt\":false,\
         \"return_metadata\":false,\"expand\":[],\"user\":\"\"}"
    );
}

#[test]
fn answer_default_serializes_to_documented_defaults() {
    let answer = Answer::default();
    assert_eq!(
        answer.to_json(),
        "{\"model\":\"ada\",\"question\":\"\",\"examples\":[],\"examples_context\":\"\",\
         \"documents\":[],\"file\":null,\"search_model\":\"ada\",\"max_rerank\":200,\
         \"temperature\":0.0,\"logprobs\":0,\"max_tokens\":16,\"stop\":null,\"n\":1,\
         \"logit_bias\":{},\"return_metadata\":false,\"return_prompt\":false,\
         \"expand\":[],\"user\":\"\"}"
    );
}

#[test]
fn strings_are_escaped() {
    let edit = Edit {
        input: String::from("say \"hi\"\nplease\\"),
        instruction: String::from("tab\there"),
        ..Edit::default()
    };
    assert_eq!(
        edit.to_json(),
        "{\"input\":\"say \\\"hi\\\"\\nplease\\\\\",\"instruction\":\"tab\\there\",\
         \"temperature\":0.0,\"top_p\":0.0}"
    );
}

#[test]
fn control_characters_use_unicode_escapes() {
    let edit = Edit {
        input: String::from("\u{1}\u{8}\u{c}\u{1f}"),
        ..Edit::default()
    };
    assert_eq!(
        edit.to_json(),
        "{\"input\":\"\\u0001\\b\\f\\u001f\",\"instruction\":\"\",\
         \"temperature\":0.0,\"top_p\":0.0}"
    );
}

#[test]
fn non_ascii_characters_pass_through() {
    let search = Search {
        query: String::from("gr\u{fc}\u{df}e \u{65e5}\u{672c}"),
        ..Search::default()
    };
    let json = search.to_json();
    assert!(json.starts_with("{\"query\":\"gr\u{fc}\u{df}e \u{65e5}\u{672c}\""));
}

#[test]
fn decimal_renders_with_point() {
    assert_eq!(Decimal { negative: false, mantissa: 12345, scale: 2 }.render(), "123.45");
    assert_eq!(Decimal { negative: false, mantissa: 9, scale: 1 }.render(), "0.9");
    assert_eq!(Decimal { negative: false, mantissa: 9, scale: 3 }.render(), "0.009");
    assert_eq!(Decimal { negative: false, mantissa: 0, scale: 1 }.render(), "0.0");
}

#[test]
fn decimal_renders_integers_and_signs() {
    assert_eq!(Decimal { negative: false, mantissa: 42, scale: 0 }.render(), "42");
    assert_eq!(Decimal { negative: true, mantissa: 5, scale: 1 }.render(), "-0.5");
    assert_eq!(Decimal { negative: true, mantissa: 1200, scale: 2 }.render(), "-12.00");
}

#[test]
fn logit_bias_and_stop_serialize_in_order() {
    let answer = Answer {
        logit_bias: vec![
            (String::from("50256"), -100),
            (String::from("198"), 25),
        ],
        stop: Some(['.', ',', ';', '!']),
        ..Answer::default()
    };
    let json = answer.to_json();
    assert!(json.contains("\"logit_bias\":{\"50256\":-100,\"198\":25}"));
    assert!(json.contains("\"stop\":[\".\",\",\",\";\",\"!\"]"));
}

#[test]
fn examples_serialize_as_pairs() {
    let classification = Classification {
        examples: vec![
            [String::from("The movie is so interesting."), String::from("Positive")],
            [String::from("It is quite boring."), String::from("Negative")],
        ],
        labels: vec![String::from("Positive"), String::from("Negative")],
        ..Classification::default()
    };
    let json = classification.to_json();
    assert!(json.contains(
        "\"examples\":[[\"The movie is so interesting.\",\"Positive\"],\
         [\"It is quite boring.\",\"Negative\"]]"
    ));
    assert!(json.contains("\"labels\":[\"Positive\",\"Negative\"]"));
}
