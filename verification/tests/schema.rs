use chat_gateway::schema::{
    decode_chat_completion, decode_choice, decode_choices, decode_grok, decode_grok_usage,
    decode_message, decode_usage,
};

fn value(text: &str) -> serde_json::Value {
    serde_json::from_str(text).unwrap()
}

#[test]
fn message_keeps_content_role_and_tool_calls() {
    let v = value("{\"content\":\"hello\",\"role\":\"assistant\",\"tool_calls\":[{\"id\":\"t1\"}]}");
    let message = decode_message(&v).unwrap();
    assert_eq!(message.content, "hello");
    assert_eq!(message.role, "assistant");
    assert_eq!(message.tool_calls, Some(value("[{\"id\":\"t1\"}]")));
}

#[test]
fn message_without_tool_calls_has_none() {
    let message = decode_message(&value("{\"content\":\"x\",\"role\":\"user\"}")).unwrap();
    assert_eq!(message.tool_calls, None);
}

#[test]
fn message_needs_content_and_role_as_text() {
    for text in [
        "{\"role\":\"user\"}",
        "{\"content\":\"x\"}",
        "{\"content\":1,\"role\":\"user\"}",
        "{\"content\":\"x\",\"role\":null}",
        "[\"x\",\"user\"]",
        "\"x\"",
        "null",
    ] {
        assert!(decode_message(&value(text)).is_none());
    }
}

#[test]
fn choice_keeps_its_members() {
    let v = value(
        "{\"finish_reason\":\"length\",\"index\":2,\"message\":{\"content\":\"c\",\"role\":\"r\"},\
         \"logprobs\":{\"tokens\":[]},\"more\":1}",
    );
    let choice = decode_choice(&v).unwrap();
    assert_eq!(choice.finish_reason, "length");
    assert_eq!(choice.index, 2);
    assert_eq!(choice.message.content, "c");
    assert_eq!(choice.message.role, "r");
    assert_eq!(choice.logprobs, Some(value("{\"tokens\":[]}")));
}

#[test]
fn choice_index_is_an_integer_that_fits() {
    let with_index = |index: &str| {
        value(&format!(
            "{{\"finish_reason\":\"stop\",\"index\":{},\"message\":{{\"content\":\"c\",\"role\":\"r\"}}}}",
            index
        ))
    };
    assert_eq!(decode_choice(&with_index("-9223372036854775808")).unwrap().index, i64::MIN);
    assert_eq!(decode_choice(&with_index("9223372036854775807")).unwrap().index, i64::MAX);
    assert!(decode_choice(&with_index("9223372036854775808")).is_none());
    assert!(decode_choice(&with_index("1.0")).is_none());
    assert!(decode_choice(&with_index("\"1\"")).is_none());
}

#[test]
fn choice_needs_a_message() {
    assert!(decode_choice(&value("{\"finish_reason\":\"stop\",\"index\":0}")).is_none());
    assert!(decode_choice(&value("{\"finish_reason\":\"stop\",\"index\":0,\"message\":{}}")).is_none());
    assert!(decode_choice(&value(
        "{\"index\":0,\"message\":{\"content\":\"c\",\"role\":\"r\"}}"
    ))
    .is_none());
}

#[test]
fn choices_come_in_their_order() {
    let items = vec![
        value("{\"finish_reason\":\"a\",\"index\":0,\"message\":{\"content\":\"one\",\"role\":\"r\"}}"),
        value("{\"finish_reason\":\"b\",\"index\":1,\"message\":{\"content\":\"two\",\"role\":\"r\"}}"),
    ];
    let choices = decode_choices(&items).unwrap();
    assert_eq!(choices.len(), 2);
    assert_eq!(choices[0].message.content, "one");
    assert_eq!(choices[1].message.content, "two");
    assert_eq!(decode_choices(&Vec::new()).unwrap().len(), 0);
}

#[test]
fn one_bad_choice_spoils_the_list() {
    let items = vec![
        value("{\"finish_reason\":\"a\",\"index\":0,\"message\":{\"content\":\"one\",\"role\":\"r\"}}"),
        value("{\"finish_reason\":\"b\",\"message\":{\"content\":\"two\",\"role\":\"r\"}}"),
    ];
    assert!(decode_choices(&items).is_none());
}

#[test]
fn token_counts_are_read() {
    let usage = decode_grok_usage(&value(
        "{\"completion_tokens\":3,\"prompt_tokens\":5,\"total_tokens\":8}",
    ))
    .unwrap();
    assert_eq!((usage.completion_tokens, usage.prompt_tokens, usage.total_tokens), (3, 5, 8));
    assert!(decode_grok_usage(&value("{\"completion_tokens\":3,\"prompt_tokens\":5}")).is_none());
    assert!(decode_grok_usage(&value(
        "{\"completion_tokens\":3.5,\"prompt_tokens\":5,\"total_tokens\":8}"
    ))
    .is_none());
}

const FULL_USAGE: &str = "{\"completion_tokens\":3,\"prompt_tokens\":5,\"total_tokens\":8,\
\"avg_tok_per_sec\":12.5,\"avg_prompt_tok_per_sec\":100,\"avg_compl_tok_per_sec\":9.75,\
\"total_time_sec\":0.64,\"total_prompt_time_sec\":0.05,\"total_completion_time_sec\":0.59}";

#[test]
fn throughput_is_kept_as_it_came() {
    let usage = decode_usage(&value(FULL_USAGE)).unwrap();
    assert_eq!((usage.completion_tokens, usage.prompt_tokens, usage.total_tokens), (3, 5, 8));
    assert_eq!(usage.avg_tok_per_sec.as_f64(), Some(12.5));
    assert_eq!(usage.avg_prompt_tok_per_sec.as_f64(), Some(100.0));
    assert_eq!(usage.avg_compl_tok_per_sec.as_f64(), Some(9.75));
    assert_eq!(usage.total_time_sec.as_f64(), Some(0.64));
    assert_eq!(usage.total_prompt_time_sec.as_f64(), Some(0.05));
    assert_eq!(usage.total_completion_time_sec.as_f64(), Some(0.59));
}

#[test]
fn throughput_must_be_numbers() {
    let text = FULL_USAGE.replace("\"total_time_sec\":0.64", "\"total_time_sec\":\"0.64\"");
    assert!(decode_usage(&value(&text)).is_none());
    let text = FULL_USAGE.replace(",\"avg_tok_per_sec\":12.5", "");
    assert!(decode_usage(&value(&text)).is_none());
}

#[test]
fn both_dialects_keep_the_common_members() {
    let head = "\"id\":\"i\",\"choices\":[],\"created\":-4,\"model\":\"m\",\
                \"system_fingerprint\":\"f\",\"object\":\"o\"";
    let grok = decode_grok(&value(&format!(
        "{{{},\"usage\":{{\"completion_tokens\":1,\"prompt_tokens\":2,\"total_tokens\":3}}}}",
        head
    )))
    .unwrap();
    assert_eq!(grok.id, "i");
    assert_eq!(grok.choices.len(), 0);
    assert_eq!(grok.created, -4);
    assert_eq!(grok.model, "m");
    assert_eq!(grok.system_fingerprint, "f");
    assert_eq!(grok.object, "o");
    assert_eq!(grok.usage.total_tokens, 3);
    let open = decode_chat_completion(&value(&format!("{{{},\"usage\":{}}}", head, FULL_USAGE)))
        .unwrap();
    assert_eq!(open.id, "i");
    assert_eq!(open.created, -4);
    assert_eq!(open.usage.prompt_tokens, 5);
    assert!(decode_grok(&value(&format!("{{{}}}", head))).is_none());
    assert!(decode_chat_completion(&value(&format!("{{{}}}", head))).is_none());
}

#[test]
fn choices_must_be_an_array() {
    let text = "{\"id\":\"i\",\"choices\":{},\"created\":1,\"model\":\"m\",\
                \"system_fingerprint\":\"f\",\"object\":\"o\",\
                \"usage\":{\"completion_tokens\":1,\"prompt_tokens\":2,\"total_tokens\":3}}";
    assert!(decode_grok(&value(text)).is_none());
}

#[test]
fn a_copy_of_a_record_equals_it() {
    let v = value(
        "{\"finish_reason\":\"length\",\"index\":2,\"message\":{\"content\":\"c\",\"role\":\"r\",\
         \"tool_calls\":[1,2]},\"logprobs\":{\"tokens\":[]}}",
    );
    let choice = decode_choice(&v).unwrap();
    let copy = choice.clone();
    assert_eq!(copy, choice);
    assert_eq!(copy.message.clone(), choice.message);
    let usage = decode_usage(&value(FULL_USAGE)).unwrap();
    assert_eq!(usage.clone(), usage);
}

#[test]
fn a_copy_of_a_completion_keeps_its_choices() {
    let head = "\"id\":\"i\",\"choices\":[{\"finish_reason\":\"a\",\"index\":0,\
                \"message\":{\"content\":\"one\",\"role\":\"r\"}},{\"finish_reason\":\"b\",\
                \"index\":1,\"message\":{\"content\":\"two\",\"role\":\"r\"}}],\"created\":1,\
                \"model\":\"m\",\"system_fingerprint\":\"f\",\"object\":\"o\"";
    let grok = decode_grok(&value(&format!(
        "{{{},\"usage\":{{\"completion_tokens\":1,\"prompt_tokens\":2,\"total_tokens\":3}}}}",
        head
    )))
    .unwrap();
    let copy = grok.clone();
    assert_eq!(copy, grok);
    assert_eq!(copy.choices.len(), 2);
    assert_eq!(copy.choices[1].message.content, "two");
    let open = decode_chat_completion(&value(&format!("{{{},\"usage\":{}}}", head, FULL_USAGE)))
        .unwrap();
    assert_eq!(open.clone(), open);
}
