use randy_ng::messages::{
    completion_step, ChatCompletionResponse, Choices, CompletionStep, Data, Message,
    ModelListResponse, RandomResult, Request, Role, LLM_INPUT,
};
use randy_ng::screen::MenuType;
use randy_ng::Cli;

fn reply(contents: &[&str]) -> ChatCompletionResponse {
    ChatCompletionResponse {
        choices: contents
            .iter()
            .map(|c| Choices { message: Message::new(Role::Assistant, c.to_string()) })
            .collect(),
    }
}

#[test]
fn request_reports_correct() {
    let r = Request::new("m/one".to_string(), RandomResult::Correct);
    assert_eq!(r.model, "m/one");
    assert_eq!(r.messages.len(), 2);
    assert_eq!(r.messages[0].role, Role::System);
    assert_eq!(r.messages[0].content(), LLM_INPUT);
    assert_eq!(r.messages[1].role, Role::User);
    assert_eq!(r.messages[1].content(), "Correct");
}

#[test]
fn request_reports_incorrect() {
    let r = Request::new("m/two".to_string(), RandomResult::Incorrect);
    assert_eq!(r.model, "m/two");
    assert_eq!(r.messages[1].content(), "Incorrect");
}

#[test]
fn instruction_text() {
    assert!(LLM_INPUT.starts_with("You will answer only to \"Correct\" or \"Incorrect.\""));
    assert!(LLM_INPUT.contains("either anotification"));
    assert!(LLM_INPUT.ends_with("non-verbal content."));
}

#[test]
fn reply_with_text_finishes() {
    match completion_step(&reply(&["first", "Yeehaw, partner!"]), 1, None) {
        CompletionStep::Finish(t) => assert_eq!(t, "Yeehaw, partner!"),
        _ => panic!("expected text"),
    }
}

#[test]
fn reply_with_text_finishes_past_limit() {
    assert!(matches!(
        completion_step(&reply(&["howdy"]), 9, Some(3)),
        CompletionStep::Finish(_)
    ));
}

#[test]
fn empty_reply_is_retried() {
    assert!(matches!(completion_step(&reply(&[""]), 1, None), CompletionStep::Retry));
    assert!(matches!(completion_step(&reply(&["text", ""]), 5, None), CompletionStep::Retry));
    assert!(matches!(completion_step(&reply(&[]), 1, None), CompletionStep::Retry));
    assert!(matches!(completion_step(&reply(&[""]), 2, Some(3)), CompletionStep::Retry));
}

#[test]
fn empty_reply_gives_up_at_limit() {
    assert!(matches!(completion_step(&reply(&[""]), 3, Some(3)), CompletionStep::GiveUp));
    assert!(matches!(completion_step(&reply(&[]), 4, Some(3)), CompletionStep::GiveUp));
}

#[test]
fn model_list_ids_in_order() {
    let list = ModelListResponse {
        data: vec![
            Data { id: "b/x".to_string() },
            Data { id: "a/y".to_string() },
            Data { id: "b/x".to_string() },
        ],
    };
    assert_eq!(list.data().len(), 3);
    assert_eq!(list.data()[1].id(), "a/y");
    assert_eq!(list.model_ids(), vec!["b/x", "a/y", "b/x"]);
    assert!(ModelListResponse { data: Vec::new() }.model_ids().is_empty());
}

#[test]
fn reply_accessors() {
    let r = reply(&["one", "two"]);
    assert_eq!(r.choices().len(), 2);
    assert_eq!(r.choices()[1].message().content(), "two");
    assert_eq!(r.choices()[0].message().role, Role::Assistant);
}

#[test]
fn menu_titles() {
    assert_eq!(MenuType::MainMenu(3).repr(), "Main menu");
    assert_eq!(MenuType::OptionsMenu(2).repr(), "Options menu");
}

#[test]
fn cli_accessors() {
    let cli = Cli::new(Some("x/y".to_string()), "secret".to_string());
    assert_eq!(cli.model(), Some(&"x/y".to_string()));
    assert_eq!(cli.api_key(), "secret");
    assert_eq!(Cli::new(None, String::new()).model(), None);
}
