use opentrade::ollama::{ChatMessage, ChatResponse};

fn response(content: &str) -> ChatResponse {
    ChatResponse {
        model: "test".to_string(),
        message: ChatMessage::assistant(content),
        done: true,
        total_duration: None,
        load_duration: None,
        prompt_eval_count: None,
        eval_count: None,
        eval_duration: None,
    }
}

#[test]
fn chat_message_constructors() {
    let sys = ChatMessage::system("You are a trader");
    assert_eq!(sys.role, "system");
    let user = ChatMessage::user("Analyze BTC");
    assert_eq!(user.role, "user");
}

#[test]
fn parse_thinking_block() {
    let resp = response("<think>\nBTC is showing strong momentum\n</think>\nBuy signal detected.");
    assert_eq!(resp.thinking(), Some("BTC is showing strong momentum"));
    assert_eq!(resp.answer(), "Buy signal detected.");
}

#[test]
fn parse_no_thinking_block() {
    let resp = response("Just a plain response");
    assert!(resp.thinking().is_none());
    assert_eq!(resp.answer(), "Just a plain response");
}

#[test]
fn assistant_keeps_content() {
    let m = ChatMessage::assistant("  spaced  ");
    assert_eq!(m.role, "assistant");
    assert_eq!(m.content, "  spaced  ");
}

#[test]
fn empty_thinking_block_is_none() {
    let resp = response("<think></think>answer");
    assert!(resp.thinking().is_none());
    assert_eq!(resp.answer(), "answer");
}

#[test]
fn closing_tag_before_opening_is_none() {
    let resp = response("</think>x<think>y");
    assert!(resp.thinking().is_none());
    assert_eq!(resp.answer(), "x<think>y");
}

#[test]
fn answer_trims_unicode_whitespace() {
    let resp = response("\u{3000}\t hello wörld \u{00A0}\n");
    assert_eq!(resp.answer(), "hello wörld");
}

#[test]
fn thinking_with_multibyte_text() {
    let resp = response("é<think> raison née </think> réponse ");
    assert_eq!(resp.thinking(), Some("raison née"));
    assert_eq!(resp.answer(), "réponse");
}

#[test]
fn whitespace_only_answer_is_empty() {
    let resp = response("<think>a</think>   ");
    assert_eq!(resp.thinking(), Some("a"));
    assert_eq!(resp.answer(), "");
}
