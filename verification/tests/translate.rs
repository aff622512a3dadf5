use translate_dock::language::Language;
use translate_dock::translate::{
    conclude_translation, plan_translation, status_is_success, AssistantMessage, ChatReply,
    ChatResponse, Choice, TranslationPlan,
};

fn answer(contents: &[&str]) -> ChatResponse {
    ChatResponse {
        choices: contents
            .iter()
            .map(|c| Choice { message: AssistantMessage { content: c.to_string() } })
            .collect(),
    }
}

#[test]
fn without_key_the_translation_is_simulated() {
    match plan_translation("你好", Language::Chinese, Language::English, "") {
        TranslationPlan::Simulate { delay_ms, reply } => {
            assert_eq!(delay_ms, 500);
            assert_eq!(reply, "[未配置 API Key，模拟翻译] 你好");
        }
        TranslationPlan::Send(_) => panic!("expected a simulated translation"),
    }
}

#[test]
fn with_key_the_request_is_planned() {
    match plan_translation("hello", Language::English, Language::Japanese, "sk-1") {
        TranslationPlan::Send(post) => {
            assert_eq!(post.url, "https://dashscope.aliyuncs.com/compatible-mode/v1/chat/completions");
            assert_eq!(post.authorization, "Bearer sk-1");
            assert_eq!(post.content_type, "application/json");
            assert_eq!(post.body.model, "qwen-mt-plus");
            assert_eq!(post.body.messages.len(), 1);
            assert_eq!(post.body.messages[0].role, "user");
            assert_eq!(post.body.messages[0].content, "hello");
            assert_eq!(post.body.translation_options.source_lang, "English");
            assert_eq!(post.body.translation_options.target_lang, "Japanese");
        }
        TranslationPlan::Simulate { .. } => panic!("expected a request"),
    }
}

#[test]
fn auto_source_is_named_auto() {
    match plan_translation("x", Language::Auto, Language::Chinese, "k") {
        TranslationPlan::Send(post) => {
            assert_eq!(post.body.translation_options.source_lang, "auto");
            assert_eq!(post.body.translation_options.target_lang, "Chinese");
        }
        TranslationPlan::Simulate { .. } => panic!("expected a request"),
    }
}

#[test]
fn success_statuses() {
    assert!(!status_is_success(199));
    assert!(status_is_success(200));
    assert!(status_is_success(299));
    assert!(!status_is_success(300));
    assert!(!status_is_success(404));
}

#[test]
fn answer_gives_first_choice() {
    assert_eq!(conclude_translation(ChatReply::Answered(answer(&["Hello", "Hi"]))), Ok("Hello".to_string()));
}

#[test]
fn answer_without_choices_is_an_error() {
    assert_eq!(
        conclude_translation(ChatReply::Answered(answer(&[]))),
        Err("API 返回了空的 choices".to_string())
    );
}

#[test]
fn network_error_message() {
    assert_eq!(
        conclude_translation(ChatReply::Unreachable("timed out".to_string())),
        Err("网络错误: timed out".to_string())
    );
}

#[test]
fn parse_error_message() {
    assert_eq!(
        conclude_translation(ChatReply::Unreadable("EOF".to_string())),
        Err("响应解析失败: EOF".to_string())
    );
}

#[test]
fn status_error_message() {
    assert_eq!(
        conclude_translation(ChatReply::Rejected {
            status: "401 Unauthorized".to_string(),
            body: "{\"error\":\"bad key\"}".to_string()
        }),
        Err("API 错误 401 Unauthorized: {\"error\":\"bad key\"}".to_string())
    );
}
