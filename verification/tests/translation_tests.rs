use speech_core::translation::{
    build_translation_prompt, get_supported_languages, response_for_request, TranslationRequest,
    TranslationService, Translator,
};

#[test]
fn snake_case_becomes_spaced_words() {
    assert_eq!(Translator::normalize_naming_convention("snake_case_name"), "snake case name");
}

#[test]
fn kebab_case_becomes_spaced_words() {
    assert_eq!(Translator::normalize_naming_convention("kebab-case"), "kebab case");
}

#[test]
fn camel_case_gains_spaces_before_capitals() {
    assert_eq!(Translator::normalize_naming_convention("camelCaseName"), "camel Case Name");
}

#[test]
fn consecutive_capitals_stay_together() {
    assert_eq!(Translator::normalize_naming_convention("HTTPServer"), "HTTPServer");
    assert_eq!(Translator::normalize_naming_convention("parseHTTPServer"), "parse HTTPServer");
}

#[test]
fn plain_text_passes_through_normalization() {
    assert_eq!(Translator::normalize_naming_convention("hello world"), "hello world");
    assert_eq!(Translator::normalize_naming_convention(""), "");
}

#[test]
fn mixed_conventions_normalize_together() {
    assert_eq!(
        Translator::normalize_naming_convention("my_varName-two"),
        "my var Name two"
    );
}

#[test]
fn prompt_carries_languages_and_text() {
    let p = build_translation_prompt("en", "zh-CN", "hello");
    assert_eq!(
        p,
        "Translate the following text from en to zh-CN. Only return the translated text, no explanations:\n\nhello"
    );
}

#[test]
fn translator_keeps_its_configuration() {
    let t = Translator::new(
        String::from("SECRET-REDACTED"),
        String::from("https://api.example.com/v1/"),
        String::from("gpt-test"),
        TranslationService::OpenAI,
    );
    assert_eq!(t.api_key(), "SECRET-REDACTED");
    assert_eq!(t.base_url(), "https://api.example.com/v1/");
    assert_eq!(t.model_id(), "gpt-test");
    assert_eq!(t.service(), TranslationService::OpenAI);
    assert_eq!(t.endpoint(), "https://api.example.com/v1/chat/completions");
}

#[test]
fn result_is_stamped_with_the_provider_name() {
    let request = TranslationRequest {
        text: String::from("hi"),
        from_lang: String::from("en"),
        to_lang: String::from("fr"),
    };
    let response = response_for_request(&request, String::from("salut"));
    assert_eq!(response.translated_text, "salut");
    assert_eq!(response.source_lang, "en");
    assert_eq!(response.target_lang, "fr");

    let result = TranslationService::OpenAI.result_from_response(response);
    assert_eq!(result.translated_text, "salut");
    assert_eq!(result.from_lang, "en");
    assert_eq!(result.to_lang, "fr");
    assert_eq!(result.service, "OpenAI");
}

#[test]
fn provider_labels_are_fixed() {
    assert_eq!(TranslationService::OpenAI.label(), "OpenAI");
    assert_eq!(TranslationService::Google.label(), "Google");
    assert_eq!(TranslationService::Baidu.label(), "Baidu");
}

#[test]
fn supported_languages_start_with_auto() {
    let langs = get_supported_languages();
    assert_eq!(langs.len(), 12);
    assert_eq!(langs[0].0, "auto");
    assert_eq!(langs[0].1, "自动检测");
    assert!(langs.iter().any(|(code, name)| code == "en" && name == "英语"));
    assert!(langs.iter().any(|(code, name)| code == "zh-CN" && name == "中文"));
}
