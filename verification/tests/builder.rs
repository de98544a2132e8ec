use backend::builder::{
    accept, build, invalid_input, validate, ChatBody, Header, HttpMethod, RequestBody,
    UpstreamRequest, UPSTREAM_TIMEOUT_SECS,
};
use backend::credential::{resolve, Credential};
use backend::error::GatewayError;
use backend::provider::Provider;
use backend::request::{
    ChatMessage, ChatRequest, ClientRequest, GeminiContent, GeminiGenerationConfig, GeminiPart,
    GeminiRequest, GeocodeRequest, Sampling,
};

fn key(token: &str) -> Credential {
    resolve(Some(token.to_string())).ok().unwrap()
}

fn message(role: &str, content: &str) -> ChatMessage {
    ChatMessage { role: role.to_string(), content: content.to_string() }
}

fn chat(messages: Vec<ChatMessage>) -> ChatRequest {
    ChatRequest {
        model: None,
        messages,
        max_tokens: None,
        temperature: None,
        top_p: None,
        stream: None,
    }
}

fn geocode(q: &str) -> GeocodeRequest {
    GeocodeRequest { q: q.to_string(), limit: None, language: None }
}

fn generate(texts: &[&str]) -> GeminiRequest {
    GeminiRequest {
        contents: texts
            .iter()
            .map(|t| GeminiContent {
                role: "user".to_string(),
                parts: vec![GeminiPart { text: t.to_string() }],
            })
            .collect(),
        generation_config: None,
    }
}

fn invalid(message: &str, code: &str) -> GatewayError {
    GatewayError {
        http_status: 400,
        error: "Invalid request".to_string(),
        message: message.to_string(),
        code: code.to_string(),
        upstream_status: None,
    }
}

fn json_header() -> Header {
    Header { name: "Content-Type".to_string(), value: "application/json".to_string() }
}

fn geocode_url(request: GeocodeRequest, token: &str) -> String {
    build(ClientRequest::Geocode(request), &key(token)).unwrap().url
}

#[test]
fn chat_without_messages_is_refused() {
    let expected = invalid("The 'messages' array cannot be empty", "AI_EMPTY_MESSAGES");
    assert_eq!(validate(&ClientRequest::Chat(chat(vec![]))), Err(expected.clone()));
    assert_eq!(build(ClientRequest::Chat(chat(vec![])), &key("k")), Err(expected.clone()));
    assert_eq!(invalid_input(Provider::ChatCompletion), expected);
}

#[test]
fn blank_geocode_query_is_refused() {
    let expected = invalid("The 'q' parameter (location query) cannot be empty", "INVALID_QUERY");
    for q in ["", " ", "\t \n", "\u{a0}"] {
        assert_eq!(validate(&ClientRequest::Geocode(geocode(q))), Err(expected.clone()));
        assert_eq!(build(ClientRequest::Geocode(geocode(q)), &key("k")), Err(expected.clone()));
    }
    assert_eq!(invalid_input(Provider::Geocode), expected);
}

#[test]
fn generation_without_contents_is_refused() {
    let expected = invalid("The 'contents' array cannot be empty", "GEMINI_EMPTY_CONTENTS");
    assert_eq!(validate(&ClientRequest::Generate(generate(&[]))), Err(expected.clone()));
    assert_eq!(build(ClientRequest::Generate(generate(&[])), &key("k")), Err(expected.clone()));
    assert_eq!(invalid_input(Provider::GenerativeAi), expected);
}

#[test]
fn usable_requests_pass_validation() {
    assert_eq!(validate(&ClientRequest::Chat(chat(vec![message("user", "hi")]))), Ok(()));
    assert_eq!(validate(&ClientRequest::Geocode(geocode(" Paris "))), Ok(()));
    assert_eq!(validate(&ClientRequest::Generate(generate(&["hi"]))), Ok(()));
}

#[test]
fn message_with_empty_content_is_still_a_message() {
    assert_eq!(validate(&ClientRequest::Chat(chat(vec![message("", "")]))), Ok(()));
    let request = GeminiRequest {
        contents: vec![GeminiContent { role: String::new(), parts: vec![] }],
        generation_config: None,
    };
    assert_eq!(validate(&ClientRequest::Generate(request)), Ok(()));
}

#[test]
fn request_names_its_provider() {
    assert_eq!(ClientRequest::Chat(chat(vec![])).provider(), Provider::ChatCompletion);
    assert_eq!(ClientRequest::Geocode(geocode("")).provider(), Provider::Geocode);
    assert_eq!(ClientRequest::Generate(generate(&[])).provider(), Provider::GenerativeAi);
}

#[test]
fn chat_request_gets_default_model_and_bearer_header() {
    let messages = vec![message("system", "be brief"), message("user", "hi")];
    let built = build(ClientRequest::Chat(chat(messages.clone())), &key("sk-1")).unwrap();
    assert_eq!(
        built,
        UpstreamRequest {
            url: "https://api.perplexity.ai/chat/completions".to_string(),
            method: HttpMethod::Post,
            headers: vec![
                Header { name: "Authorization".to_string(), value: "Bearer sk-1".to_string() },
                json_header(),
            ],
            body: RequestBody::Chat(ChatBody {
                model: "llama-3.1-sonar-small-128k-online".to_string(),
                messages,
                max_tokens: None,
                temperature: None,
                top_p: None,
                stream: None,
            }),
            timeout_secs: 30,
        }
    );
}

#[test]
fn chat_request_keeps_the_clients_model_and_controls() {
    let request = ChatRequest {
        model: Some("sonar-pro".to_string()),
        messages: vec![message("user", "hi")],
        max_tokens: Some(256),
        temperature: Some(Sampling { bits: 0x3f00_0000 }),
        top_p: Some(Sampling { bits: 0x3f66_6666 }),
        stream: Some(false),
    };
    let built = build(ClientRequest::Chat(request), &key("k")).unwrap();
    assert_eq!(
        built.body,
        RequestBody::Chat(ChatBody {
            model: "sonar-pro".to_string(),
            messages: vec![message("user", "hi")],
            max_tokens: Some(256),
            temperature: Some(Sampling { bits: 0x3f00_0000 }),
            top_p: Some(Sampling { bits: 0x3f66_6666 }),
            stream: Some(false),
        })
    );
}

#[test]
fn chat_request_with_empty_model_name_keeps_it() {
    let mut request = chat(vec![message("user", "hi")]);
    request.model = Some(String::new());
    match build(ClientRequest::Chat(request), &key("k")).unwrap().body {
        RequestBody::Chat(body) => assert_eq!(body.model, ""),
        other => panic!("not a chat body: {:?}", other),
    }
}

#[test]
fn geocode_url_encodes_the_query_and_carries_the_key() {
    assert_eq!(
        geocode_url(geocode("New York, NY"), "oc-key"),
        "https://api.opencagedata.com/geocode/v1/json?q=New%20York%2C%20NY&key=oc-key"
    );
}

#[test]
fn geocode_url_leaves_unreserved_characters() {
    assert_eq!(
        geocode_url(geocode("Az09-_.~"), "k"),
        "https://api.opencagedata.com/geocode/v1/json?q=Az09-_.~&key=k"
    );
}

#[test]
fn geocode_url_encodes_reserved_and_control_characters() {
    assert_eq!(
        geocode_url(geocode("a&b=c/d?e#f+g%h\n"), "k"),
        "https://api.opencagedata.com/geocode/v1/json?q=a%26b%3Dc%2Fd%3Fe%23f%2Bg%25h%0A&key=k"
    );
}

#[test]
fn geocode_url_encodes_each_utf8_byte() {
    assert_eq!(
        geocode_url(geocode("Zürich 東京"), "k"),
        "https://api.opencagedata.com/geocode/v1/json?q=Z%C3%BCrich%20%E6%9D%B1%E4%BA%AC&key=k"
    );
}

#[test]
fn geocode_url_appends_limit_and_language_when_given() {
    let request = GeocodeRequest {
        q: "Paris".to_string(),
        limit: Some(5),
        language: Some("pt-BR".to_string()),
    };
    assert_eq!(
        geocode_url(request, "k"),
        "https://api.opencagedata.com/geocode/v1/json?q=Paris&key=k&limit=5&language=pt-BR"
    );
}

#[test]
fn geocode_url_with_limit_only() {
    let request = GeocodeRequest { q: "Paris".to_string(), limit: Some(0), language: None };
    assert_eq!(
        geocode_url(request, "k"),
        "https://api.opencagedata.com/geocode/v1/json?q=Paris&key=k&limit=0"
    );
    let request = GeocodeRequest { q: "Paris".to_string(), limit: Some(u32::MAX), language: None };
    assert_eq!(
        geocode_url(request, "k"),
        "https://api.opencagedata.com/geocode/v1/json?q=Paris&key=k&limit=4294967295"
    );
}

#[test]
fn geocode_url_with_language_only() {
    let request =
        GeocodeRequest { q: "Paris".to_string(), limit: None, language: Some("de".to_string()) };
    assert_eq!(
        geocode_url(request, "k"),
        "https://api.opencagedata.com/geocode/v1/json?q=Paris&key=k&language=de"
    );
}

#[test]
fn geocode_request_is_a_get_without_headers_or_body() {
    let built = build(ClientRequest::Geocode(geocode("Paris")), &key("k")).unwrap();
    assert_eq!(built.method, HttpMethod::Get);
    assert_eq!(built.headers, vec![]);
    assert_eq!(built.body, RequestBody::Absent);
    assert_eq!(built.timeout_secs, UPSTREAM_TIMEOUT_SECS);
}

#[test]
fn geocode_query_is_sent_untrimmed() {
    assert_eq!(
        geocode_url(geocode(" Paris "), "k"),
        "https://api.opencagedata.com/geocode/v1/json?q=%20Paris%20&key=k"
    );
}

#[test]
fn generation_request_carries_the_key_in_the_url_and_the_body_unchanged() {
    let request = GeminiRequest {
        contents: vec![GeminiContent {
            role: "user".to_string(),
            parts: vec![
                GeminiPart { text: "one".to_string() },
                GeminiPart { text: "two".to_string() },
            ],
        }],
        generation_config: Some(GeminiGenerationConfig {
            temperature: Some(Sampling { bits: 0x3e99_999a }),
            max_output_tokens: Some(1024),
            response_mime_type: Some("application/json".to_string()),
        }),
    };
    let built = build(ClientRequest::Generate(request.clone()), &key("g-key")).unwrap();
    assert_eq!(
        built,
        UpstreamRequest {
            url: "https://generativelanguage.googleapis.com/v1beta/models/gemini-2.5-flash:generateContent?key=g-key".to_string(),
            method: HttpMethod::Post,
            headers: vec![json_header()],
            body: RequestBody::Generate(request),
            timeout_secs: 30,
        }
    );
}

#[test]
fn every_upstream_request_has_the_finite_deadline() {
    assert_eq!(UPSTREAM_TIMEOUT_SECS, 30);
    let requests = vec![
        ClientRequest::Chat(chat(vec![message("user", "hi")])),
        ClientRequest::Geocode(geocode("Paris")),
        ClientRequest::Generate(generate(&["hi"])),
    ];
    for request in requests {
        assert_eq!(build(request, &key("k")).unwrap().timeout_secs, 30);
    }
}

#[test]
fn accept_answers_for_what_was_found() {
    for provider in [Provider::ChatCompletion, Provider::Geocode, Provider::GenerativeAi] {
        assert_eq!(accept(provider, true), Ok(()));
        assert_eq!(accept(provider, false), Err(invalid_input(provider)));
    }
}
