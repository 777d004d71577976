use chamber_agent::protocol::{HostMessage, HostPayload};
use chamber_agent::runtime_server::{authenticate, first_prompt, resolve_settings, InteractError, RuntimeSettings};

#[test]
fn authentication() {
    assert_eq!(authenticate(Some("s3cret"), "s3cret"), Ok(()));
    let refused = Err("Invalid sidecar authentication token".to_owned());
    assert_eq!(authenticate(Some("s3cre"), "s3cret"), refused);
    assert_eq!(authenticate(Some("s3cret!"), "s3cret"), refused);
    assert_eq!(authenticate(Some("S3cret"), "s3cret"), refused);
    assert_eq!(authenticate(None, "s3cret"), refused);
    assert_eq!(authenticate(Some(""), ""), Ok(()));
}

#[test]
fn settings_fall_back_in_order() {
    assert_eq!(
        resolve_settings(None, None, None),
        RuntimeSettings {
            base_url: "http://bigbertha:11434/v1".to_owned(),
            model_name: "glm-5.3-flash:cloud".to_owned()
        }
    );
    assert_eq!(
        resolve_settings(Some("http://a/v1".to_owned()), Some("http://b/v1".to_owned()), Some("qwen3".to_owned())),
        RuntimeSettings { base_url: "http://a/v1".to_owned(), model_name: "qwen3".to_owned() }
    );
    assert_eq!(
        resolve_settings(None, Some("http://b/v1".to_owned()), None).base_url,
        "http://b/v1"
    );
}

#[test]
fn interaction_starts_with_a_prompt() {
    let prompt = HostMessage { session_id: "s1".to_owned(), payload: Some(HostPayload::Prompt("hello".to_owned())) };
    assert_eq!(first_prompt::<()>(Some(Ok(prompt))), Ok(("s1".to_owned(), "hello".to_owned())));
    assert_eq!(
        first_prompt::<()>(None),
        Err(InteractError::InvalidArgument("Interact requires an initial prompt".to_owned()))
    );
    assert_eq!(first_prompt::<u8>(Some(Err(3))), Err(InteractError::Stream(3)));
    let empty = HostMessage { session_id: "s1".to_owned(), payload: None };
    assert_eq!(
        first_prompt::<()>(Some(Ok(empty))),
        Err(InteractError::InvalidArgument("First Interact message must be a prompt".to_owned()))
    );
}
