use genai_client::common::{construct_endpoint_url, ApiVersion, Endpoint, API_KEY_HEADER};

#[test]
fn test_api_version_as_str() {
    assert_eq!(ApiVersion::V1Alpha.as_str(), "v1alpha");
    assert_eq!(ApiVersion::V1Beta.as_str(), "v1beta");
}

#[test]
fn test_endpoint_create_interaction_non_streaming() {
    let endpoint = Endpoint::CreateInteraction { stream: false };
    let url = construct_endpoint_url(endpoint);

    assert_eq!(url, "https://generativelanguage.googleapis.com/v1beta/interactions");
    assert!(!url.contains("alt=sse"));
    assert!(!url.contains("key="));
}

#[test]
fn test_endpoint_create_interaction_streaming() {
    let endpoint = Endpoint::CreateInteraction { stream: true };
    let url = construct_endpoint_url(endpoint);

    assert_eq!(url, "https://generativelanguage.googleapis.com/v1beta/interactions?alt=sse");
    assert!(url.contains("alt=sse"));
    assert!(!url.contains("key="));
}

#[test]
fn test_endpoint_get_interaction() {
    let endpoint = Endpoint::GetInteraction { id: "interaction-123" };
    let url = construct_endpoint_url(endpoint);

    assert_eq!(
        url,
        "https://generativelanguage.googleapis.com/v1beta/interactions/interaction-123"
    );
    assert!(url.contains("/interactions/interaction-123"));
    assert!(!url.contains("alt=sse"));
    assert!(!url.contains("key="));
}

#[test]
fn test_endpoint_delete_interaction() {
    let endpoint = Endpoint::DeleteInteraction { id: "interaction-456" };
    let url = construct_endpoint_url(endpoint);

    assert_eq!(
        url,
        "https://generativelanguage.googleapis.com/v1beta/interactions/interaction-456"
    );
    assert!(url.contains("/interactions/interaction-456"));
    assert!(!url.contains("alt=sse"));
    assert!(!url.contains("key="));
}

#[test]
fn test_api_key_header_constant() {
    assert_eq!(API_KEY_HEADER, "X-Goog-Api-Key");
}

#[test]
fn test_endpoint_requires_sse() {
    assert!(Endpoint::CreateInteraction { stream: true }.requires_sse());
    assert!(!Endpoint::CreateInteraction { stream: false }.requires_sse());
    assert!(!Endpoint::GetInteraction { id: "test" }.requires_sse());
    assert!(!Endpoint::DeleteInteraction { id: "test" }.requires_sse());
}

#[test]
fn test_endpoint_to_path_with_different_versions() {
    let endpoint = Endpoint::CreateInteraction { stream: false };

    let path_v1alpha = endpoint.to_path(ApiVersion::V1Alpha);
    assert_eq!(path_v1alpha, "/v1alpha/interactions");

    let path_v1beta = endpoint.to_path(ApiVersion::V1Beta);
    assert_eq!(path_v1beta, "/v1beta/interactions");
}

#[test]
fn test_endpoint_clone_and_eq() {
    let endpoint1 = Endpoint::CreateInteraction { stream: true };
    let endpoint2 = endpoint1.clone();
    assert_eq!(endpoint1, endpoint2);

    let endpoint3 = Endpoint::GetInteraction { id: "test-id" };
    let endpoint4 = Endpoint::GetInteraction { id: "test-id" };
    assert_eq!(endpoint3, endpoint4);

    let endpoint5 = Endpoint::GetInteraction { id: "different-id" };
    assert_ne!(endpoint3, endpoint5);
}

#[test]
fn test_endpoint_cancel_interaction() {
    let endpoint = Endpoint::CancelInteraction { id: "interaction-789" };
    let url = construct_endpoint_url(endpoint);

    assert_eq!(
        url,
        "https://generativelanguage.googleapis.com/v1beta/interactions/interaction-789/cancel"
    );
    assert!(url.contains("/interactions/interaction-789/cancel"));
    assert!(!url.contains("alt=sse"));
    assert!(!url.contains("key="));
}

#[test]
fn test_cancel_interaction_requires_sse() {
    assert!(!Endpoint::CancelInteraction { id: "test" }.requires_sse());
}

#[test]
fn test_endpoint_url_construction() {
    let endpoint_create = Endpoint::CreateInteraction { stream: false };
    let url = construct_endpoint_url(endpoint_create);
    assert!(url.contains("/v1beta/interactions"));
    assert!(!url.contains("key="));

    let endpoint_get = Endpoint::GetInteraction { id: "test_id_123" };
    let url = construct_endpoint_url(endpoint_get);
    assert!(url.contains("/v1beta/interactions/test_id_123"));
    assert!(!url.contains("key="));

    let endpoint_delete = Endpoint::DeleteInteraction { id: "test_id_456" };
    let url = construct_endpoint_url(endpoint_delete);
    assert!(url.contains("/v1beta/interactions/test_id_456"));
    assert!(!url.contains("key="));

    let endpoint_cancel = Endpoint::CancelInteraction { id: "test_id_789" };
    let url = construct_endpoint_url(endpoint_cancel);
    assert!(url.contains("/v1beta/interactions/test_id_789/cancel"));
    assert!(!url.contains("key="));
}

#[test]
fn test_cancel_path_with_alpha_version() {
    let endpoint = Endpoint::CancelInteraction { id: "abc" };
    assert_eq!(endpoint.to_path(ApiVersion::V1Alpha), "/v1alpha/interactions/abc/cancel");
}
