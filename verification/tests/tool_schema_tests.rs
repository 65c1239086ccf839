use genai_client::tool_schema::{
    callable_factory_fn_name, callable_struct_name, declaration_fn_name, doc_description, openapi_kind,
    required_params, trimmed, unknown_referenced_param, OpenApiKind,
};

#[test]
fn test_openapi_kind_mapping() {
    assert_eq!(openapi_kind("String"), OpenApiKind::String);
    assert_eq!(openapi_kind("i32"), OpenApiKind::Integer);
    assert_eq!(openapi_kind("usize"), OpenApiKind::Integer);
    assert_eq!(openapi_kind("f64"), OpenApiKind::Number);
    assert_eq!(openapi_kind("bool"), OpenApiKind::Boolean);
    assert_eq!(openapi_kind("Vec < String >"), OpenApiKind::Array);
    assert_eq!(openapi_kind("serde_json :: Value"), OpenApiKind::Object);
    assert_eq!(openapi_kind("MyStruct"), OpenApiKind::Object);
    assert_eq!(openapi_kind("i8"), OpenApiKind::Object);
    assert_eq!(OpenApiKind::Array.name(), "array");
}

#[test]
fn test_callable_struct_name() {
    assert_eq!(callable_struct_name("get_weather"), "GetWeatherCallable");
    assert_eq!(callable_struct_name("a__b"), "ABCallable");
    assert_eq!(callable_struct_name("_private"), "PrivateCallable");
    assert_eq!(callable_struct_name("x1_y2"), "X1Y2Callable");
}

#[test]
fn test_generated_function_names() {
    assert_eq!(declaration_fn_name("get_weather"), "get_weather_declaration");
    assert_eq!(callable_factory_fn_name("get_weather"), "get_weather_callable_factory");
}

#[test]
fn test_doc_description() {
    let lines = vec![" Gets the weather. ".to_string(), "\tIn a city.".to_string()];
    assert_eq!(doc_description(&lines), "Gets the weather.\nIn a city.");
    assert_eq!(doc_description(&vec![]), "");
    assert_eq!(trimmed("  \u{3000}x y\n"), "x y");
    assert_eq!(trimmed("   "), "");
}

#[test]
fn test_unknown_referenced_param() {
    let params = vec!["location".to_string(), "unit".to_string()];
    assert_eq!(unknown_referenced_param(&vec!["unit".to_string()], &params), None);
    assert_eq!(unknown_referenced_param(&vec![], &params), None);
    assert_eq!(
        unknown_referenced_param(&vec!["unit".to_string(), "city".to_string()], &params),
        Some("city".to_string())
    );
}

#[test]
fn test_required_params_skip_options_in_order() {
    let params = vec![("location".to_string(), false), ("unit".to_string(), true), ("days".to_string(), false)];
    assert_eq!(required_params(&params), vec!["location".to_string(), "days".to_string()]);
    assert!(required_params(&vec![]).is_empty());
}
