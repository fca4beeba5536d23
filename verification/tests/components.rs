use project_registry::{AppDefinitionConfig, ComponentDefinitionConfig, SchemaSource};

fn schema(namespace: &str, module: &str) -> SchemaSource<String> {
    SchemaSource {
        namespace: namespace.to_string(),
        module: module.to_string(),
        allow_override: false,
    }
}

#[test]
fn all_modules_lists_functions_schema_additional_then_definition() {
    let app = AppDefinitionConfig {
        definition: Some("convex.config.js".to_string()),
        schema: Some("schema.js".to_string()),
        additional_schemas: vec![schema("UserService", "users/schema.js"), schema("Analytics", "analytics/schema.js")],
    };
    let functions = vec!["a.js".to_string(), "http.js".to_string()];
    let all: Vec<&String> = app.all_modules(&functions);
    assert_eq!(
        all,
        vec!["a.js", "http.js", "schema.js", "users/schema.js", "analytics/schema.js", "convex.config.js"]
    );
}

#[test]
fn all_modules_without_schema_or_definition() {
    let app: AppDefinitionConfig<String> = AppDefinitionConfig {
        definition: None,
        schema: None,
        additional_schemas: vec![schema("Analytics", "analytics/schema.js")],
    };
    let functions = vec!["crons.js".to_string()];
    let all = app.all_modules(&functions);
    assert_eq!(all, vec!["crons.js", "analytics/schema.js"]);
    let empty: Vec<String> = Vec::new();
    let bare: AppDefinitionConfig<String> = AppDefinitionConfig {
        definition: None,
        schema: None,
        additional_schemas: Vec::new(),
    };
    assert!(bare.all_modules(&empty).is_empty());
}

#[test]
fn component_modules_start_with_definition() {
    let component = ComponentDefinitionConfig {
        definition: "convex.config.js".to_string(),
        schema: None,
        additional_schemas: vec![schema("Orders", "orders/schema.js")],
        functions: vec!["f.js".to_string(), "g.js".to_string()],
    };
    assert_eq!(
        component.modules(),
        vec!["convex.config.js", "orders/schema.js", "f.js", "g.js"]
    );
    let with_schema = ComponentDefinitionConfig {
        definition: "d.js".to_string(),
        schema: Some("schema.js".to_string()),
        additional_schemas: Vec::new(),
        functions: Vec::new(),
    };
    assert_eq!(with_schema.modules(), vec!["d.js", "schema.js"]);
}
