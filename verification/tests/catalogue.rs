use mcp_compliance_rust::eval::simple_eval;
use mcp_compliance_rust::scenarios::{
    select_scenario, validate_server_definition, ParamDefinition, PromptDefinition,
    PromptTemplateDefinition, ResourceDefinition, ResourceTemplateDefinition, ScenarioDefinition,
    Scenarios, ServerDefinition, StringHashMap, ToolDefinition,
};
use mcp_compliance_rust::text::{contains_str, decimal_string, joined3};

fn server(description: &str, tools: &[&str]) -> ServerDefinition {
    let mut tool_map = StringHashMap::new();
    for t in tools {
        tool_map.insert(t.to_string(), ToolDefinition { description: format!("tool {}", t) });
    }
    let mut params = StringHashMap::new();
    params.insert("id".to_string(), ParamDefinition { description: "an id".to_string() });
    let mut templates = StringHashMap::new();
    templates.insert(
        "file:///{id}".to_string(),
        ResourceTemplateDefinition { description: "a template".to_string(), params },
    );
    let mut resources = StringHashMap::new();
    resources.insert("resource://special-number".to_string(), ResourceDefinition { description: "n".to_string() });
    let mut prompts = StringHashMap::new();
    prompts.insert("example-maths".to_string(), PromptDefinition { description: "p".to_string() });
    let mut prompt_templates = StringHashMap::new();
    prompt_templates.insert(
        "t".to_string(),
        PromptTemplateDefinition { description: "pt".to_string(), params: StringHashMap::new() },
    );
    ServerDefinition {
        description: description.to_string(),
        tools: tool_map,
        resources,
        resource_templates: templates,
        prompts,
        prompt_templates,
    }
}

fn scenario(id: u32, clients: &[&str], server_name: &str) -> ScenarioDefinition {
    ScenarioDefinition {
        id,
        description: format!("scenario {}", id),
        client_ids: clients.iter().map(|c| c.to_string()).collect(),
        server_name: server_name.to_string(),
        http_only: false,
    }
}

fn catalogue() -> Scenarios {
    let mut servers = StringHashMap::new();
    servers.insert("CalcServer".to_string(), server("calc", &["add", "ambiguous_add", "eval_with_sampling"]));
    servers.insert("FileServer".to_string(), server("files", &["write_file", "delete_file"]));
    servers.insert("ErrorServer".to_string(), server("errors", &["always_error", "timeout"]));
    Scenarios {
        servers,
        scenarios: vec![
            scenario(1, &["client1"], "CalcServer"),
            scenario(4, &["client1", "client2"], "CalcServer"),
            scenario(4, &["client3"], "FileServer"),
        ],
    }
}

#[test]
fn catalogue_maps_answer_lookups() {
    let c = catalogue();
    assert!(c.servers.contains_key("CalcServer"));
    assert!(c.servers.contains_key("FileServer"));
    assert!(c.servers.contains_key("ErrorServer"));
    let calc = c.servers.get("CalcServer").unwrap();
    assert!(calc.tools.contains_key("add"));
    assert!(calc.tools.contains_key("eval_with_sampling"));
    assert!(calc.resources.contains_key("resource://special-number"));
    assert!(calc.prompts.contains_key("example-maths"));
    assert!(c.servers.get("ErrorServer").unwrap().tools.contains_key("timeout"));
}

#[test]
fn selecting_a_scenario_takes_the_first_with_its_id() {
    let c = catalogue();
    let s = select_scenario(&c, 4, "client2").unwrap();
    assert_eq!(s.server_name, "CalcServer");
    assert_eq!(s.id, 4);
    assert_eq!(
        select_scenario(&c, 4, "client3").err(),
        Some("Client 'client3' not found in scenario 4".to_string())
    );
    assert_eq!(select_scenario(&c, 7, "client1").err(), Some("Scenario 7 not found".to_string()));
    assert_eq!(select_scenario(&c, 1, "client1").unwrap().description, "scenario 1");
}

#[test]
fn server_definitions_are_validated() {
    let c = catalogue();
    assert!(validate_server_definition(&c, "CalcServer").is_ok());
    assert_eq!(
        validate_server_definition(&c, "WeatherServer"),
        Err("Server 'WeatherServer' not found in scenarios data".to_string())
    );
}

#[test]
fn simple_eval_table_and_fallback() {
    assert_eq!(simple_eval("2 + 2 * 3", &None), Ok("8".to_string()));
    assert_eq!(simple_eval("(2 + 3) * (4 + 5)", &Some("ignored".to_string())), Ok("45".to_string()));
    assert_eq!(simple_eval(" 7 ", &Some("7".to_string())), Ok("7".to_string()));
    assert_eq!(simple_eval("x", &None), Err("Cannot evaluate expression: x".to_string()));
}

#[test]
fn decimal_rendering() {
    assert_eq!(decimal_string(0), "0");
    assert_eq!(decimal_string(9), "9");
    assert_eq!(decimal_string(10), "10");
    assert_eq!(decimal_string(30), "30");
    assert_eq!(decimal_string(1234567890), "1234567890");
    assert_eq!(decimal_string(u64::MAX), u64::MAX.to_string());
}

#[test]
fn text_helpers() {
    assert_eq!(joined3("a", "b", "c"), "abc");
    let v = vec!["x".to_string(), "yz".to_string()];
    assert!(contains_str(&v, "yz"));
    assert!(!contains_str(&v, "y"));
}
