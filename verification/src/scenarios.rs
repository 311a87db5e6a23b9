//! The scenario catalogue: which servers exist, what they offer, and which
//! clients take part in which numbered scenario.
use vstd::prelude::*;
pub use vstd::hash_map::StringHashMap;
use crate::text::{contains_str, decimal, decimal_string, joined3};

verus! {

/// All servers and all scenarios of the compliance suite.
pub struct Scenarios {
    /// Server definitions, keyed by server name.
    pub servers: StringHashMap<ServerDefinition>,
    pub scenarios: Vec<ScenarioDefinition>,
}

/// What one test server offers, each map keyed by the item's name (or URI).
pub struct ServerDefinition {
    pub description: String,
    pub tools: StringHashMap<ToolDefinition>,
    pub resources: StringHashMap<ResourceDefinition>,
    pub resource_templates: StringHashMap<ResourceTemplateDefinition>,
    pub prompts: StringHashMap<PromptDefinition>,
    pub prompt_templates: StringHashMap<PromptTemplateDefinition>,
}

#[derive(Clone, Debug)]
pub struct ToolDefinition {
    pub description: String,
}

#[derive(Clone, Debug)]
pub struct ResourceDefinition {
    pub description: String,
}

pub struct ResourceTemplateDefinition {
    pub description: String,
    pub params: StringHashMap<ParamDefinition>,
}

#[derive(Clone, Debug)]
pub struct PromptDefinition {
    pub description: String,
}

pub struct PromptTemplateDefinition {
    pub description: String,
    pub params: StringHashMap<ParamDefinition>,
}

#[derive(Clone, Debug)]
pub struct ParamDefinition {
    pub description: String,
}

/// One numbered scenario: the clients that run it against one server.
#[derive(Clone, Debug)]
pub struct ScenarioDefinition {
    pub id: u32,
    pub description: String,
    pub client_ids: Vec<String>,
    pub server_name: String,
    /// Whether the scenario only applies to HTTP transports (absent means `false`).
    pub http_only: bool,
}

/// The client names of a scenario, as character sequences.
pub open spec fn client_names(s: ScenarioDefinition) -> Seq<Seq<char>> {
    s.client_ids@.map_values(|c: String| c@)
}

/// `i` is the position of the first scenario of `list` whose id is `id`.
pub open spec fn is_first_with_id(list: Seq<ScenarioDefinition>, id: u32, i: int) -> bool {
    &&& 0 <= i < list.len()
    &&& list[i].id == id
    &&& forall|j: int| 0 <= j < i ==> list[j].id != id
}

/// Some scenario of `list` has the id `id`.
pub open spec fn has_scenario(list: Seq<ScenarioDefinition>, id: u32) -> bool {
    exists|j: int| 0 <= j < list.len() && list[j].id == id
}

/// The message for a scenario id that the catalogue does not hold.
pub open spec fn scenario_not_found(id: u32) -> Seq<char> {
    "Scenario "@ + decimal(id as nat) + " not found"@
}

/// The message for a client that does not take part in the scenario.
pub open spec fn client_not_in_scenario(client_id: Seq<char>, id: u32) -> Seq<char> {
    "Client '"@ + client_id + "' not found in scenario "@ + decimal(id as nat)
}

/// The message for a server name that the catalogue does not define.
pub open spec fn server_not_found(name: Seq<char>) -> Seq<char> {
    "Server '"@ + name + "' not found in scenarios data"@
}

/// Picks the scenario that a client is asked to run: the first scenario with
/// the given id, provided that `client_id` is one of its clients.
pub fn select_scenario<'a>(scenarios: &'a Scenarios, scenario_id: u32, client_id: &str) -> (r:
    Result<&'a ScenarioDefinition, String>)
    ensures
        !has_scenario(scenarios.scenarios@, scenario_id) ==> (r matches Err(m) && m@
            == scenario_not_found(scenario_id)),
        has_scenario(scenarios.scenarios@, scenario_id) ==> exists|i: int|
            #[trigger] is_first_with_id(scenarios.scenarios@, scenario_id, i) && {
                let s = scenarios.scenarios@[i];
                if client_names(s).contains(client_id@) {
                    (r matches Ok(found) && *found == s)
                } else {
                    (r matches Err(m) && m@ == client_not_in_scenario(client_id@, scenario_id))
                }
            },
{
    let list = &scenarios.scenarios;
    let mut i: usize = 0;
    while i < list.len()
        invariant
            i <= list.len(),
            list@ == scenarios.scenarios@,
            forall|j: int| 0 <= j < i ==> list@[j].id != scenario_id,
        decreases list.len() - i,
    {
        if list[i].id == scenario_id {
            let s = &list[i];
            assert(is_first_with_id(list@, scenario_id, i as int));
            assert(has_scenario(list@, scenario_id));
            assert(*s == list@[i as int]);
            if contains_str(&s.client_ids, client_id) {
                return Ok(s);
            } else {
                let id_text = decimal_string(scenario_id as u64);
                let m = joined3("Client '", client_id, "' not found in scenario ").concat(
                    id_text.as_str(),
                );
                return Err(m);
            }
        }
        i = i + 1;
    }
    let id_text = decimal_string(scenario_id as u64);
    Err(joined3("Scenario ", id_text.as_str(), " not found"))
}

/// Checks that the catalogue defines the server a test server is started as.
pub fn validate_server_definition(scenarios: &Scenarios, server_name: &str) -> (r: Result<
    (),
    String,
>)
    ensures
        scenarios.servers@.contains_key(server_name@) <==> r is Ok,
        r matches Err(m) ==> m@ == server_not_found(server_name@),
{
    match scenarios.servers.get(server_name) {
        Some(_) => Ok(()),
        None => Err(joined3("Server '", server_name, "' not found in scenarios data")),
    }
}

} // verus!
