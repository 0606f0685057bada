//! The tools that the commander's model may call, described as plain data.
use vstd::prelude::*;

verus! {

/// The JSON type of a tool parameter.
#[derive(PartialEq, Eq, Structural, Clone, Copy, Debug)]
pub enum ParamKind {
    String,
    Number,
}

/// One parameter of a tool.
pub struct ParamSchema {
    pub name: String,
    pub kind: ParamKind,
    pub description: String,
}

/// A function tool: its name, description, parameters (an object's
/// properties) and the names of the required ones, where it lists any.
pub struct ToolSchema {
    pub name: String,
    pub description: String,
    pub properties: Vec<ParamSchema>,
    pub required: Option<Vec<String>>,
}

/// The description of a target parameter.
pub open spec fn target_text() -> Seq<char> {
    "The target to fire at, can be a grid reference in XY format. 6,8,10 digit grids are supported"@
}

/// The description of a round parameter.
pub open spec fn round_text() -> Seq<char> {
    "The classname of round to fire, must be one of the available rounds for the artillery unit, can not contain spaces"@
}

/// The description of a unit parameter.
pub open spec fn unit_text() -> Seq<char> {
    "The unit that should fire, must be in format x:y"@
}

/// Whether a parameter has the given name, kind and description.
pub open spec fn param_is(p: ParamSchema, name: Seq<char>, kind: ParamKind, description: Seq<char>) -> bool {
    p.name@ == name && p.kind == kind && p.description@ == description
}

/// Whether a list of names is exactly the given one.
pub open spec fn names_are(v: Vec<String>, names: Seq<Seq<char>>) -> bool {
    v@.len() == names.len() && forall|i: int| 0 <= i < names.len() ==> #[trigger] v@[i]@ == names[i]
}

/// The fire tool: target, round, quantity, unit and spread, all but the spread required.
pub open spec fn is_fire_schema(t: ToolSchema) -> bool {
    &&& t.name@ == "artillery_fire"@
    &&& t.description@ == "Fire artillery at a position, requires user confirmation. Do not over-use, this is a destructive action."@
    &&& t.properties@.len() == 5
    &&& param_is(t.properties@[0], "target"@, ParamKind::String, target_text())
    &&& param_is(t.properties@[1], "round"@, ParamKind::String, round_text())
    &&& param_is(t.properties@[2], "quantity"@, ParamKind::Number, "The number of rounds to fire"@)
    &&& param_is(t.properties@[3], "unit"@, ParamKind::String, unit_text())
    &&& param_is(t.properties@[4], "spread"@, ParamKind::Number, "The spread of the rounds, in meters"@)
    &&& t.required matches Some(r) && names_are(r, seq!["target"@, "round"@, "quantity"@, "unit"@])
}

/// The tool that lists the available artillery: no parameters.
pub open spec fn is_available_schema(t: ToolSchema) -> bool {
    &&& t.name@ == "artillery_available"@
    &&& t.description@ == "Get a list of available artillery units, the id is private, do not tell users"@
    &&& t.properties@.len() == 0
    &&& t.required is None
}

/// The ETA tool: target, round and unit, all required.
pub open spec fn is_eta_schema(t: ToolSchema) -> bool {
    &&& t.name@ == "artillery_eta"@
    &&& t.description@ == "Get the estimated time of arrival for artillery strikes. Returns -1 if the target can't be hit."@
    &&& t.properties@.len() == 3
    &&& param_is(t.properties@[0], "target"@, ParamKind::String, target_text())
    &&& param_is(t.properties@[1], "round"@, ParamKind::String, round_text())
    &&& param_is(t.properties@[2], "unit"@, ParamKind::String, unit_text())
    &&& t.required matches Some(r) && names_are(r, seq!["target"@, "round"@, "unit"@])
}

/// The fire tool requires each of its parameters but the last, the
/// spread: the required names are, in order, the names of the first four
/// properties, and the spread is not among them.
pub proof fn lemma_fire_requires_all_but_spread(t: ToolSchema)
    requires
        is_fire_schema(t),
    ensures
        t.required is Some,
        t.required->0@.len() == 4,
        forall|i: int| 0 <= i < 4 ==> #[trigger] t.required->0@[i]@ == t.properties@[i].name@,
        t.properties@[4].name@ == "spread"@,
        forall|i: int| 0 <= i < 4 ==> #[trigger] t.required->0@[i]@ != "spread"@,
{
    reveal_strlit("spread");
    reveal_strlit("target");
    reveal_strlit("round");
    reveal_strlit("quantity");
    reveal_strlit("unit");
    let r = t.required->0;
    assert forall|i: int| 0 <= i < 4 implies #[trigger] r@[i]@ != "spread"@ by {
        if i == 0 { assert(r@[0]@ == "target"@); assert("target"@[0] != "spread"@[0]); }
        if i == 1 { assert(r@[1]@ == "round"@); assert("round"@.len() != "spread"@.len()); }
        if i == 2 { assert(r@[2]@ == "quantity"@); assert("quantity"@.len() != "spread"@.len()); }
        if i == 3 { assert(r@[3]@ == "unit"@); assert("unit"@.len() != "spread"@.len()); }
    }
}

fn param(name: &str, kind: ParamKind, description: &str) -> (p: ParamSchema)
    ensures
        param_is(p, name@, kind, description@),
{
    ParamSchema { name: String::from_str(name), kind, description: String::from_str(description) }
}

fn target_param() -> (p: ParamSchema)
    ensures
        param_is(p, "target"@, ParamKind::String, target_text()),
{
    param("target", ParamKind::String,
        "The target to fire at, can be a grid reference in XY format. 6,8,10 digit grids are supported")
}

fn round_param() -> (p: ParamSchema)
    ensures
        param_is(p, "round"@, ParamKind::String, round_text()),
{
    param("round", ParamKind::String,
        "The classname of round to fire, must be one of the available rounds for the artillery unit, can not contain spaces")
}

fn unit_param() -> (p: ParamSchema)
    ensures
        param_is(p, "unit"@, ParamKind::String, unit_text()),
{
    param("unit", ParamKind::String, "The unit that should fire, must be in format x:y")
}

/// The fire tool: target, round, quantity, unit and spread, all but the
/// spread required.
pub fn tool_artillery_fire_schema() -> (t: ToolSchema)
    ensures
        is_fire_schema(t),
{
    let mut properties: Vec<ParamSchema> = Vec::new();
    properties.push(target_param());
    properties.push(round_param());
    properties.push(param("quantity", ParamKind::Number, "The number of rounds to fire"));
    properties.push(unit_param());
    properties.push(param("spread", ParamKind::Number, "The spread of the rounds, in meters"));
    let mut required: Vec<String> = Vec::new();
    required.push(String::from_str("target"));
    required.push(String::from_str("round"));
    required.push(String::from_str("quantity"));
    required.push(String::from_str("unit"));
    ToolSchema {
        name: String::from_str("artillery_fire"),
        description: String::from_str(
            "Fire artillery at a position, requires user confirmation. Do not over-use, this is a destructive action.",
        ),
        properties,
        required: Some(required),
    }
}

/// The tool that lists the available artillery: no parameters.
pub fn tool_artillery_available_schema() -> (t: ToolSchema)
    ensures
        is_available_schema(t),
{
    ToolSchema {
        name: String::from_str("artillery_available"),
        description: String::from_str(
            "Get a list of available artillery units, the id is private, do not tell users",
        ),
        properties: Vec::new(),
        required: None,
    }
}

/// The ETA tool: target, round and unit, all required.
pub fn tool_artillery_eta_schema() -> (t: ToolSchema)
    ensures
        is_eta_schema(t),
{
    let mut properties: Vec<ParamSchema> = Vec::new();
    properties.push(target_param());
    properties.push(round_param());
    properties.push(unit_param());
    let mut required: Vec<String> = Vec::new();
    required.push(String::from_str("target"));
    required.push(String::from_str("round"));
    required.push(String::from_str("unit"));
    ToolSchema {
        name: String::from_str("artillery_eta"),
        description: String::from_str(
            "Get the estimated time of arrival for artillery strikes. Returns -1 if the target can't be hit.",
        ),
        properties,
        required: Some(required),
    }
}

/// The tools that the commander offers its model, in the order it lists them.
pub fn commander_tools() -> (v: Vec<ToolSchema>)
    ensures
        v@.len() == 3,
        is_fire_schema(v@[0]),
        is_available_schema(v@[1]),
        is_eta_schema(v@[2]),
{
    let mut v: Vec<ToolSchema> = Vec::new();
    v.push(tool_artillery_fire_schema());
    v.push(tool_artillery_available_schema());
    v.push(tool_artillery_eta_schema());
    v
}

} // verus!
