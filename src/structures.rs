use vstd::prelude::*;

verus! {

/// A parameter or return parameter: a name and a pre-rendered type.
#[derive(Clone, Debug, PartialEq, Eq)]
pub struct Param {
    pub name: String,
    pub param_type: String,
}

/// A body statement: pre-rendered code, or free text when `comment` is set.
#[derive(Clone, Debug, PartialEq, Eq)]
pub struct Statement {
    pub content: String,
    pub comment: bool,
}

/// The signature of a function or trait method.
#[derive(Clone, Debug, PartialEq, Eq)]
pub struct FunctionHeader {
    pub name: String,
    pub params: Vec<Param>,
    pub return_params: Vec<Param>,
    pub external: bool,
    pub view: bool,
    pub payable: bool,
    pub comments: Vec<String>,
}

/// A function: its header and its body statements.
#[derive(Clone, Debug, PartialEq, Eq)]
pub struct Function {
    pub header: FunctionHeader,
    pub body: Vec<Statement>,
}

/// A field of an event; `indexed` fields become topics.
#[derive(Clone, Debug, PartialEq, Eq)]
pub struct EventField {
    pub name: String,
    pub field_type: String,
    pub indexed: bool,
}

#[derive(Clone, Debug, PartialEq, Eq)]
pub struct Event {
    pub name: String,
    pub fields: Vec<EventField>,
    pub comments: Vec<String>,
}

/// An enum; its variants are emitted verbatim.
#[derive(Clone, Debug, PartialEq, Eq)]
pub struct Enum {
    pub name: String,
    pub values: Vec<String>,
    pub comments: Vec<String>,
}

#[derive(Clone, Debug, PartialEq, Eq)]
pub struct StructField {
    pub name: String,
    pub field_type: String,
}

#[derive(Clone, Debug, PartialEq, Eq)]
pub struct Struct {
    pub name: String,
    pub fields: Vec<StructField>,
    pub comments: Vec<String>,
}

/// A state variable of a contract.
#[derive(Clone, Debug, PartialEq, Eq)]
pub struct ContractField {
    pub name: String,
    pub field_type: String,
}

/// A contract. `imports` holds each import statement once; their order does not matter.
#[derive(Clone, Debug, PartialEq, Eq)]
pub struct Contract {
    pub name: String,
    pub imports: Vec<String>,
    pub events: Vec<Event>,
    pub enums: Vec<Enum>,
    pub structs: Vec<Struct>,
    pub fields: Vec<ContractField>,
    pub constructor: Function,
    pub functions: Vec<Function>,
    pub comments: Vec<String>,
}

/// An interface, emitted as a trait. `imports` holds each import statement once.
#[derive(Clone, Debug, PartialEq, Eq)]
pub struct Interface {
    pub name: String,
    pub imports: Vec<String>,
    pub events: Vec<Event>,
    pub enums: Vec<Enum>,
    pub structs: Vec<Struct>,
    pub function_headers: Vec<FunctionHeader>,
    pub comments: Vec<String>,
}

} // verus!
