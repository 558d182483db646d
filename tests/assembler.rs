use sol2ink_assembler::contract::{contract_pieces, emit_function};
use sol2ink_assembler::interface::interface_pieces;
use sol2ink_assembler::piece::Piece;
use sol2ink_assembler::render::{assemble_contract, assemble_interface, render_text};
use sol2ink_assembler::sections::emit_events;
use sol2ink_assembler::structures::{
    Contract, Event, EventField, Function, FunctionHeader, Interface, Param,
};

fn code(s: &str) -> Piece {
    Piece::Code(s.to_string())
}

fn frag(s: &str) -> Piece {
    Piece::Frag(s.to_string())
}

fn param(name: &str, ty: &str) -> Param {
    Param { name: name.to_string(), param_type: ty.to_string() }
}

fn header(name: &str, external: bool, view: bool, payable: bool) -> FunctionHeader {
    FunctionHeader {
        name: name.to_string(),
        params: vec![],
        return_params: vec![],
        external,
        view,
        payable,
        comments: vec![],
    }
}

fn function(h: FunctionHeader) -> Function {
    Function { header: h, body: vec![] }
}

fn empty_contract() -> Contract {
    Contract {
        name: "Empty".to_string(),
        imports: vec![],
        events: vec![],
        enums: vec![],
        structs: vec![],
        fields: vec![],
        constructor: function(header("new", true, false, false)),
        functions: vec![],
        comments: vec![],
    }
}

fn empty_interface(name: &str) -> Interface {
    Interface {
        name: name.to_string(),
        imports: vec![],
        events: vec![],
        enums: vec![],
        structs: vec![],
        function_headers: vec![],
        comments: vec![],
    }
}

fn contains_run(hay: &[Piece], needle: &[Piece]) -> bool {
    hay.windows(needle.len()).any(|w| w == needle)
}

fn count(hay: &[Piece], p: &Piece) -> usize {
    hay.iter().filter(|x| *x == p).count()
}

fn function_pieces(f: &Function) -> Vec<Piece> {
    let mut out = Vec::new();
    emit_function(&mut out, f);
    out
}

#[test]
fn empty_contract_layout() {
    let pieces = contract_pieces(&empty_contract());
    let expected = vec![
        code("#![cfg_attr(not(feature = \"std\"), no_std)]"),
        code("#![feature(min_specialization)]"),
        Piece::Blank,
        Piece::Comment("Generated with Sol2Ink v0.4.1".to_string()),
        Piece::Comment("https://github.com/Supercolony-net/sol2ink".to_string()),
        Piece::Blank,
        code("#[brush::contract]"),
        code("pub mod"),
        frag("empty"),
        code("{"),
        code("#[ink(storage)]"),
        code("#[derive(Default, SpreadAllocate)]"),
        code("pub struct"),
        frag("Empty"),
        code("{"),
        code("}"),
        Piece::Blank,
        code("impl"),
        frag("empty"),
        code("{"),
        code("#[ink(constructor)]"),
        code("pub fn new"),
        code("("),
        code(")"),
        code("-> Self"),
        code("{"),
        code("ink_lang::codegen::initialize_contract(|instance: &mut Self| {"),
        code("})"),
        code("}"),
        Piece::Blank,
        code("}"),
        code("}"),
    ];
    assert_eq!(pieces, expected);
    let ts = assemble_contract(empty_contract()).expect("the empty contract lexes");
    let text = ts.to_string();
    assert!(text.contains("pub mod empty"));
    assert!(text.contains("pub struct Empty"));
    assert!(text.contains("pub fn new"));
}

#[test]
fn indexed_event() {
    let ev = Event {
        name: "Transfer".to_string(),
        fields: vec![
            EventField { name: "from".to_string(), field_type: "AccountId".to_string(), indexed: true },
            EventField { name: "to".to_string(), field_type: "AccountId".to_string(), indexed: true },
            EventField { name: "value".to_string(), field_type: "u128".to_string(), indexed: false },
        ],
        comments: vec![],
    };
    let mut out = Vec::new();
    emit_events(&mut out, &vec![ev]);
    let expected = vec![
        code("#[ink(event)]"),
        code("pub struct"),
        frag("Transfer"),
        code("{"),
        code("#[ink(topic)]"),
        frag("from"),
        code(":"),
        frag("AccountId"),
        code(","),
        code("#[ink(topic)]"),
        frag("to"),
        code(":"),
        frag("AccountId"),
        code(","),
        frag("value"),
        code(":"),
        frag("u128"),
        code(","),
        code("}"),
        Piece::Blank,
    ];
    assert_eq!(out, expected);
    assert_eq!(
        render_text(&out),
        "#[ink(event)]\npub struct\nTransfer\n{\n#[ink(topic)]\nfrom\n:\nAccountId\n,\n#[ink(topic)]\nto\n:\nAccountId\n,\nvalue\n:\nu128\n,\n}\n_blank_!();\n"
    );
}

#[test]
fn view_and_mutating_split() {
    let mut balance = header("balanceOf", true, true, false);
    balance.return_params = vec![param("", "u128")];
    let mut transfer = header("transfer", true, false, false);
    transfer.params = vec![param("to", "AccountId"), param("amount", "u128")];
    let first = function_pieces(&function(balance));
    assert_eq!(
        first,
        vec![
            code("#[ink(message)]"),
            code("pub fn"),
            frag("balance_of"),
            code("("),
            code("&self"),
            code(")"),
            code("->"),
            frag("u128"),
            code("{"),
            code("todo!()"),
            code("}"),
        ]
    );
    let second = function_pieces(&function(transfer));
    assert_eq!(
        second,
        vec![
            code("#[ink(message)]"),
            code("pub fn"),
            frag("transfer"),
            code("("),
            code("&mut self"),
            code(","),
            frag("to"),
            code(":"),
            frag("AccountId"),
            code(","),
            frag("amount"),
            code(":"),
            frag("u128"),
            code(")"),
            code("{"),
            code("todo!()"),
            code("}"),
        ]
    );
}

#[test]
fn multi_return() {
    let mut two = header("pair", true, true, false);
    two.return_params = vec![param("a", "u128"), param("b", "bool")];
    let p = function_pieces(&function(two));
    assert!(contains_run(
        &p,
        &[code("->"), code("("), frag("u128"), code(","), frag("bool"), code(")"), code("{")]
    ));
    let mut one = header("single", true, true, false);
    one.return_params = vec![param("a", "u128")];
    let q = function_pieces(&function(one));
    assert!(contains_run(&q, &[code(")"), code("->"), frag("u128"), code("{")]));
    assert_eq!(count(&q, &code("(")), 1);
}

#[test]
fn private_function() {
    let p = function_pieces(&function(header("foo", false, true, false)));
    assert_eq!(
        p,
        vec![
            code("fn"),
            frag("_foo"),
            code("("),
            code("&self"),
            code(")"),
            code("{"),
            code("todo!()"),
            code("}"),
        ]
    );
    assert_eq!(count(&p, &code("#[ink(message)]")), 0);
}

#[test]
fn interface_alias() {
    let mut i = empty_interface("IERC721");
    let mut h = header("balanceOf", true, true, false);
    h.params = vec![param("owner", "AccountId")];
    h.return_params = vec![param("", "u128")];
    i.function_headers = vec![h, header("approve", true, false, true)];
    let pieces = interface_pieces(&i);
    assert!(contains_run(
        &pieces,
        &[
            code("#[brush::wrapper]"),
            code("pub type"),
            frag("IERC721Ref"),
            code("="),
            code("dyn"),
            frag("IERC721"),
            code(";"),
            Piece::Blank,
            code("#[brush::trait_definition]"),
            code("pub trait"),
            frag("IERC721"),
            code("{"),
        ]
    ));
    assert_eq!(count(&pieces, &code("pub type")), 1);
    assert_eq!(count(&pieces, &code("pub trait")), 1);
    assert_eq!(count(&pieces, &code(";")), 3);
    assert_eq!(count(&pieces, &code("todo!()")), 0);
    assert!(contains_run(&pieces, &[code("#[ink(message, payable)]"), code("fn"), frag("approve")]));
    let ts = assemble_interface(i).expect("the interface lexes");
    assert!(ts.to_string().contains("IERC721Ref"));
}
