use sol2ink_assembler::contract::{contract_pieces, emit_constructor, emit_function, emit_storage};
use sol2ink_assembler::interface::interface_pieces;
use sol2ink_assembler::piece::Piece;
use sol2ink_assembler::render::{
    assemble_contract, assemble_interface, imports_distinct, render_text, tokenize, AssembleError,
};
use sol2ink_assembler::sections::{emit_docs, emit_enums, emit_imports, emit_structs, put_snake};
use sol2ink_assembler::structures::{
    Contract, ContractField, Enum, Function, FunctionHeader, Interface, Param, Statement, Struct,
    StructField,
};

fn code(s: &str) -> Piece {
    Piece::Code(s.to_string())
}

fn frag(s: &str) -> Piece {
    Piece::Frag(s.to_string())
}

fn strings(v: &[&str]) -> Vec<String> {
    v.iter().map(|s| s.to_string()).collect()
}

fn plain_header(name: &str) -> FunctionHeader {
    FunctionHeader {
        name: name.to_string(),
        params: vec![],
        return_params: vec![],
        external: true,
        view: false,
        payable: false,
        comments: vec![],
    }
}

fn sample_contract() -> Contract {
    Contract {
        name: "MyToken".to_string(),
        imports: strings(&["use ink_storage::Mapping;", "use brush::traits::AccountId;"]),
        events: vec![],
        enums: vec![Enum {
            name: "Oper".to_string(),
            values: strings(&["Add", "Sub"]),
            comments: strings(&["operations"]),
        }],
        structs: vec![Struct {
            name: "Info".to_string(),
            fields: vec![StructField { name: "totalSupply".to_string(), field_type: "u128".to_string() }],
            comments: vec![],
        }],
        fields: vec![ContractField { name: "ownerAddress".to_string(), field_type: "AccountId".to_string() }],
        constructor: Function { header: plain_header("new"), body: vec![] },
        functions: vec![
            Function { header: plain_header("doIt"), body: vec![] },
            Function { header: plain_header("doMore"), body: vec![] },
        ],
        comments: strings(&["A token"]),
    }
}

fn snake(s: &str) -> String {
    let mut out = Vec::new();
    put_snake(&mut out, &s.to_string());
    match &out[0] {
        Piece::Frag(t) => t.clone(),
        _ => panic!("a snake-cased name is a fragment"),
    }
}

#[test]
fn banner_and_single_storage() {
    let pieces = contract_pieces(&sample_contract());
    assert_eq!(pieces[3], Piece::Comment("Generated with Sol2Ink v0.4.1".to_string()));
    assert_eq!(pieces[4], Piece::Comment("https://github.com/Supercolony-net/sol2ink".to_string()));
    assert_eq!(pieces[5], Piece::Blank);
    let at: Vec<usize> =
        (0..pieces.len()).filter(|&i| pieces[i] == code("#[ink(storage)]")).collect();
    assert_eq!(at.len(), 1);
    assert_eq!(pieces[at[0] + 3], frag("MyToken"));
}

#[test]
fn field_and_module_names_are_snake_cased() {
    let pieces = contract_pieces(&sample_contract());
    assert!(pieces.contains(&frag("owner_address")));
    assert!(pieces.contains(&frag("total_supply")));
    assert!(pieces.contains(&frag("my_token")));
    assert!(!pieces.contains(&frag("ownerAddress")));
    assert!(pieces.contains(&frag("Info")));
    assert!(pieces.contains(&frag("Oper")));
    assert!(pieces.contains(&frag("MyToken")));
}

#[test]
fn imports_sorted() {
    let mut out = Vec::new();
    emit_imports(&mut out, &strings(&["use b::B;", "use a::A;", "use c::C;"]));
    assert_eq!(out, vec![frag("use a::A;"), frag("use b::B;"), frag("use c::C;"), Piece::Blank]);
    let mut none = Vec::new();
    emit_imports(&mut none, &vec![]);
    assert!(none.is_empty());
}

#[test]
fn payable_message_attribute() {
    let mut h = plain_header("deposit");
    h.payable = true;
    let mut out = Vec::new();
    emit_function(&mut out, &Function { header: h, body: vec![] });
    assert_eq!(out[0], code("#[ink(message, payable)]"));
    let mut h2 = plain_header("hidden");
    h2.external = false;
    h2.payable = true;
    let mut out2 = Vec::new();
    emit_function(&mut out2, &Function { header: h2, body: vec![] });
    assert_eq!(out2[0], code("fn"));
    assert_eq!(out2[1], frag("_hidden"));
}

#[test]
fn function_body_statements() {
    let f = Function {
        header: plain_header("run"),
        body: vec![
            Statement { content: "let x = 1;".to_string(), comment: false },
            Statement { content: "unresolved call".to_string(), comment: true },
        ],
    };
    let mut out = Vec::new();
    emit_function(&mut out, &f);
    let n = out.len();
    assert_eq!(out[n - 5], code("{"));
    assert_eq!(out[n - 4], frag("let x = 1;"));
    assert_eq!(out[n - 3], Piece::Comment("unresolved call".to_string()));
    assert_eq!(out[n - 2], code("todo!()"));
    assert_eq!(out[n - 1], code("}"));
}

#[test]
fn functions_separated_by_blank_lines() {
    let pieces = contract_pieces(&sample_contract());
    let n = pieces.len();
    // the second function follows a blank line; nothing blank after the last one
    assert_eq!(pieces[n - 3], code("}"));
    let second = pieces.iter().position(|p| *p == frag("do_more")).unwrap();
    assert_eq!(pieces[second - 3], Piece::Blank);
}

#[test]
fn constructor_statements_become_comments() {
    let f = Function {
        header: FunctionHeader {
            params: vec![Param { name: "initialSupply".to_string(), param_type: "u128".to_string() }],
            ..plain_header("new")
        },
        body: vec![Statement { content: "self.total = x".to_string(), comment: false }],
    };
    let mut out = Vec::new();
    emit_constructor(&mut out, &f);
    assert!(out.contains(&Piece::Comment("self.total = x".to_string())));
    assert!(!out.contains(&frag("self.total = x")));
    assert!(out.contains(&frag("initial_supply")));
}

#[test]
fn storage_without_fields() {
    let mut out = Vec::new();
    emit_storage(&mut out, &"Vault".to_string(), &vec![]);
    assert_eq!(
        out,
        vec![
            code("#[ink(storage)]"),
            code("#[derive(Default, SpreadAllocate)]"),
            code("pub struct"),
            frag("Vault"),
            code("{"),
            code("}"),
            Piece::Blank,
        ]
    );
}

#[test]
fn enums_and_structs_layout() {
    let c = sample_contract();
    let mut out = Vec::new();
    emit_enums(&mut out, &c.enums);
    assert_eq!(
        out,
        vec![
            Piece::Doc("operations".to_string()),
            code("pub enum"),
            frag("Oper"),
            code("{"),
            frag("Add"),
            code(","),
            frag("Sub"),
            code(","),
            code("}"),
            Piece::Blank,
        ]
    );
    let mut s = Vec::new();
    emit_structs(&mut s, &c.structs);
    assert_eq!(s[0], code("#[derive(Default, Encode, Decode)]"));
    assert_eq!(s[1], code("#[cfg_attr(feature = \"std\", derive(scale_info::TypeInfo))]"));
}

#[test]
fn doc_and_comment_text_is_quoted() {
    let mut out = Vec::new();
    emit_docs(&mut out, &strings(&["say \"hi\""]));
    out.push(Piece::Comment("note".to_string()));
    assert_eq!(render_text(&out), "#[doc = \"say \\\"hi\\\"\"]\n_comment_!(\"note\");\n");
}

#[test]
fn deterministic_output() {
    let a = contract_pieces(&sample_contract());
    let b = contract_pieces(&sample_contract());
    assert_eq!(a, b);
    assert_eq!(render_text(&a), render_text(&b));
    let x = assemble_contract(sample_contract()).unwrap().to_string();
    let y = assemble_contract(sample_contract()).unwrap().to_string();
    assert_eq!(x, y);
}

#[test]
fn snake_casing_is_idempotent() {
    for s in ["balanceOf", "IERC721", "totalSupply", "already_snake", "ABCDef", "x1y2"] {
        let once = snake(s);
        assert_eq!(snake(&once), once);
    }
    assert_eq!(snake("balanceOf"), "balance_of");
}

#[test]
fn bad_fragment_is_reported() {
    let mut c = sample_contract();
    c.structs[0].fields[0].field_type = "Vec<u8".to_string() + ")";
    let err = assemble_contract(c).unwrap_err();
    assert_eq!(err, AssembleError::Lex("Vec<u8)".to_string()));
}

#[test]
fn whole_text_failure_is_reported() {
    let err = tokenize(&vec![code("{")]).unwrap_err();
    assert_eq!(err, AssembleError::Lex("{\n".to_string()));
    assert!(tokenize(&vec![code("{"), code("}")]).is_ok());
}

#[test]
fn interface_comments_before_alias() {
    let i = Interface {
        name: "IToken".to_string(),
        imports: vec![],
        events: vec![],
        enums: vec![],
        structs: vec![],
        function_headers: vec![],
        comments: strings(&["Token interface"]),
    };
    let pieces = interface_pieces(&i);
    let doc = pieces.iter().position(|p| *p == Piece::Doc("Token interface".to_string())).unwrap();
    assert_eq!(pieces[doc + 1], code("#[brush::wrapper]"));
    assert_eq!(pieces[pieces.len() - 1], code("}"));
    assert_eq!(pieces[pieces.len() - 2], code("{"));
}

#[test]
fn non_ascii_name_is_refused() {
    let mut c = sample_contract();
    c.fields[0].name = "\u{e9}_x".to_string();
    assert_eq!(assemble_contract(c).unwrap_err(), AssembleError::NonAsciiName);
    let mut f = sample_contract();
    f.functions[1].header.name = "\u{e9}A".to_string();
    assert_eq!(assemble_contract(f).unwrap_err(), AssembleError::NonAsciiName);
    let i = Interface {
        name: "IToken".to_string(),
        imports: vec![],
        events: vec![],
        enums: vec![],
        structs: vec![],
        function_headers: vec![plain_header("\u{e9}t\u{e9}")],
        comments: vec![],
    };
    assert_eq!(assemble_interface(i).unwrap_err(), AssembleError::NonAsciiName);
}

#[test]
fn duplicate_import_is_refused() {
    let mut c = sample_contract();
    c.imports.push("use brush::traits::AccountId;".to_string());
    assert_eq!(assemble_contract(c).unwrap_err(), AssembleError::DuplicateImport);
    assert!(imports_distinct(&strings(&["use a::A;", "use b::B;"])));
    assert!(!imports_distinct(&strings(&["use a::A;", "use b::B;", "use a::A;"])));
    assert!(imports_distinct(&vec![]));
}

#[test]
fn constructor_comment_with_line_break_stays_commentary() {
    let mut c = sample_contract();
    c.constructor.body = vec![Statement { content: "a\nfn leaked() {}".to_string(), comment: false }];
    let text = assemble_contract(c).unwrap().to_string();
    assert!(!text.contains("fn leaked ()"));
    assert!(text.contains("_comment_"));
}
