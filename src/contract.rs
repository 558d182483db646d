//! Contract-only sections: storage, constructor and messages, and the contract
//! orchestrator.
use vstd::prelude::*;
use vstd::string::*;
use crate::structures::{Contract, ContractField, Function, FunctionHeader, Param, Statement};
use crate::piece::{
    chunks, concat_map, join_blank, lemma_concat_map_all, lemma_concat_map_step,
    lemma_join_blank_all, lemma_join_blank_step, put, put_blank, put_code, put_frag, Chunk, Piece,
};
use crate::outside::{snake_case, snake_of};
use crate::order::views;
use crate::names::{ascii, contract_names_ascii, header_ascii, params_ascii};
use crate::sections::{
    docs_spec, emit_docs, emit_enums, emit_events, emit_imports, emit_signature, emit_structs,
    emit_typed_field, enums_spec, events_spec, imports_spec, put_snake, signature_spec,
    structs_spec, typed_field_spec,
};

verus! {

/// The message attribute: present only on external functions.
pub open spec fn message_attr_spec(h: FunctionHeader) -> Seq<Chunk> {
    if h.external {
        if h.payable {
            seq![Chunk::Code("#[ink(message, payable)]"@)]
        } else {
            seq![Chunk::Code("#[ink(message)]"@)]
        }
    } else {
        Seq::empty()
    }
}

pub fn emit_message_attr(out: &mut Vec<Piece>, h: &FunctionHeader)
    ensures
        chunks(final(out)@) == chunks(old(out)@) + message_attr_spec(*h),
{
    let ghost start = chunks(out@);
    if h.external {
        if h.payable {
            put_code(out, "#[ink(message, payable)]");
        } else {
            put_code(out, "#[ink(message)]");
        }
    }
    assert(chunks(out@) =~= start + message_attr_spec(*h));
}

/// `&self` for a view function, `&mut self` otherwise.
pub open spec fn receiver_spec(view: bool) -> Chunk {
    if view {
        Chunk::Code("&self"@)
    } else {
        Chunk::Code("&mut self"@)
    }
}

pub open spec fn param_fn() -> spec_fn(Param) -> Seq<Chunk> {
    |p: Param| seq![Chunk::Code(","@), Chunk::Frag(snake_of(p.name@)), Chunk::Code(":"@), Chunk::Frag(p.param_type@)]
}

pub open spec fn more_return_fn() -> spec_fn(Param) -> Seq<Chunk> {
    |p: Param| seq![Chunk::Code(","@), Chunk::Frag(p.param_type@)]
}

/// No arrow without return parameters; `-> T` for one; `-> (T1, T2, ...)` for more.
pub open spec fn returns_spec(rs: Seq<Param>) -> Seq<Chunk> {
    if rs.len() == 0 {
        Seq::empty()
    } else if rs.len() == 1 {
        seq![Chunk::Code("->"@), Chunk::Frag(rs[0].param_type@)]
    } else {
        seq![Chunk::Code("->"@), Chunk::Code("("@), Chunk::Frag(rs[0].param_type@)]
            + concat_map(rs.drop_first(), more_return_fn()) + seq![Chunk::Code(")"@)]
    }
}

/// The parameter list with its receiver, then the return type.
pub open spec fn params_returns_spec(h: FunctionHeader) -> Seq<Chunk> {
    seq![Chunk::Code("("@), receiver_spec(h.view)] + concat_map(h.params@, param_fn()) + seq![
        Chunk::Code(")"@),
    ] + returns_spec(h.return_params@)
}

pub fn emit_params_returns(out: &mut Vec<Piece>, h: &FunctionHeader)
    requires
        params_ascii(h.params@),
    ensures
        chunks(final(out)@) == chunks(old(out)@) + params_returns_spec(*h),
{
    let ghost start = chunks(out@);
    put_code(out, "(");
    if h.view {
        put_code(out, "&self");
    } else {
        put_code(out, "&mut self");
    }
    let ghost mid = chunks(out@);
    let mut i: usize = 0;
    while i < h.params.len()
        invariant
            i <= h.params.len(),
            params_ascii(h.params@),
            chunks(out@) == mid + concat_map(h.params@.subrange(0, i as int), param_fn()),
        decreases h.params.len() - i,
    {
        proof {
            lemma_concat_map_step(h.params@, i as int, param_fn());
        }
        put_code(out, ",");
        put_snake(out, &h.params[i].name);
        put_code(out, ":");
        put_frag(out, &h.params[i].param_type);
        i += 1;
        assert(chunks(out@) =~= mid + concat_map(h.params@.subrange(0, i as int), param_fn()));
    }
    proof {
        lemma_concat_map_all(h.params@, param_fn());
    }
    put_code(out, ")");
    let ghost after_params = chunks(out@);
    let rs = &h.return_params;
    if rs.len() == 1 {
        put_code(out, "->");
        put_frag(out, &rs[0].param_type);
    } else if rs.len() > 1 {
        put_code(out, "->");
        put_code(out, "(");
        put_frag(out, &rs[0].param_type);
        let ghost rest = rs@.drop_first();
        let ghost mid2 = chunks(out@);
        let mut j: usize = 1;
        while j < rs.len()
            invariant
                1 <= j <= rs.len(),
                rest == rs@.drop_first(),
                chunks(out@) == mid2 + concat_map(rest.subrange(0, j - 1), more_return_fn()),
            decreases rs.len() - j,
        {
            proof {
                lemma_concat_map_step(rest, j - 1, more_return_fn());
                assert(rest[j - 1] == rs@[j as int]);
            }
            put_code(out, ",");
            put_frag(out, &rs[j].param_type);
            j += 1;
            assert(chunks(out@) =~= mid2 + concat_map(rest.subrange(0, j - 1), more_return_fn()));
        }
        proof {
            lemma_concat_map_all(rest, more_return_fn());
        }
        put_code(out, ")");
    }
    assert(chunks(out@) =~= after_params + returns_spec(h.return_params@));
    assert(chunks(out@) =~= start + params_returns_spec(*h));
}

pub open spec fn statement_fn() -> spec_fn(Statement) -> Seq<Chunk> {
    |s: Statement|
        if s.comment {
            seq![Chunk::Comment(s.content@)]
        } else {
            seq![Chunk::Frag(s.content@)]
        }
}

/// `pub fn name` for a message, `fn _name` for a private function.
pub open spec fn function_name_spec(h: FunctionHeader) -> Seq<Chunk> {
    if h.external {
        seq![Chunk::Code("pub fn"@), Chunk::Frag(snake_of(h.name@))]
    } else {
        seq![Chunk::Code("fn"@), Chunk::Frag("_"@ + snake_of(h.name@))]
    }
}

/// A function with its body, closed by the `todo!()` sentinel.
pub open spec fn function_spec(f: Function) -> Seq<Chunk> {
    message_attr_spec(f.header) + function_name_spec(f.header) + params_returns_spec(f.header)
        + seq![Chunk::Code("{"@)] + concat_map(f.body@, statement_fn()) + seq![
        Chunk::Code("todo!()"@),
        Chunk::Code("}"@),
    ]
}

pub open spec fn function_fn() -> spec_fn(Function) -> Seq<Chunk> {
    |f: Function| function_spec(f)
}

/// The functions in input order, a blank line between two of them.
pub open spec fn functions_spec(fs: Seq<Function>) -> Seq<Chunk> {
    join_blank(fs, function_fn())
}

pub fn emit_function(out: &mut Vec<Piece>, f: &Function)
    requires
        header_ascii(f.header),
    ensures
        chunks(final(out)@) == chunks(old(out)@) + function_spec(*f),
{
    let ghost start = chunks(out@);
    let h = &f.header;
    emit_message_attr(out, h);
    if h.external {
        put_code(out, "pub fn");
        put_snake(out, &h.name);
    } else {
        put_code(out, "fn");
        let snake = snake_case(h.name.as_str());
        let mut name = String::from_str("_");
        name.append(snake.as_str());
        put(out, Piece::Frag(name));
    }
    emit_params_returns(out, h);
    put_code(out, "{");
    let ghost mid = chunks(out@);
    let mut i: usize = 0;
    while i < f.body.len()
        invariant
            i <= f.body.len(),
            chunks(out@) == mid + concat_map(f.body@.subrange(0, i as int), statement_fn()),
        decreases f.body.len() - i,
    {
        proof {
            lemma_concat_map_step(f.body@, i as int, statement_fn());
        }
        let s = &f.body[i];
        if s.comment {
            put(out, Piece::Comment(s.content.clone()));
        } else {
            put_frag(out, &s.content);
        }
        i += 1;
        assert(chunks(out@) =~= mid + concat_map(f.body@.subrange(0, i as int), statement_fn()));
    }
    proof {
        lemma_concat_map_all(f.body@, statement_fn());
    }
    put_code(out, "todo!()");
    put_code(out, "}");
    assert(chunks(out@) =~= start + function_spec(*f));
}

pub fn emit_functions(out: &mut Vec<Piece>, fs: &Vec<Function>)
    requires
        forall|k: int| 0 <= k < fs.len() ==> #[trigger] header_ascii(fs@[k].header),
    ensures
        chunks(final(out)@) == chunks(old(out)@) + functions_spec(fs@),
{
    let ghost start = chunks(out@);
    let mut i: usize = 0;
    while i < fs.len()
        invariant
            i <= fs.len(),
            forall|k: int| 0 <= k < fs.len() ==> #[trigger] header_ascii(fs@[k].header),
            chunks(out@) == start + join_blank(fs@.subrange(0, i as int), function_fn()),
        decreases fs.len() - i,
    {
        proof {
            lemma_join_blank_step(fs@, i as int, function_fn());
        }
        if i > 0 {
            put_blank(out);
        }
        emit_function(out, &fs[i]);
        i += 1;
        assert(chunks(out@) =~= start + join_blank(fs@.subrange(0, i as int), function_fn()));
    }
    proof {
        lemma_join_blank_all(fs@, function_fn());
    }
}

pub open spec fn contract_field_fn() -> spec_fn(ContractField) -> Seq<Chunk> {
    |f: ContractField| typed_field_spec(f.name@, f.field_type@)
}

/// The storage struct, named as the contract, with snake-cased fields.
pub open spec fn storage_spec(name: Seq<char>, fields: Seq<ContractField>) -> Seq<Chunk> {
    seq![
        Chunk::Code("#[ink(storage)]"@),
        Chunk::Code("#[derive(Default, SpreadAllocate)]"@),
        Chunk::Code("pub struct"@),
        Chunk::Frag(name),
        Chunk::Code("{"@),
    ] + concat_map(fields, contract_field_fn()) + seq![Chunk::Code("}"@), Chunk::Blank]
}

pub fn emit_storage(out: &mut Vec<Piece>, name: &String, fields: &Vec<ContractField>)
    requires
        forall|k: int| 0 <= k < fields.len() ==> #[trigger] ascii(fields@[k].name),
    ensures
        chunks(final(out)@) == chunks(old(out)@) + storage_spec(name@, fields@),
{
    let ghost start = chunks(out@);
    put_code(out, "#[ink(storage)]");
    put_code(out, "#[derive(Default, SpreadAllocate)]");
    put_code(out, "pub struct");
    put_frag(out, name);
    put_code(out, "{");
    let ghost mid = chunks(out@);
    let mut i: usize = 0;
    while i < fields.len()
        invariant
            i <= fields.len(),
            forall|k: int| 0 <= k < fields.len() ==> #[trigger] ascii(fields@[k].name),
            chunks(out@) == mid + concat_map(fields@.subrange(0, i as int), contract_field_fn()),
        decreases fields.len() - i,
    {
        proof {
            lemma_concat_map_step(fields@, i as int, contract_field_fn());
        }
        emit_typed_field(out, &fields[i].name, &fields[i].field_type);
        i += 1;
        assert(chunks(out@) =~= mid + concat_map(
            fields@.subrange(0, i as int),
            contract_field_fn(),
        ));
    }
    proof {
        lemma_concat_map_all(fields@, contract_field_fn());
    }
    put_code(out, "}");
    put_blank(out);
    assert(chunks(out@) =~= start + storage_spec(name@, fields@));
}

pub open spec fn ctor_param_fn() -> spec_fn(Param) -> Seq<Chunk> {
    |p: Param| typed_field_spec(p.name@, p.param_type@)
}

/// Each constructor statement becomes a commentary line, whatever its kind.
pub open spec fn ctor_statement_fn() -> spec_fn(Statement) -> Seq<Chunk> {
    |s: Statement| seq![Chunk::Comment(s.content@)]
}

/// The constructor `new`, wrapping its body in the contract initialiser.
pub open spec fn constructor_spec(f: Function) -> Seq<Chunk> {
    seq![Chunk::Code("#[ink(constructor)]"@), Chunk::Code("pub fn new"@), Chunk::Code("("@)]
        + concat_map(f.header.params@, ctor_param_fn()) + seq![
        Chunk::Code(")"@),
        Chunk::Code("-> Self"@),
        Chunk::Code("{"@),
        Chunk::Code("ink_lang::codegen::initialize_contract(|instance: &mut Self| {"@),
    ] + concat_map(f.body@, ctor_statement_fn()) + seq![
        Chunk::Code("})"@),
        Chunk::Code("}"@),
        Chunk::Blank,
    ]
}

pub fn emit_constructor(out: &mut Vec<Piece>, f: &Function)
    requires
        params_ascii(f.header.params@),
    ensures
        chunks(final(out)@) == chunks(old(out)@) + constructor_spec(*f),
{
    let ghost start = chunks(out@);
    put_code(out, "#[ink(constructor)]");
    put_code(out, "pub fn new");
    put_code(out, "(");
    let ps = &f.header.params;
    let ghost mid = chunks(out@);
    let mut i: usize = 0;
    while i < ps.len()
        invariant
            i <= ps.len(),
            params_ascii(ps@),
            chunks(out@) == mid + concat_map(ps@.subrange(0, i as int), ctor_param_fn()),
        decreases ps.len() - i,
    {
        proof {
            lemma_concat_map_step(ps@, i as int, ctor_param_fn());
        }
        emit_typed_field(out, &ps[i].name, &ps[i].param_type);
        i += 1;
        assert(chunks(out@) =~= mid + concat_map(ps@.subrange(0, i as int), ctor_param_fn()));
    }
    proof {
        lemma_concat_map_all(ps@, ctor_param_fn());
    }
    put_code(out, ")");
    put_code(out, "-> Self");
    put_code(out, "{");
    put_code(out, "ink_lang::codegen::initialize_contract(|instance: &mut Self| {");
    let ghost mid2 = chunks(out@);
    let mut j: usize = 0;
    while j < f.body.len()
        invariant
            j <= f.body.len(),
            chunks(out@) == mid2 + concat_map(f.body@.subrange(0, j as int), ctor_statement_fn()),
        decreases f.body.len() - j,
    {
        proof {
            lemma_concat_map_step(f.body@, j as int, ctor_statement_fn());
        }
        put(out, Piece::Comment(f.body[j].content.clone()));
        j += 1;
        assert(chunks(out@) =~= mid2 + concat_map(
            f.body@.subrange(0, j as int),
            ctor_statement_fn(),
        ));
    }
    proof {
        lemma_concat_map_all(f.body@, ctor_statement_fn());
    }
    put_code(out, "})");
    put_code(out, "}");
    put_blank(out);
    assert(chunks(out@) =~= start + constructor_spec(*f));
}

/// The crate-level attributes, then a blank line.
pub open spec fn preamble_spec() -> Seq<Chunk> {
    seq![
        Chunk::Code("#![cfg_attr(not(feature = \"std\"), no_std)]"@),
        Chunk::Code("#![feature(min_specialization)]"@),
        Chunk::Blank,
    ]
}

/// Opens the contract module, named after the snake-cased contract name.
pub open spec fn module_open_spec(name: Seq<char>) -> Seq<Chunk> {
    seq![
        Chunk::Code("#[brush::contract]"@),
        Chunk::Code("pub mod"@),
        Chunk::Frag(snake_of(name)),
        Chunk::Code("{"@),
    ]
}

/// Opens the `impl` block of the contract module.
pub open spec fn impl_open_spec(name: Seq<char>) -> Seq<Chunk> {
    seq![Chunk::Code("impl"@), Chunk::Frag(snake_of(name)), Chunk::Code("{"@)]
}

/// The whole contract, section by section in fixed order.
pub open spec fn contract_spec(c: Contract) -> Seq<Chunk> {
    preamble_spec() + signature_spec() + docs_spec(c.comments@) + module_open_spec(c.name@)
        + imports_spec(c.imports@) + events_spec(c.events@) + enums_spec(c.enums@)
        + structs_spec(c.structs@) + storage_spec(c.name@, c.fields@) + impl_open_spec(c.name@)
        + constructor_spec(c.constructor) + functions_spec(c.functions@) + seq![
        Chunk::Code("}"@),
        Chunk::Code("}"@),
    ]
}

/// The pieces of a contract's source.
pub fn contract_pieces(c: &Contract) -> (r: Vec<Piece>)
    requires
        contract_names_ascii(*c),
        views(c.imports@).no_duplicates(),
    ensures
        chunks(r@) == contract_spec(*c),
{
    let mut out: Vec<Piece> = Vec::new();
    assert(chunks(out@) =~= Seq::<Chunk>::empty());
    put_code(&mut out, "#![cfg_attr(not(feature = \"std\"), no_std)]");
    put_code(&mut out, "#![feature(min_specialization)]");
    put_blank(&mut out);
    emit_signature(&mut out);
    emit_docs(&mut out, &c.comments);
    put_code(&mut out, "#[brush::contract]");
    put_code(&mut out, "pub mod");
    put_snake(&mut out, &c.name);
    put_code(&mut out, "{");
    emit_imports(&mut out, &c.imports);
    emit_events(&mut out, &c.events);
    emit_enums(&mut out, &c.enums);
    emit_structs(&mut out, &c.structs);
    emit_storage(&mut out, &c.name, &c.fields);
    put_code(&mut out, "impl");
    put_snake(&mut out, &c.name);
    put_code(&mut out, "{");
    emit_constructor(&mut out, &c.constructor);
    emit_functions(&mut out, &c.functions);
    put_code(&mut out, "}");
    put_code(&mut out, "}");
    assert(chunks(out@) =~= contract_spec(*c));
    out
}

} // verus!
