//! Properties of the generated output, stated over the section specifications.
use vstd::prelude::*;
use vstd::relations::sorted_by;
use crate::structures::{Contract, Function, FunctionHeader, Interface, Param};
use crate::piece::{
    avoids, chunks, concat_map, join_blank, lemma_avoids_concat, lemma_concat_map_avoids,
    lemma_join_blank_avoids, lemma_once_between, once, Chunk, Piece, lemma_concat_map_at,
};
use crate::structures::{ContractField, Enum, Event, Struct};
use crate::order::{lemma_lex_total, lex_le_fn, sorted_texts, views};
use crate::outside::snake_of;
use crate::contract::{
    constructor_spec, contract_field_fn, contract_spec, ctor_param_fn, ctor_statement_fn,
    function_fn, function_name_spec, function_spec, functions_spec, impl_open_spec, module_open_spec, preamble_spec, storage_spec, message_attr_spec, param_fn, params_returns_spec, returns_spec,
    statement_fn, more_return_fn, receiver_spec,
};
use crate::interface::{
    alias_spec, header_fn, header_spec, headers_spec, interface_spec, trait_open_spec,
};
use crate::sections::{
    doc_fn, docs_spec, enum_fn, enum_spec, enums_spec, event_field_fn, event_fn, event_spec,
    events_spec, imports_spec, signature_spec, struct_field_fn, struct_fn, struct_spec,
    structs_spec, text_frag_fn, variant_fn, typed_field_spec, event_field_spec,
};

verus! {

/// A function's receiver follows the opening parenthesis: `&self` when the
/// function is a view, `&mut self` otherwise.
pub proof fn lemma_receiver(f: Function)
    ensures
        ({
            let k = message_attr_spec(f.header).len() as int + 2;
            &&& function_spec(f)[k] == Chunk::Code("("@)
            &&& function_spec(f)[k + 1] == (if f.header.view {
                Chunk::Code("&self"@)
            } else {
                Chunk::Code("&mut self"@)
            })
        }),
{
}

/// One return parameter gives `-> T` with no parentheses; two or more give a
/// parenthesised tuple `-> (T1, ...)`; none gives no arrow.
pub proof fn lemma_return_shape(rs: Seq<Param>)
    ensures
        rs.len() == 0 ==> returns_spec(rs).len() == 0,
        rs.len() == 1 ==> returns_spec(rs) == seq![
            Chunk::Code("->"@),
            Chunk::Frag(rs[0].param_type@),
        ],
        rs.len() >= 2 ==> {
            let out = returns_spec(rs);
            &&& out[0] == Chunk::Code("->"@)
            &&& out[1] == Chunk::Code("("@)
            &&& out[2] == Chunk::Frag(rs[0].param_type@)
            &&& out.last() == Chunk::Code(")"@)
        },
{
}

/// Two runs on equal contracts give the same pieces.
pub proof fn lemma_deterministic(
    c1: Contract,
    c2: Contract,
    r1: Seq<Piece>,
    r2: Seq<Piece>,
)
    requires
        c1 == c2,
        chunks(r1) == contract_spec(c1),
        chunks(r2) == contract_spec(c2),
    ensures
        chunks(r1) == chunks(r2),
{
}

/// Two runs on equal interfaces give the same pieces.
pub proof fn lemma_interface_deterministic(
    i1: Interface,
    i2: Interface,
    r1: Seq<Piece>,
    r2: Seq<Piece>,
)
    requires
        i1 == i2,
        chunks(r1) == interface_spec(i1),
        chunks(r2) == interface_spec(i2),
    ensures
        chunks(r1) == chunks(r2),
{
}

proof fn lemma_frags(t: Seq<Seq<char>>)
    ensures
        concat_map(t, text_frag_fn()) == t.map_values(|x: Seq<char>| Chunk::Frag(x)),
    decreases t.len(),
{
    if t.len() > 0 {
        lemma_frags(t.drop_last());
        assert(t.map_values(|x: Seq<char>| Chunk::Frag(x)) =~= t.drop_last().map_values(
            |x: Seq<char>| Chunk::Frag(x),
        ).push(Chunk::Frag(t.last())));
    }
}

/// The imports are emitted as one fragment each, then a blank line (nothing
/// at all when there are none); the fragments are the input imports,
/// ascending, each as often as in the input, so none is repeated when the
/// input repeats none, and none is added.
pub proof fn lemma_imports_sorted(imports: Seq<String>)
    ensures
        imports.len() == 0 ==> imports_spec(imports).len() == 0,
        imports.len() > 0 ==> imports_spec(imports) == sorted_texts(imports).map_values(
            |x: Seq<char>| Chunk::Frag(x),
        ) + seq![Chunk::Blank],
        sorted_by(sorted_texts(imports), lex_le_fn()),
        sorted_texts(imports).to_multiset() == views(imports).to_multiset(),
        views(imports).no_duplicates() ==> sorted_texts(imports).no_duplicates(),
{
    lemma_frags(sorted_texts(imports));
    lemma_lex_total();
    views(imports).lemma_sort_by_ensures(lex_le_fn());
    if views(imports).no_duplicates() {
        views(imports).lemma_multiset_has_no_duplicates();
        sorted_texts(imports).lemma_multiset_has_no_duplicates_conv();
    }
}

/// Fixed syntax that can stand in a parameter list or return type.
pub open spec fn signature_syntax(c: Chunk) -> bool {
    ||| c == Chunk::Code("("@)
    ||| c == Chunk::Code(")"@)
    ||| c == Chunk::Code(","@)
    ||| c == Chunk::Code(":"@)
    ||| c == Chunk::Code("->"@)
    ||| c == Chunk::Code("&self"@)
    ||| c == Chunk::Code("&mut self"@)
}

proof fn lemma_params_returns_avoid(h: FunctionHeader, c: Chunk)
    requires
        c is Code,
        !signature_syntax(c),
    ensures
        avoids(params_returns_spec(h), c),
{
    let ps = concat_map(h.params@, param_fn());
    lemma_concat_map_avoids(h.params@, param_fn(), c);
    let rs = h.return_params@;
    if rs.len() >= 2 {
        lemma_concat_map_avoids(rs.drop_first(), more_return_fn(), c);
        let head = seq![Chunk::Code("->"@), Chunk::Code("("@), Chunk::Frag(rs[0].param_type@)];
        lemma_avoids_concat(head, concat_map(rs.drop_first(), more_return_fn()), c);
        lemma_avoids_concat(head + concat_map(rs.drop_first(), more_return_fn()), seq![Chunk::Code(")"@)], c);
    }
    let open_ = seq![Chunk::Code("("@), receiver_spec(h.view)];
    lemma_avoids_concat(open_, ps, c);
    lemma_avoids_concat(open_ + ps, seq![Chunk::Code(")"@)], c);
    lemma_avoids_concat(open_ + ps + seq![Chunk::Code(")"@)], returns_spec(rs), c);
}

/// A message attribute is neither of the two punctuation pieces it could be confused with.
proof fn lemma_message_attrs_differ()
    ensures
        !signature_syntax(Chunk::Code("#[ink(message)]"@)),
        !signature_syntax(Chunk::Code("#[ink(message, payable)]"@)),
        Chunk::Code("#[ink(message)]"@) != Chunk::Code("fn"@),
        Chunk::Code("#[ink(message)]"@) != Chunk::Code("{"@),
        Chunk::Code("#[ink(message)]"@) != Chunk::Code("}"@),
        Chunk::Code("#[ink(message)]"@) != Chunk::Code("todo!()"@),
        Chunk::Code("#[ink(message, payable)]"@) != Chunk::Code("fn"@),
        Chunk::Code("#[ink(message, payable)]"@) != Chunk::Code("{"@),
        Chunk::Code("#[ink(message, payable)]"@) != Chunk::Code("}"@),
        Chunk::Code("#[ink(message, payable)]"@) != Chunk::Code("todo!()"@),
{
    reveal_strlit("#[ink(message)]");
    reveal_strlit("#[ink(message, payable)]");
    reveal_strlit("(");
    reveal_strlit(")");
    reveal_strlit(",");
    reveal_strlit(":");
    reveal_strlit("->");
    reveal_strlit("&self");
    reveal_strlit("&mut self");
    reveal_strlit("fn");
    reveal_strlit("{");
    reveal_strlit("}");
    reveal_strlit("todo!()");
    let m = "#[ink(message)]"@;
    let mp = "#[ink(message, payable)]"@;
    assert(m.len() == 15 && mp.len() == 24);
    assert("("@.len() == 1 && ")"@.len() == 1 && ","@.len() == 1 && ":"@.len() == 1);
    assert("->"@.len() == 2 && "&self"@.len() == 5 && "&mut self"@.len() == 9);
}

proof fn lemma_private_avoids(f: Function, c: Chunk)
    requires
        !f.header.external,
        c is Code,
        !signature_syntax(c),
        c != Chunk::Code("fn"@),
        c != Chunk::Code("{"@),
        c != Chunk::Code("}"@),
        c != Chunk::Code("todo!()"@),
    ensures
        avoids(function_spec(f), c),
{
    let h = f.header;
    lemma_params_returns_avoid(h, c);
    lemma_concat_map_avoids(f.body@, statement_fn(), c);
    let a = message_attr_spec(h) + seq![Chunk::Code("fn"@), Chunk::Frag("_"@ + snake_of(h.name@))];
    assert(message_attr_spec(h) =~= Seq::<Chunk>::empty());
    lemma_avoids_concat(a, params_returns_spec(h), c);
    let b = a + params_returns_spec(h);
    lemma_avoids_concat(b, seq![Chunk::Code("{"@)], c);
    lemma_avoids_concat(b + seq![Chunk::Code("{"@)], concat_map(f.body@, statement_fn()), c);
    lemma_avoids_concat(
        b + seq![Chunk::Code("{"@)] + concat_map(f.body@, statement_fn()),
        seq![Chunk::Code("todo!()"@), Chunk::Code("}"@)],
        c,
    );
}

/// An external function opens with `#[ink(message, payable)]` when payable,
/// else `#[ink(message)]`, then `pub fn` and its snake-cased name. A private
/// function carries neither attribute anywhere and is named `_` followed by
/// its snake-cased name.
pub proof fn lemma_message_attribute(f: Function)
    ensures
        f.header.external ==> {
            &&& function_spec(f)[0] == (if f.header.payable {
                Chunk::Code("#[ink(message, payable)]"@)
            } else {
                Chunk::Code("#[ink(message)]"@)
            })
            &&& function_spec(f)[1] == Chunk::Code("pub fn"@)
            &&& function_spec(f)[2] == Chunk::Frag(snake_of(f.header.name@))
        },
        !f.header.external ==> {
            &&& function_spec(f)[0] == Chunk::Code("fn"@)
            &&& function_spec(f)[1] == Chunk::Frag("_"@ + snake_of(f.header.name@))
            &&& avoids(function_spec(f), Chunk::Code("#[ink(message)]"@))
            &&& avoids(function_spec(f), Chunk::Code("#[ink(message, payable)]"@))
        },
{
    if !f.header.external {
        lemma_message_attrs_differ();
        lemma_private_avoids(f, Chunk::Code("#[ink(message)]"@));
        lemma_private_avoids(f, Chunk::Code("#[ink(message, payable)]"@));
    }
}

/// Fixed syntax that the shared sections (events, enums, structs) write.
pub open spec fn section_syntax(c: Chunk) -> bool {
    ||| c == Chunk::Code("#[ink(event)]"@)
    ||| c == Chunk::Code("#[ink(topic)]"@)
    ||| c == Chunk::Code("pub struct"@)
    ||| c == Chunk::Code("pub enum"@)
    ||| c == Chunk::Code("#[derive(Default, Encode, Decode)]"@)
    ||| c == Chunk::Code("#[cfg_attr(feature = \"std\", derive(scale_info::TypeInfo))]"@)
    ||| c == Chunk::Code("{"@)
    ||| c == Chunk::Code("}"@)
    ||| c == Chunk::Code(":"@)
    ||| c == Chunk::Code(","@)
}

proof fn lemma_docs_avoid(cs: Seq<String>, c: Chunk)
    requires
        c is Code,
    ensures
        avoids(docs_spec(cs), c),
{
    lemma_concat_map_avoids(cs, doc_fn(), c);
}

proof fn lemma_event_avoids(e: Event, c: Chunk)
    requires
        c is Code,
        !section_syntax(c),
    ensures
        avoids(event_spec(e), c),
{
    broadcast use lemma_avoids_concat;

    lemma_docs_avoid(e.comments@, c);
    lemma_concat_map_avoids(e.fields@, event_field_fn(), c);
}

proof fn lemma_enum_avoids(e: Enum, c: Chunk)
    requires
        c is Code,
        !section_syntax(c),
    ensures
        avoids(enum_spec(e), c),
{
    broadcast use lemma_avoids_concat;

    lemma_docs_avoid(e.comments@, c);
    lemma_concat_map_avoids(e.values@, variant_fn(), c);
}

proof fn lemma_struct_avoids(s: Struct, c: Chunk)
    requires
        c is Code,
        !section_syntax(c),
    ensures
        avoids(struct_spec(s), c),
{
    broadcast use lemma_avoids_concat;

    lemma_docs_avoid(s.comments@, c);
    lemma_concat_map_avoids(s.fields@, struct_field_fn(), c);
}

/// Fixed syntax that is not written by the shared sections occurs in none of them.
proof fn lemma_sections_avoid(
    imports: Seq<String>,
    events: Seq<Event>,
    enums: Seq<Enum>,
    structs: Seq<Struct>,
    c: Chunk,
)
    requires
        c is Code,
        !section_syntax(c),
    ensures
        avoids(signature_spec(), c),
        avoids(imports_spec(imports), c),
        avoids(events_spec(events), c),
        avoids(enums_spec(enums), c),
        avoids(structs_spec(structs), c),
{
    broadcast use lemma_avoids_concat;

    lemma_concat_map_avoids(crate::order::sorted_texts(imports), text_frag_fn(), c);
    assert forall|i: int| 0 <= i < events.len() implies avoids(#[trigger] event_fn()(events[i]), c) by {
        lemma_event_avoids(events[i], c);
    }
    lemma_concat_map_avoids(events, event_fn(), c);
    assert forall|i: int| 0 <= i < enums.len() implies avoids(#[trigger] enum_fn()(enums[i]), c) by {
        lemma_enum_avoids(enums[i], c);
    }
    lemma_concat_map_avoids(enums, enum_fn(), c);
    assert forall|i: int| 0 <= i < structs.len() implies avoids(#[trigger] struct_fn()(structs[i]), c) by {
        lemma_struct_avoids(structs[i], c);
    }
    lemma_concat_map_avoids(structs, struct_fn(), c);
}

proof fn lemma_header_avoids(h: FunctionHeader, c: Chunk)
    requires
        c is Code,
        !signature_syntax(c),
        c != Chunk::Code("#[ink(message)]"@),
        c != Chunk::Code("#[ink(message, payable)]"@),
        c != Chunk::Code("fn"@),
        c != Chunk::Code(";"@),
    ensures
        avoids(header_spec(h), c),
{
    broadcast use lemma_avoids_concat;

    lemma_docs_avoid(h.comments@, c);
    lemma_params_returns_avoid(h, c);
}

proof fn lemma_alias_trait_distinct()
    ensures
        !section_syntax(Chunk::Code("pub type"@)),
        !section_syntax(Chunk::Code("pub trait"@)),
        !signature_syntax(Chunk::Code("pub type"@)),
        !signature_syntax(Chunk::Code("pub trait"@)),
        Chunk::Code("pub type"@) != Chunk::Code("pub trait"@),
        "pub type"@ != "#[brush::wrapper]"@,
        "pub type"@ != "="@,
        "pub type"@ != "dyn"@,
        "pub type"@ != "#[brush::trait_definition]"@,
        "pub trait"@ != "#[brush::wrapper]"@,
        "pub trait"@ != "="@,
        "pub trait"@ != "dyn"@,
        "pub trait"@ != "#[brush::trait_definition]"@,
        "pub type"@ != "#[ink(message)]"@,
        "pub type"@ != "#[ink(message, payable)]"@,
        "pub type"@ != "fn"@,
        "pub type"@ != ";"@,
        "pub trait"@ != "#[ink(message)]"@,
        "pub trait"@ != "#[ink(message, payable)]"@,
        "pub trait"@ != "fn"@,
        "pub trait"@ != ";"@,
{
    reveal_strlit("#[brush::wrapper]");
    reveal_strlit("#[brush::trait_definition]");
    reveal_strlit("=");
    reveal_strlit("dyn");
    reveal_strlit("#[ink(event)]");
    reveal_strlit("#[ink(topic)]");
    reveal_strlit("#[derive(Default, Encode, Decode)]");
    reveal_strlit("#[cfg_attr(feature = \"std\", derive(scale_info::TypeInfo))]");
    reveal_strlit("{");
    reveal_strlit("}");
    reveal_strlit(":");
    reveal_strlit(",");
    reveal_strlit("(");
    reveal_strlit(")");
    reveal_strlit("->");
    reveal_strlit("&self");
    reveal_strlit("fn");
    reveal_strlit(";");
    reveal_strlit("#[ink(message)]");
    reveal_strlit("#[ink(message, payable)]");
    reveal_strlit("pub type");
    reveal_strlit("pub trait");
    reveal_strlit("pub struct");
    reveal_strlit("pub enum");
    reveal_strlit("&mut self");
    assert("pub type"@[4] != "pub enum"@[4]);
    assert("pub trait"@[0] != "&mut self"@[0]);
    assert("pub type"@.len() == 8 && "pub trait"@.len() == 9 && "pub struct"@.len() == 10);
    assert("#[ink(event)]"@.len() == 13 && "#[ink(topic)]"@.len() == 13);
    assert("#[derive(Default, Encode, Decode)]"@.len() == 34);
    assert("#[cfg_attr(feature = \"std\", derive(scale_info::TypeInfo))]"@.len() > 9);
    assert("{"@.len() == 1 && "}"@.len() == 1 && ":"@.len() == 1 && ","@.len() == 1);
    assert("("@.len() == 1 && ")"@.len() == 1 && "->"@.len() == 2 && "&self"@.len() == 5);
    assert("#[ink(message)]"@.len() == 15 && "#[ink(message, payable)]"@.len() == 24);
    assert("fn"@.len() == 2 && ";"@.len() == 1);
}

/// An interface yields exactly one `pub type <Name>Ref = dyn <Name>;` alias,
/// marked as a wrapper, and exactly one `pub trait <Name>`.
pub proof fn lemma_interface_alias_and_trait(i: Interface)
    ensures
        exists|k: int|
            {
                &&& once(interface_spec(i), Chunk::Code("pub type"@), k)
                &&& interface_spec(i).subrange(k - 1, k + 6) == seq![
                    Chunk::Code("#[brush::wrapper]"@),
                    Chunk::Code("pub type"@),
                    Chunk::Frag(i.name@ + "Ref"@),
                    Chunk::Code("="@),
                    Chunk::Code("dyn"@),
                    Chunk::Frag(i.name@),
                    Chunk::Code(";"@),
                ]
            },
        exists|k: int|
            {
                &&& once(interface_spec(i), Chunk::Code("pub trait"@), k)
                &&& interface_spec(i)[k + 1] == Chunk::Frag(i.name@)
            },
{
    broadcast use lemma_avoids_concat;

    lemma_alias_trait_distinct();
    reveal_strlit("pub type");
    reveal_strlit("pub trait");
    reveal_strlit("#[brush::wrapper]");
    reveal_strlit("#[brush::trait_definition]");
    reveal_strlit("=");
    reveal_strlit("dyn");
    reveal_strlit(";");
    reveal_strlit("{");
    reveal_strlit("}");
    reveal_strlit("fn");
    reveal_strlit("#[ink(message)]");
    reveal_strlit("#[ink(message, payable)]");
    let pre = signature_spec() + imports_spec(i.imports@) + events_spec(i.events@) + enums_spec(
        i.enums@,
    ) + structs_spec(i.structs@) + docs_spec(i.comments@);
    let hs = headers_spec(i.function_headers@);
    let close = seq![Chunk::Code("}"@)];
    assert(interface_spec(i) == pre + alias_spec(i.name@) + trait_open_spec(i.name@) + hs + close);
    let ty = Chunk::Code("pub type"@);
    let tr = Chunk::Code("pub trait"@);
    lemma_sections_avoid(i.imports@, i.events@, i.enums@, i.structs@, ty);
    lemma_sections_avoid(i.imports@, i.events@, i.enums@, i.structs@, tr);
    lemma_docs_avoid(i.comments@, ty);
    lemma_docs_avoid(i.comments@, tr);
    let fs = i.function_headers@;
    assert forall|j: int| 0 <= j < fs.len() implies avoids(#[trigger] header_fn()(fs[j]), ty) && avoids(header_fn()(fs[j]), tr) by {
        lemma_header_avoids(fs[j], ty);
        lemma_header_avoids(fs[j], tr);
    }
    lemma_join_blank_avoids(fs, header_fn(), ty);
    lemma_join_blank_avoids(fs, header_fn(), tr);
    assert(once(alias_spec(i.name@), ty, 1));
    assert(avoids(trait_open_spec(i.name@) + hs + close, ty));
    lemma_once_between(pre, alias_spec(i.name@), trait_open_spec(i.name@) + hs + close, ty, 1);
    assert(pre + alias_spec(i.name@) + (trait_open_spec(i.name@) + hs + close) =~= interface_spec(i));
    let k1 = pre.len() as int + 1;
    assert(interface_spec(i).subrange(k1 - 1, k1 + 6) =~= alias_spec(i.name@).subrange(0, 7));
    assert(once(trait_open_spec(i.name@), tr, 1));
    assert(avoids(pre + alias_spec(i.name@), tr));
    assert(avoids(hs + close, tr));
    lemma_once_between(pre + alias_spec(i.name@), trait_open_spec(i.name@), hs + close, tr, 1);
    assert(pre + alias_spec(i.name@) + trait_open_spec(i.name@) + (hs + close) =~= interface_spec(i));
    let k2 = pre.len() as int + 8 + 1;
    assert(interface_spec(i)[k2 + 1] == Chunk::Frag(i.name@));
}

proof fn lemma_storage_attr_distinct()
    ensures
        "#[ink(storage)]"@ != "#![cfg_attr(not(feature = \"std\"), no_std)]"@,
        "#[ink(storage)]"@ != "#![feature(min_specialization)]"@,
        "#[ink(storage)]"@ != "#[brush::contract]"@,
        "#[ink(storage)]"@ != "pub mod"@,
        "#[ink(storage)]"@ != "impl"@,
        "#[ink(storage)]"@ != "#[ink(constructor)]"@,
        "#[ink(storage)]"@ != "pub fn new"@,
        "#[ink(storage)]"@ != "-> Self"@,
        "#[ink(storage)]"@ != "ink_lang::codegen::initialize_contract(|instance: &mut Self| {"@,
        "#[ink(storage)]"@ != "})"@,
        "#[ink(storage)]"@ != "pub fn"@,
        "#[ink(storage)]"@ != "fn"@,
        "#[ink(storage)]"@ != "todo!()"@,
        "#[ink(storage)]"@ != "#[ink(message)]"@,
        "#[ink(storage)]"@ != "#[ink(message, payable)]"@,
        "#[ink(storage)]"@ != "#[derive(Default, SpreadAllocate)]"@,
        "#[ink(storage)]"@ != "pub struct"@,
        "#[ink(storage)]"@ != "{"@,
        "#[ink(storage)]"@ != "}"@,
        "#[ink(storage)]"@ != ":"@,
        "#[ink(storage)]"@ != ","@,
        "#[ink(storage)]"@ != "("@,
        "#[ink(storage)]"@ != ")"@,
        "#[ink(storage)]"@ != "->"@,
        "#[ink(storage)]"@ != "&self"@,
        "#[ink(storage)]"@ != "&mut self"@,
        "#[ink(storage)]"@ != "#[ink(event)]"@,
        "#[ink(storage)]"@ != "#[ink(topic)]"@,
        "#[ink(storage)]"@ != "pub enum"@,
        "#[ink(storage)]"@ != "#[derive(Default, Encode, Decode)]"@,
        "#[ink(storage)]"@ != "#[cfg_attr(feature = \"std\", derive(scale_info::TypeInfo))]"@,
{
    reveal_strlit("#[ink(storage)]");
    reveal_strlit("#![cfg_attr(not(feature = \"std\"), no_std)]");
    reveal_strlit("#![feature(min_specialization)]");
    reveal_strlit("#[brush::contract]");
    reveal_strlit("pub mod");
    reveal_strlit("impl");
    reveal_strlit("#[ink(constructor)]");
    reveal_strlit("pub fn new");
    reveal_strlit("-> Self");
    reveal_strlit("ink_lang::codegen::initialize_contract(|instance: &mut Self| {");
    reveal_strlit("})");
    reveal_strlit("pub fn");
    reveal_strlit("fn");
    reveal_strlit("todo!()");
    reveal_strlit("#[ink(message)]");
    reveal_strlit("#[ink(message, payable)]");
    reveal_strlit("#[derive(Default, SpreadAllocate)]");
    reveal_strlit("pub struct");
    reveal_strlit("{");
    reveal_strlit("}");
    reveal_strlit(":");
    reveal_strlit(",");
    reveal_strlit("(");
    reveal_strlit(")");
    reveal_strlit("->");
    reveal_strlit("&self");
    reveal_strlit("&mut self");
    reveal_strlit("#[ink(event)]");
    reveal_strlit("#[ink(topic)]");
    reveal_strlit("pub enum");
    reveal_strlit("#[derive(Default, Encode, Decode)]");
    reveal_strlit("#[cfg_attr(feature = \"std\", derive(scale_info::TypeInfo))]");
    assert("#[ink(storage)]"@[6] != "#[ink(message)]"@[6]);
    assert("#[ink(storage)]"@.len() == 15 && "impl"@.len() == 4 && "})"@.len() == 2);
}

proof fn lemma_function_avoids(f: Function, c: Chunk)
    requires
        c is Code,
        !signature_syntax(c),
        c != Chunk::Code("#[ink(message)]"@),
        c != Chunk::Code("#[ink(message, payable)]"@),
        c != Chunk::Code("pub fn"@),
        c != Chunk::Code("fn"@),
        c != Chunk::Code("{"@),
        c != Chunk::Code("}"@),
        c != Chunk::Code("todo!()"@),
    ensures
        avoids(function_spec(f), c),
{
    broadcast use lemma_avoids_concat;

    lemma_params_returns_avoid(f.header, c);
    lemma_concat_map_avoids(f.body@, statement_fn(), c);
}

/// A contract's output opens with the crate attributes and the banner, and
/// holds exactly one `#[ink(storage)]` attribute, on a struct named exactly as
/// the contract.
pub proof fn lemma_contract_banner_and_storage(c: Contract)
    ensures
        contract_spec(c).subrange(0, 6) == preamble_spec() + signature_spec(),
        exists|k: int|
            {
                &&& once(contract_spec(c), Chunk::Code("#[ink(storage)]"@), k)
                &&& contract_spec(c)[k + 2] == Chunk::Code("pub struct"@)
                &&& contract_spec(c)[k + 3] == Chunk::Frag(c.name@)
            },
{
    broadcast use lemma_avoids_concat;

    let st = Chunk::Code("#[ink(storage)]"@);
    lemma_storage_attr_distinct();
    assert(!section_syntax(st));
    assert(!signature_syntax(st));
    let pre = preamble_spec() + signature_spec() + docs_spec(c.comments@) + module_open_spec(
        c.name@,
    ) + imports_spec(c.imports@) + events_spec(c.events@) + enums_spec(c.enums@) + structs_spec(
        c.structs@,
    );
    let mid = storage_spec(c.name@, c.fields@);
    let post = impl_open_spec(c.name@) + constructor_spec(c.constructor) + join_blank(
        c.functions@,
        function_fn(),
    ) + seq![Chunk::Code("}"@), Chunk::Code("}"@)];
    assert(contract_spec(c) =~= pre + mid + post);
    assert(contract_spec(c).subrange(0, 6) =~= preamble_spec() + signature_spec());
    lemma_sections_avoid(c.imports@, c.events@, c.enums@, c.structs@, st);
    lemma_docs_avoid(c.comments@, st);
    assert(avoids(preamble_spec(), st));
    assert(avoids(module_open_spec(c.name@), st));
    assert(avoids(pre, st));
    lemma_concat_map_avoids(c.fields@, contract_field_fn(), st);
    assert(once(mid, st, 0));
    lemma_concat_map_avoids(c.constructor.header.params@, ctor_param_fn(), st);
    lemma_concat_map_avoids(c.constructor.body@, ctor_statement_fn(), st);
    assert(avoids(constructor_spec(c.constructor), st));
    let fs = c.functions@;
    assert forall|j: int| 0 <= j < fs.len() implies avoids(#[trigger] function_fn()(fs[j]), st) by {
        lemma_function_avoids(fs[j], st);
    }
    lemma_join_blank_avoids(fs, function_fn(), st);
    assert(avoids(post, st));
    lemma_once_between(pre, mid, post, st, 0);
    let k = pre.len() as int;
    assert(contract_spec(c)[k + 2] == mid[2]);
    assert(contract_spec(c)[k + 3] == mid[3]);
}

/// The chunks of element `j` stand as one block in `pre`, then the chunks of
/// all elements, then `post`.
proof fn lemma_block_in<A>(
    pre: Seq<Chunk>,
    s: Seq<A>,
    f: spec_fn(A) -> Seq<Chunk>,
    post: Seq<Chunk>,
    j: int,
) -> (k: int)
    requires
        0 <= j < s.len(),
    ensures
        0 <= k,
        k + f(s[j]).len() <= (pre + concat_map(s, f) + post).len(),
        (pre + concat_map(s, f) + post).subrange(k, k + f(s[j]).len()) == f(s[j]),
{
    lemma_concat_map_at(s, f, j);
    let a = concat_map(s.subrange(0, j), f);
    let b = concat_map(s.subrange(j + 1, s.len() as int), f);
    let k = pre.len() + a.len() as int;
    let all = pre + concat_map(s, f) + post;
    assert(all =~= pre + a + f(s[j]) + b + post);
    assert(all.subrange(k, k + f(s[j]).len()) =~= f(s[j]));
    k
}

/// Every field of an event, a struct or the storage is written as
/// `snake_name: type,`: its name goes through snake casing, its type is kept.
pub proof fn lemma_field_names_snake_cased(
    e: Event,
    i: int,
    st: Struct,
    j: int,
    name: Seq<char>,
    fields: Seq<ContractField>,
    l: int,
)
    requires
        0 <= i < e.fields.len(),
        0 <= j < st.fields.len(),
        0 <= l < fields.len(),
    ensures
        exists|k: int|
            0 <= k && k + 4 <= event_spec(e).len() && #[trigger] event_spec(e).subrange(k, k + 4)
                == typed_field_spec(e.fields@[i].name@, e.fields@[i].field_type@),
        exists|k: int|
            0 <= k && k + 4 <= struct_spec(st).len() && #[trigger] struct_spec(st).subrange(k, k + 4)
                == typed_field_spec(st.fields@[j].name@, st.fields@[j].field_type@),
        exists|k: int|
            0 <= k && k + 4 <= storage_spec(name, fields).len() && #[trigger] storage_spec(
                name,
                fields,
            ).subrange(k, k + 4) == typed_field_spec(fields[l].name@, fields[l].field_type@),
        typed_field_spec(e.fields@[i].name@, e.fields@[i].field_type@)[0] == Chunk::Frag(
            snake_of(e.fields@[i].name@),
        ),
        typed_field_spec(st.fields@[j].name@, st.fields@[j].field_type@)[0] == Chunk::Frag(
            snake_of(st.fields@[j].name@),
        ),
        typed_field_spec(fields[l].name@, fields[l].field_type@)[0] == Chunk::Frag(
            snake_of(fields[l].name@),
        ),
{
    let ev = e.fields@[i];
    let pre_e = docs_spec(e.comments@) + seq![
        Chunk::Code("#[ink(event)]"@),
        Chunk::Code("pub struct"@),
        Chunk::Frag(e.name@),
        Chunk::Code("{"@),
    ];
    let k0 = lemma_block_in(
        pre_e,
        e.fields@,
        event_field_fn(),
        seq![Chunk::Code("}"@), Chunk::Blank],
        i,
    );
    let off: int = if ev.indexed { 1 } else { 0 };
    let tf = typed_field_spec(ev.name@, ev.field_type@);
    assert(event_field_spec(ev).subrange(off, off + 4) =~= tf);
    assert(event_spec(e).subrange(k0 + off, k0 + off + 4) =~= tf);

    let pre_s = docs_spec(st.comments@) + seq![
        Chunk::Code("#[derive(Default, Encode, Decode)]"@),
        Chunk::Code("#[cfg_attr(feature = \"std\", derive(scale_info::TypeInfo))]"@),
        Chunk::Code("pub struct"@),
        Chunk::Frag(st.name@),
        Chunk::Code("{"@),
    ];
    let k1 = lemma_block_in(
        pre_s,
        st.fields@,
        struct_field_fn(),
        seq![Chunk::Code("}"@), Chunk::Blank],
        j,
    );
    assert(struct_spec(st).subrange(k1, k1 + 4) == typed_field_spec(
        st.fields@[j].name@,
        st.fields@[j].field_type@,
    ));

    let pre_g = seq![
        Chunk::Code("#[ink(storage)]"@),
        Chunk::Code("#[derive(Default, SpreadAllocate)]"@),
        Chunk::Code("pub struct"@),
        Chunk::Frag(name),
        Chunk::Code("{"@),
    ];
    let k2 = lemma_block_in(
        pre_g,
        fields,
        contract_field_fn(),
        seq![Chunk::Code("}"@), Chunk::Blank],
        l,
    );
    assert(storage_spec(name, fields).subrange(k2, k2 + 4) == typed_field_spec(
        fields[l].name@,
        fields[l].field_type@,
    ));
}

/// Every parameter of a function or trait method is written `, snake_name: type`
/// after the receiver; every constructor parameter `snake_name: type,`.
pub proof fn lemma_param_names_snake_cased(h: FunctionHeader, i: int, ctor: Function, j: int)
    requires
        0 <= i < h.params.len(),
        0 <= j < ctor.header.params.len(),
    ensures
        exists|k: int|
            0 <= k && k + 4 <= params_returns_spec(h).len() && #[trigger] params_returns_spec(
                h,
            ).subrange(k, k + 4) == seq![
                Chunk::Code(","@),
                Chunk::Frag(snake_of(h.params@[i].name@)),
                Chunk::Code(":"@),
                Chunk::Frag(h.params@[i].param_type@),
            ],
        exists|k: int|
            0 <= k && k + 4 <= constructor_spec(ctor).len() && #[trigger] constructor_spec(
                ctor,
            ).subrange(k, k + 4) == typed_field_spec(
                ctor.header.params@[j].name@,
                ctor.header.params@[j].param_type@,
            ),
{
    let k0 = lemma_block_in(
        seq![Chunk::Code("("@), receiver_spec(h.view)],
        h.params@,
        param_fn(),
        seq![Chunk::Code(")"@)] + returns_spec(h.return_params@),
        i,
    );
    let a = seq![Chunk::Code("("@), receiver_spec(h.view)];
    assert(a + concat_map(h.params@, param_fn()) + (seq![Chunk::Code(")"@)] + returns_spec(
        h.return_params@,
    )) =~= params_returns_spec(h));
    let post = seq![
        Chunk::Code(")"@),
        Chunk::Code("-> Self"@),
        Chunk::Code("{"@),
        Chunk::Code("ink_lang::codegen::initialize_contract(|instance: &mut Self| {"@),
    ] + concat_map(ctor.body@, ctor_statement_fn()) + seq![
        Chunk::Code("})"@),
        Chunk::Code("}"@),
        Chunk::Blank,
    ];
    let pre = seq![Chunk::Code("#[ink(constructor)]"@), Chunk::Code("pub fn new"@), Chunk::Code("("@)];
    let k1 = lemma_block_in(pre, ctor.header.params@, ctor_param_fn(), post, j);
    assert(pre + concat_map(ctor.header.params@, ctor_param_fn()) + post =~= constructor_spec(ctor));
}

/// Event, enum and struct names are written exactly as given, right after
/// their comments and attributes.
pub proof fn lemma_type_names_kept(e: Event, en: Enum, st: Struct)
    ensures
        event_spec(e)[docs_spec(e.comments@).len() as int + 2] == Chunk::Frag(e.name@),
        enum_spec(en)[docs_spec(en.comments@).len() as int + 1] == Chunk::Frag(en.name@),
        struct_spec(st)[docs_spec(st.comments@).len() as int + 3] == Chunk::Frag(st.name@),
{
}

/// A trait method header carries the same message attribute and receiver as a
/// function, keeps its snake-cased name without an underscore, and ends with `;`.
pub proof fn lemma_header_shape(h: FunctionHeader)
    ensures
        ({
            let d = docs_spec(h.comments@).len() as int;
            let a = message_attr_spec(h).len() as int;
            &&& h.external ==> a == 1 && header_spec(h)[d] == (if h.payable {
                Chunk::Code("#[ink(message, payable)]"@)
            } else {
                Chunk::Code("#[ink(message)]"@)
            })
            &&& !h.external ==> a == 0
            &&& header_spec(h)[d + a] == Chunk::Code("fn"@)
            &&& header_spec(h)[d + a + 1] == Chunk::Frag(snake_of(h.name@))
            &&& header_spec(h)[d + a + 2] == Chunk::Code("("@)
            &&& header_spec(h)[d + a + 3] == (if h.view {
                Chunk::Code("&self"@)
            } else {
                Chunk::Code("&mut self"@)
            })
            &&& header_spec(h).last() == Chunk::Code(";"@)
        }),
{
}

/// A trait method header ends with its return type and `;`, and holds no
/// body: neither `{`, `}` nor the `todo!()` sentinel occurs in it.
pub proof fn lemma_header_has_no_body(h: FunctionHeader)
    ensures
        ({
            let out = header_spec(h);
            let rs = returns_spec(h.return_params@);
            &&& out.subrange(out.len() - 1 - rs.len(), out.len() - 1) == rs
            &&& out.last() == Chunk::Code(";"@)
            &&& avoids(out, Chunk::Code("{"@))
            &&& avoids(out, Chunk::Code("}"@))
            &&& avoids(out, Chunk::Code("todo!()"@))
        }),
{
    reveal_strlit("{");
    reveal_strlit("}");
    reveal_strlit("todo!()");
    reveal_strlit("(");
    reveal_strlit(")");
    reveal_strlit(",");
    reveal_strlit(":");
    reveal_strlit("->");
    reveal_strlit("&self");
    reveal_strlit("&mut self");
    reveal_strlit("fn");
    reveal_strlit(";");
    reveal_strlit("#[ink(message)]");
    reveal_strlit("#[ink(message, payable)]");
    assert("{"@.len() == 1 && "}"@.len() == 1 && "todo!()"@.len() == 7);
    assert("->"@.len() == 2 && "&self"@.len() == 5 && "&mut self"@.len() == 9);
    assert("fn"@.len() == 2 && "#[ink(message)]"@.len() == 15);
    assert("#[ink(message, payable)]"@.len() == 24);
    assert("{"@[0] != "("@[0] && "{"@[0] != ")"@[0] && "{"@[0] != ","@[0] && "{"@[0] != ":"@[0]);
    assert("}"@[0] != "("@[0] && "}"@[0] != ")"@[0] && "}"@[0] != ","@[0] && "}"@[0] != ":"@[0]);
    assert("{"@[0] != ";"@[0] && "}"@[0] != ";"@[0]);
    lemma_header_avoids(h, Chunk::Code("{"@));
    lemma_header_avoids(h, Chunk::Code("}"@));
    lemma_header_avoids(h, Chunk::Code("todo!()"@));
    let out = header_spec(h);
    let rs = returns_spec(h.return_params@);
    let front = docs_spec(h.comments@) + message_attr_spec(h) + seq![
        Chunk::Code("fn"@),
        Chunk::Frag(snake_of(h.name@)),
    ] + seq![Chunk::Code("("@), receiver_spec(h.view)] + concat_map(h.params@, param_fn()) + seq![
        Chunk::Code(")"@),
    ];
    assert(out =~= front + rs + seq![Chunk::Code(";"@)]);
    assert(out.subrange(out.len() - 1 - rs.len(), out.len() - 1) =~= rs);
}

/// What stands before the events of a contract.
pub open spec fn contract_head(c: Contract) -> Seq<Chunk> {
    preamble_spec() + signature_spec() + docs_spec(c.comments@) + module_open_spec(c.name@)
        + imports_spec(c.imports@)
}

/// What follows the structs of a contract.
pub open spec fn contract_tail(c: Contract) -> Seq<Chunk> {
    storage_spec(c.name@, c.fields@) + impl_open_spec(c.name@) + constructor_spec(c.constructor)
        + functions_spec(c.functions@) + seq![Chunk::Code("}"@), Chunk::Code("}"@)]
}

proof fn lemma_contract_parts(c: Contract)
    ensures
        contract_spec(c) == contract_head(c) + events_spec(c.events@) + enums_spec(c.enums@)
            + structs_spec(c.structs@) + contract_tail(c),
{
    assert(contract_spec(c) =~= contract_head(c) + events_spec(c.events@) + enums_spec(c.enums@)
        + structs_spec(c.structs@) + contract_tail(c));
}

/// In a contract's output every event, enum and struct is named exactly as
/// given; the module and the `impl` block carry the snake-cased contract name.
pub proof fn lemma_contract_type_names_kept(c: Contract, i: int, j: int, l: int)
    requires
        0 <= i < c.events.len(),
        0 <= j < c.enums.len(),
        0 <= l < c.structs.len(),
    ensures
        exists|k: int|
            0 <= k && k + 2 < contract_spec(c).len() && #[trigger] contract_spec(c)[k] == Chunk::Code(
                "#[ink(event)]"@,
            ) && contract_spec(c)[k + 1] == Chunk::Code("pub struct"@) && contract_spec(c)[k + 2]
                == Chunk::Frag(c.events@[i].name@),
        exists|k: int|
            0 <= k && k + 1 < contract_spec(c).len() && #[trigger] contract_spec(c)[k] == Chunk::Code(
                "pub enum"@,
            ) && contract_spec(c)[k + 1] == Chunk::Frag(c.enums@[j].name@),
        exists|k: int|
            0 <= k && k + 1 < contract_spec(c).len() && #[trigger] contract_spec(c)[k] == Chunk::Code(
                "pub struct"@,
            ) && contract_spec(c)[k + 1] == Chunk::Frag(c.structs@[l].name@),
        ({
            let m = (preamble_spec() + signature_spec() + docs_spec(c.comments@)).len() as int;
            &&& contract_spec(c)[m + 1] == Chunk::Code("pub mod"@)
            &&& contract_spec(c)[m + 2] == Chunk::Frag(snake_of(c.name@))
        }),
{
    lemma_contract_parts(c);
    let out = contract_spec(c);
    let head = contract_head(c);
    let ev = events_spec(c.events@);
    let en = enums_spec(c.enums@);
    let st = structs_spec(c.structs@);
    let tail = contract_tail(c);
    assert(out =~= head + ev + (en + st + tail));
    let k0 = lemma_event_name_in(head, c.events@, en + st + tail, i);
    assert(out =~= (head + ev) + en + (st + tail));
    let k1 = lemma_enum_name_in(head + ev, c.enums@, st + tail, j);
    assert(out =~= (head + ev + en) + st + tail);
    let k2 = lemma_struct_name_in(head + ev + en, c.structs@, tail, l);
    let m = preamble_spec() + signature_spec() + docs_spec(c.comments@);
    assert(out =~= m + module_open_spec(c.name@) + (imports_spec(c.imports@) + events_spec(c.events@)
        + enums_spec(c.enums@) + structs_spec(c.structs@) + contract_tail(c)));
    assert(out[m.len() as int + 1] == module_open_spec(c.name@)[1]);
    assert(out[m.len() as int + 2] == module_open_spec(c.name@)[2]);
}

/// A function has exactly one receiver, right after the opening parenthesis.
pub proof fn lemma_single_receiver(f: Function)
    ensures
        once(
            function_spec(f),
            receiver_spec(f.header.view),
            message_attr_spec(f.header).len() as int + 3,
        ),
{
    broadcast use lemma_avoids_concat;

    reveal_strlit("#[ink(message)]");
    reveal_strlit("#[ink(message, payable)]");
    reveal_strlit("pub fn");
    reveal_strlit("fn");
    reveal_strlit("(");
    reveal_strlit(")");
    reveal_strlit(",");
    reveal_strlit(":");
    reveal_strlit("->");
    reveal_strlit("{");
    reveal_strlit("}");
    reveal_strlit("todo!()");
    reveal_strlit("&self");
    reveal_strlit("&mut self");
    assert("&self"@.len() == 5 && "&mut self"@.len() == 9 && "todo!()"@.len() == 7);
    assert("pub fn"@.len() == 6 && "fn"@.len() == 2 && "->"@.len() == 2);
    assert("#[ink(message)]"@.len() == 15 && "#[ink(message, payable)]"@.len() == 24);
    assert("&self"@[0] != "pub fn"@[0] && "&mut self"@[0] != "pub fn"@[0]);
    let h = f.header;
    let rc = receiver_spec(h.view);
    let front = message_attr_spec(h) + function_name_spec(h) + seq![Chunk::Code("("@)];
    let mid = seq![rc];
    let back = concat_map(h.params@, param_fn()) + seq![Chunk::Code(")"@)] + returns_spec(
        h.return_params@,
    ) + seq![Chunk::Code("{"@)] + concat_map(f.body@, statement_fn()) + seq![
        Chunk::Code("todo!()"@),
        Chunk::Code("}"@),
    ];
    assert(function_spec(f) =~= front + mid + back);
    assert(avoids(front, rc));
    lemma_concat_map_avoids(h.params@, param_fn(), rc);
    lemma_concat_map_avoids(f.body@, statement_fn(), rc);
    let rs = h.return_params@;
    if rs.len() >= 2 {
        lemma_concat_map_avoids(rs.drop_first(), more_return_fn(), rc);
    }
    assert(avoids(returns_spec(rs), rc));
    assert(avoids(back, rc));
    assert(once(mid, rc, 0));
    lemma_once_between(front, mid, back, rc, 0);
}

/// What follows the structs of an interface.
pub open spec fn interface_tail(i: Interface) -> Seq<Chunk> {
    docs_spec(i.comments@) + alias_spec(i.name@) + trait_open_spec(i.name@) + headers_spec(
        i.function_headers@,
    ) + seq![Chunk::Code("}"@)]
}

proof fn lemma_event_name_in(pre: Seq<Chunk>, es: Seq<Event>, post: Seq<Chunk>, i: int) -> (k: int)
    requires
        0 <= i < es.len(),
    ensures
        ({
            let out = pre + events_spec(es) + post;
            &&& 0 <= k && k + 2 < out.len()
            &&& out[k] == Chunk::Code("#[ink(event)]"@)
            &&& out[k + 1] == Chunk::Code("pub struct"@)
            &&& out[k + 2] == Chunk::Frag(es[i].name@)
        }),
{
    let out = pre + events_spec(es) + post;
    let k0 = lemma_block_in(pre, es, event_fn(), post, i);
    let d = docs_spec(es[i].comments@).len() as int;
    assert(out[k0 + d] == event_spec(es[i])[d]);
    assert(out[k0 + d + 1] == event_spec(es[i])[d + 1]);
    assert(out[k0 + d + 2] == event_spec(es[i])[d + 2]);
    k0 + d
}

proof fn lemma_enum_name_in(pre: Seq<Chunk>, es: Seq<Enum>, post: Seq<Chunk>, j: int) -> (k: int)
    requires
        0 <= j < es.len(),
    ensures
        ({
            let out = pre + enums_spec(es) + post;
            &&& 0 <= k && k + 1 < out.len()
            &&& out[k] == Chunk::Code("pub enum"@)
            &&& out[k + 1] == Chunk::Frag(es[j].name@)
        }),
{
    let out = pre + enums_spec(es) + post;
    let k0 = lemma_block_in(pre, es, enum_fn(), post, j);
    let d = docs_spec(es[j].comments@).len() as int;
    assert(out[k0 + d] == enum_spec(es[j])[d]);
    assert(out[k0 + d + 1] == enum_spec(es[j])[d + 1]);
    k0 + d
}

proof fn lemma_struct_name_in(pre: Seq<Chunk>, ss: Seq<Struct>, post: Seq<Chunk>, l: int) -> (k: int)
    requires
        0 <= l < ss.len(),
    ensures
        ({
            let out = pre + structs_spec(ss) + post;
            &&& 0 <= k && k + 1 < out.len()
            &&& out[k] == Chunk::Code("pub struct"@)
            &&& out[k + 1] == Chunk::Frag(ss[l].name@)
        }),
{
    let out = pre + structs_spec(ss) + post;
    let k0 = lemma_block_in(pre, ss, struct_fn(), post, l);
    let d = docs_spec(ss[l].comments@).len() as int;
    assert(out[k0 + d + 2] == struct_spec(ss[l])[d + 2]);
    assert(out[k0 + d + 3] == struct_spec(ss[l])[d + 3]);
    k0 + d + 2
}

/// In an interface's output every event, enum and struct is named exactly as given.
pub proof fn lemma_interface_type_names_kept(it: Interface, i: int, j: int, l: int)
    requires
        0 <= i < it.events.len(),
        0 <= j < it.enums.len(),
        0 <= l < it.structs.len(),
    ensures
        exists|k: int|
            0 <= k && k + 2 < interface_spec(it).len() && #[trigger] interface_spec(it)[k]
                == Chunk::Code("#[ink(event)]"@) && interface_spec(it)[k + 1] == Chunk::Code(
                "pub struct"@,
            ) && interface_spec(it)[k + 2] == Chunk::Frag(it.events@[i].name@),
        exists|k: int|
            0 <= k && k + 1 < interface_spec(it).len() && #[trigger] interface_spec(it)[k]
                == Chunk::Code("pub enum"@) && interface_spec(it)[k + 1] == Chunk::Frag(
                it.enums@[j].name@,
            ),
        exists|k: int|
            0 <= k && k + 1 < interface_spec(it).len() && #[trigger] interface_spec(it)[k]
                == Chunk::Code("pub struct"@) && interface_spec(it)[k + 1] == Chunk::Frag(
                it.structs@[l].name@,
            ),
{
    let out = interface_spec(it);
    let head = signature_spec() + imports_spec(it.imports@);
    let ev = events_spec(it.events@);
    let en = enums_spec(it.enums@);
    let st = structs_spec(it.structs@);
    let tail = interface_tail(it);
    assert(out =~= head + ev + (en + st + tail));
    let k0 = lemma_event_name_in(head, it.events@, en + st + tail, i);
    assert(out =~= (head + ev) + en + (st + tail));
    let k1 = lemma_enum_name_in(head + ev, it.enums@, st + tail, j);
    assert(out =~= (head + ev + en) + st + tail);
    let k2 = lemma_struct_name_in(head + ev + en, it.structs@, tail, l);
}

} // verus!
