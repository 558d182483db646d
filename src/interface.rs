//! Interface-only sections: trait method headers, the reference alias and the
//! trait, and the interface orchestrator.
use vstd::prelude::*;
use vstd::string::*;
use crate::structures::{FunctionHeader, Interface};
use crate::piece::{
    chunks, join_blank, lemma_join_blank_all, lemma_join_blank_step, put, put_blank, put_code,
    put_frag, Chunk, Piece,
};
use crate::outside::snake_of;
use crate::order::views;
use crate::names::{header_ascii, headers_ascii, interface_names_ascii};
use crate::contract::{emit_message_attr, emit_params_returns, message_attr_spec, params_returns_spec};
use crate::sections::{
    docs_spec, emit_docs, emit_enums, emit_events, emit_imports, emit_signature, emit_structs,
    enums_spec, events_spec, imports_spec, put_snake, signature_spec, structs_spec,
};

verus! {

/// A trait method header: comments, message attribute, signature, `;`.
pub open spec fn header_spec(h: FunctionHeader) -> Seq<Chunk> {
    docs_spec(h.comments@) + message_attr_spec(h) + seq![
        Chunk::Code("fn"@),
        Chunk::Frag(snake_of(h.name@)),
    ] + params_returns_spec(h) + seq![Chunk::Code(";"@)]
}

pub open spec fn header_fn() -> spec_fn(FunctionHeader) -> Seq<Chunk> {
    |h: FunctionHeader| header_spec(h)
}

/// The headers in input order, a blank line between two of them.
pub open spec fn headers_spec(hs: Seq<FunctionHeader>) -> Seq<Chunk> {
    join_blank(hs, header_fn())
}

pub fn emit_header(out: &mut Vec<Piece>, h: &FunctionHeader)
    requires
        header_ascii(*h),
    ensures
        chunks(final(out)@) == chunks(old(out)@) + header_spec(*h),
{
    let ghost start = chunks(out@);
    emit_docs(out, &h.comments);
    emit_message_attr(out, h);
    put_code(out, "fn");
    put_snake(out, &h.name);
    emit_params_returns(out, h);
    put_code(out, ";");
    assert(chunks(out@) =~= start + header_spec(*h));
}

pub fn emit_headers(out: &mut Vec<Piece>, hs: &Vec<FunctionHeader>)
    requires
        headers_ascii(hs@),
    ensures
        chunks(final(out)@) == chunks(old(out)@) + headers_spec(hs@),
{
    let ghost start = chunks(out@);
    let mut i: usize = 0;
    while i < hs.len()
        invariant
            i <= hs.len(),
            headers_ascii(hs@),
            chunks(out@) == start + join_blank(hs@.subrange(0, i as int), header_fn()),
        decreases hs.len() - i,
    {
        proof {
            lemma_join_blank_step(hs@, i as int, header_fn());
        }
        if i > 0 {
            put_blank(out);
        }
        emit_header(out, &hs[i]);
        i += 1;
        assert(chunks(out@) =~= start + join_blank(hs@.subrange(0, i as int), header_fn()));
    }
    proof {
        lemma_join_blank_all(hs@, header_fn());
    }
}

/// `pub type <Name>Ref = dyn <Name>;` with the wrapper attribute, then a blank line.
pub open spec fn alias_spec(name: Seq<char>) -> Seq<Chunk> {
    seq![
        Chunk::Code("#[brush::wrapper]"@),
        Chunk::Code("pub type"@),
        Chunk::Frag(name + "Ref"@),
        Chunk::Code("="@),
        Chunk::Code("dyn"@),
        Chunk::Frag(name),
        Chunk::Code(";"@),
        Chunk::Blank,
    ]
}

/// Opens the trait, named as the interface.
pub open spec fn trait_open_spec(name: Seq<char>) -> Seq<Chunk> {
    seq![
        Chunk::Code("#[brush::trait_definition]"@),
        Chunk::Code("pub trait"@),
        Chunk::Frag(name),
        Chunk::Code("{"@),
    ]
}

/// The whole interface, section by section in fixed order.
pub open spec fn interface_spec(i: Interface) -> Seq<Chunk> {
    signature_spec() + imports_spec(i.imports@) + events_spec(i.events@) + enums_spec(i.enums@)
        + structs_spec(i.structs@) + docs_spec(i.comments@) + alias_spec(i.name@)
        + trait_open_spec(i.name@) + headers_spec(i.function_headers@) + seq![Chunk::Code("}"@)]
}

/// The pieces of an interface's source.
pub fn interface_pieces(i: &Interface) -> (r: Vec<Piece>)
    requires
        interface_names_ascii(*i),
        views(i.imports@).no_duplicates(),
    ensures
        chunks(r@) == interface_spec(*i),
{
    let mut out: Vec<Piece> = Vec::new();
    assert(chunks(out@) =~= Seq::<Chunk>::empty());
    emit_signature(&mut out);
    emit_imports(&mut out, &i.imports);
    emit_events(&mut out, &i.events);
    emit_enums(&mut out, &i.enums);
    emit_structs(&mut out, &i.structs);
    emit_docs(&mut out, &i.comments);
    put_code(&mut out, "#[brush::wrapper]");
    put_code(&mut out, "pub type");
    let mut alias = i.name.clone();
    alias.append("Ref");
    put(&mut out, Piece::Frag(alias));
    put_code(&mut out, "=");
    put_code(&mut out, "dyn");
    put_frag(&mut out, &i.name);
    put_code(&mut out, ";");
    put_blank(&mut out);
    put_code(&mut out, "#[brush::trait_definition]");
    put_code(&mut out, "pub trait");
    put_frag(&mut out, &i.name);
    put_code(&mut out, "{");
    emit_headers(&mut out, &i.function_headers);
    put_code(&mut out, "}");
    assert(chunks(out@) =~= interface_spec(*i));
    out
}

} // verus!
