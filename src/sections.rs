//! Sections shared by contracts and interfaces: banner, doc comments, imports,
//! events, enums and structs.
use vstd::prelude::*;
use crate::structures::{Enum, Event, EventField, Struct, StructField};
use crate::piece::{
    chunks, concat_map, lemma_concat_map_all, lemma_concat_map_step, put, put_blank, put_code,
    put_frag, Chunk, Piece,
};
use crate::order::{lemma_sorted_texts, sorted_texts, views};
use crate::outside::{snake_case, snake_of, sort_strings};
use crate::names::{ascii, event_ascii, events_ascii, struct_ascii, structs_ascii};

verus! {

/// The first banner line.
pub const BANNER_TOOL: &'static str = "Generated with Sol2Ink v0.4.1";

/// The second banner line.
pub const BANNER_LINK: &'static str = "https://github.com/Supercolony-net/sol2ink";

/// The banner: two commentary lines and a blank line.
pub open spec fn signature_spec() -> Seq<Chunk> {
    seq![Chunk::Comment(BANNER_TOOL@), Chunk::Comment(BANNER_LINK@), Chunk::Blank]
}

pub fn emit_signature(out: &mut Vec<Piece>)
    ensures
        chunks(final(out)@) == chunks(old(out)@) + signature_spec(),
{
    let ghost start = chunks(out@);
    put(out, Piece::Comment(BANNER_TOOL.to_owned()));
    put(out, Piece::Comment(BANNER_LINK.to_owned()));
    put_blank(out);
    assert(chunks(out@) =~= start + signature_spec());
}

pub open spec fn doc_fn() -> spec_fn(String) -> Seq<Chunk> {
    |c: String| seq![Chunk::Doc(c@)]
}

/// One doc attribute per comment, in order.
pub open spec fn docs_spec(cs: Seq<String>) -> Seq<Chunk> {
    concat_map(cs, doc_fn())
}

pub fn emit_docs(out: &mut Vec<Piece>, cs: &Vec<String>)
    ensures
        chunks(final(out)@) == chunks(old(out)@) + docs_spec(cs@),
{
    let ghost start = chunks(out@);
    let mut i: usize = 0;
    while i < cs.len()
        invariant
            i <= cs.len(),
            chunks(out@) == start + concat_map(cs@.subrange(0, i as int), doc_fn()),
        decreases cs.len() - i,
    {
        proof {
            lemma_concat_map_step(cs@, i as int, doc_fn());
        }
        put(out, Piece::Doc(cs[i].clone()));
        i += 1;
        assert(chunks(out@) =~= start + concat_map(cs@.subrange(0, i as int), doc_fn()));
    }
    proof {
        lemma_concat_map_all(cs@, doc_fn());
    }
}

pub open spec fn text_frag_fn() -> spec_fn(Seq<char>) -> Seq<Chunk> {
    |t: Seq<char>| seq![Chunk::Frag(t)]
}

/// The imports in ascending order, then a blank line; nothing when there are none.
pub open spec fn imports_spec(imports: Seq<String>) -> Seq<Chunk> {
    if imports.len() == 0 {
        Seq::empty()
    } else {
        concat_map(sorted_texts(imports), text_frag_fn()) + seq![Chunk::Blank]
    }
}

pub fn emit_imports(out: &mut Vec<Piece>, imports: &Vec<String>)
    requires
        views(imports@).no_duplicates(),
    ensures
        chunks(final(out)@) == chunks(old(out)@) + imports_spec(imports@),
{
    let ghost start = chunks(out@);
    if imports.len() == 0 {
        assert(chunks(out@) =~= start + imports_spec(imports@));
        return;
    }
    let mut sorted: Vec<String> = Vec::new();
    let mut k: usize = 0;
    while k < imports.len()
        invariant
            k <= imports.len(),
            sorted@ == imports@.subrange(0, k as int),
        decreases imports.len() - k,
    {
        sorted.push(imports[k].clone());
        k += 1;
        assert(sorted@ =~= imports@.subrange(0, k as int));
    }
    assert(sorted@ =~= imports@);
    sort_strings(&mut sorted);
    proof {
        lemma_sorted_texts(imports@, views(sorted@));
    }
    let ghost texts = views(sorted@);
    let mut i: usize = 0;
    while i < sorted.len()
        invariant
            i <= sorted.len(),
            texts == views(sorted@),
            chunks(out@) == start + concat_map(texts.subrange(0, i as int), text_frag_fn()),
        decreases sorted.len() - i,
    {
        proof {
            lemma_concat_map_step(texts, i as int, text_frag_fn());
        }
        put_frag(out, &sorted[i]);
        i += 1;
        assert(chunks(out@) =~= start + concat_map(texts.subrange(0, i as int), text_frag_fn()));
    }
    proof {
        lemma_concat_map_all(texts, text_frag_fn());
    }
    put_blank(out);
    assert(chunks(out@) =~= start + imports_spec(imports@));
}

/// Appends the snake-case form of an identifier.
pub fn put_snake(out: &mut Vec<Piece>, name: &String)
    requires
        ascii(*name),
    ensures
        chunks(final(out)@) == chunks(old(out)@).push(Chunk::Frag(snake_of(name@))),
{
    let s = snake_case(name.as_str());
    put(out, Piece::Frag(s));
}

/// `name: type,` with the name snake-cased.
pub open spec fn typed_field_spec(name: Seq<char>, ty: Seq<char>) -> Seq<Chunk> {
    seq![Chunk::Frag(snake_of(name)), Chunk::Code(":"@), Chunk::Frag(ty), Chunk::Code(","@)]
}

pub fn emit_typed_field(out: &mut Vec<Piece>, name: &String, ty: &String)
    requires
        ascii(*name),
    ensures
        chunks(final(out)@) == chunks(old(out)@) + typed_field_spec(name@, ty@),
{
    let ghost start = chunks(out@);
    put_snake(out, name);
    put_code(out, ":");
    put_frag(out, ty);
    put_code(out, ",");
    assert(chunks(out@) =~= start + typed_field_spec(name@, ty@));
}

/// An event field, preceded by a topic attribute when it is indexed.
pub open spec fn event_field_spec(f: EventField) -> Seq<Chunk> {
    (if f.indexed {
        seq![Chunk::Code("#[ink(topic)]"@)]
    } else {
        Seq::empty()
    }) + typed_field_spec(f.name@, f.field_type@)
}

pub open spec fn event_field_fn() -> spec_fn(EventField) -> Seq<Chunk> {
    |f: EventField| event_field_spec(f)
}

pub open spec fn event_spec(e: Event) -> Seq<Chunk> {
    docs_spec(e.comments@) + seq![
        Chunk::Code("#[ink(event)]"@),
        Chunk::Code("pub struct"@),
        Chunk::Frag(e.name@),
        Chunk::Code("{"@),
    ] + concat_map(e.fields@, event_field_fn()) + seq![Chunk::Code("}"@), Chunk::Blank]
}

pub open spec fn event_fn() -> spec_fn(Event) -> Seq<Chunk> {
    |e: Event| event_spec(e)
}

pub open spec fn events_spec(es: Seq<Event>) -> Seq<Chunk> {
    concat_map(es, event_fn())
}

pub fn emit_event(out: &mut Vec<Piece>, e: &Event)
    requires
        event_ascii(*e),
    ensures
        chunks(final(out)@) == chunks(old(out)@) + event_spec(*e),
{
    let ghost start = chunks(out@);
    emit_docs(out, &e.comments);
    put_code(out, "#[ink(event)]");
    put_code(out, "pub struct");
    put_frag(out, &e.name);
    put_code(out, "{");
    let ghost mid = chunks(out@);
    let mut i: usize = 0;
    while i < e.fields.len()
        invariant
            i <= e.fields.len(),
            event_ascii(*e),
            chunks(out@) == mid + concat_map(e.fields@.subrange(0, i as int), event_field_fn()),
        decreases e.fields.len() - i,
    {
        proof {
            lemma_concat_map_step(e.fields@, i as int, event_field_fn());
        }
        let f = &e.fields[i];
        if f.indexed {
            put_code(out, "#[ink(topic)]");
        }
        emit_typed_field(out, &f.name, &f.field_type);
        i += 1;
        assert(chunks(out@) =~= mid + concat_map(
            e.fields@.subrange(0, i as int),
            event_field_fn(),
        ));
    }
    proof {
        lemma_concat_map_all(e.fields@, event_field_fn());
    }
    put_code(out, "}");
    put_blank(out);
    assert(chunks(out@) =~= start + event_spec(*e));
}

/// Each event in input order.
pub fn emit_events(out: &mut Vec<Piece>, es: &Vec<Event>)
    requires
        events_ascii(es@),
    ensures
        chunks(final(out)@) == chunks(old(out)@) + events_spec(es@),
{
    let ghost start = chunks(out@);
    let mut i: usize = 0;
    while i < es.len()
        invariant
            i <= es.len(),
            events_ascii(es@),
            chunks(out@) == start + concat_map(es@.subrange(0, i as int), event_fn()),
        decreases es.len() - i,
    {
        proof {
            lemma_concat_map_step(es@, i as int, event_fn());
        }
        emit_event(out, &es[i]);
        i += 1;
        assert(chunks(out@) =~= start + concat_map(es@.subrange(0, i as int), event_fn()));
    }
    proof {
        lemma_concat_map_all(es@, event_fn());
    }
}

pub open spec fn variant_fn() -> spec_fn(String) -> Seq<Chunk> {
    |v: String| seq![Chunk::Frag(v@), Chunk::Code(","@)]
}

/// An enum: its comments, then `pub enum Name { V1, V2, ..., }` and a blank line.
pub open spec fn enum_spec(e: Enum) -> Seq<Chunk> {
    docs_spec(e.comments@) + seq![
        Chunk::Code("pub enum"@),
        Chunk::Frag(e.name@),
        Chunk::Code("{"@),
    ] + concat_map(e.values@, variant_fn()) + seq![Chunk::Code("}"@), Chunk::Blank]
}

pub open spec fn enum_fn() -> spec_fn(Enum) -> Seq<Chunk> {
    |e: Enum| enum_spec(e)
}

pub open spec fn enums_spec(es: Seq<Enum>) -> Seq<Chunk> {
    concat_map(es, enum_fn())
}

pub fn emit_enum(out: &mut Vec<Piece>, e: &Enum)
    ensures
        chunks(final(out)@) == chunks(old(out)@) + enum_spec(*e),
{
    let ghost start = chunks(out@);
    emit_docs(out, &e.comments);
    put_code(out, "pub enum");
    put_frag(out, &e.name);
    put_code(out, "{");
    let ghost mid = chunks(out@);
    let mut i: usize = 0;
    while i < e.values.len()
        invariant
            i <= e.values.len(),
            chunks(out@) == mid + concat_map(e.values@.subrange(0, i as int), variant_fn()),
        decreases e.values.len() - i,
    {
        proof {
            lemma_concat_map_step(e.values@, i as int, variant_fn());
        }
        put_frag(out, &e.values[i]);
        put_code(out, ",");
        i += 1;
        assert(chunks(out@) =~= mid + concat_map(e.values@.subrange(0, i as int), variant_fn()));
    }
    proof {
        lemma_concat_map_all(e.values@, variant_fn());
    }
    put_code(out, "}");
    put_blank(out);
    assert(chunks(out@) =~= start + enum_spec(*e));
}

/// Each enum in input order.
pub fn emit_enums(out: &mut Vec<Piece>, es: &Vec<Enum>)
    ensures
        chunks(final(out)@) == chunks(old(out)@) + enums_spec(es@),
{
    let ghost start = chunks(out@);
    let mut i: usize = 0;
    while i < es.len()
        invariant
            i <= es.len(),
            chunks(out@) == start + concat_map(es@.subrange(0, i as int), enum_fn()),
        decreases es.len() - i,
    {
        proof {
            lemma_concat_map_step(es@, i as int, enum_fn());
        }
        emit_enum(out, &es[i]);
        i += 1;
        assert(chunks(out@) =~= start + concat_map(es@.subrange(0, i as int), enum_fn()));
    }
    proof {
        lemma_concat_map_all(es@, enum_fn());
    }
}

pub open spec fn struct_field_fn() -> spec_fn(StructField) -> Seq<Chunk> {
    |f: StructField| typed_field_spec(f.name@, f.field_type@)
}

/// A data struct with its derives; the type name is kept, field names are snake-cased.
pub open spec fn struct_spec(s: Struct) -> Seq<Chunk> {
    docs_spec(s.comments@) + seq![
        Chunk::Code("#[derive(Default, Encode, Decode)]"@),
        Chunk::Code("#[cfg_attr(feature = \"std\", derive(scale_info::TypeInfo))]"@),
        Chunk::Code("pub struct"@),
        Chunk::Frag(s.name@),
        Chunk::Code("{"@),
    ] + concat_map(s.fields@, struct_field_fn()) + seq![Chunk::Code("}"@), Chunk::Blank]
}

pub open spec fn struct_fn() -> spec_fn(Struct) -> Seq<Chunk> {
    |s: Struct| struct_spec(s)
}

pub open spec fn structs_spec(ss: Seq<Struct>) -> Seq<Chunk> {
    concat_map(ss, struct_fn())
}

pub fn emit_struct(out: &mut Vec<Piece>, s: &Struct)
    requires
        struct_ascii(*s),
    ensures
        chunks(final(out)@) == chunks(old(out)@) + struct_spec(*s),
{
    let ghost start = chunks(out@);
    emit_docs(out, &s.comments);
    put_code(out, "#[derive(Default, Encode, Decode)]");
    put_code(out, "#[cfg_attr(feature = \"std\", derive(scale_info::TypeInfo))]");
    put_code(out, "pub struct");
    put_frag(out, &s.name);
    put_code(out, "{");
    let ghost mid = chunks(out@);
    let mut i: usize = 0;
    while i < s.fields.len()
        invariant
            i <= s.fields.len(),
            struct_ascii(*s),
            chunks(out@) == mid + concat_map(s.fields@.subrange(0, i as int), struct_field_fn()),
        decreases s.fields.len() - i,
    {
        proof {
            lemma_concat_map_step(s.fields@, i as int, struct_field_fn());
        }
        emit_typed_field(out, &s.fields[i].name, &s.fields[i].field_type);
        i += 1;
        assert(chunks(out@) =~= mid + concat_map(
            s.fields@.subrange(0, i as int),
            struct_field_fn(),
        ));
    }
    proof {
        lemma_concat_map_all(s.fields@, struct_field_fn());
    }
    put_code(out, "}");
    put_blank(out);
    assert(chunks(out@) =~= start + struct_spec(*s));
}

/// Each struct in input order.
pub fn emit_structs(out: &mut Vec<Piece>, ss: &Vec<Struct>)
    requires
        structs_ascii(ss@),
    ensures
        chunks(final(out)@) == chunks(old(out)@) + structs_spec(ss@),
{
    let ghost start = chunks(out@);
    let mut i: usize = 0;
    while i < ss.len()
        invariant
            i <= ss.len(),
            structs_ascii(ss@),
            chunks(out@) == start + concat_map(ss@.subrange(0, i as int), struct_fn()),
        decreases ss.len() - i,
    {
        proof {
            lemma_concat_map_step(ss@, i as int, struct_fn());
        }
        emit_struct(out, &ss[i]);
        i += 1;
        assert(chunks(out@) =~= start + concat_map(ss@.subrange(0, i as int), struct_fn()));
    }
    proof {
        lemma_concat_map_all(ss@, struct_fn());
    }
}

} // verus!
