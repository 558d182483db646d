//! Which names go through snake casing, and the check that all of them are ASCII.
use vstd::prelude::*;
use vstd::utf8::is_ascii_chars;
use crate::structures::{Contract, Event, FunctionHeader, Interface, Param, Struct};

verus! {

/// A name made of ASCII characters only.
pub open spec fn ascii(s: String) -> bool {
    is_ascii_chars(s@)
}

pub open spec fn params_ascii(ps: Seq<Param>) -> bool {
    forall|i: int| 0 <= i < ps.len() ==> #[trigger] ascii(ps[i].name)
}

pub open spec fn header_ascii(h: FunctionHeader) -> bool {
    ascii(h.name) && params_ascii(h.params@)
}

pub open spec fn event_ascii(e: Event) -> bool {
    forall|j: int| 0 <= j < e.fields.len() ==> #[trigger] ascii(e.fields@[j].name)
}

pub open spec fn struct_ascii(s: Struct) -> bool {
    forall|j: int| 0 <= j < s.fields.len() ==> #[trigger] ascii(s.fields@[j].name)
}

pub open spec fn events_ascii(es: Seq<Event>) -> bool {
    forall|i: int| 0 <= i < es.len() ==> #[trigger] event_ascii(es[i])
}

pub open spec fn structs_ascii(ss: Seq<Struct>) -> bool {
    forall|i: int| 0 <= i < ss.len() ==> #[trigger] struct_ascii(ss[i])
}

pub open spec fn headers_ascii(hs: Seq<FunctionHeader>) -> bool {
    forall|i: int| 0 <= i < hs.len() ==> #[trigger] header_ascii(hs[i])
}

/// Every name of a contract that is snake-cased is ASCII: the contract name,
/// the names of event, struct and storage fields, and the names and parameter
/// names of the constructor's parameters and of the functions.
pub open spec fn contract_names_ascii(c: Contract) -> bool {
    &&& ascii(c.name)
    &&& events_ascii(c.events@)
    &&& structs_ascii(c.structs@)
    &&& forall|i: int| 0 <= i < c.fields.len() ==> #[trigger] ascii(c.fields@[i].name)
    &&& params_ascii(c.constructor.header.params@)
    &&& forall|i: int| 0 <= i < c.functions.len() ==> #[trigger] header_ascii(c.functions@[i].header)
}

/// Every name of an interface that is snake-cased is ASCII.
pub open spec fn interface_names_ascii(i: Interface) -> bool {
    &&& events_ascii(i.events@)
    &&& structs_ascii(i.structs@)
    &&& headers_ascii(i.function_headers@)
}

pub fn check_name(s: &String) -> (r: bool)
    ensures
        r == ascii(*s),
{
    s.as_str().is_ascii()
}

pub fn check_params(ps: &Vec<Param>) -> (r: bool)
    ensures
        r == params_ascii(ps@),
{
    let mut i: usize = 0;
    while i < ps.len()
        invariant
            i <= ps.len(),
            forall|k: int| 0 <= k < i ==> #[trigger] ascii(ps@[k].name),
        decreases ps.len() - i,
    {
        if !check_name(&ps[i].name) {
            return false;
        }
        i += 1;
    }
    true
}

pub fn check_header(h: &FunctionHeader) -> (r: bool)
    ensures
        r == header_ascii(*h),
{
    check_name(&h.name) && check_params(&h.params)
}

pub fn check_events(es: &Vec<Event>) -> (r: bool)
    ensures
        r == events_ascii(es@),
{
    let mut i: usize = 0;
    while i < es.len()
        invariant
            i <= es.len(),
            forall|k: int| 0 <= k < i ==> #[trigger] event_ascii(es@[k]),
        decreases es.len() - i,
    {
        let fs = &es[i].fields;
        let mut j: usize = 0;
        while j < fs.len()
            invariant
                i < es.len(),
                fs@ == es@[i as int].fields@,
                j <= fs.len(),
                forall|k: int| 0 <= k < j ==> #[trigger] ascii(fs@[k].name),
            decreases fs.len() - j,
        {
            if !check_name(&fs[j].name) {
                assert(!event_ascii(es@[i as int]));
                return false;
            }
            j += 1;
        }
        i += 1;
    }
    true
}

pub fn check_structs(ss: &Vec<Struct>) -> (r: bool)
    ensures
        r == structs_ascii(ss@),
{
    let mut i: usize = 0;
    while i < ss.len()
        invariant
            i <= ss.len(),
            forall|k: int| 0 <= k < i ==> #[trigger] struct_ascii(ss@[k]),
        decreases ss.len() - i,
    {
        let fs = &ss[i].fields;
        let mut j: usize = 0;
        while j < fs.len()
            invariant
                i < ss.len(),
                fs@ == ss@[i as int].fields@,
                j <= fs.len(),
                forall|k: int| 0 <= k < j ==> #[trigger] ascii(fs@[k].name),
            decreases fs.len() - j,
        {
            if !check_name(&fs[j].name) {
                assert(!struct_ascii(ss@[i as int]));
                return false;
            }
            j += 1;
        }
        i += 1;
    }
    true
}

pub fn check_headers(hs: &Vec<FunctionHeader>) -> (r: bool)
    ensures
        r == headers_ascii(hs@),
{
    let mut i: usize = 0;
    while i < hs.len()
        invariant
            i <= hs.len(),
            forall|k: int| 0 <= k < i ==> #[trigger] header_ascii(hs@[k]),
        decreases hs.len() - i,
    {
        if !check_header(&hs[i]) {
            return false;
        }
        i += 1;
    }
    true
}

/// Whether every snake-cased name of the contract is ASCII.
pub fn check_contract_names(c: &Contract) -> (r: bool)
    ensures
        r == contract_names_ascii(*c),
{
    if !check_name(&c.name) || !check_events(&c.events) || !check_structs(&c.structs)
        || !check_params(&c.constructor.header.params) {
        return false;
    }
    let mut i: usize = 0;
    while i < c.fields.len()
        invariant
            i <= c.fields.len(),
            forall|k: int| 0 <= k < i ==> #[trigger] ascii(c.fields@[k].name),
        decreases c.fields.len() - i,
    {
        if !check_name(&c.fields[i].name) {
            return false;
        }
        i += 1;
    }
    let mut j: usize = 0;
    while j < c.functions.len()
        invariant
            j <= c.functions.len(),
            forall|k: int| 0 <= k < j ==> #[trigger] header_ascii(c.functions@[k].header),
        decreases c.functions.len() - j,
    {
        if !check_header(&c.functions[j].header) {
            return false;
        }
        j += 1;
    }
    true
}

/// Whether every snake-cased name of the interface is ASCII.
pub fn check_interface_names(i: &Interface) -> (r: bool)
    ensures
        r == interface_names_ascii(*i),
{
    check_events(&i.events) && check_structs(&i.structs) && check_headers(&i.function_headers)
}

} // verus!
