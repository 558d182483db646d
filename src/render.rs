//! From pieces to source text and to a token stream; the two entry points.
use vstd::prelude::*;
use vstd::string::*;
use proc_macro2::TokenStream;
use crate::structures::{Contract, Interface};
use crate::piece::{chunks, Chunk, Piece};
use crate::outside::{lexes, parse_tokens, string_literal};
use crate::contract::{contract_pieces, contract_spec};
use crate::interface::{interface_pieces, interface_spec};
use crate::names::{
    check_contract_names, check_interface_names, contract_names_ascii, interface_names_ascii,
};
use crate::order::views;

verus! {

/// Why an assembly was refused.
#[derive(Clone, Debug, PartialEq, Eq)]
pub enum AssembleError {
    /// A name that is snake-cased holds a character outside ASCII.
    NonAsciiName,
    /// The same import statement is given twice.
    DuplicateImport,
    /// This fragment does not lex; it is an input fragment, or the whole text
    /// when only the whole fails.
    Lex(String),
}

/// The source text of one piece; markers become `_comment_!` and `_blank_!`
/// calls. `q` is the string literal written for a doc or commentary text.
pub open spec fn piece_text(c: Chunk, q: Seq<char>) -> Seq<char> {
    match c {
        Chunk::Code(s) => s,
        Chunk::Frag(s) => s,
        Chunk::Doc(_) => "#[doc = "@ + q + "]"@,
        Chunk::Comment(_) => "_comment_!("@ + q + ");"@,
        Chunk::Blank => "_blank_!();"@,
    }
}

/// Each piece's text on a line of its own, with `qs[k]` the literal of piece `k`.
pub open spec fn text_with(cs: Seq<Chunk>, qs: Seq<Seq<char>>) -> Seq<char>
    decreases cs.len(),
{
    if cs.len() == 0 {
        Seq::empty()
    } else {
        text_with(cs.drop_last(), qs.drop_last()) + piece_text(cs.last(), qs.last()) + "\n"@
    }
}

/// `t` is a text of the pieces, for some choice of literals.
pub open spec fn is_text_of(cs: Seq<Chunk>, t: Seq<char>) -> bool {
    exists|qs: Seq<Seq<char>>| qs.len() == cs.len() && t == #[trigger] text_with(cs, qs)
}

/// The first piece taken from the input whose text does not lex on its own.
pub open spec fn bad_frag(cs: Seq<Chunk>) -> Option<Seq<char>>
    decreases cs.len(),
{
    if cs.len() == 0 {
        None
    } else {
        match cs[0] {
            Chunk::Frag(s) => if !lexes(s) {
                Some(s)
            } else {
                bad_frag(cs.drop_first())
            },
            _ => bad_frag(cs.drop_first()),
        }
    }
}

/// What a token stream of the pieces needs: every input fragment lexes on its
/// own, and so does the whole text.
pub open spec fn tokens_ok(cs: Seq<Chunk>) -> bool {
    &&& bad_frag(cs) is None
    &&& exists|qs: Seq<Seq<char>>| qs.len() == cs.len() && lexes(#[trigger] text_with(cs, qs))
}

/// `s` is what a failed tokenizing names: an input fragment, or the whole text.
pub open spec fn reported(cs: Seq<Chunk>, s: Seq<char>) -> bool {
    (exists|k: int| 0 <= k < cs.len() && cs[k] == Chunk::Frag(s)) || is_text_of(cs, s)
}

/// The source text of a sequence of pieces.
pub fn render_text(pieces: &Vec<Piece>) -> (r: String)
    ensures
        is_text_of(chunks(pieces@), r@),
{
    let ghost cs = chunks(pieces@);
    let ghost mut qs: Seq<Seq<char>> = Seq::empty();
    let mut out = String::new();
    let mut i: usize = 0;
    while i < pieces.len()
        invariant
            i <= pieces.len(),
            cs == chunks(pieces@),
            qs.len() == i,
            out@ == text_with(cs.subrange(0, i as int), qs),
        decreases pieces.len() - i,
    {
        let ghost before = out@;
        let ghost mut q: Seq<char> = Seq::empty();
        match &pieces[i] {
            Piece::Code(s) => {
                out.append(s.as_str());
            },
            Piece::Frag(s) => {
                out.append(s.as_str());
            },
            Piece::Doc(s) => {
                out.append("#[doc = ");
                let lit = string_literal(s.as_str());
                proof {
                    q = lit@;
                }
                out.append(lit.as_str());
                out.append("]");
            },
            Piece::Comment(s) => {
                out.append("_comment_!(");
                let lit = string_literal(s.as_str());
                proof {
                    q = lit@;
                }
                out.append(lit.as_str());
                out.append(");");
            },
            Piece::Blank => {
                out.append("_blank_!();");
            },
        }
        out.append("\n");
        proof {
            assert(cs[i as int] == pieces@[i as int]@);
            assert(out@ =~= before + piece_text(cs[i as int], q) + "\n"@);
            assert(cs.subrange(0, i + 1).drop_last() =~= cs.subrange(0, i as int));
            assert(qs.push(q).drop_last() =~= qs);
            qs = qs.push(q);
        }
        i += 1;
    }
    assert(cs.subrange(0, pieces.len() as int) =~= cs);
    assert(out@ == text_with(cs, qs));
    out
}

/// The token stream of a sequence of pieces. Each input fragment is lexed on its
/// own first, so that a bad one is named; then the whole text is lexed.
pub fn tokenize(pieces: &Vec<Piece>) -> (r: Result<TokenStream, AssembleError>)
    ensures
        match r {
            Ok(_) => tokens_ok(chunks(pieces@)),
            Err(AssembleError::Lex(s)) => reported(chunks(pieces@), s@),
            Err(_) => false,
        },
{
    let ghost cs = chunks(pieces@);
    assert(cs.subrange(0, cs.len() as int) =~= cs);
    let mut i: usize = 0;
    while i < pieces.len()
        invariant
            i <= pieces.len(),
            cs == chunks(pieces@),
            bad_frag(cs) == bad_frag(cs.subrange(i as int, cs.len() as int)),
        decreases pieces.len() - i,
    {
        proof {
            let rest = cs.subrange(i as int, cs.len() as int);
            assert(rest[0] == pieces@[i as int]@);
            assert(rest.drop_first() =~= cs.subrange(i + 1, cs.len() as int));
        }
        match &pieces[i] {
            Piece::Frag(s) => {
                match parse_tokens(s.as_str()) {
                    Err(_) => {
                        assert(cs[i as int] == Chunk::Frag(s@));
                        return Err(AssembleError::Lex(s.clone()));
                    },
                    Ok(_) => {},
                }
            },
            _ => {},
        }
        i += 1;
    }
    assert(cs.subrange(pieces.len() as int, cs.len() as int) =~= Seq::<Chunk>::empty());
    let text = render_text(pieces);
    match parse_tokens(text.as_str()) {
        Ok(ts) => Ok(ts),
        Err(_) => Err(AssembleError::Lex(text)),
    }
}

/// Whether no import statement is given twice.
pub fn imports_distinct(imports: &Vec<String>) -> (r: bool)
    ensures
        r == views(imports@).no_duplicates(),
{
    let n = imports.len();
    let mut i: usize = 0;
    while i < n
        invariant
            n == imports.len(),
            i <= n,
            forall|a: int, b: int| 0 <= a < i && a < b < n ==> imports@[a]@ != imports@[b]@,
        decreases n - i,
    {
        let mut j: usize = i + 1;
        while j < n
            invariant
                n == imports.len(),
                i < n,
                i < j <= n,
                forall|a: int, b: int| 0 <= a < i && a < b < n ==> imports@[a]@ != imports@[b]@,
                forall|b: int| i < b < j ==> imports@[i as int]@ != imports@[b]@,
            decreases n - j,
        {
            if imports[i] == imports[j] {
                assert(views(imports@)[i as int] == views(imports@)[j as int]);
                return false;
            }
            j += 1;
        }
        i += 1;
    }
    assert forall|a: int, b: int| 0 <= a < n && 0 <= b < n && a != b implies views(imports@)[a]
        != views(imports@)[b] by {
        if a < b {
            assert(imports@[a]@ != imports@[b]@);
        } else {
            assert(imports@[b]@ != imports@[a]@);
        }
    }
    true
}

/// Assembles the ink! contract module for a contract.
pub fn assemble_contract(contract: Contract) -> (r: Result<TokenStream, AssembleError>)
    ensures
        match r {
            Err(AssembleError::NonAsciiName) => !contract_names_ascii(contract),
            Err(AssembleError::DuplicateImport) => contract_names_ascii(contract) && !views(
                contract.imports@,
            ).no_duplicates(),
            Err(AssembleError::Lex(s)) => {
                &&& contract_names_ascii(contract)
                &&& views(contract.imports@).no_duplicates()
                &&& reported(contract_spec(contract), s@)
            },
            Ok(_) => {
                &&& contract_names_ascii(contract)
                &&& views(contract.imports@).no_duplicates()
                &&& tokens_ok(contract_spec(contract))
            },
        },
{
    if !check_contract_names(&contract) {
        return Err(AssembleError::NonAsciiName);
    }
    if !imports_distinct(&contract.imports) {
        return Err(AssembleError::DuplicateImport);
    }
    let pieces = contract_pieces(&contract);
    tokenize(&pieces)
}

/// Assembles the ink! trait definition for an interface.
pub fn assemble_interface(interface: Interface) -> (r: Result<TokenStream, AssembleError>)
    ensures
        match r {
            Err(AssembleError::NonAsciiName) => !interface_names_ascii(interface),
            Err(AssembleError::DuplicateImport) => interface_names_ascii(interface) && !views(
                interface.imports@,
            ).no_duplicates(),
            Err(AssembleError::Lex(s)) => {
                &&& interface_names_ascii(interface)
                &&& views(interface.imports@).no_duplicates()
                &&& reported(interface_spec(interface), s@)
            },
            Ok(_) => {
                &&& interface_names_ascii(interface)
                &&& views(interface.imports@).no_duplicates()
                &&& tokens_ok(interface_spec(interface))
            },
        },
{
    if !check_interface_names(&interface) {
        return Err(AssembleError::NonAsciiName);
    }
    if !imports_distinct(&interface.imports) {
        return Err(AssembleError::DuplicateImport);
    }
    let pieces = interface_pieces(&interface);
    tokenize(&pieces)
}

} // verus!
