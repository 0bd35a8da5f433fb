//! The lexical units of the assembly language.
use vstd::prelude::*;

use crate::instruction::Opcode;
use crate::text::string_of;

verus! {

/// One lexical unit of assembly text.
#[derive(Debug, PartialEq, Clone)]
pub enum Token {
    Op { code: Opcode },
    Register { reg_num: u8 },
    IntegerOperand { value: i32 },
    /// A decimal fraction such as `-100.3`, kept as its text: the assembler
    /// itself never encodes one.
    Float { literal: String },
    LabelDeclaration { name: String },
    LabelUsage { name: String },
    Directive { name: String },
    IrString { name: String },
    Comment,
}

/// A token with its texts as character sequences.
pub enum TokenView {
    Op { code: Opcode },
    Register { reg_num: u8 },
    IntegerOperand { value: i32 },
    Float { literal: Seq<char> },
    LabelDeclaration { name: Seq<char> },
    LabelUsage { name: Seq<char> },
    Directive { name: Seq<char> },
    IrString { name: Seq<char> },
    Comment,
}

impl View for Token {
    type V = TokenView;

    open spec fn view(&self) -> TokenView {
        match self {
            Token::Op { code } => TokenView::Op { code: *code },
            Token::Register { reg_num } => TokenView::Register { reg_num: *reg_num },
            Token::IntegerOperand { value } => TokenView::IntegerOperand { value: *value },
            Token::Float { literal } => TokenView::Float { literal: literal@ },
            Token::LabelDeclaration { name } => TokenView::LabelDeclaration { name: name@ },
            Token::LabelUsage { name } => TokenView::LabelUsage { name: name@ },
            Token::Directive { name } => TokenView::Directive { name: name@ },
            Token::IrString { name } => TokenView::IrString { name: name@ },
            Token::Comment => TokenView::Comment,
        }
    }
}

/// What a parser hands back: the unparsed rest of the input and the value.
pub type ParseResult<T> = Result<(String, T), ParseError>;

/// Input that the grammar does not accept; `position` is where the text
/// that could not be parsed begins, in characters from the start.
#[derive(Debug, PartialEq, Eq, Clone, Copy, Structural)]
pub struct ParseError {
    pub position: usize,
}

/// An optional token with its end position, as the parsers' models give it.
pub open spec fn token_at(r: Option<(Token, usize)>) -> Option<(TokenView, int)> {
    match r {
        Some((t, e)) => Some((t@, e as int)),
        None => None,
    }
}

/// `r` is what a parser of `s` that stops where `p` says hands back.
pub open spec fn token_outcome(
    r: ParseResult<Token>,
    s: Seq<char>,
    p: Option<(TokenView, int)>,
) -> bool {
    match p {
        Some((t, e)) => match r {
            Ok((rest, tok)) => tok@ == t && rest@ == s.subrange(e, s.len() as int),
            Err(_) => false,
        },
        None => r is Err,
    }
}

pub open spec fn option_view(t: Option<Token>) -> Option<TokenView> {
    match t {
        Some(t) => Some(t@),
        None => None,
    }
}

/// Turns a parser's token and end position into its result on `chars`.
pub fn token_result(chars: &Vec<char>, r: Option<(Token, usize)>) -> (out: ParseResult<Token>)
    requires
        r matches Some((_, e)) ==> e <= chars@.len(),
    ensures
        token_outcome(out, chars@, token_at(r)),
{
    match r {
        Some((t, e)) => Ok((string_of(chars.as_slice(), e, chars.len()), t)),
        None => Err(ParseError { position: 0 }),
    }
}

} // verus!
