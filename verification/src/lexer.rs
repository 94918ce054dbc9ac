//! The tokenizer for the surface language: numbers, strings, identifiers,
//! and punctuation.

use vstd::prelude::*;
use crate::numeric::digit_of_char;
use crate::value::chars_to_string;

verus! {

/// Punctuation and operator tokens.
#[derive(Clone, Copy, Debug, PartialEq, Eq, Structural)]
pub enum Sym {
    LParen,
    RParen,
    LBrace,
    RBrace,
    LBracket,
    RBracket,
    Semi,
    Comma,
    Dot,
    Colon,
    Arrow,
    Assign,
    Plus,
    Minus,
    Star,
    Slash,
    Percent,
    Lt,
    Gt,
    Le,
    Ge,
    EqEq,
    NotEq,
    EqEqEq,
    NotEqEq,
    Not,
    PlusPlus,
}

/// One token of source text.
#[derive(Debug)]
pub enum Token {
    Num(i64),
    Str(String),
    Ident(String),
    Punct(Sym),
}

/// A tokenizer failure, with a little context.
#[derive(Debug)]
pub enum LexError {
    UnexpectedChar,
    UnterminatedString,
    NumberTooLarge,
}

fn is_ident_start(c: char) -> bool {
    ('a' <= c && c <= 'z') || ('A' <= c && c <= 'Z') || c == '_' || c == '$'
}

fn is_ident_part(c: char) -> bool {
    ('a' <= c && c <= 'z') || ('A' <= c && c <= 'Z') || ('0' <= c && c <= '9') || c == '_' || c
        == '$'
}

/// Split source text into tokens.
pub fn tokenize(src: &Vec<char>) -> (r: Result<Vec<Token>, LexError>) {
    let n = src.len();
    let mut out: Vec<Token> = Vec::new();
    let mut i: usize = 0;
    while i < n
        invariant
            i <= n,
            n == src@.len(),
        decreases n - i,
    {
        let c = src[i];
        if c == ' ' || c == '\t' || c == '\r' || c == '\n' {
            i = i + 1;
        } else if c == '\'' || c == '"' {
            let quote = c;
            let mut j = i + 1;
            let mut body: Vec<char> = Vec::new();
            let mut closed = false;
            while j < n && !closed
                invariant
                    i < j <= n,
                    n == src@.len(),
                decreases n - j,
            {
                let d = src[j];
                if d == quote {
                    closed = true;
                } else {
                    body.push(d);
                }
                j = j + 1;
            }
            if !closed {
                return Err(LexError::UnterminatedString);
            }
            out.push(Token::Str(chars_to_string(&body)));
            i = j;
        } else {
            match digit_of_char(c) {
                Some(first) => {
                    let mut val: i64 = first as i64;
                    let mut j = i + 1;
                    while j < n
                        invariant
                            i < j <= n,
                            n == src@.len(),
                        decreases n - j,
                    {
                        match digit_of_char(src[j]) {
                            Some(d) => {
                                let stepped = match val.checked_mul(10) {
                                    Some(m) => m.checked_add(d as i64),
                                    None => None,
                                };
                                match stepped {
                                    Some(m) => {
                                        val = m;
                                    },
                                    None => {
                                        return Err(LexError::NumberTooLarge);
                                    },
                                }
                                j = j + 1;
                            },
                            None => {
                                break ;
                            },
                        }
                    }
                    out.push(Token::Num(val));
                    i = j;
                },
                None => {
                    if is_ident_start(c) {
                        let mut j = i + 1;
                        let mut body: Vec<char> = Vec::new();
                        body.push(c);
                        while j < n
                            invariant
                                i < j <= n,
                                n == src@.len(),
                            decreases n - j,
                        {
                            let d = src[j];
                            if is_ident_part(d) {
                                body.push(d);
                                j = j + 1;
                            } else {
                                break ;
                            }
                        }
                        out.push(Token::Ident(chars_to_string(&body)));
                        i = j;
                    } else {
                        // punctuation, longest match first
                        if c == '=' && n - i > 2 && src[i + 1] == '=' && src[i + 2] == '=' {
                            out.push(Token::Punct(Sym::EqEqEq));
                            i = i + 3;
                        } else if c == '!' && n - i > 2 && src[i + 1] == '=' && src[i + 2] == '=' {
                            out.push(Token::Punct(Sym::NotEqEq));
                            i = i + 3;
                        } else if c == '=' && n - i > 1 && src[i + 1] == '>' {
                            out.push(Token::Punct(Sym::Arrow));
                            i = i + 2;
                        } else if c == '=' && n - i > 1 && src[i + 1] == '=' {
                            out.push(Token::Punct(Sym::EqEq));
                            i = i + 2;
                        } else if c == '!' && n - i > 1 && src[i + 1] == '=' {
                            out.push(Token::Punct(Sym::NotEq));
                            i = i + 2;
                        } else if c == '<' && n - i > 1 && src[i + 1] == '=' {
                            out.push(Token::Punct(Sym::Le));
                            i = i + 2;
                        } else if c == '>' && n - i > 1 && src[i + 1] == '=' {
                            out.push(Token::Punct(Sym::Ge));
                            i = i + 2;
                        } else if c == '+' && n - i > 1 && src[i + 1] == '+' {
                            out.push(Token::Punct(Sym::PlusPlus));
                            i = i + 2;
                        } else {
                            let p: Option<Sym> = match c {
                                '(' => Some(Sym::LParen),
                                ')' => Some(Sym::RParen),
                                '{' => Some(Sym::LBrace),
                                '}' => Some(Sym::RBrace),
                                '[' => Some(Sym::LBracket),
                                ']' => Some(Sym::RBracket),
                                ';' => Some(Sym::Semi),
                                ',' => Some(Sym::Comma),
                                '.' => Some(Sym::Dot),
                                ':' => Some(Sym::Colon),
                                '=' => Some(Sym::Assign),
                                '+' => Some(Sym::Plus),
                                '-' => Some(Sym::Minus),
                                '*' => Some(Sym::Star),
                                '/' => Some(Sym::Slash),
                                '%' => Some(Sym::Percent),
                                '<' => Some(Sym::Lt),
                                '>' => Some(Sym::Gt),
                                '!' => Some(Sym::Not),
                                _ => None,
                            };
                            match p {
                                Some(sym) => {
                                    out.push(Token::Punct(sym));
                                    i = i + 1;
                                },
                                None => {
                                    return Err(LexError::UnexpectedChar);
                                },
                            }
                        }
                    }
                },
            }
        }
    }
    Ok(out)
}

} // verus!
