//! A recursive-descent parser for the surface language, producing the AST
//! the code generator consumes.

use vstd::prelude::*;
use crate::lexer::{tokenize, LexError, Sym, Token};
use crate::value::{str_eq, str_to_chars};

verus! {

/// Binary operators of the surface language.
#[derive(Clone, Copy, Debug, PartialEq, Eq, Structural)]
pub enum BinOp {
    Add,
    Sub,
    Mul,
    Div,
    Rem,
    Lt,
    Gt,
    Le,
    Ge,
    Eq,
    Ne,
    SEq,
    SNe,
}

/// Unary prefix operators.
#[derive(Clone, Copy, Debug, PartialEq, Eq, Structural)]
pub enum UnOp {
    Plus,
    Minus,
    Not,
}

/// The abstract syntax tree handed to the compiler.
#[derive(Debug)]
pub enum Node {
    Number(i64),
    Str(String),
    Boolean(bool),
    Null,
    Undefined,
    Nan,
    This,
    Ident(String),
    ObjectLit(Vec<(String, Node)>),
    Member(Box<Node>, String),
    Index(Box<Node>, Box<Node>),
    Call(Box<Node>, Vec<Node>),
    NewCall(Box<Node>, Vec<Node>),
    Arrow(Vec<String>, Vec<Node>),
    Binary(BinOp, Box<Node>, Box<Node>),
    Unary(UnOp, Box<Node>),
    PostIncr(Box<Node>),
    Assign(Box<Node>, Box<Node>),
    LetDecl(String, Option<Box<Node>>),
    VarDecl(String, Option<Box<Node>>),
    Block(Vec<Node>),
    IfStmt(Box<Node>, Vec<Node>, Vec<Node>),
    WhileStmt(Box<Node>, Vec<Node>),
    ForStmt(Option<Box<Node>>, Option<Box<Node>>, Option<Box<Node>>, Vec<Node>),
    ReturnStmt(Option<Box<Node>>),
    ThrowStmt(Box<Node>),
    TryStmt(Vec<Node>, String, Vec<Node>),
    StatementList(Vec<Node>),
}

/// A parse failure. `UnexpectedEOF` lets an interactive host ask for more
/// input instead of reporting an error.
#[derive(Debug)]
pub enum Error {
    UnexpectedEOF,
    Unexpected(String),
    TooComplex,
}

impl Error {
    pub fn describe(&self) -> String {
        let mut s = String::new();
        match self {
            Error::UnexpectedEOF => {
                s.append("SyntaxError: unexpected end of input");
            },
            Error::Unexpected(m) => {
                s.append("SyntaxError: ");
                s.append(m.as_str());
            },
            Error::TooComplex => {
                s.append("SyntaxError: program too deeply nested");
            },
        }
        s
    }
}

const PARSE_FUEL: usize = 1000000;

/// The parser state: the token stream and a cursor into it.
#[derive(Debug)]
pub struct Parser {
    pub tokens: Vec<Token>,
    pub pos: usize,
    pub lexed: bool,
    pub body: String,
}

fn unexpected(what: &str) -> Error {
    Error::Unexpected(what.to_owned())
}

impl Parser {
    /// A parser over `body`; the name is kept for error reporting parity
    /// with script files.
    pub fn new(_name: &str, body: String) -> Parser {
        Parser { tokens: Vec::new(), pos: 0, lexed: false, body }
    }

    fn at_end(&self) -> (r: bool)
        ensures
            r == (self.pos >= self.tokens@.len()),
    {
        self.pos >= self.tokens.len()
    }

    fn bump(&mut self)
        ensures
            final(self).tokens@ == old(self).tokens@,
    {
        let n = self.tokens.len();
        if self.pos < n {
            self.pos = self.pos + 1;
        }
    }

    fn peek_punct(&self, sym: Sym) -> (r: bool)
        ensures
            r ==> self.pos < self.tokens@.len(),
    {
        if self.pos < self.tokens.len() {
            match &self.tokens[self.pos] {
                Token::Punct(p) => *p == sym,
                _ => false,
            }
        } else {
            false
        }
    }

    fn eat_punct(&mut self, sym: Sym) -> (r: bool)
        ensures
            final(self).tokens@ == old(self).tokens@,
    {
        if self.peek_punct(sym) {
            self.bump();
            true
        } else {
            false
        }
    }

    fn expect_punct(&mut self, sym: Sym, what: &str) -> (r: Result<(), Error>)
        ensures
            final(self).tokens@ == old(self).tokens@,
    {
        if self.eat_punct(sym) {
            Ok(())
        } else if self.at_end() {
            Err(Error::UnexpectedEOF)
        } else {
            Err(unexpected(what))
        }
    }

    fn peek_keyword(&self, kw: &str) -> (r: bool)
        ensures
            r ==> self.pos < self.tokens@.len(),
    {
        if self.pos < self.tokens.len() {
            match &self.tokens[self.pos] {
                Token::Ident(s) => str_eq(s.as_str(), kw),
                _ => false,
            }
        } else {
            false
        }
    }

    fn eat_keyword(&mut self, kw: &str) -> (r: bool)
        ensures
            final(self).tokens@ == old(self).tokens@,
    {
        if self.peek_keyword(kw) {
            self.bump();
            true
        } else {
            false
        }
    }

    fn next_ident(&mut self) -> (r: Result<String, Error>)
        ensures
            final(self).tokens@ == old(self).tokens@,
    {
        if self.pos < self.tokens.len() {
            let name: Option<String> = match &self.tokens[self.pos] {
                Token::Ident(s) => Some(s.clone()),
                _ => None,
            };
            match name {
                Some(s) => {
                    self.bump();
                    Ok(s)
                },
                None => Err(unexpected("identifier expected")),
            }
        } else {
            Err(Error::UnexpectedEOF)
        }
    }

    /// Whether a parenthesis at the cursor opens an arrow-function
    /// parameter list: scan to its partner and look for `=>`.
    fn paren_starts_arrow(&self) -> bool {
        let n = self.tokens.len();
        if self.pos >= n {
            return false;
        }
        let mut k = self.pos + 1;
        let mut depth: usize = 1;
        while k < n && depth > 0
            invariant
                k <= n,
                depth <= k,
                n == self.tokens@.len(),
            decreases n - k,
        {
            match &self.tokens[k] {
                Token::Punct(Sym::LParen) => {
                    depth = depth + 1;
                },
                Token::Punct(Sym::RParen) => {
                    depth = depth - 1;
                },
                _ => {},
            }
            k = k + 1;
        }
        if depth == 0 && k < n {
            match &self.tokens[k] {
                Token::Punct(Sym::Arrow) => true,
                _ => false,
            }
        } else {
            false
        }
    }

    /// Tokenize and parse the whole program.
    pub fn parse_all(&mut self) -> (r: Result<Node, Error>) {
        if !self.lexed {
            let cs = str_to_chars(self.body.as_str());
            match tokenize(&cs) {
                Ok(ts) => {
                    self.tokens = ts;
                    self.pos = 0;
                    self.lexed = true;
                },
                Err(LexError::UnterminatedString) => {
                    return Err(Error::UnexpectedEOF);
                },
                Err(_) => {
                    return Err(unexpected("unreadable token"));
                },
            }
        }
        let mut stmts: Vec<Node> = Vec::new();
        let mut guard: usize = 0;
        while !self.at_end()
            invariant
                guard <= PARSE_FUEL,
            decreases PARSE_FUEL - guard,
        {
            if guard >= PARSE_FUEL {
                return Err(Error::TooComplex);
            }
            guard = guard + 1;
            let s = self.parse_stmt(PARSE_FUEL)?;
            stmts.push(s);
        }
        Ok(Node::StatementList(stmts))
    }

    fn parse_block_body(&mut self, fuel: usize) -> (r: Result<Vec<Node>, Error>)
        decreases fuel, 2int,
    {
        if fuel == 0 {
            return Err(Error::TooComplex);
        }
        let sub = (fuel - 1) as usize;
        self.expect_punct(Sym::LBrace, "block expected")?;
        let mut stmts: Vec<Node> = Vec::new();
        let mut guard: usize = 0;
        loop
            invariant
                guard <= PARSE_FUEL,
                sub < fuel,
            decreases PARSE_FUEL - guard,
        {
            if guard >= PARSE_FUEL {
                return Err(Error::TooComplex);
            }
            guard = guard + 1;
            if self.eat_punct(Sym::RBrace) {
                return Ok(stmts);
            }
            if self.at_end() {
                return Err(Error::UnexpectedEOF);
            }
            let s = self.parse_stmt(sub)?;
            stmts.push(s);
        }
    }

    fn parse_stmt(&mut self, fuel: usize) -> (r: Result<Node, Error>)
        decreases fuel, 3int,
    {
        if fuel == 0 {
            return Err(Error::TooComplex);
        }
        let sub = (fuel - 1) as usize;
        if self.eat_punct(Sym::Semi) {
            // an empty statement
            return Ok(Node::Block(Vec::new()));
        }
        if self.eat_keyword("let") {
            let name = self.next_ident()?;
            let init: Option<Box<Node>> = if self.eat_punct(Sym::Assign) {
                Some(Box::new(self.parse_expr(sub)?))
            } else {
                None
            };
            let _ = self.eat_punct(Sym::Semi);
            Ok(Node::LetDecl(name, init))
        } else if self.eat_keyword("var") {
            let name = self.next_ident()?;
            let init: Option<Box<Node>> = if self.eat_punct(Sym::Assign) {
                Some(Box::new(self.parse_expr(sub)?))
            } else {
                None
            };
            let _ = self.eat_punct(Sym::Semi);
            Ok(Node::VarDecl(name, init))
        } else if self.eat_keyword("return") {
            if self.eat_punct(Sym::Semi) || self.at_end() || self.peek_punct(Sym::RBrace) {
                Ok(Node::ReturnStmt(None))
            } else {
                let e = self.parse_expr(sub)?;
                let _ = self.eat_punct(Sym::Semi);
                Ok(Node::ReturnStmt(Some(Box::new(e))))
            }
        } else if self.eat_keyword("throw") {
            let e = self.parse_expr(sub)?;
            let _ = self.eat_punct(Sym::Semi);
            Ok(Node::ThrowStmt(Box::new(e)))
        } else if self.eat_keyword("try") {
            let try_body = self.parse_block_body(sub)?;
            if !self.eat_keyword("catch") {
                return Err(unexpected("catch expected"));
            }
            self.expect_punct(Sym::LParen, "catch binding expected")?;
            let name = self.next_ident()?;
            self.expect_punct(Sym::RParen, "closing parenthesis expected")?;
            let catch_body = self.parse_block_body(sub)?;
            Ok(Node::TryStmt(try_body, name, catch_body))
        } else if self.eat_keyword("if") {
            self.expect_punct(Sym::LParen, "condition expected")?;
            let cond = self.parse_expr(sub)?;
            self.expect_punct(Sym::RParen, "closing parenthesis expected")?;
            let then_body = self.parse_stmt_or_block(sub)?;
            let else_body: Vec<Node> = if self.eat_keyword("else") {
                self.parse_stmt_or_block(sub)?
            } else {
                Vec::new()
            };
            Ok(Node::IfStmt(Box::new(cond), then_body, else_body))
        } else if self.eat_keyword("while") {
            self.expect_punct(Sym::LParen, "condition expected")?;
            let cond = self.parse_expr(sub)?;
            self.expect_punct(Sym::RParen, "closing parenthesis expected")?;
            let body = self.parse_stmt_or_block(sub)?;
            Ok(Node::WhileStmt(Box::new(cond), body))
        } else if self.eat_keyword("for") {
            self.expect_punct(Sym::LParen, "for header expected")?;
            let init: Option<Box<Node>> = if self.eat_punct(Sym::Semi) {
                None
            } else {
                let s = self.parse_stmt(sub)?;
                Some(Box::new(s))
            };
            let cond: Option<Box<Node>> = if self.peek_punct(Sym::Semi) {
                None
            } else {
                Some(Box::new(self.parse_expr(sub)?))
            };
            self.expect_punct(Sym::Semi, "semicolon expected in for header")?;
            let step: Option<Box<Node>> = if self.peek_punct(Sym::RParen) {
                None
            } else {
                Some(Box::new(self.parse_expr(sub)?))
            };
            self.expect_punct(Sym::RParen, "closing parenthesis expected")?;
            let body = self.parse_stmt_or_block(sub)?;
            Ok(Node::ForStmt(init, cond, step, body))
        } else if self.peek_punct(Sym::LBrace) {
            let body = self.parse_block_body(sub)?;
            Ok(Node::Block(body))
        } else {
            let e = self.parse_expr(sub)?;
            let _ = self.eat_punct(Sym::Semi);
            Ok(e)
        }
    }

    fn parse_stmt_or_block(&mut self, fuel: usize) -> (r: Result<Vec<Node>, Error>)
        decreases fuel, 4int,
    {
        if fuel == 0 {
            return Err(Error::TooComplex);
        }
        if self.peek_punct(Sym::LBrace) {
            let body = self.parse_block_body((fuel - 1) as usize)?;
            let mut out: Vec<Node> = Vec::new();
            out.push(Node::Block(body));
            Ok(out)
        } else {
            let s = self.parse_stmt((fuel - 1) as usize)?;
            let mut out: Vec<Node> = Vec::new();
            out.push(s);
            Ok(out)
        }
    }

    fn parse_expr(&mut self, fuel: usize) -> (r: Result<Node, Error>)
        decreases fuel, 5int,
    {
        if fuel == 0 {
            return Err(Error::TooComplex);
        }
        let sub = (fuel - 1) as usize;
        let lhs = self.parse_equality(sub)?;
        if self.eat_punct(Sym::Assign) {
            let target_ok = match &lhs {
                Node::Ident(_) => true,
                Node::Member(_, _) => true,
                Node::Index(_, _) => true,
                _ => false,
            };
            if !target_ok {
                return Err(unexpected("invalid assignment target"));
            }
            let rhs = self.parse_expr(sub)?;
            Ok(Node::Assign(Box::new(lhs), Box::new(rhs)))
        } else {
            Ok(lhs)
        }
    }

    fn parse_equality(&mut self, fuel: usize) -> (r: Result<Node, Error>)
        decreases fuel, 6int,
    {
        if fuel == 0 {
            return Err(Error::TooComplex);
        }
        let sub = (fuel - 1) as usize;
        let mut lhs = self.parse_relational(sub)?;
        let mut guard: usize = 0;
        loop
            invariant
                guard <= PARSE_FUEL,
                sub < fuel,
            decreases PARSE_FUEL - guard,
        {
            if guard >= PARSE_FUEL {
                return Err(Error::TooComplex);
            }
            guard = guard + 1;
            let op: Option<BinOp> = if self.eat_punct(Sym::EqEqEq) {
                Some(BinOp::SEq)
            } else if self.eat_punct(Sym::NotEqEq) {
                Some(BinOp::SNe)
            } else if self.eat_punct(Sym::EqEq) {
                Some(BinOp::Eq)
            } else if self.eat_punct(Sym::NotEq) {
                Some(BinOp::Ne)
            } else {
                None
            };
            match op {
                Some(o) => {
                    let rhs = self.parse_relational(sub)?;
                    lhs = Node::Binary(o, Box::new(lhs), Box::new(rhs));
                },
                None => {
                    return Ok(lhs);
                },
            }
        }
    }

    fn parse_relational(&mut self, fuel: usize) -> (r: Result<Node, Error>)
        decreases fuel, 7int,
    {
        if fuel == 0 {
            return Err(Error::TooComplex);
        }
        let sub = (fuel - 1) as usize;
        let mut lhs = self.parse_additive(sub)?;
        let mut guard: usize = 0;
        loop
            invariant
                guard <= PARSE_FUEL,
                sub < fuel,
            decreases PARSE_FUEL - guard,
        {
            if guard >= PARSE_FUEL {
                return Err(Error::TooComplex);
            }
            guard = guard + 1;
            let op: Option<BinOp> = if self.eat_punct(Sym::Le) {
                Some(BinOp::Le)
            } else if self.eat_punct(Sym::Ge) {
                Some(BinOp::Ge)
            } else if self.eat_punct(Sym::Lt) {
                Some(BinOp::Lt)
            } else if self.eat_punct(Sym::Gt) {
                Some(BinOp::Gt)
            } else {
                None
            };
            match op {
                Some(o) => {
                    let rhs = self.parse_additive(sub)?;
                    lhs = Node::Binary(o, Box::new(lhs), Box::new(rhs));
                },
                None => {
                    return Ok(lhs);
                },
            }
        }
    }

    fn parse_additive(&mut self, fuel: usize) -> (r: Result<Node, Error>)
        decreases fuel, 8int,
    {
        if fuel == 0 {
            return Err(Error::TooComplex);
        }
        let sub = (fuel - 1) as usize;
        let mut lhs = self.parse_multiplicative(sub)?;
        let mut guard: usize = 0;
        loop
            invariant
                guard <= PARSE_FUEL,
                sub < fuel,
            decreases PARSE_FUEL - guard,
        {
            if guard >= PARSE_FUEL {
                return Err(Error::TooComplex);
            }
            guard = guard + 1;
            let op: Option<BinOp> = if self.eat_punct(Sym::Plus) {
                Some(BinOp::Add)
            } else if self.eat_punct(Sym::Minus) {
                Some(BinOp::Sub)
            } else {
                None
            };
            match op {
                Some(o) => {
                    let rhs = self.parse_multiplicative(sub)?;
                    lhs = Node::Binary(o, Box::new(lhs), Box::new(rhs));
                },
                None => {
                    return Ok(lhs);
                },
            }
        }
    }

    fn parse_multiplicative(&mut self, fuel: usize) -> (r: Result<Node, Error>)
        decreases fuel, 9int,
    {
        if fuel == 0 {
            return Err(Error::TooComplex);
        }
        let sub = (fuel - 1) as usize;
        let mut lhs = self.parse_unary(sub)?;
        let mut guard: usize = 0;
        loop
            invariant
                guard <= PARSE_FUEL,
                sub < fuel,
            decreases PARSE_FUEL - guard,
        {
            if guard >= PARSE_FUEL {
                return Err(Error::TooComplex);
            }
            guard = guard + 1;
            let op: Option<BinOp> = if self.eat_punct(Sym::Star) {
                Some(BinOp::Mul)
            } else if self.eat_punct(Sym::Slash) {
                Some(BinOp::Div)
            } else if self.eat_punct(Sym::Percent) {
                Some(BinOp::Rem)
            } else {
                None
            };
            match op {
                Some(o) => {
                    let rhs = self.parse_unary(sub)?;
                    lhs = Node::Binary(o, Box::new(lhs), Box::new(rhs));
                },
                None => {
                    return Ok(lhs);
                },
            }
        }
    }

    fn parse_unary(&mut self, fuel: usize) -> (r: Result<Node, Error>)
        decreases fuel, 10int,
    {
        if fuel == 0 {
            return Err(Error::TooComplex);
        }
        let sub = (fuel - 1) as usize;
        if self.eat_punct(Sym::Plus) {
            let e = self.parse_unary(sub)?;
            Ok(Node::Unary(UnOp::Plus, Box::new(e)))
        } else if self.eat_punct(Sym::Minus) {
            let e = self.parse_unary(sub)?;
            Ok(Node::Unary(UnOp::Minus, Box::new(e)))
        } else if self.eat_punct(Sym::Not) {
            let e = self.parse_unary(sub)?;
            Ok(Node::Unary(UnOp::Not, Box::new(e)))
        } else if self.eat_keyword("new") {
            let callee = self.parse_primary(sub)?;
            self.expect_punct(Sym::LParen, "constructor arguments expected")?;
            let args = self.parse_args(sub)?;
            Ok(Node::NewCall(Box::new(callee), args))
        } else {
            self.parse_postfix(sub)
        }
    }

    fn parse_args(&mut self, fuel: usize) -> (r: Result<Vec<Node>, Error>)
        decreases fuel, 11int,
    {
        if fuel == 0 {
            return Err(Error::TooComplex);
        }
        let sub = (fuel - 1) as usize;
        let mut args: Vec<Node> = Vec::new();
        if self.eat_punct(Sym::RParen) {
            return Ok(args);
        }
        let mut guard: usize = 0;
        loop
            invariant
                guard <= PARSE_FUEL,
                sub < fuel,
            decreases PARSE_FUEL - guard,
        {
            if guard >= PARSE_FUEL {
                return Err(Error::TooComplex);
            }
            guard = guard + 1;
            let a = self.parse_expr(sub)?;
            args.push(a);
            if self.eat_punct(Sym::RParen) {
                return Ok(args);
            }
            self.expect_punct(Sym::Comma, "comma expected between arguments")?;
        }
    }

    fn parse_postfix(&mut self, fuel: usize) -> (r: Result<Node, Error>)
        decreases fuel, 12int,
    {
        if fuel == 0 {
            return Err(Error::TooComplex);
        }
        let sub = (fuel - 1) as usize;
        let mut e = self.parse_primary(sub)?;
        let mut guard: usize = 0;
        loop
            invariant
                guard <= PARSE_FUEL,
                sub < fuel,
            decreases PARSE_FUEL - guard,
        {
            if guard >= PARSE_FUEL {
                return Err(Error::TooComplex);
            }
            guard = guard + 1;
            if self.eat_punct(Sym::Dot) {
                let name = self.next_ident()?;
                e = Node::Member(Box::new(e), name);
            } else if self.eat_punct(Sym::LBracket) {
                let idx = self.parse_expr(sub)?;
                self.expect_punct(Sym::RBracket, "closing bracket expected")?;
                e = Node::Index(Box::new(e), Box::new(idx));
            } else if self.eat_punct(Sym::LParen) {
                let args = self.parse_args(sub)?;
                e = Node::Call(Box::new(e), args);
            } else if self.eat_punct(Sym::PlusPlus) {
                e = Node::PostIncr(Box::new(e));
            } else {
                return Ok(e);
            }
        }
    }

    fn parse_arrow_params(&mut self, fuel: usize) -> (r: Result<Vec<String>, Error>)
        decreases fuel, 12int,
    {
        if fuel == 0 {
            return Err(Error::TooComplex);
        }
        let mut params: Vec<String> = Vec::new();
        if self.eat_punct(Sym::RParen) {
            return Ok(params);
        }
        let mut guard: usize = 0;
        loop
            invariant
                guard <= PARSE_FUEL,
            decreases PARSE_FUEL - guard,
        {
            if guard >= PARSE_FUEL {
                return Err(Error::TooComplex);
            }
            guard = guard + 1;
            let name = self.next_ident()?;
            params.push(name);
            if self.eat_punct(Sym::RParen) {
                return Ok(params);
            }
            self.expect_punct(Sym::Comma, "comma expected between parameters")?;
        }
    }

    fn parse_primary(&mut self, fuel: usize) -> (r: Result<Node, Error>)
        decreases fuel, 13int,
    {
        if fuel == 0 {
            return Err(Error::TooComplex);
        }
        let sub = (fuel - 1) as usize;
        if self.at_end() {
            return Err(Error::UnexpectedEOF);
        }
        if self.peek_punct(Sym::LParen) {
            if self.paren_starts_arrow() {
                let _ = self.eat_punct(Sym::LParen);
                let params = self.parse_arrow_params(sub)?;
                self.expect_punct(Sym::Arrow, "arrow expected")?;
                let body = self.parse_block_body(sub)?;
                return Ok(Node::Arrow(params, body));
            }
            let _ = self.eat_punct(Sym::LParen);
            let e = self.parse_expr(sub)?;
            self.expect_punct(Sym::RParen, "closing parenthesis expected")?;
            return Ok(e);
        }
        if self.peek_punct(Sym::LBrace) {
            let _ = self.eat_punct(Sym::LBrace);
            let mut props: Vec<(String, Node)> = Vec::new();
            if self.eat_punct(Sym::RBrace) {
                return Ok(Node::ObjectLit(props));
            }
            let mut guard: usize = 0;
            loop
                invariant
                    guard <= PARSE_FUEL,
                    sub < fuel,
                decreases PARSE_FUEL - guard,
            {
                if guard >= PARSE_FUEL {
                    return Err(Error::TooComplex);
                }
                guard = guard + 1;
                let key = self.parse_prop_key()?;
                self.expect_punct(Sym::Colon, "colon expected in object literal")?;
                let v = self.parse_expr(sub)?;
                props.push((key, v));
                if self.eat_punct(Sym::RBrace) {
                    return Ok(Node::ObjectLit(props));
                }
                self.expect_punct(Sym::Comma, "comma expected in object literal")?;
            }
        }
        let tok: Option<Node> = match &self.tokens[self.pos] {
            Token::Num(v) => Some(Node::Number(*v)),
            Token::Str(s) => Some(Node::Str(s.clone())),
            _ => None,
        };
        match tok {
            Some(nd) => {
                self.bump();
                return Ok(nd);
            },
            None => {},
        }
        if self.peek_keyword("true") {
            self.bump();
            return Ok(Node::Boolean(true));
        }
        if self.peek_keyword("false") {
            self.bump();
            return Ok(Node::Boolean(false));
        }
        if self.peek_keyword("null") {
            self.bump();
            return Ok(Node::Null);
        }
        if self.peek_keyword("undefined") {
            self.bump();
            return Ok(Node::Undefined);
        }
        if self.peek_keyword("NaN") {
            self.bump();
            return Ok(Node::Nan);
        }
        if self.peek_keyword("this") {
            self.bump();
            return Ok(Node::This);
        }
        let name = self.next_ident()?;
        if self.peek_punct(Sym::Arrow) {
            let _ = self.eat_punct(Sym::Arrow);
            let mut params: Vec<String> = Vec::new();
            params.push(name);
            let body = self.parse_block_body(sub)?;
            return Ok(Node::Arrow(params, body));
        }
        Ok(Node::Ident(name))
    }

    fn parse_prop_key(&mut self) -> (r: Result<String, Error>)
        ensures
            final(self).tokens@ == old(self).tokens@,
    {
        if self.pos >= self.tokens.len() {
            return Err(Error::UnexpectedEOF);
        }
        let key: Option<String> = match &self.tokens[self.pos] {
            Token::Ident(s) => Some(s.clone()),
            Token::Str(s) => Some(s.clone()),
            _ => None,
        };
        match key {
            Some(s) => {
                self.bump();
                Ok(s)
            },
            None => Err(unexpected("property key expected")),
        }
    }
}

} // verus!
