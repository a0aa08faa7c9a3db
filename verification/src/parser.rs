//! Lexical analysis: a raw argument vector becomes a stream of tokens.
//!
//! The tokenizer knows nothing of the schema. It only tells short clusters,
//! long names, plain values and the positional separator apart, and reports
//! malformed short clusters with the place of the offending character.

use vstd::prelude::*;
use vstd::string::StrSliceExecFns;
use crate::text::{decimal, push_char, push_decimal, push_text};

verus! {

/// A place in the argument vector: the index of an argument and a character
/// offset inside it.
#[derive(Clone, Debug, PartialEq)]
pub struct Position {
    pub argument: usize,
    pub char_in_argument: u32,
}

impl Position {
    /// The start of argument `argument`.
    pub fn new(argument: usize) -> (p: Position)
        ensures
            p.argument == argument,
            p.char_in_argument == 0,
    {
        Position { argument, char_in_argument: 0 }
    }

    /// Character `char_in_argument` of argument `argument`.
    pub fn new_detailed(argument: usize, char_in_argument: u32) -> (p: Position)
        ensures
            p.argument == argument,
            p.char_in_argument == char_in_argument,
    {
        Position { argument, char_in_argument }
    }
}

/// One lexical unit of the command line. `Long` and `Value` borrow from the
/// argument vector.
#[derive(Debug, PartialEq)]
pub enum Token<'a> {
    Short(char),
    Long(&'a str),
    Value(&'a str),
    PositionalSeparator,
    Error(String, Position),
    End,
}

/// What a token says, with its texts as character sequences.
pub enum TokenView {
    Short(char),
    Long(Seq<char>),
    Value(Seq<char>),
    PositionalSeparator,
    Error(Seq<char>, Position),
    End,
}

impl<'a> View for Token<'a> {
    type V = TokenView;

    open spec fn view(&self) -> TokenView {
        match *self {
            Token::Short(c) => TokenView::Short(c),
            Token::Long(s) => TokenView::Long(s@),
            Token::Value(s) => TokenView::Value(s@),
            Token::PositionalSeparator => TokenView::PositionalSeparator,
            Token::Error(m, p) => TokenView::Error(m@, p),
            Token::End => TokenView::End,
        }
    }
}

impl<'a> DeepView for Token<'a> {
    type V = TokenView;

    open spec fn deep_view(&self) -> TokenView {
        self@
    }
}

/// How a message shows a token.
pub open spec fn token_text(t: TokenView) -> Seq<char> {
    match t {
        TokenView::Short(c) => "Short('"@.push(c) + "')"@,
        TokenView::Long(s) => "Long(\""@ + s + "\")"@,
        TokenView::Value(s) => "Value(\""@ + s + "\")"@,
        TokenView::PositionalSeparator => "PositionalSeparator"@,
        TokenView::Error(m, p) => "Error(\""@ + m + "\", Position { argument: "@ + decimal(
            p.argument as nat,
        ) + ", char_in_argument: "@ + decimal(p.char_in_argument as nat) + " })"@,
        TokenView::End => "End"@,
    }
}

impl<'a> Token<'a> {
    /// This token as a message shows it.
    pub fn describe(&self) -> (s: String)
        ensures
            s@ == token_text(self@),
    {
        let mut s = String::new();
        match self {
            Token::Short(c) => {
                push_text(&mut s, "Short('");
                push_char(&mut s, *c);
                push_text(&mut s, "')");
                assert(s@ =~= "Short('"@.push(*c) + "')"@);
            },
            Token::Long(text) => {
                push_text(&mut s, "Long(\"");
                push_text(&mut s, text);
                push_text(&mut s, "\")");
                assert(s@ =~= "Long(\""@ + text@ + "\")"@);
            },
            Token::Value(text) => {
                push_text(&mut s, "Value(\"");
                push_text(&mut s, text);
                push_text(&mut s, "\")");
                assert(s@ =~= "Value(\""@ + text@ + "\")"@);
            },
            Token::PositionalSeparator => {
                push_text(&mut s, "PositionalSeparator");
                assert(s@ =~= "PositionalSeparator"@);
            },
            Token::Error(message, position) => {
                push_text(&mut s, "Error(\"");
                push_text(&mut s, message.as_str());
                push_text(&mut s, "\", Position { argument: ");
                push_decimal(&mut s, position.argument as u64);
                push_text(&mut s, ", char_in_argument: ");
                push_decimal(&mut s, position.char_in_argument as u64);
                push_text(&mut s, " })");
                assert(s@ =~= token_text(self@));
            },
            Token::End => {
                push_text(&mut s, "End");
                assert(s@ =~= "End"@);
            },
        }
        s
    }
}

/// The arguments as character sequences.
pub open spec fn texts(args: Seq<&str>) -> Seq<Seq<char>> {
    Seq::new(args.len(), |i: int| args[i]@)
}

/// The argument is exactly two dashes.
pub open spec fn is_separator(a: Seq<char>) -> bool {
    a.len() == 2 && a[0] == '-' && a[1] == '-'
}

/// The argument begins with two dashes.
pub open spec fn is_dash_dash_led(a: Seq<char>) -> bool {
    a.len() >= 2 && a[0] == '-' && a[1] == '-'
}

/// The argument begins with a dash.
pub open spec fn is_dash_led(a: Seq<char>) -> bool {
    a.len() >= 1 && a[0] == '-'
}

/// A character that may not stand inside a short cluster.
pub open spec fn is_forbidden_in_cluster(c: char) -> bool {
    c == '-' || c == ' '
}

/// A token after which the stream yields nothing more.
pub open spec fn is_terminal(t: TokenView) -> bool {
    t is End || t is Error
}

/// The place `(arg, offset)` as a `Position`.
pub open spec fn place(arg: int, offset: int) -> Position {
    Position { argument: arg as usize, char_in_argument: offset as u32 }
}

/// The character of `a` at index `i`.
pub open spec fn char_at(a: Seq<char>, i: int) -> char {
    a[i]
}

/// The stream of one token.
pub open spec fn only(t: TokenView) -> Seq<TokenView> {
    Seq::empty().push(t)
}

/// The tokens of the short cluster `a` that come after the character at
/// `offset`: one `Short` per character, up to the end of the argument or to
/// the first forbidden character, which is reported with its own offset.
pub open spec fn cluster_tokens(a: Seq<char>, arg: int, offset: int) -> Seq<TokenView>
    decreases a.len() - offset,
{
    if offset < 0 || offset + 1 >= a.len() {
        Seq::empty()
    } else if is_forbidden_in_cluster(a[offset + 1]) {
        only(TokenView::Error("invalid character"@, place(arg, offset + 1)))
    } else {
        only(TokenView::Short(char_at(a, offset + 1))) + cluster_tokens(a, arg, offset + 1)
    }
}

/// The tokens of one whole argument, which stands at index `arg`.
pub open spec fn argument_tokens(a: Seq<char>, arg: int) -> Seq<TokenView> {
    if is_separator(a) {
        only(TokenView::PositionalSeparator)
    } else if is_dash_dash_led(a) {
        only(TokenView::Long(a.skip(2)))
    } else if is_dash_led(a) {
        if a.len() == 1 {
            only(TokenView::Error("invalid value"@, place(arg, 0)))
        } else {
            cluster_tokens(a, arg, 0)
        }
    } else {
        only(TokenView::Value(a))
    }
}

/// The tokens end with a lexical error.
pub open spec fn ends_in_error(ts: Seq<TokenView>) -> bool {
    ts.len() > 0 && ts.last() is Error
}

/// `here` followed by `rest`, unless `here` already ended the stream.
pub open spec fn chain(here: Seq<TokenView>, rest: Seq<TokenView>) -> Seq<TokenView> {
    if ends_in_error(here) {
        here
    } else {
        here + rest
    }
}

/// The tokens of the arguments from index `arg` on, closed by `End` unless a
/// lexical error cut the stream short.
pub open spec fn tokens_after(args: Seq<Seq<char>>, arg: int) -> Seq<TokenView>
    decreases args.len() - arg,
{
    if arg < 0 || arg >= args.len() {
        only(TokenView::End)
    } else {
        chain(argument_tokens(args[arg], arg), tokens_after(args, arg + 1))
    }
}

/// The whole token stream of an argument vector.
pub open spec fn tokenize(args: Seq<Seq<char>>) -> Seq<TokenView> {
    tokens_after(args, 0)
}

/// The tokens still to come when the next character to read is the one after
/// `offset` in argument `arg`.
pub open spec fn tokens_from(args: Seq<Seq<char>>, arg: int, offset: int) -> Seq<TokenView> {
    let here = if offset == 0 {
        argument_tokens(args[arg], arg)
    } else {
        cluster_tokens(args[arg], arg, offset)
    };
    chain(here, tokens_after(args, arg + 1))
}

/// An offset at which the tokenizer can stand inside argument `a`: its start,
/// or a character of a short cluster that is not the last one.
pub open spec fn offset_fits(a: Seq<char>, offset: int) -> bool {
    offset == 0 || (is_dash_led(a) && !is_dash_dash_led(a) && 0 < offset && offset + 1 < a.len())
}

/// An argument that is read character by character: it starts with one dash
/// and not with two.
pub open spec fn is_cluster(a: Seq<char>) -> bool {
    is_dash_led(a) && !is_dash_dash_led(a)
}

/// Every offset inside a short cluster of `args` can be counted: the
/// offset of a position is a `u32`, so a cluster has at most 2^32
/// characters.
pub open spec fn readable(args: Seq<Seq<char>>) -> bool {
    forall|i: int|
        0 <= i < args.len() ==> (is_cluster(#[trigger] args[i]) ==> args[i].len() - 1 <= u32::MAX)
}

/// Whether every offset inside a short cluster of `args` can be counted.
pub fn is_readable(args: &[&str]) -> (r: bool)
    ensures
        r == readable(texts(args@)),
{
    let mut i: usize = 0;
    while i < args.len()
        invariant
            i <= args.len(),
            forall|k: int|
                0 <= k < i ==> (is_cluster(#[trigger] texts(args@)[k]) ==> texts(args@)[k].len() - 1
                    <= u32::MAX),
        decreases args.len() - i,
    {
        let arg: &str = args[i];
        let len = arg.unicode_len();
        assert(texts(args@)[i as int] == arg@);
        let dash_led = len >= 1 && arg.get_char(0) == '-';
        let dash_dash_led = dash_led && len >= 2 && arg.get_char(1) == '-';
        if dash_led && !dash_dash_led && len - 1 > 0xffff_ffff {
            return false;
        }
        i = i + 1;
    }
    true
}

/// No token but the last is terminal, and the last is.
pub open spec fn terminated(ts: Seq<TokenView>) -> bool {
    &&& ts.len() > 0
    &&& is_terminal(ts.last())
    &&& forall|i: int| 0 <= i < ts.len() - 1 ==> !is_terminal(#[trigger] ts[i])
}

/// No token but possibly the last is terminal, and none is `End`.
pub open spec fn unclosed(ts: Seq<TokenView>) -> bool {
    &&& forall|i: int| 0 <= i < ts.len() - 1 ==> !is_terminal(#[trigger] ts[i])
    &&& forall|i: int| 0 <= i < ts.len() ==> !(#[trigger] ts[i] is End)
}

proof fn lemma_cluster_unclosed(a: Seq<char>, arg: int, offset: int)
    ensures
        unclosed(cluster_tokens(a, arg, offset)),
    decreases a.len() - offset,
{
    if offset < 0 || offset + 1 >= a.len() {
    } else if is_forbidden_in_cluster(a[offset + 1]) {
    } else {
        lemma_cluster_unclosed(a, arg, offset + 1);
        let rest = cluster_tokens(a, arg, offset + 1);
        let all = only(TokenView::Short(char_at(a, offset + 1))) + rest;
        assert forall|i: int| 0 <= i < all.len() - 1 implies !is_terminal(#[trigger] all[i]) by {
            if i > 0 {
                assert(all[i] == rest[i - 1]);
            }
        }
        assert forall|i: int| 0 <= i < all.len() implies !(#[trigger] all[i] is End) by {
            if i > 0 {
                assert(all[i] == rest[i - 1]);
            }
        }
    }
}

proof fn lemma_argument_unclosed(a: Seq<char>, arg: int)
    ensures
        unclosed(argument_tokens(a, arg)),
{
    lemma_cluster_unclosed(a, arg, 0);
}

proof fn lemma_chain_terminated(here: Seq<TokenView>, rest: Seq<TokenView>)
    requires
        unclosed(here),
        terminated(rest),
    ensures
        terminated(chain(here, rest)),
{
    if !ends_in_error(here) {
        let all = here + rest;
        assert(all.last() == rest.last());
        assert forall|i: int| 0 <= i < all.len() - 1 implies !is_terminal(#[trigger] all[i]) by {
            if i < here.len() {
                assert(all[i] == here[i]);
                if i == here.len() - 1 {
                    assert(here.last() == here[i]);
                }
            } else {
                assert(all[i] == rest[i - here.len()]);
            }
        }
    }
}

proof fn lemma_tokens_after_terminated(args: Seq<Seq<char>>, arg: int)
    ensures
        terminated(tokens_after(args, arg)),
    decreases args.len() - arg,
{
    if arg < 0 || arg >= args.len() {
    } else {
        lemma_argument_unclosed(args[arg], arg);
        lemma_tokens_after_terminated(args, arg + 1);
        lemma_chain_terminated(argument_tokens(args[arg], arg), tokens_after(args, arg + 1));
    }
}

/// Every argument vector has a token stream that is finite, not empty, ends
/// in exactly one `End` or exactly one `Error`, and holds no other `End` or
/// `Error` before that last token.
pub proof fn lemma_tokenize_terminated(args: Seq<Seq<char>>)
    ensures
        tokenize(args).len() >= 1,
        is_terminal(tokenize(args).last()),
        forall|i: int| 0 <= i < tokenize(args).len() - 1 ==> !is_terminal(#[trigger] tokenize(args)[i]),
{
    lemma_tokens_after_terminated(args, 0);
}

/// How far a token stream has come.
#[derive(Debug, PartialEq)]
pub enum Progress {
    /// Arguments are still being read.
    Iterating,
    /// All arguments are read; `End` is still owed.
    EndToken,
    /// A lexical error was reported.
    Error,
    /// `End` was given.
    Done,
}

/// A stream of tokens over an argument vector. It is read once, front to
/// back, with `next`.
pub struct TokenStream<'a> {
    args: &'a [&'a str],
    position: Position,
    state: Progress,
}

impl<'a> TokenStream<'a> {
    /// The arguments this stream reads.
    pub closed spec fn arguments(&self) -> Seq<Seq<char>> {
        texts(self.args@)
    }

    /// Where the stream stands.
    pub closed spec fn position(&self) -> Position {
        self.position
    }

    /// How far the stream has come.
    pub closed spec fn progress(&self) -> Progress {
        self.state
    }

    /// The position names an argument of the vector (or argument 0 of an
    /// empty one).
    pub open spec fn in_bounds(&self) -> bool {
        let args = self.arguments();
        let p = self.position();
        &&& args.len() == 0 ==> p.argument == 0
        &&& args.len() > 0 ==> p.argument < args.len()
    }

    /// The position is in bounds, every offset inside a short cluster can be
    /// counted, and while arguments are being read the position is a place
    /// where the tokenizer can stand.
    pub open spec fn wf(&self) -> bool {
        let args = self.arguments();
        let p = self.position();
        &&& self.in_bounds()
        &&& readable(args)
        &&& self.progress() is Iterating ==> args.len() > 0 && offset_fits(
            args[p.argument as int],
            p.char_in_argument as int,
        )
    }

    /// The tokens that `next` has yet to give, in order.
    pub open spec fn pending(&self) -> Seq<TokenView> {
        match self.progress() {
            Progress::Iterating => tokens_from(
                self.arguments(),
                self.position().argument as int,
                self.position().char_in_argument as int,
            ),
            Progress::EndToken => only(TokenView::End),
            Progress::Error => Seq::empty(),
            Progress::Done => Seq::empty(),
        }
    }

    /// A stream at the start of `args`.
    pub fn new(args: &'a [&'a str]) -> (s: TokenStream<'a>)
        ensures
            s.wf() == readable(texts(args@)),
            s.arguments() == texts(args@),
            s.position() == place(0, 0),
            s.progress() == (if args@.len() == 0 {
                Progress::EndToken
            } else {
                Progress::Iterating
            }),
            s.pending() == tokenize(texts(args@)),
    {
        let state = if args.len() == 0 {
            Progress::EndToken
        } else {
            Progress::Iterating
        };
        TokenStream { args, position: Position::new(0), state }
    }

    /// Moves to the start of the next argument, or, where there is none,
    /// marks that only `End` is still owed.
    pub fn next_argument(&mut self)
        requires
            old(self).in_bounds(),
        ensures
            final(self).wf() == readable(old(self).arguments()),
            final(self).arguments() == old(self).arguments(),
            old(self).position().argument + 1 < old(self).arguments().len() ==> {
                &&& final(self).position() == place(old(self).position().argument + 1, 0)
                &&& final(self).progress() == old(self).progress()
            },
            old(self).position().argument + 1 >= old(self).arguments().len() ==> {
                &&& final(self).position() == old(self).position()
                &&& final(self).progress() == Progress::EndToken
            },
    {
        let count = self.args.len();
        if self.position.argument + 1 < count {
            self.position.argument += 1;
            self.position.char_in_argument = 0;
        } else {
            self.state = Progress::EndToken;
        }
    }

    /// The next token, or `None` once `End` or an `Error` has been given.
    pub fn next(&mut self) -> (r: Option<Token<'a>>)
        requires
            old(self).wf(),
        ensures
            final(self).wf(),
            final(self).arguments() == old(self).arguments(),
            match r {
                Some(t) => {
                    &&& old(self).pending().len() > 0
                    &&& t@ == old(self).pending()[0]
                    &&& final(self).pending() == old(self).pending().skip(1)
                },
                None => {
                    &&& old(self).pending().len() == 0
                    &&& final(self).pending() == old(self).pending()
                },
            },
    {
        match self.state {
            Progress::Error => None,
            Progress::Done => None,
            Progress::EndToken => {
                self.state = Progress::Done;
                assert(only(TokenView::End).skip(1) =~= Seq::<TokenView>::empty());
                Some(Token::End)
            },
            Progress::Iterating => {
                let ghost args = self.arguments();
                let ghost at = self.position.argument as int;
                let ghost offset = self.position.char_in_argument as int;
                let ghost rest = tokens_after(args, at + 1);
                let arg: &'a str = self.args[self.position.argument];
                let len = arg.unicode_len();
                assert(args[at] == arg@);
                let dash_led = len >= 1 && arg.get_char(0) == '-';
                let dash_dash_led = dash_led && len >= 2 && arg.get_char(1) == '-';
                if dash_dash_led && len == 2 {
                    self.next_argument();
                    assert((only(TokenView::PositionalSeparator) + rest).skip(1) =~= rest);
                    Some(Token::PositionalSeparator)
                } else if dash_dash_led {
                    self.next_argument();
                    let name = arg.substring_char(2, len);
                    assert(arg@.subrange(2, len as int) =~= arg@.skip(2));
                    assert((only(TokenView::Long(arg@.skip(2))) + rest).skip(1) =~= rest);
                    Some(Token::Long(name))
                } else if dash_led {
                    if len == 1 {
                        self.state = Progress::Error;
                        let here = Position {
                            argument: self.position.argument,
                            char_in_argument: self.position.char_in_argument,
                        };
                        let ghost single = only(TokenView::Error("invalid value"@, place(at, 0)));
                        assert(single.skip(1) =~= Seq::<TokenView>::empty());
                        Some(Token::Error("invalid value".to_owned(), here))
                    } else {
                        self.position.char_in_argument += 1;
                        let chr = arg.get_char(self.position.char_in_argument as usize);
                        proof {
                            if offset == 0 {
                                assert(argument_tokens(arg@, at) == cluster_tokens(arg@, at, 0));
                            }
                        }
                        if chr == '-' || chr == ' ' {
                            self.state = Progress::Error;
                            let here = Position {
                                argument: self.position.argument,
                                char_in_argument: self.position.char_in_argument,
                            };
                            let ghost single = only(
                                TokenView::Error("invalid character"@, place(at, offset + 1)),
                            );
                            assert(single.skip(1) =~= Seq::<TokenView>::empty());
                            Some(Token::Error("invalid character".to_owned(), here))
                        } else {
                            let ghost tail = cluster_tokens(arg@, at, offset + 1);
                            let ghost head = only(TokenView::Short(chr));
                            proof {
                                lemma_cluster_unclosed(arg@, at, offset + 1);
                                if tail.len() > 0 {
                                    assert((head + tail).last() == tail.last());
                                }
                                assert((head + tail + rest).skip(1) =~= tail + rest);
                                assert((head + tail).skip(1) =~= tail);
                            }
                            if self.position.char_in_argument as usize >= len - 1 {
                                self.next_argument();
                                assert(tail =~= Seq::<TokenView>::empty());
                                assert(tail + rest =~= rest);
                            }
                            Some(Token::Short(chr))
                        }
                    }
                } else {
                    self.next_argument();
                    assert((only(TokenView::Value(arg@)) + rest).skip(1) =~= rest);
                    Some(Token::Value(arg))
                }
            },
        }
    }

    /// All the tokens that are yet to come, in order. The stream is used up.
    pub fn collect(self) -> (tokens: Vec<Token<'a>>)
        requires
            self.wf(),
        ensures
            tokens.deep_view() == self.pending(),
    {
        let mut stream = self;
        let mut tokens: Vec<Token<'a>> = Vec::new();
        loop
            invariant
                stream.wf(),
                self.pending() == tokens.deep_view() + stream.pending(),
            ensures
                stream.pending().len() == 0,
            decreases stream.pending().len(),
        {
            let ghost before = tokens.deep_view();
            let ghost waiting = stream.pending();
            match stream.next() {
                Some(token) => {
                    tokens.push(token);
                    assert(tokens.deep_view() =~= before.push(waiting[0]));
                    assert(before.push(waiting[0]) + waiting.skip(1) =~= before + waiting);
                },
                None => {
                    break;
                },
            }
        }
        assert(tokens.deep_view() + stream.pending() =~= tokens.deep_view());
        tokens
    }
}

/// A tokenizer over a borrowed argument vector.
#[derive(Debug)]
pub struct Parser<'a> {
    args: &'a [&'a str],
}

impl<'a> Parser<'a> {
    /// The arguments this tokenizer reads.
    pub closed spec fn arguments(&self) -> Seq<Seq<char>> {
        texts(self.args@)
    }

    /// A tokenizer for `args`.
    pub fn new(args: &'a [&'a str]) -> (p: Parser<'a>)
        ensures
            p.arguments() == texts(args@),
    {
        Parser { args }
    }

    /// A fresh token stream over the arguments; its tokens are
    /// `tokenize` of them.
    pub fn iter(&self) -> (s: TokenStream<'a>)
        ensures
            s.wf() == readable(self.arguments()),
            s.arguments() == self.arguments(),
            s.pending() == tokenize(self.arguments()),
    {
        TokenStream::new(self.args)
    }
}

} // verus!
