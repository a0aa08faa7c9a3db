use rust_yap::parser::{Parser, Position, Progress, Token, TokenStream};

#[test]
fn test_parser() {
    let parser = Parser::new(&[]);
    let tokens: Vec<Token> = parser.iter().collect();
    assert_eq!(tokens, vec![Token::End]);

    let parser = Parser::new(&["-v"]);
    let t: Vec<Token> = parser.iter().collect();
    assert_eq!(t, vec![Token::Short('v'), Token::End]);

    let parser = Parser::new(&["-s", "--long"]);
    let t: Vec<Token> = parser.iter().collect();
    assert_eq!(t, vec![Token::Short('s'), Token::Long("long"), Token::End]);

    let parser = Parser::new(&["-s", "--long", "value"]);
    let t: Vec<Token> = parser.iter().collect();
    assert_eq!(
        t,
        vec![Token::Short('s'), Token::Long("long"), Token::Value("value"), Token::End]
    );

    //test error handling
    let parser = Parser::new(&["-v "]);
    let t: Vec<Token> = parser.iter().collect();
    assert_eq!(
        t,
        vec![
            Token::Short('v'),
            Token::Error("invalid character".to_string(), Position::new_detailed(0, 2))
        ]
    );

    let parser = Parser::new(&["- "]);
    let t: Vec<Token> = parser.iter().collect();
    assert_eq!(
        t,
        vec![Token::Error("invalid character".to_string(), Position::new_detailed(0, 1))]
    );
}

#[test]
fn short_cluster_gives_one_token_per_character() {
    let t: Vec<Token> = Parser::new(&["-abc"]).iter().collect();
    assert_eq!(t, vec![Token::Short('a'), Token::Short('b'), Token::Short('c'), Token::End]);
}

#[test]
fn long_option_is_never_split() {
    let t: Vec<Token> = Parser::new(&["--foo"]).iter().collect();
    assert_eq!(t, vec![Token::Long("foo"), Token::End]);
    let t: Vec<Token> = Parser::new(&["--key=value"]).iter().collect();
    assert_eq!(t, vec![Token::Long("key=value"), Token::End]);
    let t: Vec<Token> = Parser::new(&["---"]).iter().collect();
    assert_eq!(t, vec![Token::Long("-"), Token::End]);
}

#[test]
fn lexical_error_names_the_offending_character() {
    let t: Vec<Token> = Parser::new(&["-v "]).iter().collect();
    assert_eq!(
        t,
        vec![
            Token::Short('v'),
            Token::Error("invalid character".to_string(), Position::new_detailed(0, 2))
        ]
    );
    let t: Vec<Token> = Parser::new(&["x", "-a-b", "y"]).iter().collect();
    assert_eq!(
        t,
        vec![
            Token::Value("x"),
            Token::Short('a'),
            Token::Error("invalid character".to_string(), Position::new_detailed(1, 2))
        ]
    );
}

#[test]
fn lone_dash_is_an_invalid_value() {
    let t: Vec<Token> = Parser::new(&["a", "-", "b"]).iter().collect();
    assert_eq!(
        t,
        vec![Token::Value("a"), Token::Error("invalid value".to_string(), Position::new(1))]
    );
}

#[test]
fn double_dash_is_the_positional_separator() {
    let t: Vec<Token> = Parser::new(&["--", "x"]).iter().collect();
    assert_eq!(t, vec![Token::PositionalSeparator, Token::Value("x"), Token::End]);
}

#[test]
fn empty_argument_is_a_value() {
    let t: Vec<Token> = Parser::new(&["", "é-"]).iter().collect();
    assert_eq!(t, vec![Token::Value(""), Token::Value("é-"), Token::End]);
}

#[test]
fn cluster_of_wide_characters() {
    let t: Vec<Token> = Parser::new(&["-éß", "--näme"]).iter().collect();
    assert_eq!(t, vec![Token::Short('é'), Token::Short('ß'), Token::Long("näme"), Token::End]);
}

fn is_terminal(t: &Token) -> bool {
    matches!(t, Token::End | Token::Error(_, _))
}

#[test]
fn every_stream_ends_in_exactly_one_terminal_token() {
    let inputs: Vec<Vec<&str>> = vec![
        vec![],
        vec!["a"],
        vec!["-"],
        vec!["-a", "-b-", "c"],
        vec!["--", "--x", "-xyz", "v"],
        vec!["- "],
        vec!["-a b"],
    ];
    for args in inputs {
        let tokens: Vec<Token> = Parser::new(&args).iter().collect();
        assert!(!tokens.is_empty());
        assert!(is_terminal(&tokens[tokens.len() - 1]));
        for t in &tokens[..tokens.len() - 1] {
            assert!(!is_terminal(t));
        }
    }
}

#[test]
fn next_gives_nothing_after_the_end() {
    let args = ["-a"];
    let mut stream = TokenStream::new(&args);
    assert_eq!(stream.next(), Some(Token::Short('a')));
    assert_eq!(stream.next(), Some(Token::End));
    assert_eq!(stream.next(), None);
    assert_eq!(stream.next(), None);
}

#[test]
fn next_gives_nothing_after_an_error() {
    let args = ["-", "a"];
    let mut stream = TokenStream::new(&args);
    assert_eq!(
        stream.next(),
        Some(Token::Error("invalid value".to_string(), Position::new(0)))
    );
    assert_eq!(stream.next(), None);
}

#[test]
fn next_argument_skips_the_rest_of_a_cluster() {
    let args = ["-abc", "x"];
    let mut stream = TokenStream::new(&args);
    assert_eq!(stream.next(), Some(Token::Short('a')));
    stream.next_argument();
    assert_eq!(stream.next(), Some(Token::Value("x")));
    assert_eq!(stream.next(), Some(Token::End));
}

#[test]
fn next_argument_on_the_last_argument_leaves_only_the_end() {
    let args = ["-abc"];
    let mut stream = TokenStream::new(&args);
    stream.next_argument();
    assert_eq!(stream.next(), Some(Token::End));
    assert_eq!(stream.next(), None);
}

#[test]
fn position_constructors() {
    assert_eq!(Position::new(3), Position::new_detailed(3, 0));
    assert_eq!(Position::new_detailed(1, 2).argument, 1);
    assert_eq!(Position::new_detailed(1, 2).char_in_argument, 2);
    assert_ne!(Progress::Iterating, Progress::Done);
}

#[test]
fn tokens_describe_themselves() {
    assert_eq!(Token::Short('v').describe(), "Short('v')");
    assert_eq!(Token::Long("long").describe(), "Long(\"long\")");
    assert_eq!(Token::Value("x y").describe(), "Value(\"x y\")");
    assert_eq!(Token::PositionalSeparator.describe(), "PositionalSeparator");
    assert_eq!(Token::End.describe(), "End");
    assert_eq!(
        Token::Error("invalid character".to_string(), Position::new_detailed(10, 2)).describe(),
        "Error(\"invalid character\", Position { argument: 10, char_in_argument: 2 })"
    );
}

#[test]
fn ordinary_arguments_are_readable() {
    assert!(rust_yap::parser::is_readable(&[]));
    assert!(rust_yap::parser::is_readable(&["-abc", "--", "--long", "-", "value", ""]));
}

#[test]
fn offset_of_a_position_is_a_u32() {
    let offset: u32 = Position::new_detailed(3, 7).char_in_argument;
    assert_eq!(offset, 7);
    assert_eq!(Position::new(3), Position::new_detailed(3, 0));
}
