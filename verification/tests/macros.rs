use atri_plugin::macros::{
    find_item_name, lookup_name, parse_attrs, plugin, Delimiter, MacroError, Spacing, TokenTree,
};

fn ident(s: &str) -> TokenTree {
    TokenTree::Ident(String::from(s))
}

fn punct(c: char, joint: bool) -> TokenTree {
    TokenTree::Punct(c, if joint { Spacing::Joint } else { Spacing::Alone })
}

fn literal(s: &str) -> TokenTree {
    TokenTree::Literal(String::from(s))
}

fn group(d: Delimiter, stream: Vec<TokenTree>) -> TokenTree {
    TokenTree::Group(d, stream)
}

fn path(last: &str) -> Vec<TokenTree> {
    vec![ident("atri_plugin"), punct(':', true), punct(':', false), ident(last)]
}

fn entry_point(item: &str, name: TokenTree) -> Vec<TokenTree> {
    let mut args = vec![punct('<', false), ident(item), ident("as")];
    args.extend(path("Plugin"));
    args.extend(vec![
        punct('>', true),
        punct(':', true),
        punct(':', false),
        ident("new"),
        group(Delimiter::Parenthesis, vec![]),
        punct(',', true),
        name,
    ]);
    let mut body = path("__get_instance");
    body.push(group(Delimiter::Parenthesis, args));
    let mut out = vec![
        punct('#', false),
        group(Delimiter::Bracket, vec![ident("no_mangle")]),
        ident(&format!("{}{}", "ex", "tern")),
        TokenTree::Text(String::from("C")),
        ident("fn"),
        ident("on_init"),
        group(Delimiter::Parenthesis, vec![]),
        punct('-', true),
        punct('>', false),
    ];
    out.extend(path("PluginInstance"));
    out.push(group(Delimiter::Brace, body));
    out
}

fn item(keyword: &str, name: &str) -> Vec<TokenTree> {
    vec![
        punct('#', false),
        group(Delimiter::Bracket, vec![ident("derive"), group(Delimiter::Parenthesis, vec![ident("Default")])]),
        ident("pub"),
        ident(keyword),
        ident(name),
        group(Delimiter::Brace, vec![ident("count"), punct(':', false), ident("u32")]),
    ]
}

#[test]
fn entry_point_is_appended_to_the_item() {
    let out = plugin(vec![], item("struct", "MyPlugin")).unwrap();
    let mut want = item("struct", "MyPlugin");
    want.extend(entry_point("MyPlugin", TokenTree::Text(String::from("MyPlugin_plugin"))));
    assert_eq!(out, want);
    assert_eq!(out.len(), 6 + 14);

    let out = plugin(vec![], item("enum", "Modes")).unwrap();
    let mut want = item("enum", "Modes");
    want.extend(entry_point("Modes", TokenTree::Text(String::from("Modes_plugin"))));
    assert_eq!(out, want);
}

#[test]
fn declared_name_comes_from_the_attribute() {
    let attr = vec![ident("name"), punct('=', false), literal("\"my plugin\"")];
    let out = plugin(attr, item("struct", "P")).unwrap();
    let mut want = item("struct", "P");
    want.extend(entry_point("P", literal("\"my plugin\"")));
    assert_eq!(out, want);

    let attr = vec![
        ident("name"),
        punct('=', false),
        literal("\"first\""),
        punct(',', false),
        ident("other"),
        punct('=', false),
        ident("thing"),
        punct(',', false),
        ident("name"),
        punct('=', false),
        ident("SECOND"),
    ];
    let out = plugin(attr, item("struct", "P")).unwrap();
    assert_eq!(out[6..], entry_point("P", ident("SECOND"))[..]);
}

#[test]
fn attribute_pairs() {
    assert_eq!(parse_attrs(&vec![]), Ok(vec![]));
    let attr = vec![
        group(Delimiter::Parenthesis, vec![ident("ignored"), punct('=', false)]),
        literal("7"),
        ident("a"),
        punct(';', false),
        punct('=', false),
        literal("1"),
        ident("b"),
        ident("c"),
        punct('=', true),
        TokenTree::Text(String::from("two")),
    ];
    let pairs = parse_attrs(&attr).unwrap();
    assert_eq!(
        pairs,
        vec![
            (String::from("a"), literal("1")),
            (String::from("c"), TokenTree::Text(String::from("two"))),
        ]
    );
    assert_eq!(lookup_name(&pairs), None);
    let late_key = vec![punct('=', false), literal("5"), ident("name")];
    let pairs = parse_attrs(&late_key).unwrap();
    assert_eq!(pairs, vec![(String::from("name"), literal("5"))]);
    assert_eq!(lookup_name(&pairs), Some(literal("5")));
}

#[test]
fn attribute_errors() {
    assert_eq!(parse_attrs(&vec![punct('=', false)]), Err(MacroError::NoKey));
    assert_eq!(parse_attrs(&vec![ident("name"), punct('=', false)]), Err(MacroError::NoValueAfterKey));
    assert_eq!(
        parse_attrs(&vec![ident("name"), punct('=', false), punct('-', false), literal("1")]),
        Err(MacroError::UnexpectedValue)
    );
    assert_eq!(
        parse_attrs(&vec![ident("name"), punct('=', false), group(Delimiter::Brace, vec![])]),
        Err(MacroError::UnexpectedValue)
    );
    assert_eq!(plugin(vec![punct('=', false)], item("union", "U")), Err(MacroError::NoKey));
}

#[test]
fn item_errors() {
    assert_eq!(plugin(vec![], item("union", "U")), Err(MacroError::UnionNotSupported));
    assert_eq!(plugin(vec![], vec![]), Err(MacroError::NoStructOrEnum));
    assert_eq!(plugin(vec![], vec![ident("fn"), ident("f")]), Err(MacroError::NoStructOrEnum));
    assert_eq!(plugin(vec![], vec![ident("pub"), ident("struct")]), Err(MacroError::NoStructOrEnum));
    assert_eq!(
        find_item_name(&vec![ident("struct"), group(Delimiter::Brace, vec![])]),
        Err(MacroError::NoStructOrEnum)
    );
    assert_eq!(find_item_name(&vec![ident("enum"), ident("E"), ident("union")]), Ok(ident("E")));
    assert_eq!(
        find_item_name(&vec![ident("union"), ident("struct"), ident("S")]),
        Err(MacroError::UnionNotSupported)
    );
    assert_eq!(
        find_item_name(&vec![group(Delimiter::Brace, vec![ident("struct"), ident("Inner")]), ident("struct"), ident("Outer")]),
        Ok(ident("Outer"))
    );
}
