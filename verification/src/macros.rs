//! The attribute that marks a type as the plugin of its crate.
//!
//! The attribute leaves the marked item as it is and appends the exported
//! entry point that hands the plugin's descriptor to the host. Token streams
//! are held here as plain trees; reading them from the compiler and handing
//! them back is left to the caller.

use vstd::prelude::*;
use vstd::string::StringExecFns;

verus! {

#[derive(Clone, Copy, PartialEq, Eq, Structural, Debug)]
pub enum Delimiter {
    Parenthesis,
    Brace,
    Bracket,
    /// No delimiter is written; the group only keeps its tokens together.
    Invisible,
}

#[derive(Clone, Copy, PartialEq, Eq, Structural, Debug)]
pub enum Spacing {
    Alone,
    Joint,
}

/// One token, or a delimited group of tokens.
#[derive(Debug, PartialEq, Eq)]
pub enum TokenTree {
    Group(Delimiter, Vec<TokenTree>),
    Ident(String),
    Punct(char, Spacing),
    /// A literal as it is written in the source.
    Literal(String),
    /// A string literal that holds the given text.
    Text(String),
}

/// A token as a value: sequences in place of vectors and strings.
pub enum TokenView {
    Group(Delimiter, Seq<TokenView>),
    Ident(Seq<char>),
    Punct(char, Spacing),
    Literal(Seq<char>),
    Text(Seq<char>),
}

/// Why the attribute cannot be expanded.
#[derive(Clone, Copy, PartialEq, Eq, Structural, Debug)]
pub enum MacroError {
    /// An `=` at the end of the attribute, with no key before it.
    NoKey,
    /// An `=` at the end of the attribute, after a key.
    NoValueAfterKey,
    /// After `=` stands something that is neither a name nor a literal.
    UnexpectedValue,
    UnionNotSupported,
    /// The item holds no `struct` or `enum` followed by a name.
    NoStructOrEnum,
}

impl TokenTree {
    pub open spec fn view(&self) -> TokenView
        decreases self,
    {
        match self {
            TokenTree::Group(d, stream) => TokenView::Group(
                *d,
                Seq::new(
                    stream@.len(),
                    |i: int|
                        if 0 <= i < stream@.len() {
                            stream@[i].view()
                        } else {
                            arbitrary()
                        },
                ),
            ),
            TokenTree::Ident(s) => TokenView::Ident(s@),
            TokenTree::Punct(c, s) => TokenView::Punct(*c, *s),
            TokenTree::Literal(s) => TokenView::Literal(s@),
            TokenTree::Text(s) => TokenView::Text(s@),
        }
    }

    /// A copy of a token that is not a group.
    pub fn clone_leaf(&self) -> (r: TokenTree)
        requires
            !(self is Group),
        ensures
            r@ == self@,
    {
        match self {
            TokenTree::Ident(s) => TokenTree::Ident(s.clone()),
            TokenTree::Punct(c, s) => TokenTree::Punct(*c, *s),
            TokenTree::Literal(s) => TokenTree::Literal(s.clone()),
            TokenTree::Text(s) => TokenTree::Text(s.clone()),
            TokenTree::Group(_, _) => vstd::pervasive::unreached(),
        }
    }
}

/// The tokens of a stream as values, in order.
pub open spec fn views(s: Seq<TokenTree>) -> Seq<TokenView> {
    Seq::new(s.len(), |i: int| s[i]@)
}

/// The keys and values read from an attribute, while it is being read: the
/// key and the value that wait for each other, and the pairs made so far.
pub struct Attrs {
    pub name: Option<Seq<char>>,
    pub value: Option<TokenView>,
    pub pairs: Seq<(Seq<char>, TokenView)>,
}

impl Attrs {
    pub open spec fn start() -> Attrs {
        Attrs { name: None, value: None, pairs: Seq::empty() }
    }

    /// Once a key and a value are both there they become a pair.
    pub open spec fn settle(self) -> Attrs {
        if self.name is Some && self.value is Some {
            Attrs {
                name: None,
                value: None,
                pairs: self.pairs.push((self.name->0, self.value->0)),
            }
        } else {
            self
        }
    }
}

/// Reads the attribute from token `i` on. A name is a key; `=` takes the
/// token after it as a value, which is a name or a literal; everything else
/// is passed over.
pub open spec fn read_attrs(tokens: Seq<TokenView>, i: int, state: Attrs) -> Result<
    Seq<(Seq<char>, TokenView)>,
    MacroError,
>
    decreases tokens.len() - i,
{
    if i < 0 || i >= tokens.len() {
        Ok(state.pairs)
    } else {
        match tokens[i] {
            TokenView::Ident(s) => read_attrs(
                tokens,
                i + 1,
                (Attrs { name: Some(s), ..state }).settle(),
            ),
            TokenView::Punct(c, _) => if c == '=' {
                if i + 1 >= tokens.len() {
                    if state.name is Some {
                        Err(MacroError::NoValueAfterKey)
                    } else {
                        Err(MacroError::NoKey)
                    }
                } else if tokens[i + 1] is Ident || tokens[i + 1] is Literal || tokens[i + 1] is Text {
                    read_attrs(
                        tokens,
                        i + 2,
                        (Attrs { value: Some(tokens[i + 1]), ..state }).settle(),
                    )
                } else {
                    Err(MacroError::UnexpectedValue)
                }
            } else {
                read_attrs(tokens, i + 1, state.settle())
            },
            _ => read_attrs(tokens, i + 1, state.settle()),
        }
    }
}

/// The value of the last pair with the given key.
pub open spec fn lookup(pairs: Seq<(Seq<char>, TokenView)>, key: Seq<char>) -> Option<TokenView>
    decreases pairs.len(),
{
    if pairs.len() == 0 {
        None
    } else if pairs.last().0 == key {
        Some(pairs.last().1)
    } else {
        lookup(pairs.drop_last(), key)
    }
}

/// The name of the marked type: the token after the first `struct` or `enum`
/// of the item, from token `i` on. A `union` before that is refused.
pub open spec fn item_name(tokens: Seq<TokenView>, i: int) -> Result<TokenView, MacroError>
    decreases tokens.len() - i,
{
    if i < 0 || i >= tokens.len() {
        Err(MacroError::NoStructOrEnum)
    } else if tokens[i] == TokenView::Ident("struct"@) || tokens[i] == TokenView::Ident("enum"@) {
        if i + 1 < tokens.len() && tokens[i + 1] is Ident {
            Ok(tokens[i + 1])
        } else {
            Err(MacroError::NoStructOrEnum)
        }
    } else if tokens[i] == TokenView::Ident("union"@) {
        Err(MacroError::UnionNotSupported)
    } else {
        item_name(tokens, i + 1)
    }
}

/// The name under which the plugin is declared: the value given for `name`,
/// or the name of the type followed by `_plugin`.
pub open spec fn declared_name(pairs: Seq<(Seq<char>, TokenView)>, item_name: Seq<char>) -> TokenView {
    match lookup(pairs, "name"@) {
        Some(v) => v,
        None => TokenView::Text(item_name + "_plugin"@),
    }
}

pub open spec fn ident(s: Seq<char>) -> TokenView {
    TokenView::Ident(s)
}

pub open spec fn punct(c: char, s: Spacing) -> TokenView {
    TokenView::Punct(c, s)
}

/// The path `atri_plugin::` and `last`.
pub open spec fn crate_path(last: Seq<char>) -> Seq<TokenView> {
    seq![
        ident("atri_plugin"@),
        punct(':', Spacing::Joint),
        punct(':', Spacing::Alone),
        ident(last),
    ]
}

/// The arguments of the call that makes the descriptor: a new instance of
/// the type, made through its `Plugin` impl, and the declared name.
pub open spec fn instance_args(item_name: TokenView, name: TokenView) -> Seq<TokenView> {
    seq![punct('<', Spacing::Alone), item_name, ident("as"@)] + crate_path("Plugin"@) + seq![
        punct('>', Spacing::Joint),
        punct(':', Spacing::Joint),
        punct(':', Spacing::Alone),
        ident("new"@),
        TokenView::Group(Delimiter::Parenthesis, Seq::empty()),
        punct(',', Spacing::Joint),
        name,
    ]
}

/// The keyword that opens a function with a foreign calling convention.
pub open spec fn foreign_keyword() -> Seq<char> {
    "ex"@ + "tern"@
}

/// The entry point that is appended to the item: the function `on_init`,
/// exported under its own name with the C calling convention, that returns
/// `atri_plugin::PluginInstance` and whose body calls
/// `atri_plugin::__get_instance` on `instance_args`.
pub open spec fn entry_point(item_name: TokenView, name: TokenView) -> Seq<TokenView> {
    seq![
        punct('#', Spacing::Alone),
        TokenView::Group(Delimiter::Bracket, seq![ident("no_mangle"@)]),
        ident(foreign_keyword()),
        TokenView::Text("C"@),
        ident("fn"@),
        ident("on_init"@),
        TokenView::Group(Delimiter::Parenthesis, Seq::empty()),
        punct('-', Spacing::Joint),
        punct('>', Spacing::Alone),
    ] + crate_path("PluginInstance"@) + seq![
        TokenView::Group(
            Delimiter::Brace,
            crate_path("__get_instance"@) + seq![
                TokenView::Group(Delimiter::Parenthesis, instance_args(item_name, name)),
            ],
        ),
    ]
}

/// What the attribute makes of an item: the item itself, then the entry
/// point for the type that the item declares.
pub open spec fn expansion(attr: Seq<TokenView>, input: Seq<TokenView>) -> Result<
    Seq<TokenView>,
    MacroError,
> {
    match read_attrs(attr, 0, Attrs::start()) {
        Err(e) => Err(e),
        Ok(pairs) => match item_name(input, 0) {
            Err(e) => Err(e),
            Ok(t) => Ok(input + entry_point(t, declared_name(pairs, t->Ident_0))),
        },
    }
}

/// The pairs of an attribute as values, in order.
pub open spec fn pair_views(pairs: Seq<(String, TokenTree)>) -> Seq<(Seq<char>, TokenView)> {
    Seq::new(pairs.len(), |i: int| (pairs[i].0@, pairs[i].1@))
}

fn ident_token(name: &str) -> (r: TokenTree)
    ensures
        r@ == ident(name@),
{
    TokenTree::Ident(String::from_str(name))
}

fn empty_group(delimiter: Delimiter) -> (r: TokenTree)
    ensures
        r@ == TokenView::Group(delimiter, Seq::empty()),
{
    let r = TokenTree::Group(delimiter, Vec::new());
    assert(r@->Group_1 =~= Seq::<TokenView>::empty());
    r
}

fn group(delimiter: Delimiter, stream: Vec<TokenTree>) -> (r: TokenTree)
    ensures
        r@ == TokenView::Group(delimiter, views(stream@)),
{
    let r = TokenTree::Group(delimiter, stream);
    assert(r@->Group_1 =~= views(stream@));
    r
}

fn push_crate_path(tree: &mut Vec<TokenTree>, last: &str)
    ensures
        views(final(tree)@) == views(old(tree)@) + crate_path(last@),
{
    tree.push(ident_token("atri_plugin"));
    tree.push(TokenTree::Punct(':', Spacing::Joint));
    tree.push(TokenTree::Punct(':', Spacing::Alone));
    tree.push(ident_token(last));
    assert(views(tree@) =~= views(old(tree)@) + crate_path(last@));
}

/// Reads the keys and values of an attribute.
pub fn parse_attrs(attr: &Vec<TokenTree>) -> (r: Result<Vec<(String, TokenTree)>, MacroError>)
    ensures
        match read_attrs(views(attr@), 0, Attrs::start()) {
            Ok(pairs) => r matches Ok(v) && pair_views(v@) == pairs && forall|i: int|
                0 <= i < v@.len() ==> !((#[trigger] v@[i]).1 is Group),
            Err(e) => r == Err::<Vec<(String, TokenTree)>, MacroError>(e),
        },
{
    let ghost tokens = views(attr@);
    let mut name: Option<String> = None;
    let mut value: Option<TokenTree> = None;
    let mut pairs: Vec<(String, TokenTree)> = Vec::new();
    let mut i: usize = 0;
    assert(pair_views(pairs@) =~= Seq::empty());
    while i < attr.len()
        invariant
            i <= attr.len(),
            tokens == views(attr@),
            value matches Some(v) ==> !(v is Group),
            forall|k: int| 0 <= k < pairs@.len() ==> !((#[trigger] pairs@[k]).1 is Group),
            read_attrs(tokens, 0, Attrs::start()) == read_attrs(
                tokens,
                i as int,
                Attrs {
                    name: match name {
                        Some(n) => Some(n@),
                        None => None,
                    },
                    value: match value {
                        Some(v) => Some(v@),
                        None => None,
                    },
                    pairs: pair_views(pairs@),
                },
            ),
        decreases attr.len() - i,
    {
        assert(tokens[i as int] == attr@[i as int]@);
        let mut step: usize = 1;
        match &attr[i] {
            TokenTree::Ident(id) => {
                name = Some(id.clone());
            },
            TokenTree::Punct(c, _) => {
                if *c == '=' {
                    if i + 1 >= attr.len() {
                        return Err(
                            if name.is_some() {
                                MacroError::NoValueAfterKey
                            } else {
                                MacroError::NoKey
                            },
                        );
                    }
                    assert(tokens[i + 1] == attr@[i + 1]@);
                    match &attr[i + 1] {
                        TokenTree::Group(_, _) => {
                            return Err(MacroError::UnexpectedValue);
                        },
                        TokenTree::Punct(_, _) => {
                            return Err(MacroError::UnexpectedValue);
                        },
                        token => {
                            value = Some(token.clone_leaf());
                        },
                    }
                    step = 2;
                }
            },
            _ => {},
        }
        if name.is_some() && value.is_some() {
            let ghost before = pair_views(pairs@);
            let mut n: Option<String> = None;
            let mut v: Option<TokenTree> = None;
            core::mem::swap(&mut name, &mut n);
            core::mem::swap(&mut value, &mut v);
            match (n, v) {
                (Some(n), Some(v)) => {
                    pairs.push((n, v));
                    assert(pair_views(pairs@) =~= before.push((n@, v@)));
                },
                _ => {},
            }
        }
        i = i + step;
    }
    Ok(pairs)
}

/// The value given for the key `name`, if there is one: the last, where
/// the key is given more than once.
pub fn lookup_name(pairs: &Vec<(String, TokenTree)>) -> (r: Option<TokenTree>)
    requires
        forall|i: int| 0 <= i < pairs@.len() ==> !((#[trigger] pairs@[i]).1 is Group),
    ensures
        match lookup(pair_views(pairs@), "name"@) {
            Some(v) => r matches Some(t) && t@ == v,
            None => r is None,
        },
{
    let key = String::from_str("name");
    let mut i: usize = pairs.len();
    assert(pair_views(pairs@).take(i as int) == pair_views(pairs@));
    while i > 0
        invariant
            i <= pairs.len(),
            key@ == "name"@,
            forall|k: int| 0 <= k < pairs@.len() ==> !((#[trigger] pairs@[k]).1 is Group),
            lookup(pair_views(pairs@), "name"@) == lookup(
                pair_views(pairs@).take(i as int),
                "name"@,
            ),
        decreases i,
    {
        let ghost prefix = pair_views(pairs@).take(i as int);
        assert(prefix.last() == (pairs@[i - 1].0@, pairs@[i - 1].1@));
        assert(prefix.drop_last() == pair_views(pairs@).take(i - 1));
        if pairs[i - 1].0 == key {
            return Some(pairs[i - 1].1.clone_leaf());
        }
        i = i - 1;
    }
    None
}

/// Finds the name of the type that an item declares.
pub fn find_item_name(input: &Vec<TokenTree>) -> (r: Result<TokenTree, MacroError>)
    ensures
        match item_name(views(input@), 0) {
            Ok(t) => r matches Ok(found) && found@ == t && found is Ident,
            Err(e) => r == Err::<TokenTree, MacroError>(e),
        },
{
    let ghost tokens = views(input@);
    let kw_struct = String::from_str("struct");
    let kw_enum = String::from_str("enum");
    let kw_union = String::from_str("union");
    let mut i: usize = 0;
    while i < input.len()
        invariant
            i <= input.len(),
            tokens == views(input@),
            kw_struct@ == "struct"@,
            kw_enum@ == "enum"@,
            kw_union@ == "union"@,
            item_name(tokens, 0) == item_name(tokens, i as int),
        decreases input.len() - i,
    {
        assert(tokens[i as int] == input@[i as int]@);
        match &input[i] {
            TokenTree::Ident(word) => {
                if *word == kw_struct || *word == kw_enum {
                    if i + 1 < input.len() {
                        assert(tokens[i + 1] == input@[i + 1]@);
                        match &input[i + 1] {
                            TokenTree::Ident(name) => {
                                return Ok(TokenTree::Ident(name.clone()));
                            },
                            _ => {
                                return Err(MacroError::NoStructOrEnum);
                            },
                        }
                    }
                    return Err(MacroError::NoStructOrEnum);
                }
                if *word == kw_union {
                    return Err(MacroError::UnionNotSupported);
                }
            },
            _ => {},
        }
        i = i + 1;
    }
    Err(MacroError::NoStructOrEnum)
}

/// Appends the entry point for the type `item` with the declared name `name`.
pub fn push_entry_point(tree: &mut Vec<TokenTree>, item: TokenTree, name: TokenTree)
    ensures
        views(final(tree)@) == views(old(tree)@) + entry_point(item@, name@),
{
    let ghost start = views(tree@);
    let mut attribute: Vec<TokenTree> = Vec::new();
    attribute.push(ident_token("no_mangle"));
    assert(views(attribute@) =~= seq![ident("no_mangle"@)]);

    let mut args: Vec<TokenTree> = Vec::new();
    args.push(TokenTree::Punct('<', Spacing::Alone));
    args.push(item);
    args.push(ident_token("as"));
    assert(views(args@) =~= seq![punct('<', Spacing::Alone), item@, ident("as"@)]);
    push_crate_path(&mut args, "Plugin");
    let ghost head = views(args@);
    args.push(TokenTree::Punct('>', Spacing::Joint));
    args.push(TokenTree::Punct(':', Spacing::Joint));
    args.push(TokenTree::Punct(':', Spacing::Alone));
    args.push(ident_token("new"));
    args.push(empty_group(Delimiter::Parenthesis));
    args.push(TokenTree::Punct(',', Spacing::Joint));
    args.push(name);
    assert(views(args@) =~= head + seq![
        punct('>', Spacing::Joint),
        punct(':', Spacing::Joint),
        punct(':', Spacing::Alone),
        ident("new"@),
        TokenView::Group(Delimiter::Parenthesis, Seq::empty()),
        punct(',', Spacing::Joint),
        name@,
    ]);
    assert(views(args@) == instance_args(item@, name@));

    let mut body: Vec<TokenTree> = Vec::new();
    assert(views(body@) =~= Seq::empty());
    push_crate_path(&mut body, "__get_instance");
    let ghost path = views(body@);
    body.push(group(Delimiter::Parenthesis, args));
    assert(views(body@) =~= path + seq![
        TokenView::Group(Delimiter::Parenthesis, instance_args(item@, name@)),
    ]);
    assert(path =~= crate_path("__get_instance"@));

    tree.push(TokenTree::Punct('#', Spacing::Alone));
    tree.push(group(Delimiter::Bracket, attribute));
    tree.push(TokenTree::Ident(String::from_str("ex").concat("tern")));
    tree.push(TokenTree::Text(String::from_str("C")));
    tree.push(ident_token("fn"));
    tree.push(ident_token("on_init"));
    tree.push(empty_group(Delimiter::Parenthesis));
    tree.push(TokenTree::Punct('-', Spacing::Joint));
    tree.push(TokenTree::Punct('>', Spacing::Alone));
    let ghost opening = seq![
        punct('#', Spacing::Alone),
        TokenView::Group(Delimiter::Bracket, seq![ident("no_mangle"@)]),
        ident(foreign_keyword()),
        TokenView::Text("C"@),
        ident("fn"@),
        ident("on_init"@),
        TokenView::Group(Delimiter::Parenthesis, Seq::empty()),
        punct('-', Spacing::Joint),
        punct('>', Spacing::Alone),
    ];
    assert(views(tree@) =~= start + opening);
    push_crate_path(tree, "PluginInstance");
    let ghost before_body = views(tree@);
    tree.push(group(Delimiter::Brace, body));
    assert(views(tree@) =~= before_body + seq![
        TokenView::Group(
            Delimiter::Brace,
            crate_path("__get_instance"@) + seq![
                TokenView::Group(Delimiter::Parenthesis, instance_args(item@, name@)),
            ],
        ),
    ]);
    assert(views(tree@) =~= start + entry_point(item@, name@));
}

/// Expands the attribute on an item: gives the item followed by the entry
/// point for the type that it declares, or says why there is none.
pub fn plugin(attr: Vec<TokenTree>, input: Vec<TokenTree>) -> (r: Result<
    Vec<TokenTree>,
    MacroError,
>)
    ensures
        match expansion(views(attr@), views(input@)) {
            Ok(tokens) => r matches Ok(tree) && views(tree@) == tokens,
            Err(e) => r == Err::<Vec<TokenTree>, MacroError>(e),
        },
{
    let pairs = match parse_attrs(&attr) {
        Ok(pairs) => pairs,
        Err(e) => {
            return Err(e);
        },
    };
    let item = match find_item_name(&input) {
        Ok(item) => item,
        Err(e) => {
            return Err(e);
        },
    };
    let name = match lookup_name(&pairs) {
        Some(name) => name,
        None => match &item {
            TokenTree::Ident(s) => TokenTree::Text(s.clone().concat("_plugin")),
            _ => vstd::pervasive::unreached(),
        },
    };
    let mut tree = input;
    push_entry_point(&mut tree, item, name);
    Ok(tree)
}

} // verus!
