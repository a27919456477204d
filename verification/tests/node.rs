use sierra_backend::node::{
    GreenId, GreenInternalNode, GreenInterner, GreenNode, SyntaxKind, SyntaxNode, SyntaxNodeKind,
    SyntaxToken, Token, TokenKind, TypedSyntaxNode,
};
use smol_str::SmolStr;

fn sample() -> (GreenInterner, GreenId) {
    let mut db = GreenInterner::new();
    let a = SyntaxToken::new_green(&mut db, TokenKind::Identifier, SmolStr::new("foo"));
    let b = SyntaxToken::new_green(&mut db, TokenKind::Punctuation, SmolStr::new("+"));
    let c = SyntaxToken::new_green(&mut db, TokenKind::LiteralNumber, SmolStr::new("12"));
    let root = db.intern_green(GreenNode::Internal(GreenInternalNode {
        kind: SyntaxKind(7),
        children: vec![a, b, c],
        width: 6,
    }));
    (db, root)
}

#[test]
fn root_has_offset_zero_and_no_parent() {
    let (db, root) = sample();
    let node = SyntaxNode::new_root(root);
    assert_eq!(node.offset(), 0);
    assert_eq!(node.parent(), None);
    assert_eq!(node.width(&db), 6);
    assert_eq!(node.kind(&db), SyntaxNodeKind::Syntax(SyntaxKind(7)));
}

#[test]
fn children_get_running_offsets_and_parent() {
    let (db, root) = sample();
    let node = SyntaxNode::new_root(root);
    let children = node.children(&db);
    assert_eq!(children.len(), 3);
    assert_eq!(children[0].offset(), 0);
    assert_eq!(children[1].offset(), 3);
    assert_eq!(children[2].offset(), 4);
    assert_eq!(children[2].width(&db), 2);
    assert_eq!(children[1].parent(), Some(SyntaxNode::new_root(root)));
    assert_eq!(
        children[0].kind(&db),
        SyntaxNodeKind::Token(Token { kind: TokenKind::Identifier, text: "foo".to_string() })
    );
    assert_eq!(children[0].children(&db), vec![]);
}

#[test]
fn token_view_reads_kind_text_and_width() {
    let (db, root) = sample();
    let children = SyntaxNode::new_root(root).children(&db);
    let token = SyntaxToken::from_syntax_node(&db, children[2].duplicate());
    assert_eq!(token.kind(&db), TokenKind::LiteralNumber);
    assert_eq!(token.text(&db), SmolStr::new("12"));
    assert_eq!(token.width(&db), 2);
    assert_eq!(token.raw(&db), Token { kind: TokenKind::LiteralNumber, text: "12".to_string() });
}

#[test]
fn token_width_counts_bytes() {
    let mut db = GreenInterner::new();
    let id = SyntaxToken::new_green(&mut db, TokenKind::Identifier, SmolStr::new("héllo"));
    let token = SyntaxToken::from_syntax_node(&db, SyntaxNode::new_root(id));
    assert_eq!(token.width(&db), 6);
    assert_eq!(token.text(&db).as_str(), "héllo");
}

#[test]
fn missing_token_is_empty() {
    let mut db = GreenInterner::new();
    let id = SyntaxToken::missing(&mut db);
    assert_eq!(id, GreenId(0));
    let token = SyntaxToken::from_syntax_node(&db, SyntaxNode::new_root(id));
    assert_eq!(token.kind(&db), TokenKind::Missing);
    assert_eq!(token.width(&db), 0);
    assert_eq!(Token::missing(), Token { kind: TokenKind::Missing, text: String::new() });
    assert_eq!(db.lookup_intern_green(id), &GreenNode::Token(Token::missing()));
}
