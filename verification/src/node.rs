//! The untyped view of a syntax tree over interned green nodes: every node
//! knows its offset in the text and its parent.

use smol_str::SmolStr;
use vstd::prelude::*;

verus! {

/// The outside string type in which token text is handed over.
#[verifier::external_type_specification]
#[verifier::external_body]
pub struct ExSmolStr(smol_str::SmolStr);

/// The characters of a `SmolStr`.
pub uninterp spec fn smol_text(text: SmolStr) -> Seq<char>;

/// `SmolStr::as_str`, copied into an owned string: the result has exactly the
/// characters of the argument.
#[verifier::external_body]
fn smol_to_string(text: &SmolStr) -> (r: String)
    ensures
        r@ == smol_text(*text),
{
    text.as_str().to_owned()
}

/// `SmolStr::new`: the result has exactly the characters of the argument.
#[verifier::external_body]
fn smol_from_str(text: &str) -> (r: SmolStr)
    ensures
        smol_text(r) == text@,
{
    SmolStr::new(text)
}

/// Identifier of an interned green node.
#[derive(Clone, Copy, Debug, Hash, PartialEq, Eq, Structural)]
pub struct GreenId(pub usize);

/// The kind of an internal syntax node, by its code.
#[derive(Clone, Copy, Debug, Hash, PartialEq, Eq, Structural)]
pub struct SyntaxKind(pub u16);

/// The kind of a token.
#[derive(Clone, Copy, Debug, Hash, PartialEq, Eq, Structural)]
pub enum TokenKind {
    Identifier,
    LiteralNumber,
    Keyword,
    Punctuation,
    Trivia,
    EndOfFile,
    Missing,
}

/// A token: its kind and its text.
#[derive(Debug, Hash, PartialEq, Eq)]
pub struct Token {
    pub kind: TokenKind,
    pub text: String,
}

impl Token {
    /// The number of bytes of the text, as a 32-bit count.
    pub open spec fn spec_width(&self) -> u32 {
        (vstd::utf8::encode_utf8(self.text@).len() as usize) as u32
    }

    /// The number of bytes of the text, as a 32-bit count.
    pub fn width(&self) -> (r: u32)
        ensures
            r == self.spec_width(),
    {
        #[verifier::truncate]
        (self.text.as_str().len() as u32)
    }

    /// The token that stands for one that is absent: no text.
    pub fn missing() -> (r: Token)
        ensures
            r.kind == TokenKind::Missing,
            r.text@ == Seq::<char>::empty(),
    {
        Token { kind: TokenKind::Missing, text: String::new() }
    }

    /// An equal token.
    pub fn duplicate(&self) -> (r: Token)
        ensures
            r == *self,
    {
        Token { kind: self.kind, text: self.text.clone() }
    }
}

/// An internal green node: its kind, its children and its total width.
#[derive(Debug, Hash, PartialEq, Eq)]
pub struct GreenInternalNode {
    pub kind: SyntaxKind,
    pub children: Vec<GreenId>,
    pub width: u32,
}

/// A green node: position-independent content of the tree.
#[derive(Debug, Hash, PartialEq, Eq)]
pub enum GreenNode {
    Internal(GreenInternalNode),
    Token(Token),
}

impl GreenNode {
    /// The width of the text that the node covers.
    pub open spec fn spec_width(&self) -> u32 {
        match self {
            GreenNode::Internal(internal) => internal.width,
            GreenNode::Token(token) => token.spec_width(),
        }
    }

    /// The width of the text that the node covers.
    pub fn width(&self) -> (r: u32)
        ensures
            r == self.spec_width(),
    {
        match self {
            GreenNode::Internal(internal) => internal.width,
            GreenNode::Token(token) => token.width(),
        }
    }
}

/// The store of green nodes, each under the identifier it was given.
#[derive(Debug)]
pub struct GreenInterner {
    pub nodes: Vec<GreenNode>,
}

impl GreenInterner {
    /// Whether a node is stored under the identifier.
    pub open spec fn contains(&self, id: GreenId) -> bool {
        id.0 < self.nodes@.len()
    }

    /// The node stored under the identifier.
    pub open spec fn node(&self, id: GreenId) -> GreenNode {
        self.nodes@[id.0 as int]
    }

    /// An empty store.
    pub fn new() -> (r: GreenInterner)
        ensures
            r.nodes@.len() == 0,
    {
        GreenInterner { nodes: Vec::new() }
    }

    /// Stores a node and returns its identifier; what was stored stays.
    pub fn intern_green(&mut self, node: GreenNode) -> (id: GreenId)
        ensures
            final(self).nodes@ == old(self).nodes@.push(node),
            id.0 == old(self).nodes@.len(),
            final(self).contains(id),
            final(self).node(id) == node,
    {
        let id = GreenId(self.nodes.len());
        self.nodes.push(node);
        id
    }

    /// The node stored under an identifier.
    pub fn lookup_intern_green(&self, id: GreenId) -> (r: &GreenNode)
        requires
            self.contains(id),
        ensures
            *r == self.node(id),
    {
        &self.nodes[id.0]
    }
}

/// The joint width of the first `n` of the given nodes.
pub open spec fn widths_before(db: GreenInterner, children: Seq<GreenId>, n: nat) -> nat
    decreases n,
{
    if n == 0 {
        0
    } else {
        widths_before(db, children, (n - 1) as nat) + db.node(children[n - 1]).spec_width() as nat
    }
}

/// A node of the tree with its position: the green node, the offset of its
/// text, and the node it hangs under.
#[derive(Debug, Hash, PartialEq, Eq)]
pub struct SyntaxNode {
    pub green: GreenId,
    pub offset: u32,
    pub parent: Option<Box<SyntaxNode>>,
}

/// What a node is: an internal node of some syntax kind, or a token.
#[derive(Debug, Hash, PartialEq, Eq)]
pub enum SyntaxNodeKind {
    Syntax(SyntaxKind),
    Token(Token),
}

impl SyntaxNode {
    /// The node's green node is stored, and so are its children.
    pub open spec fn wf(&self, db: &GreenInterner) -> bool {
        &&& db.contains(self.green)
        &&& match db.node(self.green) {
            GreenNode::Internal(internal) => forall|k: int|
                0 <= k < internal.children@.len() ==> db.contains(#[trigger] internal.children@[k]),
            GreenNode::Token(_) => true,
        }
    }

    /// The children of the node's green node; a token has none.
    pub open spec fn child_ids(&self, db: &GreenInterner) -> Seq<GreenId> {
        match db.node(self.green) {
            GreenNode::Internal(internal) => internal.children@,
            GreenNode::Token(_) => Seq::empty(),
        }
    }

    /// The `i`-th child: it starts where the children before it end.
    pub open spec fn child(&self, db: &GreenInterner, i: int) -> SyntaxNode {
        SyntaxNode {
            green: self.child_ids(db)[i],
            offset: (self.offset + widths_before(*db, self.child_ids(db), i as nat)) as u32,
            parent: Some(Box::new(*self)),
        }
    }

    /// An equal node.
    pub fn duplicate(&self) -> (r: SyntaxNode)
        ensures
            r == *self,
        decreases self,
    {
        let parent = match &self.parent {
            None => None,
            Some(p) => Some(Box::new(p.duplicate())),
        };
        SyntaxNode { green: self.green, offset: self.offset, parent }
    }

    /// The root of a tree: offset zero, no parent.
    pub fn new_root(green: GreenId) -> (r: SyntaxNode)
        ensures
            r == (SyntaxNode { green, offset: 0, parent: None }),
    {
        SyntaxNode { green, offset: 0, parent: None }
    }

    /// What the node is.
    pub fn kind(&self, db: &GreenInterner) -> (r: SyntaxNodeKind)
        requires
            db.contains(self.green),
        ensures
            r == match db.node(self.green) {
                GreenNode::Internal(internal) => SyntaxNodeKind::Syntax(internal.kind),
                GreenNode::Token(token) => SyntaxNodeKind::Token(token),
            },
    {
        match db.lookup_intern_green(self.green) {
            GreenNode::Internal(internal) => SyntaxNodeKind::Syntax(internal.kind),
            GreenNode::Token(token) => SyntaxNodeKind::Token(token.duplicate()),
        }
    }

    /// Where the node's text starts.
    pub fn offset(&self) -> (r: u32)
        ensures
            r == self.offset,
    {
        self.offset
    }

    /// The width of the node's text.
    pub fn width(&self, db: &GreenInterner) -> (r: u32)
        requires
            db.contains(self.green),
        ensures
            r == db.node(self.green).spec_width(),
    {
        db.lookup_intern_green(self.green).width()
    }

    /// The node's children in order, each with its offset and this node as
    /// its parent.
    pub fn children(&self, db: &GreenInterner) -> (r: Vec<SyntaxNode>)
        requires
            self.wf(db),
            self.offset + widths_before(*db, self.child_ids(db), self.child_ids(db).len())
                <= u32::MAX,
        ensures
            r@.len() == self.child_ids(db).len(),
            forall|i: int| 0 <= i < r@.len() ==> #[trigger] r@[i] == self.child(db, i),
    {
        let mut out: Vec<SyntaxNode> = Vec::new();
        match db.lookup_intern_green(self.green) {
            GreenNode::Internal(internal) => {
                let ghost ids = internal.children@;
                let mut offset: u32 = self.offset;
                let mut i: usize = 0;
                while i < internal.children.len()
                    invariant
                        i <= internal.children@.len(),
                        ids == internal.children@,
                        ids == self.child_ids(db),
                        forall|k: int| 0 <= k < ids.len() ==> db.contains(#[trigger] ids[k]),
                        offset == self.offset + widths_before(*db, ids, i as nat),
                        self.offset + widths_before(*db, ids, ids.len()) <= u32::MAX,
                        out@.len() == i,
                        forall|k: int| 0 <= k < i ==> #[trigger] out@[k] == self.child(db, k),
                    decreases internal.children@.len() - i,
                {
                    let c = internal.children[i];
                    assert(db.contains(ids[i as int]));
                    let width = db.lookup_intern_green(c).width();
                    proof {
                        lemma_widths_grow(*db, ids, (i + 1) as nat, ids.len());
                    }
                    out.push(
                        SyntaxNode { green: c, offset, parent: Some(Box::new(self.duplicate())) },
                    );
                    offset += width;
                    i += 1;
                }
            },
            GreenNode::Token(_) => {},
        }
        out
    }

    /// The node that this one hangs under; the root has none.
    pub fn parent(&self) -> (r: Option<SyntaxNode>)
        ensures
            r == match self.parent {
                Some(p) => Some(*p),
                None => None,
            },
    {
        match &self.parent {
            Some(p) => Some(p.duplicate()),
            None => None,
        }
    }
}

/// The joint width of a longer prefix is no smaller.
pub proof fn lemma_widths_grow(db: GreenInterner, children: Seq<GreenId>, n: nat, m: nat)
    requires
        n <= m,
    ensures
        widths_before(db, children, n) <= widths_before(db, children, m),
    decreases m,
{
    if n < m {
        lemma_widths_grow(db, children, n, (m - 1) as nat);
    }
}

/// The typed view of the tree: a type that wraps the nodes of one shape.
pub trait TypedSyntaxNode: Sized {
    /// Whether the node has the shape that the type wraps.
    spec fn accepts(db: &GreenInterner, node: &SyntaxNode) -> bool;

    /// The node that a value wraps.
    spec fn as_syntax_node(&self) -> SyntaxNode;

    /// Stores the green node that stands for an absent node of this shape.
    fn missing(db: &mut GreenInterner) -> (id: GreenId)
        ensures
            final(db).nodes@.len() == old(db).nodes@.len() + 1,
            final(db).nodes@.subrange(0, old(db).nodes@.len() as int) == old(db).nodes@,
            id.0 == old(db).nodes@.len(),
    ;

    /// Wraps a node of the right shape.
    fn from_syntax_node(db: &GreenInterner, node: SyntaxNode) -> (r: Self)
        requires
            Self::accepts(db, &node),
        ensures
            r.as_syntax_node() == node,
    ;
}

/// The typed view of a token.
#[derive(Debug, Hash, PartialEq, Eq)]
pub struct SyntaxToken {
    pub node: SyntaxNode,
}

impl SyntaxToken {
    /// The node is stored as a token.
    pub open spec fn wf(&self, db: &GreenInterner) -> bool {
        db.contains(self.node.green) && db.node(self.node.green) is Token
    }

    /// The token that the node is stored as.
    pub open spec fn token(&self, db: &GreenInterner) -> Token {
        db.node(self.node.green)->Token_0
    }

    /// Stores a token of the given kind and text.
    pub fn new_green(db: &mut GreenInterner, kind: TokenKind, text: SmolStr) -> (id: GreenId)
        ensures
            final(db).nodes@.len() == old(db).nodes@.len() + 1,
            final(db).nodes@.subrange(0, old(db).nodes@.len() as int) == old(db).nodes@,
            id.0 == old(db).nodes@.len(),
            final(db).node(id) is Token,
            final(db).node(id)->Token_0.kind == kind,
            final(db).node(id)->Token_0.text@ == smol_text(text),
    {
        let ghost before = db.nodes@;
        let id = db.intern_green(GreenNode::Token(Token { kind, text: smol_to_string(&text) }));
        assert(db.nodes@.subrange(0, before.len() as int) =~= before);
        id
    }

    /// The token itself.
    pub fn raw(&self, db: &GreenInterner) -> (r: Token)
        requires
            self.wf(db),
        ensures
            r == self.token(db),
    {
        match db.lookup_intern_green(self.node.green) {
            GreenNode::Token(token) => token.duplicate(),
            GreenNode::Internal(_) => vstd::pervasive::unreached(),
        }
    }

    /// The token's kind.
    pub fn kind(&self, db: &GreenInterner) -> (r: TokenKind)
        requires
            self.wf(db),
        ensures
            r == self.token(db).kind,
    {
        self.raw(db).kind
    }

    /// The token's text.
    pub fn text(&self, db: &GreenInterner) -> (r: SmolStr)
        requires
            self.wf(db),
        ensures
            smol_text(r) == self.token(db).text@,
    {
        smol_from_str(self.raw(db).text.as_str())
    }

    /// The width of the token's text.
    pub fn width(&self, db: &GreenInterner) -> (r: u32)
        requires
            self.wf(db),
        ensures
            r == self.token(db).spec_width(),
    {
        self.raw(db).width()
    }
}

impl TypedSyntaxNode for SyntaxToken {
    open spec fn accepts(db: &GreenInterner, node: &SyntaxNode) -> bool {
        db.contains(node.green) && db.node(node.green) is Token
    }

    open spec fn as_syntax_node(&self) -> SyntaxNode {
        self.node
    }

    fn missing(db: &mut GreenInterner) -> (id: GreenId)
        ensures
            final(db).node(id) == GreenNode::Token(
                Token { kind: TokenKind::Missing, text: final(db).node(id)->Token_0.text },
            ),
            final(db).node(id)->Token_0.text@ == Seq::<char>::empty(),
    {
        let ghost before = db.nodes@;
        let id = db.intern_green(GreenNode::Token(Token::missing()));
        assert(db.nodes@.subrange(0, before.len() as int) =~= before);
        id
    }

    fn from_syntax_node(db: &GreenInterner, node: SyntaxNode) -> (r: SyntaxToken) {
        SyntaxToken { node }
    }
}

} // verus!
