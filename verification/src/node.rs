//! The node model: a closed set of syntax-tree node kinds, the tree they form,
//! and the compilation unit that roots one tree and owns its symbol table.
//!
//! Nodes are passive data. A node owns its children; identifier and literal
//! text is interned in the unit's symbol table and referred to by index, so
//! many nodes may share one symbol.

use crate::text::texts;
use vstd::prelude::*;

verus! {

/// The kinds of syntax-tree node.
#[derive(Clone, Copy, Debug, PartialEq, Eq, Structural)]
pub enum NodeKind {
    Crate,
    Item,
    ForeignItem,
    AssocItem,
    Fn,
    FnHeader,
    FnRetTy,
    Param,
    Generics,
    GenericParam,
    WherePredicate,
    ParamBound,
    PolyTraitRef,
    TraitRef,
    VariantData,
    FieldDef,
    EnumDef,
    Variant,
    UseTree,
    Block,
    Stmt,
    Local,
    Expr,
    MethodReceiver,
    ExprField,
    Arm,
    ClosureBinder,
    CaptureBy,
    AnonConst,
    Pat,
    PatField,
    Ty,
    Path,
    PathSegment,
    GenericArgs,
    GenericArg,
    AssocConstraint,
    Attribute,
    Vis,
    Label,
    Lifetime,
    MacCall,
    MacDef,
    InlineAsm,
    InlineAsmSym,
    FormatArgs,
    Ident,
    Literal,
}

impl NodeKind {
    /// The kinds that stand for shared leaf data: they name a symbol and own
    /// no children. Every other kind names no symbol.
    pub open spec fn is_symbol_leaf(self) -> bool {
        self == NodeKind::Ident || self == NodeKind::Literal
    }

    /// Whether this kind is one of the shared leaf kinds.
    pub fn names_symbol(self) -> (b: bool)
        ensures
            b == self.is_symbol_leaf(),
    {
        match self {
            NodeKind::Ident => true,
            NodeKind::Literal => true,
            _ => false,
        }
    }
}

/// One node of a syntax tree.
#[derive(Debug)]
pub struct SyntaxNode {
    /// What the node is.
    pub kind: NodeKind,
    /// The index of the node's symbol in the unit's symbol table, where the
    /// node names one.
    pub symbol: Option<u32>,
    /// The node's children, in declaration order.
    pub children: Vec<SyntaxNode>,
}

/// The number of nodes in the tree under `node`, itself included.
pub open spec fn node_count(node: SyntaxNode) -> nat
    decreases node,
{
    1 + node_count_upto(node.children@, node.children@.len() as int)
}

/// The number of nodes in the trees under `nodes[..upto]`.
pub open spec fn node_count_upto(nodes: Seq<SyntaxNode>, upto: int) -> nat
    decreases nodes, upto,
{
    if 0 < upto <= nodes.len() {
        node_count_upto(nodes, upto - 1) + node_count(nodes[upto - 1])
    } else {
        0
    }
}

/// Whether the tree under `node` has the shape the grammar fixes, for a
/// symbol table of `symbols` entries: a shared leaf names a symbol of the
/// table and has no children, and no other node names a symbol.
pub open spec fn well_formed(node: SyntaxNode, symbols: nat) -> bool
    decreases node,
{
    &&& node.kind.is_symbol_leaf() ==> node.children@.len() == 0
    &&& node.kind.is_symbol_leaf() <==> node.symbol is Some
    &&& node.symbol matches Some(id) ==> id < symbols
    &&& forall|i: int|
        0 <= i < node.children@.len() ==> well_formed(#[trigger] node.children@[i], symbols)
}

/// Decides `well_formed`.
pub fn is_well_formed(node: &SyntaxNode, symbols: usize) -> (ok: bool)
    ensures
        ok == well_formed(*node, symbols as nat),
    decreases node,
{
    let leaf = node.kind.names_symbol();
    if leaf && node.children.len() != 0 {
        return false;
    }
    match node.symbol {
        Some(id) => {
            if !leaf || id as usize >= symbols {
                return false;
            }
        },
        None => {
            if leaf {
                return false;
            }
        },
    }
    let mut i: usize = 0;
    while i < node.children.len()
        invariant
            i <= node.children.len(),
            node.kind.is_symbol_leaf() ==> node.children@.len() == 0,
            node.kind.is_symbol_leaf() <==> node.symbol is Some,
            node.symbol matches Some(id) ==> id < symbols,
            forall|j: int| 0 <= j < i ==> well_formed(#[trigger] node.children@[j], symbols as nat),
        decreases node.children.len() - i,
    {
        if !is_well_formed(&node.children[i], symbols) {
            assert(!well_formed(node.children@[i as int], symbols as nat));
            return false;
        }
        i += 1;
    }
    true
}

/// A compilation unit: the root of one syntax tree and the table of the
/// symbols its leaves name. The tree of a unit is always well formed.
#[derive(Debug)]
pub struct CompilationUnit {
    symbols: Vec<String>,
    root: SyntaxNode,
}

impl CompilationUnit {
    #[verifier::type_invariant]
    spec fn inv(self) -> bool {
        well_formed(self.root, self.symbols@.len())
    }

    /// The text of each interned symbol, by index.
    pub closed spec fn symbols(self) -> Seq<Seq<char>> {
        texts(self.symbols@)
    }

    /// The root of the unit's tree.
    pub closed spec fn root(self) -> SyntaxNode {
        self.root
    }

    /// A unit over `symbols` rooted at `root`, where the tree is well formed
    /// for that table; `None` where it is not.
    pub fn new(symbols: Vec<String>, root: SyntaxNode) -> (unit: Option<CompilationUnit>)
        ensures
            unit is Some <==> well_formed(root, symbols@.len()),
            unit matches Some(u) ==> u.root() == root && u.symbols() == texts(symbols@),
    {
        if is_well_formed(&root, symbols.len()) {
            Some(CompilationUnit { symbols, root })
        } else {
            None
        }
    }

    /// The root of the unit's tree.
    pub fn root_node(&self) -> (node: &SyntaxNode)
        ensures
            *node == self.root(),
            well_formed(*node, self.symbols().len()),
    {
        proof {
            use_type_invariant(self);
        }
        &self.root
    }

    /// The number of symbols in the unit's table.
    pub fn symbol_count(&self) -> (n: usize)
        ensures
            n == self.symbols().len(),
    {
        self.symbols.len()
    }

    /// The text of symbol `id`.
    pub fn symbol_text(&self, id: u32) -> (text: &String)
        requires
            id < self.symbols().len(),
        ensures
            text@ == self.symbols()[id as int],
    {
        &self.symbols[id as usize]
    }
}

} // verus!
