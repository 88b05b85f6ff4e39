//! The visitor: the extension point that a traversal calls back.
//!
//! A traversal enters every node through the visitor's entry method for the
//! node's kind. The entry method answers whether the traversal walks on into
//! the node's children.

use crate::node::{NodeKind, SyntaxNode};
use vstd::prelude::*;

verus! {

/// The answer of an entry method.
#[derive(Clone, Copy, Debug, PartialEq, Eq, Structural)]
pub enum Descent {
    /// Walk on into the node's children: the default.
    Walk,
    /// Leave the node's children out.
    Skip,
}

/// The kind whose entry method answers for a node of `kind`: the kind
/// itself, but for the receiver of a method call, which is entered as the
/// expression it is.
pub open spec fn answering(kind: NodeKind) -> NodeKind {
    if kind == NodeKind::MethodReceiver {
        NodeKind::Expr
    } else {
        kind
    }
}

/// What entering `node` gives: the answer of the entry method for the node's
/// kind, with the visitor's answers left as they were.
pub open spec fn answers<V: Visitor>(before: V, after: V, node: SyntaxNode, descent: Descent) -> bool {
    &&& descent == before.answer(answering(node.kind), node)
    &&& same_policy(before, after)
}

/// The extension point: one entry method for each kind of node. Each one
/// defaults to walking on into the node's children; an implementer overrides
/// the ones it cares about and inherits the rest.
///
/// An override runs its own logic and then answers. To have the traversal go
/// on below its node it must call the walk helper and hand on what that
/// gives, as the default does. An override that answers `Skip` instead
/// leaves the whole tree below the node out of the traversal.
///
/// What a visitor answers is fixed by its `answer`, which the traversal
/// leaves as it is: custom logic may change the visitor, not its answers.
pub trait Visitor: Sized {
    /// What this visitor answers at `node` when it is entered through the
    /// entry method for `kind`: `Walk`, unless the visitor says otherwise.
    open spec fn answer(&self, kind: NodeKind, node: SyntaxNode) -> Descent {
        Descent::Walk
    }

    /// The walk helper: hands the traversal on below `node`, entered through
    /// the entry method for `kind`, as far as this visitor lets it go. Every
    /// entry method defaults to it, and an override calls it once its own
    /// work is done.
    fn descend(&self, kind: NodeKind, node: &SyntaxNode) -> (descent: Descent)
        ensures
            descent == self.answer(kind, *node),
    ;

    /// Entered at the root of a compilation unit.
    fn visit_crate(&mut self, node: &SyntaxNode) -> (descent: Descent)
        ensures
            descent == old(self).answer(NodeKind::Crate, *node),
            forall|k: NodeKind, n: SyntaxNode| #[trigger]
                final(self).answer(k, n) == old(self).answer(k, n),
    {
        self.descend(NodeKind::Crate, node)
    }

    /// Entered at an item.
    fn visit_item(&mut self, node: &SyntaxNode) -> (descent: Descent)
        ensures
            descent == old(self).answer(NodeKind::Item, *node),
            forall|k: NodeKind, n: SyntaxNode| #[trigger]
                final(self).answer(k, n) == old(self).answer(k, n),
    {
        self.descend(NodeKind::Item, node)
    }

    /// Entered at an item of a foreign block.
    fn visit_foreign_item(&mut self, node: &SyntaxNode) -> (descent: Descent)
        ensures
            descent == old(self).answer(NodeKind::ForeignItem, *node),
            forall|k: NodeKind, n: SyntaxNode| #[trigger]
                final(self).answer(k, n) == old(self).answer(k, n),
    {
        self.descend(NodeKind::ForeignItem, node)
    }

    /// Entered at an item of a trait or an impl.
    fn visit_assoc_item(&mut self, node: &SyntaxNode) -> (descent: Descent)
        ensures
            descent == old(self).answer(NodeKind::AssocItem, *node),
            forall|k: NodeKind, n: SyntaxNode| #[trigger]
                final(self).answer(k, n) == old(self).answer(k, n),
    {
        self.descend(NodeKind::AssocItem, node)
    }

    /// Entered at a function.
    fn visit_fn(&mut self, node: &SyntaxNode) -> (descent: Descent)
        ensures
            descent == old(self).answer(NodeKind::Fn, *node),
            forall|k: NodeKind, n: SyntaxNode| #[trigger]
                final(self).answer(k, n) == old(self).answer(k, n),
    {
        self.descend(NodeKind::Fn, node)
    }

    /// Entered at the qualifiers of a function.
    fn visit_fn_header(&mut self, node: &SyntaxNode) -> (descent: Descent)
        ensures
            descent == old(self).answer(NodeKind::FnHeader, *node),
            forall|k: NodeKind, n: SyntaxNode| #[trigger]
                final(self).answer(k, n) == old(self).answer(k, n),
    {
        self.descend(NodeKind::FnHeader, node)
    }

    /// Entered at the return type of a function.
    fn visit_fn_ret_ty(&mut self, node: &SyntaxNode) -> (descent: Descent)
        ensures
            descent == old(self).answer(NodeKind::FnRetTy, *node),
            forall|k: NodeKind, n: SyntaxNode| #[trigger]
                final(self).answer(k, n) == old(self).answer(k, n),
    {
        self.descend(NodeKind::FnRetTy, node)
    }

    /// Entered at a parameter of a function.
    fn visit_param(&mut self, node: &SyntaxNode) -> (descent: Descent)
        ensures
            descent == old(self).answer(NodeKind::Param, *node),
            forall|k: NodeKind, n: SyntaxNode| #[trigger]
                final(self).answer(k, n) == old(self).answer(k, n),
    {
        self.descend(NodeKind::Param, node)
    }

    /// Entered at the generics of an item.
    fn visit_generics(&mut self, node: &SyntaxNode) -> (descent: Descent)
        ensures
            descent == old(self).answer(NodeKind::Generics, *node),
            forall|k: NodeKind, n: SyntaxNode| #[trigger]
                final(self).answer(k, n) == old(self).answer(k, n),
    {
        self.descend(NodeKind::Generics, node)
    }

    /// Entered at one generic parameter.
    fn visit_generic_param(&mut self, node: &SyntaxNode) -> (descent: Descent)
        ensures
            descent == old(self).answer(NodeKind::GenericParam, *node),
            forall|k: NodeKind, n: SyntaxNode| #[trigger]
                final(self).answer(k, n) == old(self).answer(k, n),
    {
        self.descend(NodeKind::GenericParam, node)
    }

    /// Entered at one predicate of a where clause.
    fn visit_where_predicate(&mut self, node: &SyntaxNode) -> (descent: Descent)
        ensures
            descent == old(self).answer(NodeKind::WherePredicate, *node),
            forall|k: NodeKind, n: SyntaxNode| #[trigger]
                final(self).answer(k, n) == old(self).answer(k, n),
    {
        self.descend(NodeKind::WherePredicate, node)
    }

    /// Entered at one bound of a generic parameter.
    fn visit_param_bound(&mut self, node: &SyntaxNode) -> (descent: Descent)
        ensures
            descent == old(self).answer(NodeKind::ParamBound, *node),
            forall|k: NodeKind, n: SyntaxNode| #[trigger]
                final(self).answer(k, n) == old(self).answer(k, n),
    {
        self.descend(NodeKind::ParamBound, node)
    }

    /// Entered at a trait reference with its bound lifetimes.
    fn visit_poly_trait_ref(&mut self, node: &SyntaxNode) -> (descent: Descent)
        ensures
            descent == old(self).answer(NodeKind::PolyTraitRef, *node),
            forall|k: NodeKind, n: SyntaxNode| #[trigger]
                final(self).answer(k, n) == old(self).answer(k, n),
    {
        self.descend(NodeKind::PolyTraitRef, node)
    }

    /// Entered at a trait reference.
    fn visit_trait_ref(&mut self, node: &SyntaxNode) -> (descent: Descent)
        ensures
            descent == old(self).answer(NodeKind::TraitRef, *node),
            forall|k: NodeKind, n: SyntaxNode| #[trigger]
                final(self).answer(k, n) == old(self).answer(k, n),
    {
        self.descend(NodeKind::TraitRef, node)
    }

    /// Entered at the fields of a struct or a variant.
    fn visit_variant_data(&mut self, node: &SyntaxNode) -> (descent: Descent)
        ensures
            descent == old(self).answer(NodeKind::VariantData, *node),
            forall|k: NodeKind, n: SyntaxNode| #[trigger]
                final(self).answer(k, n) == old(self).answer(k, n),
    {
        self.descend(NodeKind::VariantData, node)
    }

    /// Entered at one field definition.
    fn visit_field_def(&mut self, node: &SyntaxNode) -> (descent: Descent)
        ensures
            descent == old(self).answer(NodeKind::FieldDef, *node),
            forall|k: NodeKind, n: SyntaxNode| #[trigger]
                final(self).answer(k, n) == old(self).answer(k, n),
    {
        self.descend(NodeKind::FieldDef, node)
    }

    /// Entered at the variants of an enum.
    fn visit_enum_def(&mut self, node: &SyntaxNode) -> (descent: Descent)
        ensures
            descent == old(self).answer(NodeKind::EnumDef, *node),
            forall|k: NodeKind, n: SyntaxNode| #[trigger]
                final(self).answer(k, n) == old(self).answer(k, n),
    {
        self.descend(NodeKind::EnumDef, node)
    }

    /// Entered at one variant of an enum.
    fn visit_variant(&mut self, node: &SyntaxNode) -> (descent: Descent)
        ensures
            descent == old(self).answer(NodeKind::Variant, *node),
            forall|k: NodeKind, n: SyntaxNode| #[trigger]
                final(self).answer(k, n) == old(self).answer(k, n),
    {
        self.descend(NodeKind::Variant, node)
    }

    /// Entered at a use tree.
    fn visit_use_tree(&mut self, node: &SyntaxNode) -> (descent: Descent)
        ensures
            descent == old(self).answer(NodeKind::UseTree, *node),
            forall|k: NodeKind, n: SyntaxNode| #[trigger]
                final(self).answer(k, n) == old(self).answer(k, n),
    {
        self.descend(NodeKind::UseTree, node)
    }

    /// Entered at a block.
    fn visit_block(&mut self, node: &SyntaxNode) -> (descent: Descent)
        ensures
            descent == old(self).answer(NodeKind::Block, *node),
            forall|k: NodeKind, n: SyntaxNode| #[trigger]
                final(self).answer(k, n) == old(self).answer(k, n),
    {
        self.descend(NodeKind::Block, node)
    }

    /// Entered at a statement.
    fn visit_stmt(&mut self, node: &SyntaxNode) -> (descent: Descent)
        ensures
            descent == old(self).answer(NodeKind::Stmt, *node),
            forall|k: NodeKind, n: SyntaxNode| #[trigger]
                final(self).answer(k, n) == old(self).answer(k, n),
    {
        self.descend(NodeKind::Stmt, node)
    }

    /// Entered at a let binding.
    fn visit_local(&mut self, node: &SyntaxNode) -> (descent: Descent)
        ensures
            descent == old(self).answer(NodeKind::Local, *node),
            forall|k: NodeKind, n: SyntaxNode| #[trigger]
                final(self).answer(k, n) == old(self).answer(k, n),
    {
        self.descend(NodeKind::Local, node)
    }

    /// Entered at an expression.
    fn visit_expr(&mut self, node: &SyntaxNode) -> (descent: Descent)
        ensures
            descent == old(self).answer(NodeKind::Expr, *node),
            forall|k: NodeKind, n: SyntaxNode| #[trigger]
                final(self).answer(k, n) == old(self).answer(k, n),
    {
        self.descend(NodeKind::Expr, node)
    }

    /// Entered at the receiver of a method call. It stands beside `visit_expr`
    /// only so that receivers can be told apart where that is needed: it
    /// hands the node to `visit_expr` and answers what that answers.
    fn visit_method_receiver_expr(&mut self, node: &SyntaxNode) -> (descent: Descent)
        ensures
            descent == old(self).answer(NodeKind::Expr, *node),
            forall|k: NodeKind, n: SyntaxNode| #[trigger]
                final(self).answer(k, n) == old(self).answer(k, n),
    {
        self.visit_expr(node)
    }

    /// Entered at one field of a struct expression.
    fn visit_expr_field(&mut self, node: &SyntaxNode) -> (descent: Descent)
        ensures
            descent == old(self).answer(NodeKind::ExprField, *node),
            forall|k: NodeKind, n: SyntaxNode| #[trigger]
                final(self).answer(k, n) == old(self).answer(k, n),
    {
        self.descend(NodeKind::ExprField, node)
    }

    /// Entered at one arm of a match.
    fn visit_arm(&mut self, node: &SyntaxNode) -> (descent: Descent)
        ensures
            descent == old(self).answer(NodeKind::Arm, *node),
            forall|k: NodeKind, n: SyntaxNode| #[trigger]
                final(self).answer(k, n) == old(self).answer(k, n),
    {
        self.descend(NodeKind::Arm, node)
    }

    /// Entered at the binder of a closure.
    fn visit_closure_binder(&mut self, node: &SyntaxNode) -> (descent: Descent)
        ensures
            descent == old(self).answer(NodeKind::ClosureBinder, *node),
            forall|k: NodeKind, n: SyntaxNode| #[trigger]
                final(self).answer(k, n) == old(self).answer(k, n),
    {
        self.descend(NodeKind::ClosureBinder, node)
    }

    /// Entered at the capture mode of a closure.
    fn visit_capture_by(&mut self, node: &SyntaxNode) -> (descent: Descent)
        ensures
            descent == old(self).answer(NodeKind::CaptureBy, *node),
            forall|k: NodeKind, n: SyntaxNode| #[trigger]
                final(self).answer(k, n) == old(self).answer(k, n),
    {
        self.descend(NodeKind::CaptureBy, node)
    }

    /// Entered at an anonymous constant.
    fn visit_anon_const(&mut self, node: &SyntaxNode) -> (descent: Descent)
        ensures
            descent == old(self).answer(NodeKind::AnonConst, *node),
            forall|k: NodeKind, n: SyntaxNode| #[trigger]
                final(self).answer(k, n) == old(self).answer(k, n),
    {
        self.descend(NodeKind::AnonConst, node)
    }

    /// Entered at a pattern.
    fn visit_pat(&mut self, node: &SyntaxNode) -> (descent: Descent)
        ensures
            descent == old(self).answer(NodeKind::Pat, *node),
            forall|k: NodeKind, n: SyntaxNode| #[trigger]
                final(self).answer(k, n) == old(self).answer(k, n),
    {
        self.descend(NodeKind::Pat, node)
    }

    /// Entered at one field of a struct pattern.
    fn visit_pat_field(&mut self, node: &SyntaxNode) -> (descent: Descent)
        ensures
            descent == old(self).answer(NodeKind::PatField, *node),
            forall|k: NodeKind, n: SyntaxNode| #[trigger]
                final(self).answer(k, n) == old(self).answer(k, n),
    {
        self.descend(NodeKind::PatField, node)
    }

    /// Entered at a type.
    fn visit_ty(&mut self, node: &SyntaxNode) -> (descent: Descent)
        ensures
            descent == old(self).answer(NodeKind::Ty, *node),
            forall|k: NodeKind, n: SyntaxNode| #[trigger]
                final(self).answer(k, n) == old(self).answer(k, n),
    {
        self.descend(NodeKind::Ty, node)
    }

    /// Entered at a path.
    fn visit_path(&mut self, node: &SyntaxNode) -> (descent: Descent)
        ensures
            descent == old(self).answer(NodeKind::Path, *node),
            forall|k: NodeKind, n: SyntaxNode| #[trigger]
                final(self).answer(k, n) == old(self).answer(k, n),
    {
        self.descend(NodeKind::Path, node)
    }

    /// Entered at one segment of a path.
    fn visit_path_segment(&mut self, node: &SyntaxNode) -> (descent: Descent)
        ensures
            descent == old(self).answer(NodeKind::PathSegment, *node),
            forall|k: NodeKind, n: SyntaxNode| #[trigger]
                final(self).answer(k, n) == old(self).answer(k, n),
    {
        self.descend(NodeKind::PathSegment, node)
    }

    /// Entered at the generic arguments of a path segment.
    fn visit_generic_args(&mut self, node: &SyntaxNode) -> (descent: Descent)
        ensures
            descent == old(self).answer(NodeKind::GenericArgs, *node),
            forall|k: NodeKind, n: SyntaxNode| #[trigger]
                final(self).answer(k, n) == old(self).answer(k, n),
    {
        self.descend(NodeKind::GenericArgs, node)
    }

    /// Entered at one generic argument.
    fn visit_generic_arg(&mut self, node: &SyntaxNode) -> (descent: Descent)
        ensures
            descent == old(self).answer(NodeKind::GenericArg, *node),
            forall|k: NodeKind, n: SyntaxNode| #[trigger]
                final(self).answer(k, n) == old(self).answer(k, n),
    {
        self.descend(NodeKind::GenericArg, node)
    }

    /// Entered at a constraint on an associated item.
    fn visit_assoc_constraint(&mut self, node: &SyntaxNode) -> (descent: Descent)
        ensures
            descent == old(self).answer(NodeKind::AssocConstraint, *node),
            forall|k: NodeKind, n: SyntaxNode| #[trigger]
                final(self).answer(k, n) == old(self).answer(k, n),
    {
        self.descend(NodeKind::AssocConstraint, node)
    }

    /// Entered at an attribute.
    fn visit_attribute(&mut self, node: &SyntaxNode) -> (descent: Descent)
        ensures
            descent == old(self).answer(NodeKind::Attribute, *node),
            forall|k: NodeKind, n: SyntaxNode| #[trigger]
                final(self).answer(k, n) == old(self).answer(k, n),
    {
        self.descend(NodeKind::Attribute, node)
    }

    /// Entered at a visibility.
    fn visit_vis(&mut self, node: &SyntaxNode) -> (descent: Descent)
        ensures
            descent == old(self).answer(NodeKind::Vis, *node),
            forall|k: NodeKind, n: SyntaxNode| #[trigger]
                final(self).answer(k, n) == old(self).answer(k, n),
    {
        self.descend(NodeKind::Vis, node)
    }

    /// Entered at a label.
    fn visit_label(&mut self, node: &SyntaxNode) -> (descent: Descent)
        ensures
            descent == old(self).answer(NodeKind::Label, *node),
            forall|k: NodeKind, n: SyntaxNode| #[trigger]
                final(self).answer(k, n) == old(self).answer(k, n),
    {
        self.descend(NodeKind::Label, node)
    }

    /// Entered at a lifetime.
    fn visit_lifetime(&mut self, node: &SyntaxNode) -> (descent: Descent)
        ensures
            descent == old(self).answer(NodeKind::Lifetime, *node),
            forall|k: NodeKind, n: SyntaxNode| #[trigger]
                final(self).answer(k, n) == old(self).answer(k, n),
    {
        self.descend(NodeKind::Lifetime, node)
    }

    /// Entered at a macro invocation, kept as written.
    fn visit_mac_call(&mut self, node: &SyntaxNode) -> (descent: Descent)
        ensures
            descent == old(self).answer(NodeKind::MacCall, *node),
            forall|k: NodeKind, n: SyntaxNode| #[trigger]
                final(self).answer(k, n) == old(self).answer(k, n),
    {
        self.descend(NodeKind::MacCall, node)
    }

    /// Entered at a macro definition.
    fn visit_mac_def(&mut self, node: &SyntaxNode) -> (descent: Descent)
        ensures
            descent == old(self).answer(NodeKind::MacDef, *node),
            forall|k: NodeKind, n: SyntaxNode| #[trigger]
                final(self).answer(k, n) == old(self).answer(k, n),
    {
        self.descend(NodeKind::MacDef, node)
    }

    /// Entered at an inline assembly block.
    fn visit_inline_asm(&mut self, node: &SyntaxNode) -> (descent: Descent)
        ensures
            descent == old(self).answer(NodeKind::InlineAsm, *node),
            forall|k: NodeKind, n: SyntaxNode| #[trigger]
                final(self).answer(k, n) == old(self).answer(k, n),
    {
        self.descend(NodeKind::InlineAsm, node)
    }

    /// Entered at a symbol operand of inline assembly.
    fn visit_inline_asm_sym(&mut self, node: &SyntaxNode) -> (descent: Descent)
        ensures
            descent == old(self).answer(NodeKind::InlineAsmSym, *node),
            forall|k: NodeKind, n: SyntaxNode| #[trigger]
                final(self).answer(k, n) == old(self).answer(k, n),
    {
        self.descend(NodeKind::InlineAsmSym, node)
    }

    /// Entered at a format-arguments expression.
    fn visit_format_args(&mut self, node: &SyntaxNode) -> (descent: Descent)
        ensures
            descent == old(self).answer(NodeKind::FormatArgs, *node),
            forall|k: NodeKind, n: SyntaxNode| #[trigger]
                final(self).answer(k, n) == old(self).answer(k, n),
    {
        self.descend(NodeKind::FormatArgs, node)
    }

    /// Entered at an identifier.
    fn visit_ident(&mut self, node: &SyntaxNode) -> (descent: Descent)
        ensures
            descent == old(self).answer(NodeKind::Ident, *node),
            forall|k: NodeKind, n: SyntaxNode| #[trigger]
                final(self).answer(k, n) == old(self).answer(k, n),
    {
        self.descend(NodeKind::Ident, node)
    }

    /// Entered at a literal.
    fn visit_literal(&mut self, node: &SyntaxNode) -> (descent: Descent)
        ensures
            descent == old(self).answer(NodeKind::Literal, *node),
            forall|k: NodeKind, n: SyntaxNode| #[trigger]
                final(self).answer(k, n) == old(self).answer(k, n),
    {
        self.descend(NodeKind::Literal, node)
    }
}

/// Enters `node` through the entry method for its kind.
pub fn enter<V: Visitor>(visitor: &mut V, node: &SyntaxNode) -> (descent: Descent)
    ensures
        answers(*old(visitor), *final(visitor), *node, descent),
{
    match node.kind {
        NodeKind::Crate => visitor.visit_crate(node),
        NodeKind::Item => visitor.visit_item(node),
        NodeKind::ForeignItem => visitor.visit_foreign_item(node),
        NodeKind::AssocItem => visitor.visit_assoc_item(node),
        NodeKind::Fn => visitor.visit_fn(node),
        NodeKind::FnHeader => visitor.visit_fn_header(node),
        NodeKind::FnRetTy => visitor.visit_fn_ret_ty(node),
        NodeKind::Param => visitor.visit_param(node),
        NodeKind::Generics => visitor.visit_generics(node),
        NodeKind::GenericParam => visitor.visit_generic_param(node),
        NodeKind::WherePredicate => visitor.visit_where_predicate(node),
        NodeKind::ParamBound => visitor.visit_param_bound(node),
        NodeKind::PolyTraitRef => visitor.visit_poly_trait_ref(node),
        NodeKind::TraitRef => visitor.visit_trait_ref(node),
        NodeKind::VariantData => visitor.visit_variant_data(node),
        NodeKind::FieldDef => visitor.visit_field_def(node),
        NodeKind::EnumDef => visitor.visit_enum_def(node),
        NodeKind::Variant => visitor.visit_variant(node),
        NodeKind::UseTree => visitor.visit_use_tree(node),
        NodeKind::Block => visitor.visit_block(node),
        NodeKind::Stmt => visitor.visit_stmt(node),
        NodeKind::Local => visitor.visit_local(node),
        NodeKind::Expr => visitor.visit_expr(node),
        NodeKind::MethodReceiver => visitor.visit_method_receiver_expr(node),
        NodeKind::ExprField => visitor.visit_expr_field(node),
        NodeKind::Arm => visitor.visit_arm(node),
        NodeKind::ClosureBinder => visitor.visit_closure_binder(node),
        NodeKind::CaptureBy => visitor.visit_capture_by(node),
        NodeKind::AnonConst => visitor.visit_anon_const(node),
        NodeKind::Pat => visitor.visit_pat(node),
        NodeKind::PatField => visitor.visit_pat_field(node),
        NodeKind::Ty => visitor.visit_ty(node),
        NodeKind::Path => visitor.visit_path(node),
        NodeKind::PathSegment => visitor.visit_path_segment(node),
        NodeKind::GenericArgs => visitor.visit_generic_args(node),
        NodeKind::GenericArg => visitor.visit_generic_arg(node),
        NodeKind::AssocConstraint => visitor.visit_assoc_constraint(node),
        NodeKind::Attribute => visitor.visit_attribute(node),
        NodeKind::Vis => visitor.visit_vis(node),
        NodeKind::Label => visitor.visit_label(node),
        NodeKind::Lifetime => visitor.visit_lifetime(node),
        NodeKind::MacCall => visitor.visit_mac_call(node),
        NodeKind::MacDef => visitor.visit_mac_def(node),
        NodeKind::InlineAsm => visitor.visit_inline_asm(node),
        NodeKind::InlineAsmSym => visitor.visit_inline_asm_sym(node),
        NodeKind::FormatArgs => visitor.visit_format_args(node),
        NodeKind::Ident => visitor.visit_ident(node),
        NodeKind::Literal => visitor.visit_literal(node),
    }
}

/// The two visitors answer the same everywhere.
pub open spec fn same_policy<V: Visitor>(before: V, after: V) -> bool {
    forall|k: NodeKind, n: SyntaxNode| #[trigger] after.answer(k, n) == before.answer(k, n)
}

/// Each entry method of the visitor walks on at every node.
pub open spec fn never_skips<V: Visitor>(visitor: V) -> bool {
    forall|k: NodeKind, n: SyntaxNode| #[trigger] visitor.answer(k, n) == Descent::Walk
}

} // verus!
