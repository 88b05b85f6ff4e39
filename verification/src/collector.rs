//! The collector: the visitor that walks a whole tree and changes nothing.

use crate::node::{CompilationUnit, NodeKind, SyntaxNode};
use crate::trace::{preorder, Visit};
use crate::visit::{Descent, Visitor};
use crate::walk::walk_crate;
use vstd::prelude::*;

verus! {

/// A visitor whose every entry method passes through to the walk. It holds no
/// state: what a traversal with it finds is in the record the traversal
/// returns.
#[derive(Clone, Copy, Debug)]
pub struct Collector;

impl Visitor for Collector {
    open spec fn answer(&self, kind: NodeKind, node: SyntaxNode) -> Descent {
        Descent::Walk
    }

    fn visit_crate(&mut self, node: &SyntaxNode) -> (descent: Descent) {
        self.descend(NodeKind::Crate, node)
    }

    fn visit_item(&mut self, node: &SyntaxNode) -> (descent: Descent) {
        self.descend(NodeKind::Item, node)
    }

    fn visit_foreign_item(&mut self, node: &SyntaxNode) -> (descent: Descent) {
        self.descend(NodeKind::ForeignItem, node)
    }

    fn visit_assoc_item(&mut self, node: &SyntaxNode) -> (descent: Descent) {
        self.descend(NodeKind::AssocItem, node)
    }

    fn visit_fn(&mut self, node: &SyntaxNode) -> (descent: Descent) {
        self.descend(NodeKind::Fn, node)
    }

    fn visit_fn_header(&mut self, node: &SyntaxNode) -> (descent: Descent) {
        self.descend(NodeKind::FnHeader, node)
    }

    fn visit_fn_ret_ty(&mut self, node: &SyntaxNode) -> (descent: Descent) {
        self.descend(NodeKind::FnRetTy, node)
    }

    fn visit_param(&mut self, node: &SyntaxNode) -> (descent: Descent) {
        self.descend(NodeKind::Param, node)
    }

    fn visit_generics(&mut self, node: &SyntaxNode) -> (descent: Descent) {
        self.descend(NodeKind::Generics, node)
    }

    fn visit_generic_param(&mut self, node: &SyntaxNode) -> (descent: Descent) {
        self.descend(NodeKind::GenericParam, node)
    }

    fn visit_where_predicate(&mut self, node: &SyntaxNode) -> (descent: Descent) {
        self.descend(NodeKind::WherePredicate, node)
    }

    fn visit_param_bound(&mut self, node: &SyntaxNode) -> (descent: Descent) {
        self.descend(NodeKind::ParamBound, node)
    }

    fn visit_poly_trait_ref(&mut self, node: &SyntaxNode) -> (descent: Descent) {
        self.descend(NodeKind::PolyTraitRef, node)
    }

    fn visit_trait_ref(&mut self, node: &SyntaxNode) -> (descent: Descent) {
        self.descend(NodeKind::TraitRef, node)
    }

    fn visit_variant_data(&mut self, node: &SyntaxNode) -> (descent: Descent) {
        self.descend(NodeKind::VariantData, node)
    }

    fn visit_field_def(&mut self, node: &SyntaxNode) -> (descent: Descent) {
        self.descend(NodeKind::FieldDef, node)
    }

    fn visit_enum_def(&mut self, node: &SyntaxNode) -> (descent: Descent) {
        self.descend(NodeKind::EnumDef, node)
    }

    fn visit_variant(&mut self, node: &SyntaxNode) -> (descent: Descent) {
        self.descend(NodeKind::Variant, node)
    }

    fn visit_use_tree(&mut self, node: &SyntaxNode) -> (descent: Descent) {
        self.descend(NodeKind::UseTree, node)
    }

    fn visit_block(&mut self, node: &SyntaxNode) -> (descent: Descent) {
        self.descend(NodeKind::Block, node)
    }

    fn visit_stmt(&mut self, node: &SyntaxNode) -> (descent: Descent) {
        self.descend(NodeKind::Stmt, node)
    }

    fn visit_local(&mut self, node: &SyntaxNode) -> (descent: Descent) {
        self.descend(NodeKind::Local, node)
    }

    fn visit_expr(&mut self, node: &SyntaxNode) -> (descent: Descent) {
        self.descend(NodeKind::Expr, node)
    }

    fn visit_method_receiver_expr(&mut self, node: &SyntaxNode) -> (descent: Descent) {
        self.visit_expr(node)
    }

    fn visit_expr_field(&mut self, node: &SyntaxNode) -> (descent: Descent) {
        self.descend(NodeKind::ExprField, node)
    }

    fn visit_arm(&mut self, node: &SyntaxNode) -> (descent: Descent) {
        self.descend(NodeKind::Arm, node)
    }

    fn visit_closure_binder(&mut self, node: &SyntaxNode) -> (descent: Descent) {
        self.descend(NodeKind::ClosureBinder, node)
    }

    fn visit_capture_by(&mut self, node: &SyntaxNode) -> (descent: Descent) {
        self.descend(NodeKind::CaptureBy, node)
    }

    fn visit_anon_const(&mut self, node: &SyntaxNode) -> (descent: Descent) {
        self.descend(NodeKind::AnonConst, node)
    }

    fn visit_pat(&mut self, node: &SyntaxNode) -> (descent: Descent) {
        self.descend(NodeKind::Pat, node)
    }

    fn visit_pat_field(&mut self, node: &SyntaxNode) -> (descent: Descent) {
        self.descend(NodeKind::PatField, node)
    }

    fn visit_ty(&mut self, node: &SyntaxNode) -> (descent: Descent) {
        self.descend(NodeKind::Ty, node)
    }

    fn visit_path(&mut self, node: &SyntaxNode) -> (descent: Descent) {
        self.descend(NodeKind::Path, node)
    }

    fn visit_path_segment(&mut self, node: &SyntaxNode) -> (descent: Descent) {
        self.descend(NodeKind::PathSegment, node)
    }

    fn visit_generic_args(&mut self, node: &SyntaxNode) -> (descent: Descent) {
        self.descend(NodeKind::GenericArgs, node)
    }

    fn visit_generic_arg(&mut self, node: &SyntaxNode) -> (descent: Descent) {
        self.descend(NodeKind::GenericArg, node)
    }

    fn visit_assoc_constraint(&mut self, node: &SyntaxNode) -> (descent: Descent) {
        self.descend(NodeKind::AssocConstraint, node)
    }

    fn visit_attribute(&mut self, node: &SyntaxNode) -> (descent: Descent) {
        self.descend(NodeKind::Attribute, node)
    }

    fn visit_vis(&mut self, node: &SyntaxNode) -> (descent: Descent) {
        self.descend(NodeKind::Vis, node)
    }

    fn visit_label(&mut self, node: &SyntaxNode) -> (descent: Descent) {
        self.descend(NodeKind::Label, node)
    }

    fn visit_lifetime(&mut self, node: &SyntaxNode) -> (descent: Descent) {
        self.descend(NodeKind::Lifetime, node)
    }

    fn visit_mac_call(&mut self, node: &SyntaxNode) -> (descent: Descent) {
        self.descend(NodeKind::MacCall, node)
    }

    fn visit_mac_def(&mut self, node: &SyntaxNode) -> (descent: Descent) {
        self.descend(NodeKind::MacDef, node)
    }

    fn visit_inline_asm(&mut self, node: &SyntaxNode) -> (descent: Descent) {
        self.descend(NodeKind::InlineAsm, node)
    }

    fn visit_inline_asm_sym(&mut self, node: &SyntaxNode) -> (descent: Descent) {
        self.descend(NodeKind::InlineAsmSym, node)
    }

    fn visit_format_args(&mut self, node: &SyntaxNode) -> (descent: Descent) {
        self.descend(NodeKind::FormatArgs, node)
    }

    fn visit_ident(&mut self, node: &SyntaxNode) -> (descent: Descent) {
        self.descend(NodeKind::Ident, node)
    }

    fn visit_literal(&mut self, node: &SyntaxNode) -> (descent: Descent) {
        self.descend(NodeKind::Literal, node)
    }

    fn descend(&self, kind: NodeKind, node: &SyntaxNode) -> (descent: Descent) {
        Descent::Walk
    }
}

impl Collector {
    /// Traverses the tree of `unit` and returns the record: every node of the
    /// tree once, in pre-order.
    pub fn collect(unit: &CompilationUnit) -> (trace: Vec<Visit>)
        ensures
            trace@ == preorder(unit.root()),
    {
        let mut collector = Collector;
        walk_crate(&mut collector, unit)
    }
}

} // verus!
