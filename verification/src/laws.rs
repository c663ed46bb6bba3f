//! Laws of the rewriter, stated over all inputs and proved once.

use vstd::prelude::*;
use crate::errors::Error;
use crate::parser::PyFnArgsV;
use crate::ast::{AttrV, FnDeclV, RegistrationV, StmtV};
use crate::rewrite::{is_pyfn_attr, spec_find_pyfn, spec_get_pyfn, spec_rewrite};

verus! {

/// Whether a statement carries no export annotation. Statements that are
/// not function declarations never do.
pub open spec fn unannotated(s: StmtV) -> bool {
    s matches StmtV::Fn(f) ==> spec_find_pyfn(f.attrs) is None
}

/// Rewriting is the identity on any statement sequence in which no
/// function declaration carries the export annotation.
pub proof fn lemma_rewrite_identity(stmts: Seq<StmtV>)
    requires
        forall|i: int| 0 <= i < stmts.len() ==> unannotated(#[trigger] stmts[i]),
    ensures
        spec_rewrite(stmts) == Ok::<Seq<StmtV>, Error>(stmts),
    decreases stmts.len(),
{
    if stmts.len() == 0 {
        assert(stmts =~= Seq::<StmtV>::empty());
    } else {
        assert forall|i: int| 0 <= i < stmts.skip(1).len() implies unannotated(
            #[trigger] stmts.skip(1)[i],
        ) by {
            assert(stmts.skip(1)[i] == stmts[i + 1]);
        }
        lemma_rewrite_identity(stmts.skip(1));
        assert(unannotated(stmts[0]));
        assert(seq![stmts[0]] + stmts.skip(1) =~= stmts);
    }
}

/// In a statement sequence whose only export annotation sits, exactly once,
/// on the function declaration at position `i`, rewriting succeeds and
/// yields the same sequence with exactly one synthesized registration
/// statement immediately before the annotation-stripped function; every
/// other statement is unchanged and keeps its original relative order.
pub proof fn lemma_rewrite_single_annotated(
    stmts: Seq<StmtV>,
    i: int,
    args: PyFnArgsV,
    stripped: Seq<AttrV>,
)
    requires
        0 <= i < stmts.len(),
        stmts[i] is Fn,
        spec_get_pyfn(stmts[i]->Fn_0.attrs) == Ok::<Option<(PyFnArgsV, Seq<AttrV>)>, Error>(
            Some((args, stripped)),
        ),
        forall|j: int| 0 <= j < stmts.len() && j != i ==> unannotated(#[trigger] stmts[j]),
    ensures
        spec_rewrite(stmts) == Ok::<Seq<StmtV>, Error>(
            stmts.take(i) + seq![
                StmtV::Registration(
                    RegistrationV {
                        target_module: args.modname,
                        function_name: stmts[i]->Fn_0.name,
                        options: args.options,
                    },
                ),
                StmtV::Fn(FnDeclV { name: stmts[i]->Fn_0.name, attrs: stripped }),
            ] + stmts.skip(i + 1),
        ),
    decreases stmts.len(),
{
    let f = stmts[i]->Fn_0;
    let spliced = seq![
        StmtV::Registration(
            RegistrationV {
                target_module: args.modname,
                function_name: f.name,
                options: args.options,
            },
        ),
        StmtV::Fn(FnDeclV { name: f.name, attrs: stripped }),
    ];
    if i == 0 {
        assert forall|j: int| 0 <= j < stmts.skip(1).len() implies unannotated(
            #[trigger] stmts.skip(1)[j],
        ) by {
            assert(stmts.skip(1)[j] == stmts[j + 1]);
        }
        lemma_rewrite_identity(stmts.skip(1));
        assert(spec_rewrite(stmts) == Ok::<Seq<StmtV>, Error>(spliced + stmts.skip(1)));
        assert(stmts.take(0) + spliced + stmts.skip(1) =~= spliced + stmts.skip(1));
    } else {
        assert forall|j: int| 0 <= j < stmts.skip(1).len() && j != i - 1 implies unannotated(
            #[trigger] stmts.skip(1)[j],
        ) by {
            assert(stmts.skip(1)[j] == stmts[j + 1]);
        }
        assert(stmts.skip(1)[i - 1] == stmts[i]);
        lemma_rewrite_single_annotated(stmts.skip(1), i - 1, args, stripped);
        assert(unannotated(stmts[0]));
        let tail_out = stmts.skip(1).take(i - 1) + spliced + stmts.skip(1).skip(i);
        assert(spec_rewrite(stmts) == Ok::<Seq<StmtV>, Error>(seq![stmts[0]] + tail_out));
        assert(stmts.skip(1).skip(i) =~= stmts.skip(i + 1));
        assert(seq![stmts[0]] + tail_out =~= stmts.take(i) + spliced + stmts.skip(i + 1));
    }
}

/// The first export annotation of an attribute list is found whenever one
/// is present, at or before any position known to carry one.
pub proof fn lemma_find_pyfn_exists(attrs: Seq<AttrV>, k: int)
    requires
        0 <= k < attrs.len(),
        is_pyfn_attr(attrs[k]),
    ensures
        spec_find_pyfn(attrs) matches Some(i) && 0 <= i <= k,
    decreases attrs.len(),
{
    if is_pyfn_attr(attrs[0]) {
    } else {
        assert(attrs.skip(1)[k - 1] == attrs[k]);
        lemma_find_pyfn_exists(attrs.skip(1), k - 1);
    }
}

/// An attribute list in which the export annotation appears at two
/// positions always extracts to a duplicate-annotation error, whatever the
/// two annotations' arguments hold.
pub proof fn lemma_duplicate_annotation(attrs: Seq<AttrV>, i: int, j: int)
    requires
        0 <= i < j < attrs.len(),
        is_pyfn_attr(attrs[i]),
        is_pyfn_attr(attrs[j]),
    ensures
        spec_get_pyfn(attrs) matches Err(e) && e is DuplicateAnnotationError,
{
    lemma_find_pyfn_exists(attrs, i);
    let i0 = spec_find_pyfn(attrs)->Some_0;
    assert(attrs.skip(i0 + 1)[j - i0 - 1] == attrs[j]);
    lemma_find_pyfn_exists(attrs.skip(i0 + 1), j - i0 - 1);
}

} // verus!
