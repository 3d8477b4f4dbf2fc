//! The binding collector: a read-only walk over one pattern that
//! gathers the identifiers bound by reference (`ref` or `ref mut`),
//! in order of appearance, one entry per textual binding occurrence.
//! A name bound by reference in two alternatives of one or-pattern is
//! collected twice; the re-bindings it earns shadow one another
//! harmlessly.
//!
//! The rewriter runs it on the condition pattern of an `if let` and on
//! every `match` arm pattern, and then re-binds each collected name
//! through the erasure call at the head of the guarded branch body.

use vstd::prelude::*;
use vstd::slice::slice_subrange;
use vstd::slice::slice_index_get;
use crate::ast::Pat;
use crate::ast::PatSeg;
use crate::ast::SPat;
use crate::ast::SPatSeg;
use crate::ast::Span;
use crate::ast::view_pat;
use crate::ast::view_patsegs;

verus! {

/// One by-reference binding discovered in a pattern: the bound name and
/// the position of the binding.
#[derive(Clone, Debug, PartialEq, Eq)]
pub struct Binding {
    pub name: String,
    pub span: Span,
}

/// Ghost mirror of [`Binding`].
pub struct SBinding {
    pub name: Seq<char>,
    pub span: Span,
}

impl View for Binding {
    type V = SBinding;

    open spec fn view(&self) -> SBinding {
        SBinding { name: self.name@, span: self.span }
    }
}

/// The views of a sequence of collected bindings.
pub open spec fn bindings_view(bs: Seq<Binding>) -> Seq<SBinding> {
    bs.map_values(|b: Binding| b@)
}

/// The by-reference bindings of one pattern, in order of appearance.
pub open spec fn collected_pat(p: SPat) -> Seq<SBinding>
    decreases p,
{
    match p {
        SPat::Binding { by_ref, mutable: _, name, span, sub } => {
            let own: Seq<SBinding> = if by_ref {
                seq![SBinding { name, span }]
            } else {
                Seq::empty()
            };
            own + (match sub {
                Some(q) => collected_pat(*q),
                None => Seq::empty(),
            })
        },
        SPat::Node { segs, span: _ } => collected_patsegs(segs),
        SPat::Atom { text: _, span: _ } => Seq::empty(),
    }
}

/// The by-reference bindings of a list of pattern segments.
pub open spec fn collected_patsegs(gg: Seq<SPatSeg>) -> Seq<SBinding>
    decreases gg,
{
    if gg.len() == 0 {
        Seq::empty()
    } else {
        collected_patseg(gg[0]) + collected_patsegs(gg.drop_first())
    }
}

/// The by-reference bindings of one pattern segment.
pub open spec fn collected_patseg(g: SPatSeg) -> Seq<SBinding>
    decreases g,
{
    match g {
        SPatSeg::Text(_) => Seq::empty(),
        SPatSeg::Child(q) => collected_pat(*q),
    }
}

/// Gathers the by-reference bindings of `p`, in order of appearance,
/// without changing the pattern.
pub fn collect_refs(p: &Pat) -> (r: Vec<Binding>)
    ensures
        bindings_view(r@) == collected_pat(p@),
{
    let mut out: Vec<Binding> = Vec::new();
    collect_pat(p, &mut out);
    proof {
        assert(bindings_view(Seq::<Binding>::empty()) =~= Seq::<SBinding>::empty());
        assert(bindings_view(out@) =~= Seq::<SBinding>::empty() + collected_pat(p@));
        assert(Seq::<SBinding>::empty() + collected_pat(p@) =~= collected_pat(p@));
    }
    out
}

/// Appends the by-reference bindings of `p` to `out`.
pub fn collect_pat(p: &Pat, out: &mut Vec<Binding>)
    ensures
        bindings_view(final(out)@) == bindings_view(old(out)@) + collected_pat(p@),
    decreases *p,
{
    match p {
        Pat::Binding { by_ref, mutable: _, name, span, sub } => {
            let ghost mut mid: Seq<Binding> = out@;
            if *by_ref {
                out.push(Binding { name: name.clone(), span: *span });
                proof {
                    mid = out@;
                }
            }
            proof {
                if *by_ref {
                    assert(bindings_view(mid) =~= bindings_view(old(out)@) + seq![
                        SBinding { name: name@, span: *span },
                    ]);
                } else {
                    assert(bindings_view(mid) =~= bindings_view(old(out)@) + Seq::<
                        SBinding,
                    >::empty());
                }
            }
            match sub {
                Some(q) => {
                    collect_pat(q, out);
                },
                None => {
                    proof {
                        assert(bindings_view(out@) =~= bindings_view(mid) + Seq::<
                            SBinding,
                        >::empty());
                    }
                },
            }
            proof {
                assert(bindings_view(out@) =~= bindings_view(old(out)@) + collected_pat(p@));
            }
        },
        Pat::Node { segs, span: _ } => {
            collect_patsegs(segs.as_slice(), out);
        },
        Pat::Atom { text: _, span: _ } => {
            proof {
                assert(bindings_view(out@) =~= bindings_view(old(out)@) + collected_pat(p@));
            }
        },
    }
}

/// Appends the by-reference bindings of the segments `gg` to `out`.
fn collect_patsegs(gg: &[PatSeg], out: &mut Vec<Binding>)
    ensures
        bindings_view(final(out)@) == bindings_view(old(out)@) + collected_patsegs(
            view_patsegs(gg@),
        ),
    decreases gg@,
{
    if gg.len() == 0 {
        proof {
            assert(bindings_view(out@) =~= bindings_view(old(out)@) + collected_patsegs(
                view_patsegs(gg@),
            ));
        }
    } else {
        let g0 = slice_index_get(gg, 0);
        collect_patseg(g0, out);
        let rest = slice_subrange(gg, 1, gg.len());
        proof {
            assert(rest@ =~= gg@.drop_first());
            assert(view_patsegs(gg@) == seq![crate::ast::view_patseg(gg@[0])] + view_patsegs(
                gg@.drop_first(),
            ));
            assert(view_patsegs(gg@)[0] == crate::ast::view_patseg(gg@[0]));
            assert(view_patsegs(gg@).drop_first() =~= view_patsegs(gg@.drop_first()));
        }
        collect_patsegs(rest, out);
        proof {
            assert(bindings_view(out@) =~= bindings_view(old(out)@) + collected_patsegs(
                view_patsegs(gg@),
            ));
        }
    }
}

/// Appends the by-reference bindings of one segment to `out`.
fn collect_patseg(g: &PatSeg, out: &mut Vec<Binding>)
    ensures
        bindings_view(final(out)@) == bindings_view(old(out)@) + collected_patseg(g@),
    decreases *g,
{
    match g {
        PatSeg::Text(_) => {
            proof {
                assert(bindings_view(out@) =~= bindings_view(old(out)@) + collected_patseg(g@));
            }
        },
        PatSeg::Child(q) => {
            collect_pat(q, out);
        },
    }
}

} // verus!
