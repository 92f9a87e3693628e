//! Host config mutator: the read-merge-write-revert protocol on the
//! host-wide trust-configuration document.
//!
//! The document is a key-value file shared with the user, so the mutation
//! must be precisely reversible: `apply` merges in exactly one entry (the
//! ephemeral registry's address) and `revert` removes exactly that entry,
//! never overwriting unrelated configuration.  The document is modelled
//! here as the list-valued trust key plus every other top-level entry in
//! document order, each carried as its key and the raw serialized text of
//! its value; the unverified shell converts between this model and the
//! on-disk encoding and performs the file I/O.

use vstd::prelude::*;
use vstd::seq_lib::*;
use vstd::string::StringExecFns;
use crate::registry::registry_addr_spec;
use crate::registry::registry_addr;

verus! {

/// Mathematical model of a trust-configuration document: the trust list
/// (when its key is present) and all unrelated entries in document order.
#[verifier::ext_equal]
pub struct DocModel {
    /// The registry addresses exempt from transport security, if the key
    /// is present.
    pub regs: Option<Seq<Seq<char>>>,
    /// Every other top-level entry: key and raw value text, in order.
    pub others: Seq<(Seq<char>, Seq<char>)>,
}

/// A trust-configuration document as executable data.
pub struct TrustDoc {
    /// The trust list, if its key is present in the document.
    pub registries: Option<Vec<String>>,
    /// Every other top-level entry: key and raw value text, in order.
    pub others: Vec<(String, String)>,
}

impl View for TrustDoc {
    type V = DocModel;

    open spec fn view(&self) -> DocModel {
        DocModel {
            regs: match self.registries {
                Some(v) => Some(v.deep_view()),
                None => None,
            },
            others: self.others.deep_view(),
        }
    }
}

/// The model of an optional document; `None` stands for an absent file.
pub open spec fn opt_doc_view(doc: Option<TrustDoc>) -> Option<DocModel> {
    match doc {
        Some(d) => Some(d@),
        None => None,
    }
}

/// True of every trust entry other than the pipeline's own.
pub open spec fn keeps_entry(x: Seq<char>) -> bool {
    x != registry_addr_spec()
}

/// The trust list with every occurrence of the pipeline's entry removed;
/// all other entries are kept in their original order.
pub open spec fn remove_registry(s: Seq<Seq<char>>) -> Seq<Seq<char>> {
    s.filter(|x: Seq<char>| keeps_entry(x))
}

/// What `apply` produces: the prior document (an absent file counts as an
/// empty document), with the pipeline's entry merged into the trust list.
/// Merging is idempotent: an already-present entry is not duplicated.
pub open spec fn spec_apply(doc: Option<DocModel>) -> DocModel {
    let base = match doc {
        Some(d) => d,
        None => DocModel { regs: None, others: Seq::empty() },
    };
    let regs = match base.regs {
        None => seq![registry_addr_spec()],
        Some(s) => if s.contains(registry_addr_spec()) {
            s
        } else {
            s.push(registry_addr_spec())
        },
    };
    DocModel { regs: Some(regs), others: base.others }
}

/// What `revert` produces: the pipeline's entry removed from the trust
/// list; the list key dropped if the list becomes empty; the document
/// itself removed (`None`) if nothing else remains in it.
pub open spec fn spec_revert(d: DocModel) -> Option<DocModel> {
    let regs = match d.regs {
        None => None,
        Some(s) => {
            let kept = remove_registry(s);
            if kept.len() == 0 {
                None
            } else {
                Some(kept)
            }
        },
    };
    if regs is None && d.others.len() == 0 {
        None
    } else {
        Some(DocModel { regs, others: d.others })
    }
}

/// True when the vector holds the pipeline's registry address.
fn contains_addr(v: &Vec<String>) -> (r: bool)
    ensures
        r == v.deep_view().contains(registry_addr_spec()),
{
    let addr = registry_addr();
    let mut i: usize = 0;
    while i < v.len()
        invariant
            i <= v.len(),
            addr@ == registry_addr_spec(),
            forall|j: int| 0 <= j < i ==> v.deep_view()[j] != registry_addr_spec(),
        decreases v.len() - i,
    {
        if v[i] == addr {
            assert(v.deep_view()[i as int] == registry_addr_spec());
            return true;
        }
        i = i + 1;
    }
    assert(!v.deep_view().contains(registry_addr_spec()));
    false
}

proof fn lemma_deep_view_push(v: Vec<String>, prev: Vec<String>, x: String)
    requires
        v@ == prev@.push(x),
    ensures
        v.deep_view() == prev.deep_view().push(x@),
{
    assert(v.deep_view() =~= prev.deep_view().push(x@));
}

/// Merges the pipeline's trust entry into the document read from disk
/// (`None`: no file was present, or its content was malformed and is
/// tolerated as an empty document).  Every unrelated entry is preserved;
/// the entry is not duplicated if already present.
pub fn apply(doc: Option<TrustDoc>) -> (r: TrustDoc)
    ensures
        r@ == spec_apply(opt_doc_view(doc)),
{
    match doc {
        None => {
            let mut regs: Vec<String> = Vec::new();
            regs.push(registry_addr());
            let others: Vec<(String, String)> = Vec::new();
            proof {
                assert(regs.deep_view() =~= seq![registry_addr_spec()]);
                assert(others.deep_view() =~= Seq::<(Seq<char>, Seq<char>)>::empty());
            }
            TrustDoc { registries: Some(regs), others }
        },
        Some(d) => {
            let TrustDoc { registries, others } = d;
            let regs2: Vec<String> = match registries {
                None => {
                    let mut regs: Vec<String> = Vec::new();
                    regs.push(registry_addr());
                    proof {
                        assert(regs.deep_view() =~= seq![registry_addr_spec()]);
                    }
                    regs
                },
                Some(v) => {
                    if contains_addr(&v) {
                        v
                    } else {
                        let ghost prev = v;
                        let mut v2 = v;
                        let addr = registry_addr();
                        v2.push(addr);
                        proof {
                            lemma_deep_view_push(v2, prev, addr);
                        }
                        v2
                    }
                },
            };
            TrustDoc { registries: Some(regs2), others }
        },
    }
}

/// Removes the pipeline's trust entry from the document: exactly that
/// entry leaves the list; an emptied list has its key dropped;
/// an emptied document is removed altogether (`None`: delete the file).
pub fn revert(doc: TrustDoc) -> (r: Option<TrustDoc>)
    ensures
        opt_doc_view(r) == spec_revert(doc@),
{
    let TrustDoc { registries, others } = doc;
    let regs2: Option<Vec<String>> = match registries {
        None => None,
        Some(v) => {
            let kept = retain_foreign(&v);
            if kept.len() == 0 {
                None
            } else {
                Some(kept)
            }
        },
    };
    if regs2.is_none() && others.len() == 0 {
        proof {
            assert(others.deep_view() =~= Seq::<(Seq<char>, Seq<char>)>::empty());
        }
        None
    } else {
        Some(TrustDoc { registries: regs2, others })
    }
}

/// The trust list without the pipeline's own entry, original order kept.
fn retain_foreign(v: &Vec<String>) -> (r: Vec<String>)
    ensures
        r.deep_view() == remove_registry(v.deep_view()),
{
    let addr = registry_addr();
    let mut kept: Vec<String> = Vec::new();
    let mut i: usize = 0;
    proof {
        assert(kept.deep_view() =~= Seq::<Seq<char>>::empty());
        assert(v.deep_view().take(0) =~= Seq::<Seq<char>>::empty());
        reveal(Seq::filter);
    }
    while i < v.len()
        invariant
            i <= v.len(),
            addr@ == registry_addr_spec(),
            kept.deep_view() == remove_registry(v.deep_view().take(i as int)),
        decreases v.len() - i,
    {
        let ghost dv = v.deep_view();
        let ghost prev_kept = kept;
        let x = v[i].clone();
        proof {
            assert(x@ == dv[i as int]);
            assert(dv.take(i + 1) =~= dv.take(i as int) + seq![dv[i as int]]);
            Seq::<Seq<char>>::filter_distributes_over_add(
                dv.take(i as int),
                seq![dv[i as int]],
                |y: Seq<char>| keeps_entry(y),
            );
            reveal_with_fuel(Seq::filter, 2);
            assert(seq![dv[i as int]].drop_last() =~= Seq::<Seq<char>>::empty());
        }
        if !(x == addr) {
            kept.push(x);
            proof {
                lemma_deep_view_push(kept, prev_kept, x);
                assert(seq![dv[i as int]].filter(|y: Seq<char>| keeps_entry(y)) =~= seq![
                    dv[i as int],
                ]);
            }
        } else {
            proof {
                assert(seq![dv[i as int]].filter(|y: Seq<char>| keeps_entry(y)) =~= Seq::<
                    Seq<char>,
                >::empty());
                assert(kept.deep_view() + Seq::<Seq<char>>::empty() =~= kept.deep_view());
            }
        }
        i = i + 1;
    }
    proof {
        assert(v.deep_view().take(v.len() as int) =~= v.deep_view());
    }
    kept
}

/// A trust list in which every entry satisfies `keeps_entry` is untouched
/// by the removal.
proof fn lemma_remove_registry_all_kept(s: Seq<Seq<char>>)
    requires
        forall|i: int| 0 <= i < s.len() ==> keeps_entry(s[i]),
    ensures
        remove_registry(s) == s,
    decreases s.len(),
{
    reveal(Seq::filter);
    if s.len() > 0 {
        assert(forall|i: int| 0 <= i < s.drop_last().len() ==> keeps_entry(s.drop_last()[i]));
        lemma_remove_registry_all_kept(s.drop_last());
        assert(remove_registry(s) =~= s);
    } else {
        assert(remove_registry(s) =~= s);
    }
}

/// Law: `apply` followed immediately by `revert` restores the document
/// exactly — an absent file stays absent, and an existing document comes
/// back equal to its prior state, unrelated entries and their order
/// included.  The law asks that the pipeline's entry was not already
/// present (else the merge is idempotent and the removal would take the
/// user's own entry), that a present trust list is non-empty, and that a
/// document without the trust key is not otherwise empty (an empty list
/// or an empty document cannot be told apart from an absent one after the
/// added entry is removed again).
pub proof fn lemma_apply_then_revert(doc: Option<DocModel>)
    requires
        match doc {
            None => true,
            Some(d) => match d.regs {
                Some(s) => !s.contains(registry_addr_spec()) && s.len() > 0,
                None => d.others.len() > 0,
            },
        },
    ensures
        spec_revert(spec_apply(doc)) == doc,
{
    reveal_with_fuel(Seq::filter, 2);
    let addr = registry_addr_spec();
    let single = seq![addr];
    assert(single.drop_last() =~= Seq::<Seq<char>>::empty());
    assert(remove_registry(single) =~= Seq::<Seq<char>>::empty());
    match doc {
        None => {
            assert(spec_apply(doc).regs == Some(single));
            assert(spec_revert(spec_apply(doc)) is None);
        },
        Some(d) => {
            match d.regs {
                None => {
                    assert(spec_apply(doc).regs == Some(single));
                    assert(spec_revert(spec_apply(doc)) =~= Some(d));
                },
                Some(s) => {
                    let applied = s.push(addr);
                    assert(spec_apply(doc).regs == Some(applied));
                    assert(applied =~= s + single);
                    Seq::<Seq<char>>::filter_distributes_over_add(
                        s,
                        single,
                        |y: Seq<char>| keeps_entry(y),
                    );
                    assert forall|i: int| 0 <= i < s.len() implies keeps_entry(s[i]) by {
                        if s[i] == addr {
                            assert(s.contains(addr));
                        }
                    }
                    lemma_remove_registry_all_kept(s);
                    assert(remove_registry(applied) =~= s);
                    assert(spec_revert(spec_apply(doc)) =~= Some(d));
                },
            }
        },
    }
}

/// Law: on a document whose trust list holds entries beyond the
/// pipeline's own, `revert` removes only the pipeline's entry and
/// preserves every other trust entry, and every unrelated key, in their
/// original order.
pub proof fn lemma_revert_preserves_foreign_entries(
    d: DocModel,
    before: Seq<Seq<char>>,
    after: Seq<Seq<char>>,
)
    requires
        d.regs == Some(before + seq![registry_addr_spec()] + after),
        forall|i: int| 0 <= i < before.len() ==> keeps_entry(#[trigger] before[i]),
        forall|i: int| 0 <= i < after.len() ==> keeps_entry(#[trigger] after[i]),
    ensures
        ({
            let kept = before + after;
            if kept.len() == 0 && d.others.len() == 0 {
                spec_revert(d) is None
            } else if kept.len() == 0 {
                spec_revert(d) == Some(DocModel { regs: None, others: d.others })
            } else {
                spec_revert(d) == Some(DocModel { regs: Some(kept), others: d.others })
            }
        }),
{
    reveal_with_fuel(Seq::filter, 2);
    let addr = registry_addr_spec();
    let single = seq![addr];
    let s = before + single + after;
    Seq::<Seq<char>>::filter_distributes_over_add(before + single, after, |y: Seq<char>|
        keeps_entry(y));
    Seq::<Seq<char>>::filter_distributes_over_add(before, single, |y: Seq<char>| keeps_entry(y));
    assert(single.drop_last() =~= Seq::<Seq<char>>::empty());
    assert(remove_registry(single) =~= Seq::<Seq<char>>::empty());
    lemma_remove_registry_all_kept(before);
    lemma_remove_registry_all_kept(after);
    assert(remove_registry(s) =~= before + after);
    if (before + after).len() > 0 {
        assert(spec_revert(d) =~= Some(DocModel { regs: Some(before + after), others: d.others }));
    }
}

} // verus!
