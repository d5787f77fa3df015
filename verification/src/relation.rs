use vstd::prelude::*;

verus! {

/// One entry of the list of declared ptracers (`PR_SET_PTRACER`).
///
/// `tracer` is `None` when the tracee accepts any ptracer; `invalid` marks an
/// entry that was deleted and waits for the cleanup work to unlink it.
#[derive(Clone, Copy, Debug)]
pub struct Relation {
    pub tracer: Option<usize>,
    pub tracee: usize,
    pub invalid: bool,
}

/// The entry names `tracee`, or names `tracer` when one is given.
pub open spec fn del_matches(r: Relation, tracer: Option<usize>, tracee: usize) -> bool {
    r.tracee == tracee || (tracer is Some && r.tracer == tracer)
}

/// The list after deleting the relations of `tracer` and `tracee`: matching
/// entries are marked invalid, everything else is kept as it was.
pub open spec fn after_del(rs: Seq<Relation>, tracer: Option<usize>, tracee: usize) -> Seq<Relation> {
    Seq::new(
        rs.len(),
        |i: int|
            Relation {
                tracer: rs[i].tracer,
                tracee: rs[i].tracee,
                invalid: rs[i].invalid || del_matches(rs[i], tracer, tracee),
            },
    )
}

/// Some still valid entry gets invalidated by the deletion.
pub open spec fn del_marks(rs: Seq<Relation>, tracer: Option<usize>, tracee: usize) -> bool {
    exists|i: int| 0 <= i < rs.len() && !rs[i].invalid && #[trigger] del_matches(rs[i], tracer, tracee)
}

/// The index of the first valid entry at or after `i` whose tracee is `tracee`.
pub open spec fn first_relation_from(rs: Seq<Relation>, tracee: usize, i: int) -> Option<int>
    decreases rs.len() - i,
{
    if i < 0 || i >= rs.len() {
        None
    } else if !rs[i].invalid && rs[i].tracee == tracee {
        Some(i)
    } else {
        first_relation_from(rs, tracee, i + 1)
    }
}

/// The first valid entry of the list whose tracee is `tracee`.
pub open spec fn first_relation(rs: Seq<Relation>, tracee: usize) -> Option<int> {
    first_relation_from(rs, tracee, 0)
}

/// Deletes the relations of `tracee`, and of `tracer` when one is given, by
/// marking them invalid. Returns whether any entry was newly marked, in which
/// case the cleanup work has to be scheduled.
pub fn rust_yama_ptracer_del(relations: &mut Vec<Relation>, tracer: Option<usize>, tracee: usize) -> (marked: bool)
    ensures
        final(relations)@ == after_del(old(relations)@, tracer, tracee),
        marked == del_marks(old(relations)@, tracer, tracee),
{
    let ghost rs = relations@;
    let n = relations.len();
    let mut marked = false;
    let mut i: usize = 0;
    while i < n
        invariant
            n == rs.len(),
            relations@.len() == n,
            i <= n,
            forall|j: int| 0 <= j < i ==> relations@[j] == #[trigger] after_del(rs, tracer, tracee)[j],
            forall|j: int| i <= j < n ==> relations@[j] == rs[j],
            marked == exists|j: int| 0 <= j < i && !rs[j].invalid && #[trigger] del_matches(rs[j], tracer, tracee),
        decreases n - i,
    {
        let rel = relations[i];
        if !rel.invalid {
            let hit = rel.tracee == tracee || match (tracer, rel.tracer) {
                (Some(t), Some(u)) => t == u,
                _ => false,
            };
            if hit {
                relations.set(i, Relation { tracer: rel.tracer, tracee: rel.tracee, invalid: true });
                marked = true;
            }
        }
        assert(relations@[i as int] == after_del(rs, tracer, tracee)[i as int]);
        i = i + 1;
    }
    assert(relations@ =~= after_del(rs, tracer, tracee));
    marked
}

/// The index of the first valid relation whose tracee is `tracee`.
pub(crate) fn find_relation(relations: &Vec<Relation>, tracee: usize) -> (r: Option<usize>)
    ensures
        r is None ==> first_relation(relations@, tracee) is None,
        r matches Some(i) ==> first_relation(relations@, tracee) == Some(i as int) && i < relations@.len(),
{
    let n = relations.len();
    let mut i: usize = 0;
    while i < n
        invariant
            n == relations@.len(),
            i <= n,
            first_relation(relations@, tracee) == first_relation_from(relations@, tracee, i as int),
        decreases n - i,
    {
        let rel = relations[i];
        if !rel.invalid && rel.tracee == tracee {
            return Some(i);
        }
        i = i + 1;
    }
    None
}

proof fn lemma_no_valid_from(rs: Seq<Relation>, tracer: Option<usize>, tracee: usize, i: int)
    requires
        0 <= i,
    ensures
        first_relation_from(after_del(rs, tracer, tracee), tracee, i) is None,
    decreases rs.len() - i,
{
    if i < rs.len() {
        lemma_no_valid_from(rs, tracer, tracee, i + 1);
    }
}

/// Once a tracee's relations are deleted, it has no declared ptracer left.
pub proof fn lemma_del_clears_tracee(rs: Seq<Relation>, tracer: Option<usize>, tracee: usize)
    ensures
        first_relation(after_del(rs, tracer, tracee), tracee) is None,
{
    lemma_no_valid_from(rs, tracer, tracee, 0);
}

/// Deleting twice is deleting once, and the second deletion marks nothing,
/// so it schedules no cleanup.
pub proof fn lemma_del_idempotent(rs: Seq<Relation>, tracer: Option<usize>, tracee: usize)
    ensures
        after_del(after_del(rs, tracer, tracee), tracer, tracee) == after_del(rs, tracer, tracee),
        !del_marks(after_del(rs, tracer, tracee), tracer, tracee),
{
    let d = after_del(rs, tracer, tracee);
    assert(after_del(d, tracer, tracee) =~= d);
    assert forall|i: int| 0 <= i < d.len() && #[trigger] del_matches(d[i], tracer, tracee) implies d[i].invalid by {
    }
}

proof fn lemma_first_relation_from(rs: Seq<Relation>, tracee: usize, i: int)
    requires
        0 <= i,
    ensures
        first_relation_from(rs, tracee, i) matches Some(k) ==> {
            &&& i <= k < rs.len()
            &&& !rs[k].invalid
            &&& rs[k].tracee == tracee
            &&& forall|j: int| i <= j < k ==> #[trigger] rs[j].invalid || rs[j].tracee != tracee
        },
        first_relation_from(rs, tracee, i) is None ==> forall|j: int|
            i <= j < rs.len() ==> #[trigger] rs[j].invalid || rs[j].tracee != tracee,
    decreases rs.len() - i,
{
    if i < rs.len() {
        lemma_first_relation_from(rs, tracee, i + 1);
    }
}

/// The tracee's declaration is its first valid entry, and there is none
/// exactly when no valid entry names the tracee.
pub proof fn lemma_first_relation(rs: Seq<Relation>, tracee: usize)
    ensures
        first_relation(rs, tracee) matches Some(k) ==> {
            &&& 0 <= k < rs.len()
            &&& !rs[k].invalid
            &&& rs[k].tracee == tracee
            &&& forall|j: int| 0 <= j < k ==> #[trigger] rs[j].invalid || rs[j].tracee != tracee
        },
        first_relation(rs, tracee) is None <==> forall|j: int|
            0 <= j < rs.len() ==> #[trigger] rs[j].invalid || rs[j].tracee != tracee,
{
    lemma_first_relation_from(rs, tracee, 0);
    if first_relation(rs, tracee) is Some {
        let k = first_relation(rs, tracee)->0;
        assert(!rs[k].invalid && rs[k].tracee == tracee);
    }
}

/// Deletion keeps the length and both ends of every entry; it invalidates
/// every entry that names the tracee, and every entry that names the given
/// tracer, and leaves every other entry exactly as it was.
pub proof fn lemma_del_effect(rs: Seq<Relation>, tracer: Option<usize>, tracee: usize, i: int)
    requires
        0 <= i < rs.len(),
    ensures
        after_del(rs, tracer, tracee).len() == rs.len(),
        after_del(rs, tracer, tracee)[i].tracer == rs[i].tracer,
        after_del(rs, tracer, tracee)[i].tracee == rs[i].tracee,
        rs[i].tracee == tracee ==> after_del(rs, tracer, tracee)[i].invalid,
        tracer is Some && rs[i].tracer == tracer ==> after_del(rs, tracer, tracee)[i].invalid,
        rs[i].invalid ==> after_del(rs, tracer, tracee)[i].invalid,
        rs[i].tracee != tracee && (tracer is None || rs[i].tracer != tracer) ==> after_del(rs, tracer, tracee)[i] == rs[i],
{
}

/// Deletion reports a mark exactly when some valid entry names the tracee,
/// or names the tracer when one is given.
pub proof fn lemma_del_marks_exactly(rs: Seq<Relation>, tracer: Option<usize>, tracee: usize)
    ensures
        del_marks(rs, tracer, tracee) <==> exists|i: int|
            0 <= i < rs.len() && !#[trigger] rs[i].invalid && (rs[i].tracee == tracee || (tracer is Some
                && rs[i].tracer == tracer)),
{
    if del_marks(rs, tracer, tracee) {
        let i = choose|i: int| 0 <= i < rs.len() && !rs[i].invalid && #[trigger] del_matches(rs[i], tracer, tracee);
        assert(!rs[i].invalid);
    }
    if exists|i: int|
        0 <= i < rs.len() && !#[trigger] rs[i].invalid && (rs[i].tracee == tracee || (tracer is Some
            && rs[i].tracer == tracer)) {
        let i = choose|i: int|
            0 <= i < rs.len() && !#[trigger] rs[i].invalid && (rs[i].tracee == tracee || (tracer is Some
                && rs[i].tracer == tracer));
        assert(del_matches(rs[i], tracer, tracee));
    }
}

} // verus!
