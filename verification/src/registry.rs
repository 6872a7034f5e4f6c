//! The registrant list: created once per distinct handle, never
//! mutated, never deleted.
use vstd::prelude::*;
use crate::text::bytes_eq;

verus! {

/// One registrant of the event.
#[derive(Clone, Debug)]
pub struct Registrant {
    pub id: u32,
    pub name: Vec<u8>,
    pub handle: Vec<u8>,
}

/// The mathematical image of a registrant.
pub struct RegistrantV {
    pub id: u32,
    pub name: Seq<u8>,
    pub handle: Seq<u8>,
}

impl View for Registrant {
    type V = RegistrantV;

    open spec fn view(&self) -> RegistrantV {
        RegistrantV { id: self.id, name: self.name@, handle: self.handle@ }
    }
}

/// Some registrant of `rs` carries exactly the handle `h`.
pub open spec fn handle_present(rs: Seq<Registrant>, h: Seq<u8>) -> bool {
    exists|i: int| 0 <= i < rs.len() && rs[i].handle@ == h
}

/// No two registrants of `rs` share a handle.
pub open spec fn handles_unique(rs: Seq<Registrant>) -> bool {
    forall|i: int, j: int| 0 <= i < j < rs.len() ==> rs[i].handle@ != rs[j].handle@
}

/// True when a registrant with exactly this handle already exists.
pub fn is_registered(rs: &Vec<Registrant>, handle: &[u8]) -> (r: bool)
    ensures
        r <==> handle_present(rs@, handle@),
{
    let mut i: usize = 0;
    while i < rs.len()
        invariant
            i <= rs@.len(),
            forall|j: int| 0 <= j < i ==> rs@[j].handle@ != handle@,
        decreases rs@.len() - i,
    {
        if bytes_eq(rs[i].handle.as_slice(), handle) {
            return true;
        }
        i = i + 1;
    }
    false
}

/// Appends a new registrant with the next sequential id, unless a
/// registrant with the same handle already exists; the list is never
/// changed in that case.
pub fn register(rs: &mut Vec<Registrant>, name: Vec<u8>, handle: Vec<u8>) -> (added: bool)
    requires
        old(rs)@.len() < u32::MAX,
    ensures
        added <==> !handle_present(old(rs)@, handle@),
        !added ==> final(rs)@ == old(rs)@,
        added ==> final(rs)@ =~= old(rs)@.push(
            (Registrant { id: (old(rs)@.len() + 1) as u32, name, handle }),
        ),
{
    if is_registered(rs, handle.as_slice()) {
        return false;
    }
    let id = rs.len() as u32 + 1;
    rs.push(Registrant { id, name, handle });
    true
}

/// Appending a registrant whose handle is not yet present keeps the
/// handles pairwise distinct.
pub proof fn lemma_register_keeps_handles_unique(rs: Seq<Registrant>, r: Registrant)
    requires
        handles_unique(rs),
        !handle_present(rs, r.handle@),
    ensures
        handles_unique(rs.push(r)),
{
    let rs2 = rs.push(r);
    assert forall|i: int, j: int| 0 <= i < j < rs2.len() implies rs2[i].handle@ != rs2[j].handle@ by {
        if j < rs.len() {
            assert(rs2[i] == rs[i] && rs2[j] == rs[j]);
        } else {
            assert(rs2[j] == r);
            assert(rs2[i] == rs[i]);
        }
    }
}

/// What one registration attempt does to the list: nothing when the
/// handle is already taken, as `register` enforces, else an append.
pub open spec fn register_step(rs: Seq<Registrant>, r: Registrant) -> Seq<Registrant> {
    if handle_present(rs, r.handle@) {
        rs
    } else {
        rs.push(r)
    }
}

/// The list after a whole sequence of registration attempts, applied
/// oldest first.
pub open spec fn register_all(rs: Seq<Registrant>, attempts: Seq<Registrant>) -> Seq<Registrant>
    decreases attempts.len(),
{
    if attempts.len() == 0 {
        rs
    } else {
        register_step(register_all(rs, attempts.drop_last()), attempts.last())
    }
}

/// For all sequences of registration attempts — the same handle among
/// them as often as it likes — at most one registrant with that handle
/// is ever persisted: the de-duplicating step keeps the handles
/// pairwise distinct throughout.
pub proof fn lemma_registration_sequence_keeps_handles_unique(
    rs: Seq<Registrant>,
    attempts: Seq<Registrant>,
)
    requires
        handles_unique(rs),
    ensures
        handles_unique(register_all(rs, attempts)),
    decreases attempts.len(),
{
    if attempts.len() > 0 {
        lemma_registration_sequence_keeps_handles_unique(rs, attempts.drop_last());
        let mid = register_all(rs, attempts.drop_last());
        let a = attempts.last();
        if !handle_present(mid, a.handle@) {
            lemma_register_keeps_handles_unique(mid, a);
        }
    }
}

} // verus!
