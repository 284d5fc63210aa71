//! The proof record: the fifteen named texts of a proof, read from the
//! members of a JSON object.

use vstd::prelude::*;
use crate::json::{members_view, JsonMember};
use crate::text::same_text;

verus! {

/// A proof as it travels: three wire commitments, the permutation
/// commitment, three quotient commitments, two opening elements and six
/// evaluations, each as text.
#[derive(Clone, Debug, PartialEq, Eq)]
pub struct PlonkProof {
    pub a: String,
    pub b: String,
    pub c: String,
    pub z: String,
    pub t1: String,
    pub t2: String,
    pub t3: String,
    pub wxi: String,
    pub wxiw: String,
    pub a_eval: String,
    pub b_eval: String,
    pub c_eval: String,
    pub s1_eval: String,
    pub s2_eval: String,
    pub z_omega_eval: String,
}

impl View for PlonkProof {
    type V = Seq<Seq<char>>;

    /// The fifteen texts, in the order of `field_names`.
    open spec fn view(&self) -> Seq<Seq<char>> {
        seq![
            self.a@,
            self.b@,
            self.c@,
            self.z@,
            self.t1@,
            self.t2@,
            self.t3@,
            self.wxi@,
            self.wxiw@,
            self.a_eval@,
            self.b_eval@,
            self.c_eval@,
            self.s1_eval@,
            self.s2_eval@,
            self.z_omega_eval@,
        ]
    }
}

/// The keys of a proof record, in the order of its view.
pub open spec fn field_names() -> Seq<Seq<char>> {
    seq![
        "a"@,
        "b"@,
        "c"@,
        "z"@,
        "t1"@,
        "t2"@,
        "t3"@,
        "wxi"@,
        "wxiw"@,
        "a_eval"@,
        "b_eval"@,
        "c_eval"@,
        "s1_eval"@,
        "s2_eval"@,
        "z_omega_eval"@,
    ]
}

/// The text of the first member of `members` with the key `key`, if there is
/// such a member and it is a string.
pub open spec fn lookup(members: Seq<(Seq<char>, Option<Seq<char>>)>, key: Seq<char>) -> Option<
    Seq<char>,
>
    decreases members.len(),
{
    if members.len() == 0 {
        None
    } else if members[0].0 == key {
        members[0].1
    } else {
        lookup(members.drop_first(), key)
    }
}

/// Whether `members` are a proof record: fifteen members, and under each of
/// the fifteen keys a string.
pub open spec fn is_record(members: Seq<(Seq<char>, Option<Seq<char>>)>) -> bool {
    members.len() == 15 && forall|i: int|
        0 <= i < 15 ==> (#[trigger] lookup(members, field_names()[i])).is_some()
}

/// The proof record that `members` are, if they are one.
pub open spec fn record_of(members: Seq<(Seq<char>, Option<Seq<char>>)>) -> Option<
    Seq<Seq<char>>,
> {
    if is_record(members) {
        Some(Seq::new(15, |i: int| lookup(members, field_names()[i]).unwrap()))
    } else {
        None
    }
}

/// The view of an optional proof.
pub open spec fn option_proof(candidate: Option<PlonkProof>) -> Option<Seq<Seq<char>>> {
    match candidate {
        Some(p) => Some(p@),
        None => None,
    }
}

/// The text under `key` in `members`, if the first member with that key is
/// a string.
pub fn find_text(members: &Vec<JsonMember>, key: &str) -> (r: Option<String>)
    ensures
        crate::json::option_text(r) == lookup(members_view(members@), key@),
{
    let ghost all = members_view(members@);
    let mut i: usize = 0;
    assert(all.subrange(0, all.len() as int) =~= all);
    while i < members.len()
        invariant
            i <= members@.len(),
            all == members_view(members@),
            lookup(all, key@) == lookup(all.subrange(i as int, all.len() as int), key@),
        decreases members@.len() - i,
    {
        let ghost rest = all.subrange(i as int, all.len() as int);
        assert(rest[0] == members@[i as int]@);
        assert(rest.drop_first() =~= all.subrange(i + 1, all.len() as int));
        if same_text(members[i].key.as_str(), key) {
            return members[i].text.clone();
        }
        i += 1;
    }
    None
}

impl PlonkProof {
    /// The proof record that `members` are, if they are one.
    pub fn from_members(members: &Vec<JsonMember>) -> (r: Option<PlonkProof>)
        ensures
            option_proof(r) == record_of(members_view(members@)),
    {
        if members.len() != 15 {
            return None;
        }
        let ghost all = members_view(members@);
        let a = find_text(members, "a");
        let b = find_text(members, "b");
        let c = find_text(members, "c");
        let z = find_text(members, "z");
        let t1 = find_text(members, "t1");
        let t2 = find_text(members, "t2");
        let t3 = find_text(members, "t3");
        let wxi = find_text(members, "wxi");
        let wxiw = find_text(members, "wxiw");
        let a_eval = find_text(members, "a_eval");
        let b_eval = find_text(members, "b_eval");
        let c_eval = find_text(members, "c_eval");
        let s1_eval = find_text(members, "s1_eval");
        let s2_eval = find_text(members, "s2_eval");
        let z_omega_eval = find_text(members, "z_omega_eval");
        proof {
            let names = field_names();
            assert(lookup(all, names[0]) == crate::json::option_text(a));
            assert(lookup(all, names[1]) == crate::json::option_text(b));
            assert(lookup(all, names[2]) == crate::json::option_text(c));
            assert(lookup(all, names[3]) == crate::json::option_text(z));
            assert(lookup(all, names[4]) == crate::json::option_text(t1));
            assert(lookup(all, names[5]) == crate::json::option_text(t2));
            assert(lookup(all, names[6]) == crate::json::option_text(t3));
            assert(lookup(all, names[7]) == crate::json::option_text(wxi));
            assert(lookup(all, names[8]) == crate::json::option_text(wxiw));
            assert(lookup(all, names[9]) == crate::json::option_text(a_eval));
            assert(lookup(all, names[10]) == crate::json::option_text(b_eval));
            assert(lookup(all, names[11]) == crate::json::option_text(c_eval));
            assert(lookup(all, names[12]) == crate::json::option_text(s1_eval));
            assert(lookup(all, names[13]) == crate::json::option_text(s2_eval));
            assert(lookup(all, names[14]) == crate::json::option_text(z_omega_eval));
        }
        match (a, b, c, z, t1, t2, t3, wxi, wxiw, a_eval, b_eval, c_eval, s1_eval, s2_eval, z_omega_eval) {
            (
                Some(a),
                Some(b),
                Some(c),
                Some(z),
                Some(t1),
                Some(t2),
                Some(t3),
                Some(wxi),
                Some(wxiw),
                Some(a_eval),
                Some(b_eval),
                Some(c_eval),
                Some(s1_eval),
                Some(s2_eval),
                Some(z_omega_eval),
            ) => {
                let record = PlonkProof {
                    a,
                    b,
                    c,
                    z,
                    t1,
                    t2,
                    t3,
                    wxi,
                    wxiw,
                    a_eval,
                    b_eval,
                    c_eval,
                    s1_eval,
                    s2_eval,
                    z_omega_eval,
                };
                proof {
                    assert forall|i: int| 0 <= i < 15 implies (#[trigger] lookup(
                        all,
                        field_names()[i],
                    )).is_some() by {}
                    assert(is_record(all));
                    assert(record@ =~= record_of(all).unwrap());
                }
                Some(record)
            },
            _ => {
                assert(!is_record(all));
                None
            },
        }
    }
}

} // verus!
