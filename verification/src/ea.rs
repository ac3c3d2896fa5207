//! The external roster: the list of paid memberships that the union keeps,
//! and the search for the entry that a membership form names.

use crate::decimal::{digits, render};
use vstd::prelude::*;
use vstd::string::*;

verus! {

/// What a roster entry holds, as plain values.
pub struct MemberView {
    pub first_name: Seq<char>,
    pub surname: Seq<char>,
    pub cid: Seq<char>,
    pub login: Seq<char>,
    pub order_no: nat,
}

/// One entry of the external roster.
#[derive(Debug, PartialEq, Eq)]
pub struct Member {
    pub first_name: String,
    pub surname: String,
    pub cid: String,
    pub login: String,
    pub order_no: usize,
}

impl View for Member {
    type V = MemberView;

    open spec fn view(&self) -> MemberView {
        MemberView {
            first_name: self.first_name@,
            surname: self.surname@,
            cid: self.cid@,
            login: self.login@,
            order_no: self.order_no as nat,
        }
    }
}

impl Clone for Member {
    fn clone(&self) -> (r: Self)
        ensures
            r == *self,
    {
        Member {
            first_name: self.first_name.clone(),
            surname: self.surname.clone(),
            cid: self.cid.clone(),
            login: self.login.clone(),
            order_no: self.order_no,
        }
    }
}

/// The entries of a roster as plain values, in order.
pub open spec fn roster_view(list: Seq<Member>) -> Seq<MemberView> {
    list.map_values(|m: Member| m@)
}

/// Whether an entry is the one that a form names: the order number as the
/// form wrote it, and the shortcode equal to the entry's login or, where the
/// entry has no login, to its CID.
pub open spec fn names_entry(entry: MemberView, order: Seq<char>, shortcode: Seq<char>) -> bool {
    &&& (entry.login.len() == 0 && entry.cid == shortcode) || entry.login == shortcode
    &&& digits(entry.order_no) == order
}

/// The position of the first entry that the form names.
pub open spec fn first_named(list: Seq<MemberView>, order: Seq<char>, shortcode: Seq<char>)
    -> Option<int>
    decreases list.len(),
{
    if list.len() == 0 {
        None
    } else if names_entry(list[0], order, shortcode) {
        Some(0)
    } else {
        match first_named(list.skip(1), order, shortcode) {
            Some(i) => Some(i + 1),
            None => None,
        }
    }
}

/// The legal name of an entry: first name, a space, surname.
pub open spec fn spec_legal_name(entry: MemberView) -> Seq<char> {
    entry.first_name + seq![' '] + entry.surname
}

/// `first_named` gives the least position of a named entry, and `None` only
/// where no entry is named.
pub proof fn lemma_first_named(list: Seq<MemberView>, order: Seq<char>, shortcode: Seq<char>)
    ensures
        match first_named(list, order, shortcode) {
            Some(i) => {
                &&& 0 <= i < list.len()
                &&& names_entry(list[i], order, shortcode)
                &&& forall|j: int| 0 <= j < i ==> !names_entry(#[trigger] list[j], order, shortcode)
            },
            None => forall|j: int|
                0 <= j < list.len() ==> !names_entry(#[trigger] list[j], order, shortcode),
        },
    decreases list.len(),
{
    if list.len() > 0 && !names_entry(list[0], order, shortcode) {
        let rest = list.skip(1);
        lemma_first_named(rest, order, shortcode);
        match first_named(rest, order, shortcode) {
            Some(i) => {
                assert forall|j: int| 0 <= j < i + 1 implies !names_entry(
                    #[trigger] list[j],
                    order,
                    shortcode,
                ) by {
                    if j > 0 {
                        assert(list[j] == rest[j - 1]);
                    }
                }
            },
            None => {
                assert forall|j: int| 0 <= j < list.len() implies !names_entry(
                    #[trigger] list[j],
                    order,
                    shortcode,
                ) by {
                    if j > 0 {
                        assert(list[j] == rest[j - 1]);
                    }
                }
            },
        }
    }
}

impl Member {
    /// Whether this entry is the one that a form names.
    pub fn names(&self, order: &String, shortcode: &String) -> (r: bool)
        ensures
            r == names_entry(self@, order@, shortcode@),
    {
        let code_fits = (self.login.as_str().is_empty() && self.cid == *shortcode) || self.login
            == *shortcode;
        code_fits && render(self.order_no as u64) == *order
    }

    /// The legal name: first name, a space, surname.
    pub fn legal_name(&self) -> (name: String)
        ensures
            name@ == spec_legal_name(self@),
    {
        proof {
            reveal_strlit(" ");
        }
        let mut name = self.first_name.clone();
        name.append(" ");
        name.append(self.surname.as_str());
        assert(" "@ =~= seq![' ']);
        name
    }
}

/// A copy of a roster.
pub fn copy_roster(list: &Vec<Member>) -> (copy: Vec<Member>)
    ensures
        copy@ == list@,
{
    let mut copy: Vec<Member> = Vec::new();
    let mut at: usize = 0;
    while at < list.len()
        invariant
            at <= list.len(),
            copy@ == list@.take(at as int),
        decreases list.len() - at,
    {
        copy.push(list[at].clone());
        assert(copy@ =~= list@.take(at + 1));
        at = at + 1;
    }
    assert(list@.take(at as int) =~= list@);
    copy
}

/// Finds the first entry of the roster that the form names.
pub fn find_member(list: &Vec<Member>, order: &String, shortcode: &String) -> (found: Option<usize>)
    ensures
        match found {
            Some(i) => i < list.len() && first_named(roster_view(list@), order@, shortcode@)
                == Some(i as int),
            None => first_named(roster_view(list@), order@, shortcode@) is None,
        },
{
    let ghost entries = roster_view(list@);
    proof {
        lemma_first_named(entries, order@, shortcode@);
    }
    let mut at: usize = 0;
    while at < list.len()
        invariant
            at <= list.len(),
            entries == roster_view(list@),
            forall|j: int| 0 <= j < at ==> !names_entry(#[trigger] entries[j], order@, shortcode@),
        decreases list.len() - at,
    {
        if list[at].names(order, shortcode) {
            proof {
                assert(entries[at as int] == list[at as int]@);
                lemma_first_named(entries, order@, shortcode@);
            }
            return Some(at);
        }
        assert(entries[at as int] == list[at as int]@);
        at = at + 1;
    }
    None
}

} // verus!
