//! The member record itself: an immutable value object with structural
//! equality, the canonical three-key total order, and read-only accessors.

use crate::order::{lex_lt, str_cmp};
use core::cmp::Ordering;
use vstd::prelude::*;

verus! {

/// The mathematical content of a member record: each textual field as its
/// character sequence, optional fields as explicit options.
#[verifier::ext_equal]
pub struct MemberView {
    pub id: u16,
    pub membership_number: Option<Seq<char>>,
    pub first_name: Seq<char>,
    pub last_name: Seq<char>,
    pub email: Seq<char>,
    pub club: Option<Seq<char>>,
    pub confirmed: bool,
}

/// A participant imported from the external registration system.
/// Immutable once constructed: producing an updated record means
/// constructing a new value.
#[derive(Debug, Clone)]
pub struct UdaMember {
    id: u16,
    membership_number: Option<String>,
    first_name: String,
    last_name: String,
    email: String,
    club: Option<String>,
    confirmed: bool,
}

/// The character-sequence content of an optional string field.
pub open spec fn opt_view(o: Option<String>) -> Option<Seq<char>> {
    match o {
        Some(s) => Some(s@),
        None => None,
    }
}

impl View for UdaMember {
    type V = MemberView;

    closed spec fn view(&self) -> MemberView {
        MemberView {
            id: self.id,
            membership_number: opt_view(self.membership_number),
            first_name: self.first_name@,
            last_name: self.last_name@,
            email: self.email@,
            club: opt_view(self.club),
            confirmed: self.confirmed,
        }
    }
}

/// Order on optional sort keys: absence sorts before presence, and two
/// present keys compare lexicographically.
pub open spec fn opt_lex_lt(a: Option<Seq<char>>, b: Option<Seq<char>>) -> bool {
    match (a, b) {
        (None, None) => false,
        (None, Some(_)) => true,
        (Some(_), None) => false,
        (Some(x), Some(y)) => lex_lt(x, y),
    }
}

/// The canonical order on member records: ascending last name, then
/// ascending first name, then membership number with absence first.
pub open spec fn key_lt(a: MemberView, b: MemberView) -> bool {
    ||| lex_lt(a.last_name, b.last_name)
    ||| (a.last_name == b.last_name && lex_lt(a.first_name, b.first_name))
    ||| (a.last_name == b.last_name && a.first_name == b.first_name && opt_lex_lt(
        a.membership_number,
        b.membership_number,
    ))
}

/// Order-equivalence: the three sort keys agree. Weaker than structural
/// equality, which also compares `id`, `email`, `club` and `confirmed`.
pub open spec fn key_eq(a: MemberView, b: MemberView) -> bool {
    a.last_name == b.last_name && a.first_name == b.first_name && a.membership_number
        == b.membership_number
}

impl UdaMember {
    /// Builds a record from all seven fields; no validation is performed.
    pub fn new(
        id: u16,
        membership_number: Option<String>,
        first_name: String,
        last_name: String,
        email: String,
        club: Option<String>,
        confirmed: bool,
    ) -> (r: Self)
        ensures
            r@.id == id,
            r@.membership_number == opt_view(membership_number),
            r@.first_name == first_name@,
            r@.last_name == last_name@,
            r@.email == email@,
            r@.club == opt_view(club),
            r@.confirmed == confirmed,
    {
        Self { id, membership_number, first_name, last_name, email, club, confirmed }
    }

    /// Three-key comparison deciding the canonical order of two records.
    pub fn cmp(&self, other: &Self) -> (r: Ordering)
        ensures
            r == Ordering::Less <==> key_lt(self@, other@),
            r == Ordering::Equal <==> key_eq(self@, other@),
            r == Ordering::Greater <==> key_lt(other@, self@),
    {
        match str_cmp(self.last_name.as_str(), other.last_name.as_str()) {
            Ordering::Less => Ordering::Less,
            Ordering::Greater => Ordering::Greater,
            Ordering::Equal => match str_cmp(self.first_name.as_str(), other.first_name.as_str()) {
                Ordering::Less => Ordering::Less,
                Ordering::Greater => Ordering::Greater,
                Ordering::Equal => opt_str_cmp(&self.membership_number, &other.membership_number),
            },
        }
    }

    pub fn id(&self) -> (r: u16)
        ensures
            r == self@.id,
    {
        self.id
    }

    pub fn membership_number(&self) -> (r: &Option<String>)
        ensures
            opt_view(*r) == self@.membership_number,
    {
        &self.membership_number
    }

    pub fn first_name(&self) -> (r: &String)
        ensures
            r@ == self@.first_name,
    {
        &self.first_name
    }

    pub fn last_name(&self) -> (r: &String)
        ensures
            r@ == self@.last_name,
    {
        &self.last_name
    }

    pub fn email(&self) -> (r: &String)
        ensures
            r@ == self@.email,
    {
        &self.email
    }

    pub fn club(&self) -> (r: &Option<String>)
        ensures
            opt_view(*r) == self@.club,
    {
        &self.club
    }

    pub fn confirmed(&self) -> (r: bool)
        ensures
            r == self@.confirmed,
    {
        self.confirmed
    }
}

/// Structural equality of two optional string fields, over their contents.
fn opt_str_eq(a: &Option<String>, b: &Option<String>) -> (r: bool)
    ensures
        r == (opt_view(*a) == opt_view(*b)),
{
    match (a, b) {
        (None, None) => true,
        (Some(x), Some(y)) => *x == *y,
        _ => false,
    }
}

/// Three-way comparison of two optional sort keys: absence sorts first.
fn opt_str_cmp(a: &Option<String>, b: &Option<String>) -> (r: Ordering)
    ensures
        r == Ordering::Less <==> opt_lex_lt(opt_view(*a), opt_view(*b)),
        r == Ordering::Equal <==> opt_view(*a) == opt_view(*b),
        r == Ordering::Greater <==> opt_lex_lt(opt_view(*b), opt_view(*a)),
{
    match (a, b) {
        (None, None) => Ordering::Equal,
        (None, Some(_)) => Ordering::Less,
        (Some(_), None) => Ordering::Greater,
        (Some(x), Some(y)) => str_cmp(x.as_str(), y.as_str()),
    }
}

impl PartialEq for UdaMember {
    /// Structural equality: all seven fields compare equal pairwise.
    fn eq(&self, other: &Self) -> (r: bool) {
        let r = self.id == other.id && opt_str_eq(&self.membership_number, &other.membership_number)
            && self.first_name == other.first_name && self.last_name == other.last_name
            && self.email == other.email && opt_str_eq(&self.club, &other.club) && self.confirmed
            == other.confirmed;
        proof {
            if r {
                assert(self@ =~= other@);
            }
        }
        r
    }
}

impl Eq for UdaMember {
}

impl vstd::std_specs::cmp::PartialEqSpecImpl for UdaMember {
    open spec fn obeys_eq_spec() -> bool {
        true
    }

    open spec fn eq_spec(&self, other: &Self) -> bool {
        self@ == other@
    }
}

impl PartialOrd for UdaMember {
    /// The canonical order is total, so a comparison always exists.
    fn partial_cmp(&self, other: &Self) -> (r: Option<Ordering>) {
        Some(self.cmp(other))
    }
}

impl vstd::std_specs::cmp::PartialOrdSpecImpl for UdaMember {
    open spec fn obeys_partial_cmp_spec() -> bool {
        true
    }

    open spec fn partial_cmp_spec(&self, other: &Self) -> Option<Ordering> {
        if key_lt(self@, other@) {
            Some(Ordering::Less)
        } else if key_lt(other@, self@) {
            Some(Ordering::Greater)
        } else {
            Some(Ordering::Equal)
        }
    }
}

} // verus!
