//! The laws the record type obeys: structural equality is an equivalence,
//! the three-key order is a strict total order, and order-equivalence is
//! strictly weaker than structural equality.

use crate::member::{key_eq, key_lt, opt_lex_lt, MemberView};
use crate::order::{lemma_lex_lt_transitive, lemma_lex_lt_trichotomy, lex_lt};
use vstd::prelude::*;

verus! {

/// Structural equality of records is reflexive, symmetric and transitive.
pub proof fn lemma_eq_equivalence(a: MemberView, b: MemberView, c: MemberView)
    ensures
        a == a,
        a == b ==> b == a,
        a == b && b == c ==> a == c,
{
}

/// For any two records exactly one of `key_lt(a, b)`, `key_eq(a, b)`,
/// `key_lt(b, a)` holds: the canonical order is total and strict, with
/// order-equivalence as its associated equivalence.
pub proof fn lemma_order_trichotomy(a: MemberView, b: MemberView)
    ensures
        key_lt(a, b) || key_eq(a, b) || key_lt(b, a),
        key_lt(a, b) ==> !key_eq(a, b) && !key_lt(b, a),
        key_eq(a, b) ==> !key_lt(a, b) && !key_lt(b, a),
{
    lemma_lex_lt_trichotomy(a.last_name, b.last_name);
    lemma_lex_lt_trichotomy(a.first_name, b.first_name);
    match (a.membership_number, b.membership_number) {
        (Some(x), Some(y)) => lemma_lex_lt_trichotomy(x, y),
        _ => (),
    }
}

/// Order on optional sort keys is transitive.
proof fn lemma_opt_lex_lt_transitive(
    a: Option<Seq<char>>,
    b: Option<Seq<char>>,
    c: Option<Seq<char>>,
)
    requires
        opt_lex_lt(a, b),
        opt_lex_lt(b, c),
    ensures
        opt_lex_lt(a, c),
{
    match (a, b, c) {
        (Some(x), Some(y), Some(z)) => lemma_lex_lt_transitive(x, y, z),
        _ => (),
    }
}

/// The canonical order is transitive.
pub proof fn lemma_order_transitive(a: MemberView, b: MemberView, c: MemberView)
    requires
        key_lt(a, b),
        key_lt(b, c),
    ensures
        key_lt(a, c),
{
    if lex_lt(a.last_name, b.last_name) && lex_lt(b.last_name, c.last_name) {
        lemma_lex_lt_transitive(a.last_name, b.last_name, c.last_name);
    } else if a.last_name == b.last_name && b.last_name == c.last_name {
        if lex_lt(a.first_name, b.first_name) && lex_lt(b.first_name, c.first_name) {
            lemma_lex_lt_transitive(a.first_name, b.first_name, c.first_name);
        } else if a.first_name == b.first_name && b.first_name == c.first_name {
            lemma_opt_lex_lt_transitive(
                a.membership_number,
                b.membership_number,
                c.membership_number,
            );
        }
    }
}

/// Order-equivalence is not structural equality: two records that agree on
/// `last_name`, `first_name` and `membership_number` are order-equivalent,
/// yet any difference in `id`, `email`, `club` or `confirmed` keeps them
/// structurally unequal.
pub proof fn lemma_order_equiv_not_equality(a: MemberView, b: MemberView)
    requires
        a.last_name == b.last_name,
        a.first_name == b.first_name,
        a.membership_number == b.membership_number,
        a.id != b.id || a.email != b.email || a.club != b.club || a.confirmed != b.confirmed,
    ensures
        key_eq(a, b),
        !key_lt(a, b) && !key_lt(b, a),
        a != b,
{
    lemma_order_trichotomy(a, b);
}

} // verus!
