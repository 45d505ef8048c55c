//! A reversible, field-named encoding of member records: each record becomes
//! a list of named values, and decoding rebuilds an equal record or reports
//! exactly why it cannot.

use crate::member::{opt_view, MemberView, UdaMember};
use vstd::prelude::*;

verus! {

/// A value in the encoded representation. Optional fields encode as
/// present-with-value (`Text`) or as the explicit absence marker (`Absent`);
/// there is no implicit defaulting.
#[derive(Debug, Clone)]
pub enum EncodedValue {
    Number(u16),
    Text(String),
    Flag(bool),
    Absent,
}

/// The mathematical content of an encoded value.
pub enum ValueView {
    Number(u16),
    Text(Seq<char>),
    Flag(bool),
    Absent,
}

impl View for EncodedValue {
    type V = ValueView;

    open spec fn view(&self) -> ValueView {
        match self {
            EncodedValue::Number(n) => ValueView::Number(*n),
            EncodedValue::Text(s) => ValueView::Text(s@),
            EncodedValue::Flag(b) => ValueView::Flag(*b),
            EncodedValue::Absent => ValueView::Absent,
        }
    }
}

/// One named field of the encoded representation.
#[derive(Debug, Clone)]
pub struct EncodedField {
    pub name: String,
    pub value: EncodedValue,
}

/// The mathematical content of one encoded field.
#[verifier::ext_equal]
pub struct FieldView {
    pub name: Seq<char>,
    pub value: ValueView,
}

impl View for EncodedField {
    type V = FieldView;

    open spec fn view(&self) -> FieldView {
        FieldView { name: self.name@, value: self.value@ }
    }
}

/// The mathematical content of a whole encoded record.
pub open spec fn fields_view(fields: Vec<EncodedField>) -> Seq<FieldView> {
    fields@.map_values(|f: EncodedField| f@)
}

/// Which field of the record a decode failure concerns.
#[derive(Debug, Clone, Copy, PartialEq, Eq, Structural)]
pub enum FieldKey {
    Id,
    MembershipNumber,
    FirstName,
    LastName,
    Email,
    Club,
    Confirmed,
}

/// Why an encoded representation failed to decode: a required field is
/// missing, a field holds a value of the wrong type, or an optional field
/// holds neither a text value nor the absence marker.
#[derive(Debug, Clone, Copy, PartialEq, Eq, Structural)]
pub enum DecodeError {
    MissingField(FieldKey),
    WrongType(FieldKey),
    MalformedOptional(FieldKey),
}

/// The value under the first occurrence of `name`, if any.
pub open spec fn spec_lookup(fields: Seq<FieldView>, name: Seq<char>) -> Option<ValueView>
    decreases fields.len(),
{
    if fields.len() == 0 {
        None
    } else if fields[0].name == name {
        Some(fields[0].value)
    } else {
        spec_lookup(fields.drop_first(), name)
    }
}

/// Decoding of a required numeric field.
pub open spec fn spec_number(fields: Seq<FieldView>, name: Seq<char>, key: FieldKey) -> Result<
    u16,
    DecodeError,
> {
    match spec_lookup(fields, name) {
        None => Err(DecodeError::MissingField(key)),
        Some(ValueView::Number(n)) => Ok(n),
        Some(_) => Err(DecodeError::WrongType(key)),
    }
}

/// Decoding of a required text field.
pub open spec fn spec_req_text(fields: Seq<FieldView>, name: Seq<char>, key: FieldKey) -> Result<
    Seq<char>,
    DecodeError,
> {
    match spec_lookup(fields, name) {
        None => Err(DecodeError::MissingField(key)),
        Some(ValueView::Text(s)) => Ok(s),
        Some(_) => Err(DecodeError::WrongType(key)),
    }
}

/// Decoding of an optional text field: text means present, the absence
/// marker means absent, anything else is a malformed optional.
pub open spec fn spec_opt_text(fields: Seq<FieldView>, name: Seq<char>, key: FieldKey) -> Result<
    Option<Seq<char>>,
    DecodeError,
> {
    match spec_lookup(fields, name) {
        None => Err(DecodeError::MissingField(key)),
        Some(ValueView::Text(s)) => Ok(Some(s)),
        Some(ValueView::Absent) => Ok(None),
        Some(_) => Err(DecodeError::MalformedOptional(key)),
    }
}

/// Decoding of a required boolean field.
pub open spec fn spec_flag(fields: Seq<FieldView>, name: Seq<char>, key: FieldKey) -> Result<
    bool,
    DecodeError,
> {
    match spec_lookup(fields, name) {
        None => Err(DecodeError::MissingField(key)),
        Some(ValueView::Flag(b)) => Ok(b),
        Some(_) => Err(DecodeError::WrongType(key)),
    }
}

/// The encoded value of an optional field.
pub open spec fn spec_opt_value(o: Option<Seq<char>>) -> ValueView {
    match o {
        Some(s) => ValueView::Text(s),
        None => ValueView::Absent,
    }
}

/// The canonical encoding of a record: its seven fields, by name, in
/// declaration order.
pub open spec fn spec_encode(v: MemberView) -> Seq<FieldView> {
    seq![
        FieldView { name: "id"@, value: ValueView::Number(v.id) },
        FieldView { name: "membership_number"@, value: spec_opt_value(v.membership_number) },
        FieldView { name: "first_name"@, value: ValueView::Text(v.first_name) },
        FieldView { name: "last_name"@, value: ValueView::Text(v.last_name) },
        FieldView { name: "email"@, value: ValueView::Text(v.email) },
        FieldView { name: "club"@, value: spec_opt_value(v.club) },
        FieldView { name: "confirmed"@, value: ValueView::Flag(v.confirmed) },
    ]
}

/// What decoding an encoded representation yields: the record's content,
/// or the first failure in field declaration order.
pub open spec fn spec_decode(fields: Seq<FieldView>) -> Result<MemberView, DecodeError> {
    match spec_number(fields, "id"@, FieldKey::Id) {
        Err(e) => Err(e),
        Ok(id) => match spec_opt_text(
            fields,
            "membership_number"@,
            FieldKey::MembershipNumber,
        ) {
            Err(e) => Err(e),
            Ok(mn) => match spec_req_text(fields, "first_name"@, FieldKey::FirstName) {
                Err(e) => Err(e),
                Ok(first_name) => match spec_req_text(fields, "last_name"@, FieldKey::LastName) {
                    Err(e) => Err(e),
                    Ok(last_name) => match spec_req_text(fields, "email"@, FieldKey::Email) {
                        Err(e) => Err(e),
                        Ok(email) => match spec_opt_text(fields, "club"@, FieldKey::Club) {
                            Err(e) => Err(e),
                            Ok(club) => match spec_flag(fields, "confirmed"@, FieldKey::Confirmed) {
                                Err(e) => Err(e),
                                Ok(confirmed) => Ok(
                                    MemberView {
                                        id,
                                        membership_number: mn,
                                        first_name,
                                        last_name,
                                        email,
                                        club,
                                        confirmed,
                                    },
                                ),
                            },
                        },
                    },
                },
            },
        },
    }
}

/// Round trip: decoding the canonical encoding of any record reproduces
/// that record exactly, with every field, optional ones included, intact.
pub proof fn lemma_round_trip(v: MemberView)
    ensures
        spec_decode(spec_encode(v)) == Ok::<MemberView, DecodeError>(v),
{
    reveal_strlit("id");
    reveal_strlit("membership_number");
    reveal_strlit("first_name");
    reveal_strlit("last_name");
    reveal_strlit("email");
    reveal_strlit("club");
    reveal_strlit("confirmed");
    assert("id"@.len() == 2 && "membership_number"@.len() == 17 && "first_name"@.len() == 10
        && "last_name"@.len() == 9 && "email"@.len() == 5 && "club"@.len() == 4 && "confirmed"@.len()
        == 9);
    assert("last_name"@[0] == 'l' && "confirmed"@[0] == 'c');
    let s0 = spec_encode(v);
    let s1 = s0.drop_first();
    let s2 = s1.drop_first();
    let s3 = s2.drop_first();
    let s4 = s3.drop_first();
    let s5 = s4.drop_first();
    let s6 = s5.drop_first();
    assert(s1[0] == s0[1] && s2[0] == s0[2] && s3[0] == s0[3] && s4[0] == s0[4] && s5[0] == s0[5]
        && s6[0] == s0[6]);
    assert(spec_lookup(s0, "id"@) == Some(ValueView::Number(v.id)));
    lemma_lookup_step(s0, "membership_number"@);
    assert(spec_lookup(s0, "membership_number"@) == Some(spec_opt_value(v.membership_number)));
    lemma_lookup_step(s0, "first_name"@);
    lemma_lookup_step(s1, "first_name"@);
    assert(spec_lookup(s0, "first_name"@) == Some(ValueView::Text(v.first_name)));
    lemma_lookup_step(s0, "last_name"@);
    lemma_lookup_step(s1, "last_name"@);
    lemma_lookup_step(s2, "last_name"@);
    assert(spec_lookup(s0, "last_name"@) == Some(ValueView::Text(v.last_name)));
    lemma_lookup_step(s0, "email"@);
    lemma_lookup_step(s1, "email"@);
    lemma_lookup_step(s2, "email"@);
    lemma_lookup_step(s3, "email"@);
    assert(spec_lookup(s0, "email"@) == Some(ValueView::Text(v.email)));
    lemma_lookup_step(s0, "club"@);
    lemma_lookup_step(s1, "club"@);
    lemma_lookup_step(s2, "club"@);
    lemma_lookup_step(s3, "club"@);
    lemma_lookup_step(s4, "club"@);
    assert(spec_lookup(s0, "club"@) == Some(spec_opt_value(v.club)));
    lemma_lookup_step(s0, "confirmed"@);
    lemma_lookup_step(s1, "confirmed"@);
    lemma_lookup_step(s2, "confirmed"@);
    lemma_lookup_step(s3, "confirmed"@);
    lemma_lookup_step(s4, "confirmed"@);
    lemma_lookup_step(s5, "confirmed"@);
    assert(spec_lookup(s0, "confirmed"@) == Some(ValueView::Flag(v.confirmed)));
    match spec_decode(s0) {
        Ok(w) => {
            assert(w =~= v);
        },
        Err(_) => {
            assert(false);
        },
    }
}

/// Finding a name in the tail is finding it past a non-matching head.
proof fn lemma_lookup_step(fields: Seq<FieldView>, name: Seq<char>)
    requires
        fields.len() > 0,
        fields[0].name != name,
    ensures
        spec_lookup(fields, name) == spec_lookup(fields.drop_first(), name),
{
}

/// The value under the first occurrence of `name`, if any. Later
/// occurrences of the same name are shadowed by the first.
fn lookup<'a>(fields: &'a Vec<EncodedField>, name: &String) -> (r: Option<&'a EncodedValue>)
    ensures
        match r {
            Some(v) => spec_lookup(fields_view(*fields), name@) == Some(v@),
            None => spec_lookup(fields_view(*fields), name@) is None,
        },
{
    let n = fields.len();
    let mut i: usize = 0;
    proof {
        assert(fields_view(*fields).skip(0) =~= fields_view(*fields));
    }
    while i < n
        invariant
            i <= n,
            n == fields.len(),
            spec_lookup(fields_view(*fields), name@) == spec_lookup(
                fields_view(*fields).skip(i as int),
                name@,
            ),
        decreases n - i,
    {
        let f = &fields[i];
        proof {
            assert(fields_view(*fields).skip(i as int)[0] == f@);
        }
        if f.name == *name {
            return Some(&f.value);
        }
        proof {
            lemma_lookup_step(fields_view(*fields).skip(i as int), name@);
            assert(fields_view(*fields).skip(i as int).drop_first() =~= fields_view(
                *fields,
            ).skip(i as int + 1));
        }
        i = i + 1;
    }
    proof {
        assert(fields_view(*fields).skip(i as int).len() == 0);
    }
    None
}

/// Decoding of a required numeric field.
fn get_number(fields: &Vec<EncodedField>, name: &String, key: FieldKey) -> (r: Result<
    u16,
    DecodeError,
>)
    ensures
        r == spec_number(fields_view(*fields), name@, key),
{
    match lookup(fields, name) {
        None => Err(DecodeError::MissingField(key)),
        Some(EncodedValue::Number(n)) => Ok(*n),
        Some(_) => Err(DecodeError::WrongType(key)),
    }
}

/// Decoding of a required text field.
fn get_req_text(fields: &Vec<EncodedField>, name: &String, key: FieldKey) -> (r: Result<
    String,
    DecodeError,
>)
    ensures
        match r {
            Ok(s) => spec_req_text(fields_view(*fields), name@, key) == Ok::<_, DecodeError>(s@),
            Err(e) => spec_req_text(fields_view(*fields), name@, key) == Err::<Seq<char>, _>(e),
        },
{
    match lookup(fields, name) {
        None => Err(DecodeError::MissingField(key)),
        Some(EncodedValue::Text(s)) => Ok(s.clone()),
        Some(_) => Err(DecodeError::WrongType(key)),
    }
}

/// Decoding of an optional text field.
fn get_opt_text(fields: &Vec<EncodedField>, name: &String, key: FieldKey) -> (r: Result<
    Option<String>,
    DecodeError,
>)
    ensures
        match r {
            Ok(o) => spec_opt_text(fields_view(*fields), name@, key) == Ok::<_, DecodeError>(
                opt_view(o),
            ),
            Err(e) => spec_opt_text(fields_view(*fields), name@, key) == Err::<
                Option<Seq<char>>,
                _,
            >(e),
        },
{
    match lookup(fields, name) {
        None => Err(DecodeError::MissingField(key)),
        Some(EncodedValue::Text(s)) => Ok(Some(s.clone())),
        Some(EncodedValue::Absent) => Ok(None),
        Some(_) => Err(DecodeError::MalformedOptional(key)),
    }
}

/// Decoding of a required boolean field.
fn get_flag(fields: &Vec<EncodedField>, name: &String, key: FieldKey) -> (r: Result<
    bool,
    DecodeError,
>)
    ensures
        r == spec_flag(fields_view(*fields), name@, key),
{
    match lookup(fields, name) {
        None => Err(DecodeError::MissingField(key)),
        Some(EncodedValue::Flag(b)) => Ok(*b),
        Some(_) => Err(DecodeError::WrongType(key)),
    }
}

/// The encoded value of an optional field.
fn opt_value(o: &Option<String>) -> (r: EncodedValue)
    ensures
        r@ == spec_opt_value(opt_view(*o)),
{
    match o {
        Some(s) => EncodedValue::Text(s.clone()),
        None => EncodedValue::Absent,
    }
}

/// Encodes a record as its canonical field-named representation.
pub fn encode(m: &UdaMember) -> (r: Vec<EncodedField>)
    ensures
        fields_view(r) == spec_encode(m@),
{
    let mut out: Vec<EncodedField> = Vec::new();
    out.push(EncodedField { name: "id".to_owned(), value: EncodedValue::Number(m.id()) });
    out.push(
        EncodedField {
            name: "membership_number".to_owned(),
            value: opt_value(m.membership_number()),
        },
    );
    out.push(
        EncodedField { name: "first_name".to_owned(), value: EncodedValue::Text(m.first_name().clone()) },
    );
    out.push(
        EncodedField { name: "last_name".to_owned(), value: EncodedValue::Text(m.last_name().clone()) },
    );
    out.push(EncodedField { name: "email".to_owned(), value: EncodedValue::Text(m.email().clone()) });
    out.push(EncodedField { name: "club".to_owned(), value: opt_value(m.club()) });
    out.push(
        EncodedField { name: "confirmed".to_owned(), value: EncodedValue::Flag(m.confirmed()) },
    );
    proof {
        assert(fields_view(out) =~= spec_encode(m@));
    }
    out
}

/// Decodes a field-named representation back into a record, or reports the
/// first failure in field declaration order. Fields may come in any order;
/// the first occurrence of a name wins, and unknown names are ignored.
pub fn decode(fields: &Vec<EncodedField>) -> (r: Result<UdaMember, DecodeError>)
    ensures
        match r {
            Ok(m) => spec_decode(fields_view(*fields)) == Ok::<_, DecodeError>(m@),
            Err(e) => spec_decode(fields_view(*fields)) == Err::<MemberView, _>(e),
        },
{
    let id = match get_number(fields, &"id".to_owned(), FieldKey::Id) {
        Ok(v) => v,
        Err(e) => {
            return Err(e);
        },
    };
    let membership_number = match get_opt_text(
        fields,
        &"membership_number".to_owned(),
        FieldKey::MembershipNumber,
    ) {
        Ok(v) => v,
        Err(e) => {
            return Err(e);
        },
    };
    let first_name = match get_req_text(fields, &"first_name".to_owned(), FieldKey::FirstName) {
        Ok(v) => v,
        Err(e) => {
            return Err(e);
        },
    };
    let last_name = match get_req_text(fields, &"last_name".to_owned(), FieldKey::LastName) {
        Ok(v) => v,
        Err(e) => {
            return Err(e);
        },
    };
    let email = match get_req_text(fields, &"email".to_owned(), FieldKey::Email) {
        Ok(v) => v,
        Err(e) => {
            return Err(e);
        },
    };
    let club = match get_opt_text(fields, &"club".to_owned(), FieldKey::Club) {
        Ok(v) => v,
        Err(e) => {
            return Err(e);
        },
    };
    let confirmed = match get_flag(fields, &"confirmed".to_owned(), FieldKey::Confirmed) {
        Ok(v) => v,
        Err(e) => {
            return Err(e);
        },
    };
    let m = UdaMember::new(id, membership_number, first_name, last_name, email, club, confirmed);
    proof {
        match spec_decode(fields_view(*fields)) {
            Ok(v) => {
                assert(m@ =~= v);
            },
            Err(_) => {
                assert(false);
            },
        }
    }
    Ok(m)
}

} // verus!
