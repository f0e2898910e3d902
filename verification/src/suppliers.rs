//! The supplier payloads and the checks a creation or an update payload must
//! pass: each text field within its length bounds and a well-formed e-mail.

use vstd::prelude::*;

verus! {

#[verifier::external_type_specification]
#[verifier::external_body]
pub struct ExNaiveDateTime(chrono::NaiveDateTime);

/// A supplier as the API returns it.
pub struct SupplierResponse {
    pub id: i32,
    pub name_sup: String,
    pub email_sup: String,
    pub phone_sup: String,
    pub address_sup: String,
    pub created_at: Option<chrono::NaiveDateTime>,
    pub updated_at: Option<chrono::NaiveDateTime>,
}

/// Body of a supplier creation.
pub struct CreateSupplierRequest {
    pub name_sup: String,
    pub email_sup: String,
    pub phone_sup: String,
    pub address_sup: String,
}

/// Body of a supplier update; an absent field is left unchanged.
pub struct UpdateSupplierRequest {
    pub name_sup: Option<String>,
    pub email_sup: Option<String>,
    pub phone_sup: Option<String>,
    pub address_sup: Option<String>,
}

/// The checked fields of a supplier payload.
#[derive(Clone, Copy, Debug, PartialEq, Eq, Structural)]
pub enum SupplierField {
    NameSup,
    EmailSup,
    PhoneSup,
    AddressSup,
}

impl SupplierField {
    /// The field's name in the payload.
    pub open spec fn key(self) -> Seq<char> {
        match self {
            SupplierField::NameSup => "name_sup"@,
            SupplierField::EmailSup => "email_sup"@,
            SupplierField::PhoneSup => "phone_sup"@,
            SupplierField::AddressSup => "address_sup"@,
        }
    }

    /// The field's name in the payload.
    pub fn key_text(&self) -> (s: String)
        ensures
            s@ == self.key(),
    {
        match self {
            SupplierField::NameSup => String::from_str("name_sup"),
            SupplierField::EmailSup => String::from_str("email_sup"),
            SupplierField::PhoneSup => String::from_str("phone_sup"),
            SupplierField::AddressSup => String::from_str("address_sup"),
        }
    }
}

/// The rule a field broke.
#[derive(Clone, Copy, Debug, PartialEq, Eq, Structural)]
pub enum FieldRule {
    /// The number of characters must lie in `min..=max`.
    Length { min: u64, max: u64 },
    /// The text must be an e-mail address.
    Email,
}

/// A field that broke a rule.
#[derive(Clone, Copy, Debug, PartialEq, Eq, Structural)]
pub struct FieldError {
    pub field: SupplierField,
    pub rule: FieldRule,
}

/// Bounds on the number of characters of the name.
pub const NAME_MIN: u64 = 1;
pub const NAME_MAX: u64 = 255;
/// Bounds on the number of characters of the phone number.
pub const PHONE_MIN: u64 = 1;
pub const PHONE_MAX: u64 = 20;
/// Bounds on the number of characters of the address.
pub const ADDRESS_MIN: u64 = 1;
pub const ADDRESS_MAX: u64 = 500;

/// Whether `validator` accepts `s` as an e-mail address.
pub uninterp spec fn email_is_valid(s: Seq<char>) -> bool;

/// Calls `validator::ValidateEmail::validate_email` on a `String`. Its result
/// is named `email_is_valid` of the text; the crate's source also shows that
/// an empty text, or one without `@`, is refused. The rules it applies beyond
/// that (an HTML5 regular expression, IDNA conversion, IP literals) are not
/// stated.
#[verifier::external_body]
fn check_email(s: &String) -> (valid: bool)
    ensures
        valid == email_is_valid(s@),
        s@.len() == 0 ==> !valid,
        !s@.contains('@') ==> !valid,
{
    validator::ValidateEmail::validate_email(s)
}

/// The number of characters of `s` lies in `min..=max`.
pub open spec fn length_within(s: Seq<char>, min: u64, max: u64) -> bool {
    min <= s.len() && s.len() <= max
}

/// Calls `validator::ValidateLength::<u64>::validate_length` on a `String`
/// with a minimum and a maximum and no exact length: it counts the
/// characters of the text and accepts when the count lies in `min..=max`.
#[verifier::external_body]
fn check_length(s: &String, min: u64, max: u64) -> (valid: bool)
    ensures
        valid == length_within(s@, min, max),
{
    validator::ValidateLength::<u64>::validate_length(s, Some(min), Some(max), None)
}

/// The error a length rule gives when `s` breaks it.
pub open spec fn length_error(field: SupplierField, s: Seq<char>, min: u64, max: u64) -> Seq<
    FieldError,
> {
    if length_within(s, min, max) {
        Seq::empty()
    } else {
        seq![FieldError { field, rule: FieldRule::Length { min, max } }]
    }
}

/// The error the e-mail rule gives when `s` breaks it.
pub open spec fn email_error(s: Seq<char>) -> Seq<FieldError> {
    if email_is_valid(s) {
        Seq::empty()
    } else {
        seq![FieldError { field: SupplierField::EmailSup, rule: FieldRule::Email }]
    }
}

/// The errors of an optional field: none when it is absent.
pub open spec fn optional_errors(o: Option<String>, errors: spec_fn(Seq<char>) -> Seq<FieldError>) -> Seq<
    FieldError,
> {
    match o {
        Some(s) => errors(s@),
        None => Seq::empty(),
    }
}

impl CreateSupplierRequest {
    /// The rules the payload breaks, in field order.
    pub open spec fn errors(&self) -> Seq<FieldError> {
        length_error(SupplierField::NameSup, self.name_sup@, NAME_MIN, NAME_MAX) + email_error(
            self.email_sup@,
        ) + length_error(SupplierField::PhoneSup, self.phone_sup@, PHONE_MIN, PHONE_MAX)
            + length_error(SupplierField::AddressSup, self.address_sup@, ADDRESS_MIN, ADDRESS_MAX)
    }

    /// Checks every field: `Ok` when no rule is broken, else every broken
    /// rule in field order.
    pub fn validate(&self) -> (r: Result<(), Vec<FieldError>>)
        ensures
            r is Ok <==> self.errors().len() == 0,
            r matches Err(errors) ==> errors@ == self.errors(),
            self.email_sup@.len() == 0 || !self.email_sup@.contains('@') ==> r is Err,
    {
        let mut errors: Vec<FieldError> = Vec::new();
        if !check_length(&self.name_sup, NAME_MIN, NAME_MAX) {
            errors.push(
                FieldError {
                    field: SupplierField::NameSup,
                    rule: FieldRule::Length { min: NAME_MIN, max: NAME_MAX },
                },
            );
        }
        if !check_email(&self.email_sup) {
            errors.push(FieldError { field: SupplierField::EmailSup, rule: FieldRule::Email });
        }
        if !check_length(&self.phone_sup, PHONE_MIN, PHONE_MAX) {
            errors.push(
                FieldError {
                    field: SupplierField::PhoneSup,
                    rule: FieldRule::Length { min: PHONE_MIN, max: PHONE_MAX },
                },
            );
        }
        if !check_length(&self.address_sup, ADDRESS_MIN, ADDRESS_MAX) {
            errors.push(
                FieldError {
                    field: SupplierField::AddressSup,
                    rule: FieldRule::Length { min: ADDRESS_MIN, max: ADDRESS_MAX },
                },
            );
        }
        assert(errors@ =~= self.errors());
        if errors.len() == 0 {
            Ok(())
        } else {
            Err(errors)
        }
    }
}

impl UpdateSupplierRequest {
    /// The rules the present fields break, in field order.
    pub open spec fn errors(&self) -> Seq<FieldError> {
        optional_errors(
            self.name_sup,
            |s: Seq<char>| length_error(SupplierField::NameSup, s, NAME_MIN, NAME_MAX),
        ) + optional_errors(self.email_sup, |s: Seq<char>| email_error(s)) + optional_errors(
            self.phone_sup,
            |s: Seq<char>| length_error(SupplierField::PhoneSup, s, PHONE_MIN, PHONE_MAX),
        ) + optional_errors(
            self.address_sup,
            |s: Seq<char>| length_error(SupplierField::AddressSup, s, ADDRESS_MIN, ADDRESS_MAX),
        )
    }

    /// Checks every present field: `Ok` when no rule is broken, else every
    /// broken rule in field order.
    pub fn validate(&self) -> (r: Result<(), Vec<FieldError>>)
        ensures
            r is Ok <==> self.errors().len() == 0,
            r matches Err(errors) ==> errors@ == self.errors(),
            self.email_sup matches Some(e) && (e@.len() == 0 || !e@.contains('@')) ==> r is Err,
    {
        let mut errors: Vec<FieldError> = Vec::new();
        if let Some(name) = &self.name_sup {
            if !check_length(name, NAME_MIN, NAME_MAX) {
                errors.push(
                    FieldError {
                        field: SupplierField::NameSup,
                        rule: FieldRule::Length { min: NAME_MIN, max: NAME_MAX },
                    },
                );
            }
        }
        if let Some(email) = &self.email_sup {
            if !check_email(email) {
                errors.push(FieldError { field: SupplierField::EmailSup, rule: FieldRule::Email });
            }
        }
        if let Some(phone) = &self.phone_sup {
            if !check_length(phone, PHONE_MIN, PHONE_MAX) {
                errors.push(
                    FieldError {
                        field: SupplierField::PhoneSup,
                        rule: FieldRule::Length { min: PHONE_MIN, max: PHONE_MAX },
                    },
                );
            }
        }
        if let Some(address) = &self.address_sup {
            if !check_length(address, ADDRESS_MIN, ADDRESS_MAX) {
                errors.push(
                    FieldError {
                        field: SupplierField::AddressSup,
                        rule: FieldRule::Length { min: ADDRESS_MIN, max: ADDRESS_MAX },
                    },
                );
            }
        }
        assert(errors@ =~= self.errors());
        if errors.len() == 0 {
            Ok(())
        } else {
            Err(errors)
        }
    }
}

/// An update payload that changes nothing passes the checks.
pub proof fn law_empty_update_is_valid(r: UpdateSupplierRequest)
    requires
        r.name_sup is None,
        r.email_sup is None,
        r.phone_sup is None,
        r.address_sup is None,
    ensures
        r.errors().len() == 0,
{
}

/// A payload whose fields are all present passes the update checks exactly
/// when it passes the creation checks: the two share their rules.
pub proof fn law_update_checks_match_creation(c: CreateSupplierRequest, u: UpdateSupplierRequest)
    requires
        u.name_sup matches Some(s) && s@ == c.name_sup@,
        u.email_sup matches Some(s) && s@ == c.email_sup@,
        u.phone_sup matches Some(s) && s@ == c.phone_sup@,
        u.address_sup matches Some(s) && s@ == c.address_sup@,
    ensures
        u.errors() == c.errors(),
{
}

/// An empty name, phone number or address is refused.
pub proof fn law_empty_text_fields_are_refused(c: CreateSupplierRequest)
    requires
        c.name_sup@.len() == 0 || c.phone_sup@.len() == 0 || c.address_sup@.len() == 0,
    ensures
        c.errors().len() > 0,
{
}

/// A creation payload gets one error per broken rule and no other: the name
/// must have 1 to 255 characters, the e-mail must be accepted, the phone
/// number must have 1 to 20 characters and the address 1 to 500; the payload
/// passes exactly when every field keeps its rule.
pub proof fn law_creation_rules(c: CreateSupplierRequest)
    ensures
        c.errors().contains(FieldError { field: SupplierField::NameSup, rule: FieldRule::Length { min: 1, max: 255 } }) <==> !(1 <= c.name_sup@.len()
            <= 255),
        c.errors().contains(FieldError { field: SupplierField::EmailSup, rule: FieldRule::Email }) <==> !email_is_valid(
            c.email_sup@,
        ),
        c.errors().contains(FieldError { field: SupplierField::PhoneSup, rule: FieldRule::Length { min: 1, max: 20 } }) <==> !(1
            <= c.phone_sup@.len() <= 20),
        c.errors().contains(FieldError { field: SupplierField::AddressSup, rule: FieldRule::Length { min: 1, max: 500 } }) <==> !(1
            <= c.address_sup@.len() <= 500),
        c.errors().len() == (if 1 <= c.name_sup@.len() <= 255 { 0int } else { 1int }) + (if email_is_valid(
            c.email_sup@,
        ) { 0int } else { 1int }) + (if 1 <= c.phone_sup@.len() <= 20 { 0int } else { 1int }) + (if 1
            <= c.address_sup@.len() <= 500 { 0int } else { 1int }),
        c.errors().len() == 0 <==> (1 <= c.name_sup@.len() <= 255 && email_is_valid(c.email_sup@)
            && 1 <= c.phone_sup@.len() <= 20 && 1 <= c.address_sup@.len() <= 500),
{
    broadcast use vstd::seq_lib::group_seq_properties;

}

/// The checks of an update payload treat each field on its own: a present
/// field gets an error exactly when it breaks its rule, whatever the other
/// fields hold, and an absent field never gets one.
pub proof fn law_update_rules(u: UpdateSupplierRequest)
    ensures
        (u.name_sup matches Some(s) ==> (u.errors().contains(FieldError { field: SupplierField::NameSup, rule: FieldRule::Length { min: 1, max: 255 } })
            <==> !(1 <= s@.len() <= 255))),
        (u.email_sup matches Some(s) ==> (u.errors().contains(FieldError { field: SupplierField::EmailSup, rule: FieldRule::Email })
            <==> !email_is_valid(s@))),
        (u.phone_sup matches Some(s) ==> (u.errors().contains(FieldError { field: SupplierField::PhoneSup, rule: FieldRule::Length { min: 1, max: 20 } })
            <==> !(1 <= s@.len() <= 20))),
        (u.address_sup matches Some(s) ==> (u.errors().contains(FieldError { field: SupplierField::AddressSup, rule: FieldRule::Length { min: 1, max: 500 } })
            <==> !(1 <= s@.len() <= 500))),
        u.name_sup is None ==> !u.errors().contains(FieldError { field: SupplierField::NameSup, rule: FieldRule::Length { min: 1, max: 255 } }),
        u.email_sup is None ==> !u.errors().contains(FieldError { field: SupplierField::EmailSup, rule: FieldRule::Email }),
        u.phone_sup is None ==> !u.errors().contains(FieldError { field: SupplierField::PhoneSup, rule: FieldRule::Length { min: 1, max: 20 } }),
        u.address_sup is None ==> !u.errors().contains(FieldError { field: SupplierField::AddressSup, rule: FieldRule::Length { min: 1, max: 500 } }),
        u.errors().len() == 0 <==> ((u.name_sup matches Some(s) ==> 1 <= s@.len() <= 255) && (
        u.email_sup matches Some(s) ==> email_is_valid(s@)) && (u.phone_sup matches Some(s) ==> 1
            <= s@.len() <= 20) && (u.address_sup matches Some(s) ==> 1 <= s@.len() <= 500)),
{
    broadcast use vstd::seq_lib::group_seq_properties;

}

/// Position of a field in the payload.
pub open spec fn field_rank(f: SupplierField) -> int {
    match f {
        SupplierField::NameSup => 0,
        SupplierField::EmailSup => 1,
        SupplierField::PhoneSup => 2,
        SupplierField::AddressSup => 3,
    }
}

/// A sequence of errors lists its fields in payload order, each at most once.
pub open spec fn in_field_order(errors: Seq<FieldError>) -> bool {
    forall|i: int, j: int|
        0 <= i < j < errors.len() ==> field_rank(#[trigger] errors[i].field) < field_rank(
            #[trigger] errors[j].field,
        )
}

proof fn lemma_singleton_order(
    a: Seq<FieldError>,
    b: Seq<FieldError>,
    c: Seq<FieldError>,
    d: Seq<FieldError>,
)
    requires
        a.len() <= 1,
        b.len() <= 1,
        c.len() <= 1,
        d.len() <= 1,
        a.len() == 1 ==> field_rank(a[0].field) == 0,
        b.len() == 1 ==> field_rank(b[0].field) == 1,
        c.len() == 1 ==> field_rank(c[0].field) == 2,
        d.len() == 1 ==> field_rank(d[0].field) == 3,
    ensures
        in_field_order(a + b + c + d),
{
    let e = a + b + c + d;
    assert forall|i: int, j: int| 0 <= i < j < e.len() implies field_rank(
        #[trigger] e[i].field,
    ) < field_rank(#[trigger] e[j].field) by {
        let la = a.len() as int;
        let lb = b.len() as int;
        let lc = c.len() as int;
        assert(forall|k: int|
            0 <= k < e.len() ==> #[trigger] e[k] == if k < la {
                a[k]
            } else if k < la + lb {
                b[k - la]
            } else if k < la + lb + lc {
                c[k - la - lb]
            } else {
                d[k - la - lb - lc]
            });
    }
}

/// The errors of a creation payload, and of an update payload, come in
/// payload order, each field at most once.
pub proof fn law_errors_in_field_order(c: CreateSupplierRequest, u: UpdateSupplierRequest)
    ensures
        in_field_order(c.errors()),
        in_field_order(u.errors()),
{
    lemma_singleton_order(
        length_error(SupplierField::NameSup, c.name_sup@, NAME_MIN, NAME_MAX),
        email_error(c.email_sup@),
        length_error(SupplierField::PhoneSup, c.phone_sup@, PHONE_MIN, PHONE_MAX),
        length_error(SupplierField::AddressSup, c.address_sup@, ADDRESS_MIN, ADDRESS_MAX),
    );
    lemma_singleton_order(
        optional_errors(
            u.name_sup,
            |s: Seq<char>| length_error(SupplierField::NameSup, s, NAME_MIN, NAME_MAX),
        ),
        optional_errors(u.email_sup, |s: Seq<char>| email_error(s)),
        optional_errors(
            u.phone_sup,
            |s: Seq<char>| length_error(SupplierField::PhoneSup, s, PHONE_MIN, PHONE_MAX),
        ),
        optional_errors(
            u.address_sup,
            |s: Seq<char>| length_error(SupplierField::AddressSup, s, ADDRESS_MIN, ADDRESS_MAX),
        ),
    );
}

} // verus!
