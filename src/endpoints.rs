//! The decisions that the entry, group and user endpoints take around their
//! store queries: when to answer 400, 404 or 500 and what to write.

use vstd::prelude::*;

use crate::password::StoreFailure;

verus! {

#[verifier::external_type_specification]
#[verifier::external_body]
pub struct ExParseIntError(core::num::ParseIntError);

/// Why an endpoint turned a request away.
#[derive(Clone, Copy, Debug, PartialEq, Eq, Structural)]
pub enum Refusal {
    /// The request body is unusable.
    BadRequest,
    /// The resource does not exist or the principal may not see it; the two
    /// are not told apart.
    NotFound,
    /// The store failed.
    Internal,
}

impl Refusal {
    pub open spec fn spec_status(self) -> u16 {
        match self {
            Refusal::BadRequest => 400,
            Refusal::NotFound => 404,
            Refusal::Internal => 500,
        }
    }

    /// The HTTP status code of the response.
    pub fn status(&self) -> (r: u16)
        ensures
            r == self.spec_status(),
    {
        match self {
            Refusal::BadRequest => 400,
            Refusal::NotFound => 404,
            Refusal::Internal => 500,
        }
    }
}

/// What an access or membership check leads to.
pub open spec fn access_result(check: Result<bool, StoreFailure>) -> Result<(), Refusal> {
    match check {
        Err(_) => Err(Refusal::Internal),
        Ok(false) => Err(Refusal::NotFound),
        Ok(true) => Ok(()),
    }
}

/// Turns the answer of an access or membership check into a go-ahead: a
/// denial is answered as not found, a store failure as an internal error.
pub fn require_access(check: Result<bool, StoreFailure>) -> (r: Result<(), Refusal>)
    ensures
        r == access_result(check),
{
    match check {
        Err(_) => Err(Refusal::Internal),
        Ok(false) => Err(Refusal::NotFound),
        Ok(true) => Ok(()),
    }
}

/// Takes the row that a query for one resource returned: no row is answered as
/// not found, a store failure as an internal error.
pub fn require_row<T>(row: Result<Option<T>, StoreFailure>) -> (r: Result<T, Refusal>)
    ensures
        r == match row {
            Err(_) => Err(Refusal::Internal),
            Ok(None) => Err(Refusal::NotFound),
            Ok(Some(v)) => Ok::<T, Refusal>(v),
        },
{
    match row {
        Err(_) => Err(Refusal::Internal),
        Ok(None) => Err(Refusal::NotFound),
        Ok(Some(v)) => Ok(v),
    }
}

/// The next action of the endpoint that creates an entry.
#[derive(Clone, Copy, Debug, PartialEq, Eq, Structural)]
pub enum PostEntryAction {
    /// Ask the store whether the caller belongs to this group.
    CheckMembership(i64),
    /// Insert the entry.
    Insert,
    /// Respond with the refusal; nothing is inserted.
    Refuse(Refusal),
}

/// The first action on a new entry: one with a group waits for a membership
/// check, one without is inserted at once.
pub fn post_entry_start(group_id: Option<i64>) -> (r: PostEntryAction)
    ensures
        r == match group_id {
            Some(g) => PostEntryAction::CheckMembership(g),
            None => PostEntryAction::Insert,
        },
{
    match group_id {
        Some(g) => PostEntryAction::CheckMembership(g),
        None => PostEntryAction::Insert,
    }
}

/// The action after the membership check: a member's entry is inserted; for a
/// caller outside the group the answer is not found and nothing is inserted.
pub fn post_entry_on_membership(is_member: Result<bool, StoreFailure>) -> (r: PostEntryAction)
    ensures
        r == match access_result(is_member) {
            Ok(()) => PostEntryAction::Insert,
            Err(e) => PostEntryAction::Refuse(e),
        },
        r == PostEntryAction::Insert <==> is_member == Ok::<bool, StoreFailure>(true),
{
    match require_access(is_member) {
        Ok(()) => PostEntryAction::Insert,
        Err(e) => PostEntryAction::Refuse(e),
    }
}

/// Which fields a request to change an entry supplies. A supplied note may be
/// a text or null; `bought` tells whether the entry is marked bought now or
/// unmarked.
#[derive(Clone, Copy, Debug, PartialEq, Eq, Structural)]
pub struct PatchEntryFields {
    pub product: bool,
    pub amount: bool,
    pub unit: bool,
    pub note: bool,
    pub bought: Option<bool>,
}

/// One assignment of an update of an entry.
#[derive(Clone, Copy, Debug, PartialEq, Eq, Structural)]
pub enum PatchColumn {
    /// Set the product to the supplied value.
    Product,
    /// Set the amount to the supplied value.
    Amount,
    /// Set the unit to the supplied value.
    Unit,
    /// Set the note to the supplied text or to null.
    Note,
    /// Set the bought time to now.
    BoughtNow,
    /// Clear the bought time.
    BoughtClear,
}

impl PatchEntryFields {
    pub open spec fn spec_is_empty(self) -> bool {
        !self.product && !self.amount && !self.unit && !self.note && self.bought is None
    }

    /// No field is supplied.
    pub fn is_empty(&self) -> (r: bool)
        ensures
            r == self.spec_is_empty(),
    {
        !self.product && !self.amount && !self.unit && !self.note && self.bought.is_none()
    }
}

/// The assignments for the supplied fields, in the order product, amount,
/// unit, note, bought.
pub open spec fn patch_columns_spec(f: PatchEntryFields) -> Seq<PatchColumn> {
    (if f.product { seq![PatchColumn::Product] } else { seq![] })
        + (if f.amount { seq![PatchColumn::Amount] } else { seq![] })
        + (if f.unit { seq![PatchColumn::Unit] } else { seq![] })
        + (if f.note { seq![PatchColumn::Note] } else { seq![] })
        + match f.bought {
        Some(true) => seq![PatchColumn::BoughtNow],
        Some(false) => seq![PatchColumn::BoughtClear],
        None => seq![],
    }
}

/// Plans the update of an entry: a request that supplies no field is a bad
/// request; otherwise one assignment per supplied field, in a fixed order.
pub fn patch_entry_plan(fields: &PatchEntryFields) -> (r: Result<Vec<PatchColumn>, Refusal>)
    ensures
        fields.spec_is_empty() ==> r == Err::<Vec<PatchColumn>, Refusal>(Refusal::BadRequest),
        !fields.spec_is_empty() ==> (r matches Ok(v) && v@ == patch_columns_spec(*fields)),
{
    if fields.is_empty() {
        return Err(Refusal::BadRequest);
    }
    let mut columns: Vec<PatchColumn> = Vec::new();
    if fields.product {
        columns.push(PatchColumn::Product);
    }
    if fields.amount {
        columns.push(PatchColumn::Amount);
    }
    if fields.unit {
        columns.push(PatchColumn::Unit);
    }
    if fields.note {
        columns.push(PatchColumn::Note);
    }
    match fields.bought {
        Some(true) => columns.push(PatchColumn::BoughtNow),
        Some(false) => columns.push(PatchColumn::BoughtClear),
        None => {},
    }
    assert(columns@ =~= patch_columns_spec(*fields));
    Ok(columns)
}

/// An ASCII decimal digit.
pub open spec fn is_decimal_digit(c: char) -> bool {
    '0' <= c && c <= '9'
}

/// A non-empty run of ASCII decimal digits.
pub open spec fn is_digit_run(s: Seq<char>) -> bool {
    s.len() > 0 && forall|i: int| 0 <= i < s.len() ==> is_decimal_digit(#[trigger] s[i])
}

/// The number that a run of decimal digits denotes.
pub open spec fn digits_value(s: Seq<char>) -> int
    decreases s.len(),
{
    if s.len() == 0 {
        0
    } else {
        digits_value(s.drop_last()) * 10 + (s.last() as int - '0' as int)
    }
}

/// The integer that `s` writes in decimal, with an optional `+` or `-` sign.
pub open spec fn decimal_value(s: Seq<char>) -> Option<int> {
    if s.len() > 0 && s[0] == '-' && is_digit_run(s.skip(1)) {
        Some(-digits_value(s.skip(1)))
    } else if s.len() > 0 && s[0] == '+' && is_digit_run(s.skip(1)) {
        Some(digits_value(s.skip(1)))
    } else if is_digit_run(s) {
        Some(digits_value(s))
    } else {
        None
    }
}

/// The `i64` that `s` writes in decimal, where it is one.
pub open spec fn decimal_i64(s: Seq<char>) -> Option<i64> {
    match decimal_value(s) {
        Some(v) => if i64::MIN <= v <= i64::MAX {
            Some(v as i64)
        } else {
            None
        },
        None => None,
    }
}

/// Relies on `str::parse::<i64>`: it accepts an optional sign and one or more
/// ASCII digits, and fails on anything else or on a value out of range.
#[verifier::external_body]
fn parse_i64(s: &str) -> (r: Result<i64, core::num::ParseIntError>)
    ensures
        match r {
            Ok(v) => decimal_i64(s@) == Some(v),
            Err(_) => decimal_i64(s@) is None,
        },
{
    s.parse::<i64>()
}

/// The user id that an identifier of the user endpoints names, where it is a
/// number rather than a user name.
pub fn numeric_identifier(identifier: &str) -> (r: Option<i64>)
    ensures
        r == decimal_i64(identifier@),
{
    match parse_i64(identifier) {
        Ok(v) => Some(v),
        Err(_) => None,
    }
}

/// What the endpoint that shows a user does with an identifier.
#[derive(Clone, Copy, Debug, PartialEq, Eq, Structural)]
pub enum UserLookup {
    /// Answer not found without asking the store.
    NotFound,
    /// Ask the store for the principal's own row, by name or by this id.
    Query(Option<i64>),
}

/// The decision for a parsed identifier: a number other than the principal's
/// own id is not found at once; anything else is looked up, restricted to the
/// principal's own row.
pub open spec fn user_lookup_spec(principal: i64, numeric: Option<i64>) -> UserLookup {
    match numeric {
        Some(n) => if n != principal {
            UserLookup::NotFound
        } else {
            UserLookup::Query(Some(n))
        },
        None => UserLookup::Query(None),
    }
}

/// Decides, for a parsed identifier, whether the user lookup goes to the store.
pub fn user_lookup_for(principal: i64, numeric: Option<i64>) -> (r: UserLookup)
    ensures
        r == user_lookup_spec(principal, numeric),
{
    if let Some(n) = numeric {
        if principal != n {
            return UserLookup::NotFound;
        }
    }
    UserLookup::Query(numeric)
}

/// Decides whether the lookup of the user named by `identifier` goes to the
/// store; a principal sees only its own user.
pub fn user_lookup_plan(principal: i64, identifier: &str) -> (r: UserLookup)
    ensures
        r == user_lookup_spec(principal, decimal_i64(identifier@)),
{
    let numeric = numeric_identifier(identifier);
    user_lookup_for(principal, numeric)
}

} // verus!
