use vstd::prelude::*;
use vstd::string::StringExecFns;

verus! {

/// Smallest telephone number a demonstration row may carry.
pub const TELEPHONE_LOW: u32 = 123456;

/// First telephone number past the range a demonstration row may carry.
pub const TELEPHONE_END: u32 = 987654;

/// A row of the demonstration `owner` table.
#[derive(Debug)]
pub struct OwnerRow {
    /// The 128 bits of a random identifier, most significant first.
    pub id: u128,
    pub name: String,
    pub city: String,
    pub telephone: String,
}

pub open spec fn digit_char(d: nat) -> char
    recommends
        d < 10,
{
    ((d + 48) as u8) as char
}

/// The decimal digits of `n`, most significant first, without leading zeros.
pub open spec fn decimal(n: nat) -> Seq<char>
    decreases n,
{
    if n < 10 {
        seq![digit_char(n)]
    } else {
        decimal(n / 10).push(digit_char(n % 10))
    }
}

/// `id` carries the version and variant bits of a random (version 4) UUID.
pub open spec fn is_random_uuid(id: u128) -> bool {
    &&& (id >> 76u128) & 0xfu128 == 4u128
    &&& (id >> 62u128) & 3u128 == 2u128
}

/// Relies on rand's `Rng::gen_range` on the thread-local generator: a value
/// of the half-open range, which must not be empty.
#[verifier::external_body]
fn draw_in_range(low: u32, high: u32) -> (r: u32)
    requires
        low < high,
    ensures
        low <= r < high,
{
    rand::Rng::gen_range(&mut rand::thread_rng(), low..high)
}

/// Relies on uuid's `Uuid::new_v4` and `Uuid::as_u128`: random bits with the
/// version and variant fields of a version 4 UUID set.
#[verifier::external_body]
fn new_random_uuid() -> (r: u128)
    ensures
        is_random_uuid(r),
{
    uuid::Uuid::new_v4().as_u128()
}

/// Relies on `ToString` for `u32`: its decimal form.
#[verifier::external_body]
fn decimal_string(n: u32) -> (r: String)
    ensures
        r@ == decimal(n as nat),
{
    n.to_string()
}

/// The row for the person `first` `last` with identifier `id` and telephone
/// number `telephone`, living in New York.
pub fn owner_row(id: u128, first: &str, last: &str, telephone: u32) -> (r: OwnerRow)
    ensures
        r.id == id,
        r.name@ == first@ + " "@ + last@,
        r.city@ == "New York"@,
        r.telephone@ == decimal(telephone as nat),
{
    let name = String::from_str(first).concat(" ").concat(last);
    OwnerRow {
        id,
        name,
        city: String::from_str("New York"),
        telephone: decimal_string(telephone),
    }
}

/// A row for the person `first` `last` with a fresh random identifier and a
/// random telephone number of the demonstration range.
pub fn random_owner_row(first: &str, last: &str) -> (r: OwnerRow)
    ensures
        is_random_uuid(r.id),
        r.name@ == first@ + " "@ + last@,
        r.city@ == "New York"@,
        exists|n: u32|
            TELEPHONE_LOW <= n < TELEPHONE_END && r.telephone@ == #[trigger] decimal(n as nat),
{
    let id = new_random_uuid();
    let telephone = draw_in_range(TELEPHONE_LOW, TELEPHONE_END);
    owner_row(id, first, last, telephone)
}

} // verus!
