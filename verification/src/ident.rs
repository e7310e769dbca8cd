//! Fresh identifiers and the clock.
use vstd::prelude::*;
use vstd::string::*;

verus! {

pub open spec fn is_hex_digit(c: char) -> bool {
    '0' <= c <= '9' || 'a' <= c <= 'f'
}

/// The simple text form of a random (version 4) UUID.
pub open spec fn is_simple_uuid(s: Seq<char>) -> bool {
    &&& s.len() == 32
    &&& forall|i: int| 0 <= i < 32 ==> is_hex_digit(#[trigger] s[i])
    &&& s[12] == '4'
    &&& (s[16] == '8' || s[16] == '9' || s[16] == 'a' || s[16] == 'b')
}

/// `prefix` with the simple text form of a random UUID behind it.
pub open spec fn is_fresh_id(prefix: Seq<char>, id: Seq<char>) -> bool {
    &&& id.len() == prefix.len() + 32
    &&& id.take(prefix.len() as int) == prefix
    &&& is_simple_uuid(id.skip(prefix.len() as int))
}

/// `uuid::Uuid::new_v4`, written out by `Uuid::simple`: 32 lowercase hexadecimal digits, of
/// which two are set by the version and the variant. The others are random: nothing more
/// is known of them.
#[verifier::external_body]
fn random_uuid() -> (r: String)
    ensures
        is_simple_uuid(r@),
{
    uuid::Uuid::new_v4().simple().to_string()
}

#[verifier::external_type_specification]
#[verifier::external_body]
pub struct ExSystemTime(std::time::SystemTime);

#[verifier::external_type_specification]
#[verifier::external_body]
pub struct ExSystemTimeError(std::time::SystemTimeError);

/// How far a reading of the clock lies behind the Unix epoch; nothing where it lies before.
pub uninterp spec fn time_since_epoch(t: std::time::SystemTime) -> Option<std::time::Duration>;

/// The whole seconds of a duration.
pub uninterp spec fn whole_seconds(d: std::time::Duration) -> u64;

/// `std::time::SystemTime::now`. Nothing is known of the reading.
#[verifier::external_body]
fn clock() -> (r: std::time::SystemTime) {
    std::time::SystemTime::now()
}

/// `std::time::SystemTime::duration_since`, on the Unix epoch: how far the reading lies
/// behind it, or an error where it lies before.
#[verifier::external_body]
fn since_epoch(t: std::time::SystemTime) -> (r: Result<
    std::time::Duration,
    std::time::SystemTimeError,
>)
    ensures
        match r {
            Ok(d) => time_since_epoch(t) == Some(d),
            Err(_) => time_since_epoch(t) is None,
        },
{
    t.duration_since(std::time::UNIX_EPOCH)
}

/// `std::time::Duration::as_secs`: the whole seconds of a duration.
#[verifier::external_body]
fn seconds(d: std::time::Duration) -> (r: u64)
    ensures
        r == whole_seconds(d),
{
    d.as_secs()
}

/// A reading of the clock in whole seconds since the Unix epoch; zero for one before it.
pub open spec fn unix_seconds(t: std::time::SystemTime) -> u64 {
    match time_since_epoch(t) {
        Some(d) => whole_seconds(d),
        None => 0,
    }
}

/// Whether `seconds` is a reading of the clock.
pub open spec fn is_clock_reading(seconds: u64) -> bool {
    exists|t: std::time::SystemTime| seconds == #[trigger] unix_seconds(t)
}

/// The time now, in whole seconds since the Unix epoch.
pub fn now_seconds() -> (r: u64)
    ensures
        is_clock_reading(r),
{
    let t = clock();
    let r: u64 = match since_epoch(t) {
        Ok(d) => seconds(d),
        Err(_) => 0,
    };
    assert(r == unix_seconds(t));
    r
}

/// A fresh identifier.
pub fn fresh_id(prefix: &str) -> (r: String)
    ensures
        is_fresh_id(prefix@, r@),
{
    let uuid = random_uuid();
    let mut id = prefix.to_owned();
    id.append(uuid.as_str());
    assert(id@.take(prefix@.len() as int) =~= prefix@);
    assert(id@.skip(prefix@.len() as int) =~= uuid@);
    id
}

} // verus!
