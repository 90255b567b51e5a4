use crate::account::Timestamp;
use crate::errors::{DeletionError, InputField, RegistrationError, ValidationReason};
use vstd::prelude::*;

verus! {

/// Longest account id accepted, in characters.
pub const MAX_ACCOUNT_ID_LEN: usize = 40;

/// Length of a generated id, in characters.
pub const GENERATED_ID_LEN: usize = 26;

/// A digit of Crockford's base32 alphabet, upper case.
pub open spec fn is_crockford_digit(c: char) -> bool {
    ('0' <= c && c <= '9') || ('A' <= c && c <= 'Z' && c != 'I' && c != 'L' && c != 'O'
        && c != 'U')
}

/// The shape of an id that the allocator generates.
pub open spec fn is_generated_id(s: Seq<char>) -> bool {
    &&& s.len() == GENERATED_ID_LEN
    &&& forall|i: int| 0 <= i < s.len() ==> is_crockford_digit(#[trigger] s[i])
}

/// Number of leading digits of a generated id that encode its creation time.
pub const GENERATED_TIME_DIGITS: usize = 10;

/// Value of a digit of Crockford's base32 alphabet.
pub open spec fn crockford_value(c: char) -> nat {
    let n = c as u32 as int;
    if '0' <= c && c <= '9' {
        (n - ('0' as u32 as int)) as nat
    } else if 'A' <= c && c <= 'H' {
        (n - ('A' as u32 as int) + 10) as nat
    } else if c == 'J' || c == 'K' {
        (n - ('J' as u32 as int) + 18) as nat
    } else if c == 'M' || c == 'N' {
        (n - ('M' as u32 as int) + 20) as nat
    } else if 'P' <= c && c <= 'T' {
        (n - ('P' as u32 as int) + 22) as nat
    } else {
        (n - ('V' as u32 as int) + 27) as nat
    }
}

/// The number that a string of Crockford base32 digits writes, most
/// significant digit first.
pub open spec fn crockford_number(s: Seq<char>) -> nat
    decreases s.len(),
{
    if s.len() == 0 {
        0
    } else {
        crockford_number(s.drop_last()) * 32 + crockford_value(s.last())
    }
}

/// The millisecond count that a generated id created at `now` carries: time
/// before the epoch counts as the epoch, and the count wraps at 48 bits.
pub open spec fn id_time_of(now: Timestamp) -> nat {
    if now.unix_micros < 0 {
        0
    } else {
        ((now.unix_micros / 1000) % 0x1_0000_0000_0000) as nat
    }
}

/// The creation time that a generated id carries in its leading digits.
pub open spec fn id_time(s: Seq<char>) -> nat {
    crockford_number(s.subrange(0, GENERATED_TIME_DIGITS as int))
}

/// What validating a supplied id gives.
pub open spec fn id_check(id: Seq<char>) -> Result<(), RegistrationError> {
    if id.len() == 0 {
        Err(RegistrationError::ValidationError(InputField::Id, ValidationReason::Empty))
    } else if id.len() > MAX_ACCOUNT_ID_LEN {
        Err(RegistrationError::ValidationError(InputField::Id, ValidationReason::TooLong))
    } else {
        Ok(())
    }
}

/// Relies on ulid::Ulid::from_datetime and Ulid::to_string: a new identifier
/// written as 26 digits of Crockford's base32 alphabet, whose first ten
/// digits encode the millisecond count of the given time (48 bits) and whose
/// other digits are random.
#[verifier::external_body]
fn generate_ulid(now: Timestamp) -> (r: String)
    requires
        now.unix_micros >= 0,
    ensures
        is_generated_id(r@),
        id_time(r@) == id_time_of(now),
{
    let at = std::time::UNIX_EPOCH + std::time::Duration::from_micros(now.unix_micros as u64);
    ulid::Ulid::from_datetime(at).to_string()
}

/// Accepts a supplied id that is non-empty and at most the maximum length.
pub fn validate_account_id(id: &str) -> (r: Result<(), RegistrationError>)
    ensures
        r == id_check(id@),
{
    let n = id.unicode_len();
    if n == 0 {
        Err(RegistrationError::ValidationError(InputField::Id, ValidationReason::Empty))
    } else if n > MAX_ACCOUNT_ID_LEN {
        Err(RegistrationError::ValidationError(InputField::Id, ValidationReason::TooLong))
    } else {
        Ok(())
    }
}

/// Resolves the id of a new account created at `now`: a supplied id is
/// returned unchanged once validated; without one, a new id is generated
/// whose leading digits encode `now`, so that generated ids sort by creation
/// time.
pub fn allocate_account_id(external: Option<String>, now: Timestamp) -> (r: Result<
    String,
    RegistrationError,
>)
    ensures
        external matches Some(id) ==> r == match id_check(id@) {
            Ok(_) => Ok::<String, RegistrationError>(id),
            Err(e) => Err(e),
        },
        external is None ==> (r matches Ok(g) && is_generated_id(g@) && id_time(g@) == id_time_of(
            now,
        )),
{
    match external {
        Some(id) => match validate_account_id(id.as_str()) {
            Ok(()) => Ok(id),
            Err(e) => Err(e),
        },
        None => {
            // the identifier format starts at the epoch
            let at = if now.unix_micros < 0 {
                Timestamp { unix_micros: 0 }
            } else {
                now
            };
            Ok(generate_ulid(at))
        },
    }
}

/// What checking the id of an account to remove gives.
pub open spec fn deletion_id_check(id: Seq<char>) -> Result<(), DeletionError> {
    if id.len() == 0 {
        Err(DeletionError::IdNotSpecified)
    } else {
        Ok(())
    }
}

/// Refuses an empty id before any storage work for a removal.
pub fn validate_deletion_id(id: &str) -> (r: Result<(), DeletionError>)
    ensures
        r == deletion_id_check(id@),
        id@.len() == 0 ==> r == Err::<(), DeletionError>(DeletionError::IdNotSpecified),
{
    if id.unicode_len() == 0 {
        Err(DeletionError::IdNotSpecified)
    } else {
        Ok(())
    }
}

/// `a` sorts before `b` character by character: they agree up to some index,
/// where `a` has the smaller character.
pub open spec fn sorts_before(a: Seq<char>, b: Seq<char>) -> bool {
    exists|i: int|
        0 <= i < a.len() && i < b.len() && a.subrange(0, i) == b.subrange(0, i) && (#[trigger] a[i]
            as u32) < (b[i] as u32)
}

pub open spec fn all_crockford_digits(s: Seq<char>) -> bool {
    forall|i: int| 0 <= i < s.len() ==> is_crockford_digit(#[trigger] s[i])
}

proof fn lemma_digit_order(c: char, d: char)
    requires
        is_crockford_digit(c),
        is_crockford_digit(d),
    ensures
        crockford_value(c) < 32,
        crockford_value(d) < 32,
        crockford_value(c) < crockford_value(d) ==> (c as u32) < (d as u32),
        crockford_value(c) == crockford_value(d) ==> c == d,
{
}

proof fn lemma_number_injective(x: Seq<char>, y: Seq<char>)
    requires
        x.len() == y.len(),
        all_crockford_digits(x),
        all_crockford_digits(y),
        crockford_number(x) == crockford_number(y),
    ensures
        x == y,
    decreases x.len(),
{
    if x.len() > 0 {
        let n = x.len() - 1;
        lemma_digit_order(x[n], y[n]);
        assert(all_crockford_digits(x.drop_last()));
        assert(all_crockford_digits(y.drop_last()));
        lemma_number_injective(x.drop_last(), y.drop_last());
        assert(x =~= y.drop_last().push(y[n]));
        assert(y =~= y.drop_last().push(y[n]));
    } else {
        assert(x =~= y);
    }
}

proof fn lemma_number_order(x: Seq<char>, y: Seq<char>)
    requires
        x.len() == y.len(),
        all_crockford_digits(x),
        all_crockford_digits(y),
        crockford_number(x) < crockford_number(y),
    ensures
        exists|i: int|
            0 <= i < x.len() && x.subrange(0, i) == y.subrange(0, i) && crockford_value(#[trigger] x[i])
                < crockford_value(y[i]),
    decreases x.len(),
{
    let n = x.len() - 1;
    let xs = x.drop_last();
    let ys = y.drop_last();
    lemma_digit_order(x[n], y[n]);
    assert(all_crockford_digits(xs));
    assert(all_crockford_digits(ys));
    if crockford_number(xs) < crockford_number(ys) {
        lemma_number_order(xs, ys);
        let i = choose|i: int|
            0 <= i < xs.len() && xs.subrange(0, i) == ys.subrange(0, i) && crockford_value(
                #[trigger] xs[i],
            ) < crockford_value(ys[i]);
        assert(x.subrange(0, i) =~= xs.subrange(0, i));
        assert(y.subrange(0, i) =~= ys.subrange(0, i));
        assert(x[i] == xs[i] && y[i] == ys[i]);
    } else if crockford_number(xs) == crockford_number(ys) {
        lemma_number_injective(xs, ys);
        assert(x.subrange(0, n) =~= xs);
        assert(y.subrange(0, n) =~= ys);
        assert(crockford_value(x[n]) < crockford_value(y[n]));
    } else {
        assert(crockford_number(x) >= 32 * crockford_number(ys) + 32);
    }
}

/// Generated ids sort by creation time: an id whose leading digits carry an
/// earlier millisecond count sorts before one carrying a later count.
pub proof fn law_generated_ids_sort_by_time(a: Seq<char>, b: Seq<char>)
    requires
        is_generated_id(a),
        is_generated_id(b),
        id_time(a) < id_time(b),
    ensures
        sorts_before(a, b),
{
    let k = GENERATED_TIME_DIGITS as int;
    let pa = a.subrange(0, k);
    let pb = b.subrange(0, k);
    assert(all_crockford_digits(pa));
    assert(all_crockford_digits(pb));
    lemma_number_order(pa, pb);
    let i = choose|i: int|
        0 <= i < pa.len() && pa.subrange(0, i) == pb.subrange(0, i) && crockford_value(
            #[trigger] pa[i],
        ) < crockford_value(pb[i]);
    assert(a[i] == pa[i] && b[i] == pb[i]);
    lemma_digit_order(a[i], b[i]);
    assert(a.subrange(0, i) =~= pa.subrange(0, i));
    assert(b.subrange(0, i) =~= pb.subrange(0, i));
    assert((a[i] as u32) < (b[i] as u32));
}

} // verus!
