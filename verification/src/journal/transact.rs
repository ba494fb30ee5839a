//! Reading a submitted transaction: each row names an account, an amount in dollars as
//! decimal text, and a side. Rows whose account is not an identifier are taken as rows
//! where no account was chosen, and are left out. Amounts are read with `rust_decimal`
//! and must be a whole, positive number of cents that fits in an `i64`.

use crate::ident::spec_is_ident;
use crate::ids::AccountId;
use crate::journal::entry::{EntryKind, EntrySide, EntrySideFromIntError};
use crate::journal::error::{JournalError, TransactionValidationError};
use crate::journal::forms::TransactForm;
use crate::journal::transaction::TransactionEntry;
use rust_decimal::Decimal;
use std::str::FromStr;
use vstd::prelude::*;

verus! {

/// 2^96: every decimal's magnitude is below it.
pub open spec fn decimal_bound() -> u128 {
    0x1_0000_0000_0000_0000_0000_0000u128
}

/// Ten to the power.
pub open spec fn pow10(s: nat) -> nat
    decreases s,
{
    if s == 0 {
        1
    } else {
        10 * pow10((s - 1) as nat)
    }
}

/// The sign, magnitude and scale of the decimal that the text stands for (its value is
/// the magnitude divided by ten to the scale, negated if the sign is set), if it is one.
pub uninterp spec fn parsed_decimal(text: Seq<char>) -> Option<(bool, u128, u32)>;

/// The sign, magnitude and scale of the product of two decimals, each given by its sign,
/// magnitude and scale, if the product can be represented.
pub uninterp spec fn decimal_product(a: (bool, u128, u32), b: (bool, u128, u32)) -> Option<
    (bool, u128, u32),
>;

/// One hundred as a decimal: the number of cents in a dollar.
pub open spec fn one_hundred() -> (bool, u128, u32) {
    (false, 100, 0)
}

/// How a decimal displays.
pub uninterp spec fn decimal_text(negative: bool, magnitude: u128, scale: u32) -> Seq<char>;

/// `rust_decimal::Decimal::from_str`, taken apart into sign, magnitude and scale; the
/// result is named, not stated. A decimal's magnitude is below 2^96 and its scale at most 28.
#[verifier::external_body]
fn decimal_from_str(text: &str) -> (r: Option<(bool, u128, u32)>)
    ensures
        r == parsed_decimal(text@),
        r matches Some(p) ==> p.1 < decimal_bound() && p.2 <= 28,
{
    match Decimal::from_str(text) {
        Ok(d) => Some((d.is_sign_negative(), d.mantissa().unsigned_abs(), d.scale())),
        Err(_) => None,
    }
}

/// `rust_decimal::Decimal::checked_mul` on the decimals with these parts; `None` where
/// `*` would panic. The product is named, not stated.
#[verifier::external_body]
fn decimal_checked_mul(a: (bool, u128, u32), b: (bool, u128, u32)) -> (r: Option<(bool, u128, u32)>)
    requires
        a.1 < decimal_bound(),
        a.2 <= 28,
        b.1 < decimal_bound(),
        b.2 <= 28,
    ensures
        r == decimal_product(a, b),
        r matches Some(p) ==> p.1 < decimal_bound() && p.2 <= 28,
{
    let mut x = Decimal::from_i128_with_scale(a.1 as i128, a.2);
    x.set_sign_negative(a.0);
    let mut y = Decimal::from_i128_with_scale(b.1 as i128, b.2);
    y.set_sign_negative(b.0);
    match x.checked_mul(y) {
        Some(p) => Some((p.is_sign_negative(), p.mantissa().unsigned_abs(), p.scale())),
        None => None,
    }
}

/// `ToString` of `rust_decimal::Decimal`, on the decimal with these parts; named, not stated.
#[verifier::external_body]
fn decimal_to_string(negative: bool, magnitude: u128, scale: u32) -> (r: String)
    requires
        magnitude < decimal_bound(),
        scale <= 28,
    ensures
        r@ == decimal_text(negative, magnitude, scale),
{
    let mut d = Decimal::from_i128_with_scale(magnitude as i128, scale);
    d.set_sign_negative(negative);
    d.to_string()
}

/// `Decimal::is_integer`: the magnitude is a multiple of ten to the scale.
pub open spec fn decimal_is_integer(magnitude: u128, scale: u32) -> bool {
    (magnitude as nat) % pow10(scale as nat) == 0
}

/// `Decimal::to_i64`: the value without its fraction, if it fits in an `i64`.
pub open spec fn decimal_to_i64(negative: bool, magnitude: u128, scale: u32) -> Option<i64> {
    let q = (magnitude as nat) / pow10(scale as nat);
    if negative {
        if q <= 0x8000_0000_0000_0000nat {
            Some((-q) as i64)
        } else {
            None
        }
    } else {
        if q < 0x8000_0000_0000_0000nat {
            Some(q as i64)
        } else {
            None
        }
    }
}

proof fn lemma_pow10_positive(s: nat)
    ensures
        pow10(s) >= 1,
    decreases s,
{
    if s > 0 {
        lemma_pow10_positive((s - 1) as nat);
    }
}

proof fn lemma_pow10_monotone(a: nat, b: nat)
    requires
        a <= b,
    ensures
        pow10(a) <= pow10(b),
    decreases b,
{
    if a < b {
        lemma_pow10_monotone(a, (b - 1) as nat);
        lemma_pow10_positive((b - 1) as nat);
    }
}

fn pow10_exec(s: u32) -> (r: u128)
    requires
        s <= 28,
    ensures
        r == pow10(s as nat),
{
    assert(pow10(28) == 10000000000000000000000000000nat) by {
        reveal_with_fuel(pow10, 29);
    }
    let mut r: u128 = 1;
    let mut i: u32 = 0;
    while i < s
        invariant
            i <= s <= 28,
            r == pow10(i as nat),
            pow10(28) == 10000000000000000000000000000nat,
        decreases s - i,
    {
        proof {
            lemma_pow10_monotone((i + 1) as nat, 28);
        }
        r = r * 10;
        i = i + 1;
    }
    r
}

/// Why a row with an account cannot be booked, in the order the row is read.
#[derive(Clone, Copy, PartialEq, Eq, Structural, Debug)]
pub enum RowFailure {
    MissingEntryAmount,
    ParseDecimal,
    /// The amount times one hundred cannot be represented.
    Overflow,
    PartialCentValue,
    OutOfRange,
    NegativeEntryAmount,
    MissingEntryType,
    EntrySide,
}

/// The amount in cents of an amount in dollars given by the parts of a decimal (`None`
/// when the text was not a decimal), or why there is none: times one hundred it must be
/// representable, a whole number, fit in an `i64` and be positive.
pub open spec fn amount_from(parts: Option<(bool, u128, u32)>) -> Result<i64, RowFailure> {
    match parts {
        None => Err(RowFailure::ParseDecimal),
        Some(p) => match decimal_product(p, one_hundred()) {
            None => Err(RowFailure::Overflow),
            Some(h) => if !decimal_is_integer(h.1, h.2) {
                Err(RowFailure::PartialCentValue)
            } else {
                match decimal_to_i64(h.0, h.1, h.2) {
                    None => Err(RowFailure::OutOfRange),
                    Some(a) => if a <= 0 {
                        Err(RowFailure::NegativeEntryAmount)
                    } else {
                        Ok(a)
                    },
                }
            },
        },
    }
}

/// The amount in cents that a row's text stands for, or why there is none.
pub open spec fn amount_outcome(text: Seq<char>) -> Result<i64, RowFailure> {
    amount_from(parsed_decimal(text))
}

/// The side that a stored number stands for: 1 debit, 2 credit.
pub open spec fn side_of(code: i8) -> Option<EntrySide> {
    if code == 1 {
        Some(EntrySide::Debit)
    } else if code == 2 {
        Some(EntrySide::Credit)
    } else {
        None
    }
}

/// The texts of a list of strings.
pub open spec fn texts(v: Seq<String>) -> Seq<Seq<char>> {
    Seq::new(v.len(), |i: int| v[i]@)
}

/// Whether row `i` names an account (and so is read at all).
pub open spec fn row_kept(form: TransactForm, i: int) -> bool {
    spec_is_ident(form.account@[i]@)
}

/// The amount and side of a row that names an account, or why it cannot be booked.
pub open spec fn row_outcome(form: TransactForm, i: int) -> Result<(i64, EntrySide), RowFailure> {
    if i >= form.amount@.len() {
        Err(RowFailure::MissingEntryAmount)
    } else {
        match amount_outcome(form.amount@[i]@) {
            Err(f) => Err(f),
            Ok(a) => if i >= form.entry_type@.len() {
                Err(RowFailure::MissingEntryType)
            } else {
                match side_of(form.entry_type@[i] as i8) {
                    Some(s) => Ok((a, s)),
                    None => Err(RowFailure::EntrySide),
                }
            },
        }
    }
}

/// The first row from `k` on that names an account and cannot be booked, or the number
/// of rows if there is none.
pub open spec fn first_failing_row(form: TransactForm, k: int) -> int
    decreases form.account@.len() - k,
{
    if k < 0 || k >= form.account@.len() {
        form.account@.len() as int
    } else if row_kept(form, k) && row_outcome(form, k) is Err {
        k
    } else {
        first_failing_row(form, k + 1)
    }
}

/// The rows before `k` that name an account, in order.
pub open spec fn kept_rows(form: TransactForm, k: int) -> Seq<int>
    decreases k,
{
    if k <= 0 {
        Seq::empty()
    } else if row_kept(form, k - 1) {
        kept_rows(form, k - 1).push(k - 1)
    } else {
        kept_rows(form, k - 1)
    }
}

/// The entry books row `i`: its account, its amount in cents and its side.
pub open spec fn books_row(e: TransactionEntry, form: TransactForm, i: int) -> bool {
    &&& e.entry_kind matches EntryKind::Account { account_id } && account_id.0@
        == form.account@[i]@ && account_id.0.wf()
    &&& row_outcome(form, i) matches Ok((a, s)) && e.amount == a as u64 && e.entry_side == s
}

/// Why a submitted transaction cannot be read.
#[derive(Debug)]
pub enum TransactFormError {
    Journal(JournalError),
    EntrySide(EntrySideFromIntError),
}

/// The error reports why row `i` cannot be booked, with the text it was given.
pub open spec fn reports_row(e: TransactFormError, form: TransactForm, i: int) -> bool {
    let text = form.amount@[i]@;
    match row_outcome(form, i) {
        Err(RowFailure::MissingEntryAmount) => e matches TransactFormError::Journal(
            JournalError::TransactionValidation(TransactionValidationError::MissingEntryAmount),
        ),
        Err(RowFailure::ParseDecimal) => e matches TransactFormError::Journal(
            JournalError::TransactionValidation(TransactionValidationError::ParseDecimal(t)),
        ) && t@ == text,
        Err(RowFailure::PartialCentValue) => e matches TransactFormError::Journal(
            JournalError::TransactionValidation(TransactionValidationError::PartialCentValue(t)),
        ) && t@ == text,
        Err(RowFailure::OutOfRange) => e matches TransactFormError::Journal(
            JournalError::TransactionValidation(TransactionValidationError::OutOfRange(t)),
        ) && t@ == text,
        Err(RowFailure::NegativeEntryAmount) => {
            let p = parsed_decimal(text).unwrap();
            let h = decimal_product(p, one_hundred()).unwrap();
            e matches TransactFormError::Journal(
                JournalError::TransactionValidation(
                    TransactionValidationError::NegativeEntryAmount(t),
                ),
            ) && t@ == decimal_text(h.0, h.1, h.2)
        },
        Err(RowFailure::MissingEntryType) => e matches TransactFormError::Journal(
            JournalError::TransactionValidation(TransactionValidationError::MissingEntryType),
        ),
        Err(RowFailure::EntrySide) => e matches TransactFormError::EntrySide(x) && x.0
            == form.entry_type@[i] as i8,
        _ => false,
    }
}

/// What reading the form gives, where `None` stands for the row whose amount times one
/// hundred cannot be represented: no rows is an error; otherwise the first row that
/// names an account and cannot be booked decides the error; otherwise every row that
/// names an account is booked, in order.
pub open spec fn reads_form(form: TransactForm, r: Option<Result<Vec<TransactionEntry>, TransactFormError>>) -> bool {
    let n = form.account@.len() as int;
    let f = first_failing_row(form, 0);
    if n == 0 {
        r matches Some(Err(TransactFormError::Journal(JournalError::TransactionValidation(
            TransactionValidationError::NoTransactionEntries,
        ))))
    } else if f < n {
        if row_outcome(form, f) == Err::<(i64, EntrySide), RowFailure>(RowFailure::Overflow) {
            r is None
        } else {
            r matches Some(Err(e)) && reports_row(e, form, f)
        }
    } else {
        r matches Some(Ok(v)) && v@.len() == kept_rows(form, n).len() && forall|k: int|
            0 <= k < v@.len() ==> books_row(#[trigger] v@[k], form, kept_rows(form, n)[k])
    }
}

proof fn lemma_first_failing_row(form: TransactForm, k: int, i: int)
    requires
        0 <= k <= i <= form.account@.len(),
        forall|j: int| k <= j < i ==> !(row_kept(form, j) && #[trigger] row_outcome(form, j) is Err),
    ensures
        first_failing_row(form, k) == first_failing_row(form, i),
    decreases i - k,
{
    if k < i {
        lemma_first_failing_row(form, k + 1, i);
    }
}

/// The amount in cents of an amount in dollars given by the parts of a decimal (`None`
/// when the text was not a decimal), as `amount_from` says; a negative or zero amount
/// comes with how the decimal in cents displays.
pub fn amount_from_parts(parts: Option<(bool, u128, u32)>) -> (r: Result<i64, (RowFailure, Option<String>)>)
    requires
        parts matches Some(p) ==> p.1 < decimal_bound() && p.2 <= 28,
    ensures
        match amount_from(parts) {
            Ok(a) => r == Ok::<i64, (RowFailure, Option<String>)>(a),
            Err(RowFailure::NegativeEntryAmount) => (r matches Err((f, Some(t))) && f
                == RowFailure::NegativeEntryAmount && {
                let h = decimal_product(parts.unwrap(), one_hundred()).unwrap();
                t@ == decimal_text(h.0, h.1, h.2)
            }),
            Err(f) => (r matches Err((g, None)) && g == f),
        },
{
    let p = match parts {
        Some(p) => p,
        None => return Err((RowFailure::ParseDecimal, None)),
    };
    let (hn, hm, hs) = match decimal_checked_mul(p, (false, 100u128, 0u32)) {
        Some(h) => h,
        None => return Err((RowFailure::Overflow, None)),
    };
    let unit = pow10_exec(hs);
    proof {
        lemma_pow10_positive(hs as nat);
    }
    if hm % unit != 0 {
        return Err((RowFailure::PartialCentValue, None));
    }
    let q = hm / unit;
    let amount: i64 = if hn {
        if q <= 0x8000_0000_0000_0000u128 {
            if q == 0x8000_0000_0000_0000u128 {
                i64::MIN
            } else {
                -(q as i64)
            }
        } else {
            return Err((RowFailure::OutOfRange, None));
        }
    } else {
        if q < 0x8000_0000_0000_0000u128 {
            q as i64
        } else {
            return Err((RowFailure::OutOfRange, None));
        }
    };
    if amount <= 0 {
        return Err((RowFailure::NegativeEntryAmount, Some(decimal_to_string(hn, hm, hs))));
    }
    Ok(amount)
}

fn amount_of(text: &String) -> (r: Result<i64, (RowFailure, Option<String>)>)
    ensures
        match amount_outcome(text@) {
            Ok(a) => r == Ok::<i64, (RowFailure, Option<String>)>(a),
            Err(RowFailure::NegativeEntryAmount) => (r matches Err((f, Some(t))) && f
                == RowFailure::NegativeEntryAmount && {
                let p = parsed_decimal(text@).unwrap();
                let h = decimal_product(p, one_hundred()).unwrap();
                t@ == decimal_text(h.0, h.1, h.2)
            }),
            Err(f) => (r matches Err((g, None)) && g == f),
        },
{
    amount_from_parts(decimal_from_str(text.as_str()))
}

fn read_rows(form: &TransactForm) -> (r: Option<Result<Vec<TransactionEntry>, TransactFormError>>)
    ensures
        reads_form(*form, r),
{
    let n = form.account.len();
    if n == 0 {
        return Some(
            Err(
                TransactFormError::Journal(
                    JournalError::TransactionValidation(
                        TransactionValidationError::NoTransactionEntries,
                    ),
                ),
            ),
        );
    }
    let mut entries: Vec<TransactionEntry> = Vec::new();
    let mut i: usize = 0;
    while i < n
        invariant
            n == form.account@.len(),
            n > 0,
            i <= n,
            forall|j: int| 0 <= j < i ==> !(row_kept(*form, j) && #[trigger] row_outcome(*form, j) is Err),
            entries@.len() == kept_rows(*form, i as int).len(),
            forall|k: int|
                0 <= k < entries@.len() ==> books_row(
                    #[trigger] entries@[k],
                    *form,
                    kept_rows(*form, i as int)[k],
                ),
        decreases n - i,
    {
        let ghost before = entries@;
        match AccountId::from_str(form.account[i].as_str()) {
            Err(_) => {
                assert(!row_kept(*form, i as int));
            },
            Ok(account_id) => {
                assert(row_kept(*form, i as int));
                proof {
                    lemma_first_failing_row(*form, 0, i as int);
                }
                if i >= form.amount.len() {
                    return Some(
                        Err(
                            TransactFormError::Journal(
                                JournalError::TransactionValidation(
                                    TransactionValidationError::MissingEntryAmount,
                                ),
                            ),
                        ),
                    );
                }
                let amount = match amount_of(&form.amount[i]) {
                    Ok(a) => a,
                    Err((f, t)) => {
                        let text = form.amount[i].clone();
                        let e = match f {
                            RowFailure::ParseDecimal => TransactionValidationError::ParseDecimal(
                                text,
                            ),
                            RowFailure::PartialCentValue => TransactionValidationError::PartialCentValue(
                                text,
                            ),
                            RowFailure::OutOfRange => TransactionValidationError::OutOfRange(text),
                            RowFailure::NegativeEntryAmount => match t {
                                Some(t) => TransactionValidationError::NegativeEntryAmount(t),
                                None => TransactionValidationError::NegativeEntryAmount(text),
                            },
                            _ => {
                                return None;
                            },
                        };
                        return Some(Err(TransactFormError::Journal(JournalError::TransactionValidation(e))));
                    },
                };
                if i >= form.entry_type.len() {
                    return Some(
                        Err(
                            TransactFormError::Journal(
                                JournalError::TransactionValidation(
                                    TransactionValidationError::MissingEntryType,
                                ),
                            ),
                        ),
                    );
                }
                let code: i8 = #[verifier::truncate] (form.entry_type[i] as i8);
                let entry_side = match EntrySide::try_from(code) {
                    Ok(s) => s,
                    Err(e) => {
                        return Some(Err(TransactFormError::EntrySide(e)));
                    },
                };
                entries.push(
                    TransactionEntry {
                        entry_kind: EntryKind::Account { account_id },
                        amount: amount as u64,
                        entry_side,
                    },
                );
                proof {
                    assert(kept_rows(*form, i as int + 1) == kept_rows(*form, i as int).push(i as int));
                    assert forall|k: int| 0 <= k < entries@.len() implies books_row(
                        #[trigger] entries@[k],
                        *form,
                        kept_rows(*form, i as int + 1)[k],
                    ) by {
                        if k < before.len() {
                            assert(entries@[k] == before[k]);
                        }
                    }
                }
            },
        }
        i = i + 1;
    }
    proof {
        lemma_first_failing_row(*form, 0, n as int);
    }
    Some(Ok(entries))
}

/// Reads the rows of a submitted transaction into entries, as `reads_form` says, for a
/// form whose reading never meets an amount that cannot be multiplied by one hundred.
pub fn read_transact_form(form: &TransactForm) -> (r: Result<Vec<TransactionEntry>, TransactFormError>)
    requires
        !(first_failing_row(*form, 0) < form.account@.len() && row_outcome(
            *form,
            first_failing_row(*form, 0),
        ) == Err::<(i64, EntrySide), RowFailure>(RowFailure::Overflow)),
    ensures
        reads_form(*form, Some(r)),
{
    match read_rows(form) {
        Some(r) => r,
        None => Err(
            TransactFormError::Journal(
                JournalError::TransactionValidation(TransactionValidationError::NoTransactionEntries),
            ),
        ),
    }
}

/// Reads the rows of a submitted transaction into entries, as `reads_form` says; `None`
/// where an amount times one hundred cannot be represented.
pub fn read_transact_form_checked(form: &TransactForm) -> (r: Option<
    Result<Vec<TransactionEntry>, TransactFormError>,
>)
    ensures
        reads_form(*form, r),
{
    match read_rows(form) {
        None => None,
        Some(_) => Some(read_transact_form(form)),
    }
}

} // verus!
