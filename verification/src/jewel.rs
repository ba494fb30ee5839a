//! Reading a church bookkeeping database exported from Jewel: its currency, accounts and
//! names, how an offering was given, and the standard statistics over the last months
//! (giving per month to the budget and to the tithe, giving by source, and the largest
//! expenses per month).
//!
//! Jewel keeps money as floating-point numbers; the caller rounds them to cents before
//! they reach this module.

use crate::idmap::{IdMap, assoc_to_map, keys_distinct, lemma_assoc_dom, lemma_assoc_index};
use std::fmt::Write;
use vstd::prelude::*;

verus! {

/// The currency of a Jewel database.
#[derive(Debug)]
pub enum JewelCurrency {
    USD,
    Unknown(String),
}

impl JewelCurrency {
    /// The currency that the database names: `Dollars` is the US dollar; any other name
    /// is kept as it is.
    pub fn from_name(name: String) -> (c: JewelCurrency)
        ensures
            name@ == "Dollars"@ ==> c is USD,
            name@ != "Dollars"@ ==> c == JewelCurrency::Unknown(name),
    {
        let dollars = String::from_str("Dollars");
        if name == dollars {
            JewelCurrency::USD
        } else {
            JewelCurrency::Unknown(name)
        }
    }
}

/// An account of a Jewel database.
#[derive(Debug)]
pub struct JewelAccount {
    pub account_id: i64,
    /// A number whose meaning Jewel does not document.
    pub account_type: i64,
    pub name: String,
    pub parent_id: Option<i64>,
    pub tax_deductible: bool,
    pub local_income: bool,
    pub local_expense: bool,
    pub permanent: bool,
    pub active: bool,
}

/// A person or household of a Jewel database.
#[derive(Debug)]
pub struct JewelName {
    pub name_id: i64,
    pub name: String,
    pub last_name: String,
    pub first_name: Option<String>,
    pub address: Option<String>,
    pub cell_phone: Option<String>,
    pub home_phone: Option<String>,
    pub work_phone: Option<String>,
    pub email_address: Option<String>,
    pub get_receipt: bool,
    pub donor: bool,
    pub active: bool,
}

/// The statistics computed over the last months, most recent month first. Amounts are
/// in cents.
#[derive(Debug)]
pub struct StandardJewelStats {
    /// Giving to the church budget, per month.
    pub monthly_budget_giving: Vec<i64>,
    /// Tithe received, per month.
    pub monthly_tithe: Vec<i64>,
    /// The largest expenses of each month with the names of their accounts, largest first.
    pub monthly_top_expenses: Vec<Vec<(i64, String)>>,
    /// Offerings given in person, online and by unknown means, per month.
    pub monthly_online_vs_offline_giving: Vec<(i64, i64, i64)>,
}

/// How an offering reached the church.
#[derive(Clone, Copy, PartialEq, Eq, Structural, Debug)]
pub enum OfferingSource {
    InPerson,
    Online,
    Unknown,
    ReturnedCheck,
}

/// A stored offering source that Jewel does not define.
#[derive(Debug, Clone, Copy, PartialEq, Eq)]
pub struct OfferingSourceDecodeError(pub i64);

/// The offering source with this stored number, if Jewel defines it.
pub open spec fn spec_offering_source(code: i64) -> Option<OfferingSource> {
    if code == 0 || code == 3 || code == 4 {
        Some(OfferingSource::Unknown)
    } else if code == 1 {
        Some(OfferingSource::InPerson)
    } else if code == 2 {
        Some(OfferingSource::ReturnedCheck)
    } else if code == 5 {
        Some(OfferingSource::Online)
    } else {
        None
    }
}

impl OfferingSource {
    /// Reads a stored offering source: 1 in person, 2 a returned check, 5 online, and 0, 3
    /// or 4 unknown; any other number is an error.
    pub fn decode(code: i64) -> (r: Result<OfferingSource, OfferingSourceDecodeError>)
        ensures
            spec_offering_source(code) matches Some(s) ==> r == Ok::<
                OfferingSource,
                OfferingSourceDecodeError,
            >(s),
            spec_offering_source(code) is None ==> r == Err::<
                OfferingSource,
                OfferingSourceDecodeError,
            >(OfferingSourceDecodeError(code)),
    {
        if code == 0 || code == 3 || code == 4 {
            Ok(OfferingSource::Unknown)
        } else if code == 1 {
            Ok(OfferingSource::InPerson)
        } else if code == 2 {
            Ok(OfferingSource::ReturnedCheck)
        } else if code == 5 {
            Ok(OfferingSource::Online)
        } else {
            Err(OfferingSourceDecodeError(code))
        }
    }
}

/// The number of months from the start of year 0 to the month.
pub open spec fn month_number(year: int, month: int) -> int {
    year * 12 + (month - 1)
}

/// The year and month `n` months before the given one, counting back across years.
pub open spec fn months_before(year: int, month: int, n: int) -> (int, int) {
    let total = month_number(year, month) - n;
    (total / 12, total % 12 + 1)
}

/// The year and month from which the statistics start: `num_months` months before the
/// current one. The current month must be a month and the start year must fit.
pub fn start_period(now_year: i32, now_month: u32, num_months: u32) -> (r: (i32, u32))
    requires
        1 <= now_month <= 12,
        i32::MIN <= months_before(now_year as int, now_month as int, num_months as int).0,
    ensures
        r.0 == months_before(now_year as int, now_month as int, num_months as int).0,
        r.1 == months_before(now_year as int, now_month as int, num_months as int).1,
        1 <= r.1 <= 12,
{
    let total: i64 = now_year as i64 * 12 + (now_month as i64 - 1) - num_months as i64;
    if total >= 0 {
        let year: i64 = total / 12;
        let month0: i64 = total % 12;
        assert(year <= i32::MAX);
        (year as i32, (month0 + 1) as u32)
    } else {
        let m: u64 = (-total) as u64;
        let q: u64 = (m + 11) / 12;
        let month0: i64 = total + 12 * (q as i64);
        assert(0 <= month0 < 12);
        assert(total == 12 * (-(q as int)) + month0);
        assert((total as int) / 12 == -(q as int) && (total as int) % 12 == month0) by {
            vstd::arithmetic::div_mod::lemma_fundamental_div_mod_converse(
                total as int,
                12,
                -(q as int),
                month0 as int,
            );
        }
        (-(q as i64) as i32, (month0 + 1) as u32)
    }
}

/// Whether the year, month and day name a day of the proleptic Gregorian calendar that
/// `chrono` can represent (years -262143 to 262142).
pub open spec fn is_calendar_date(year: int, month: int, day: int) -> bool {
    let leap = (year % 4 == 0 && year % 100 != 0) || year % 400 == 0;
    let days: int = if month == 2 {
        if leap {
            29
        } else {
            28
        }
    } else if month == 4 || month == 6 || month == 9 || month == 11 {
        30
    } else {
        31
    };
    &&& -262143 <= year <= 262142
    &&& 1 <= month <= 12
    &&& 1 <= day <= days
}

/// The text of a day as `chrono` formats it with a format string.
pub uninterp spec fn date_text(year: i32, month: u32, day: u32, format: Seq<char>) -> Seq<char>;

/// Whether `chrono` can format a date with the format string (it holds no unknown or
/// time-of-day item).
pub uninterp spec fn date_format_accepted(format: Seq<char>) -> bool;

/// The decimal digit `d` (0 to 9).
pub open spec fn decimal_digit(d: int) -> char {
    (d + 48) as char
}

/// `n` (0 to 99) as two digits.
pub open spec fn two_digits(n: int) -> Seq<char> {
    seq![decimal_digit(n / 10), decimal_digit(n % 10)]
}

/// A day written `YYYY-MM-DD`, for a year from 0 to 9999.
pub open spec fn iso_date_text(year: int, month: int, day: int) -> Seq<char> {
    two_digits(year / 100) + two_digits(year % 100) + seq!['-'] + two_digits(month) + seq!['-']
        + two_digits(day)
}

/// `chrono::NaiveDate::from_ymd_opt`, then the date formatted with `format`: `None` when
/// the day does not exist or the format cannot be applied to a date. With the format
/// `%Y-%m-%d` every day can be formatted, and for the years 0 to 9999 the text is stated;
/// for other formats and years the text and which formats apply are named.
#[verifier::external_body]
fn formatted_date(year: i32, month: u32, day: u32, format: &str) -> (r: Option<String>)
    ensures
        r is Some ==> is_calendar_date(year as int, month as int, day as int),
        r is Some ==> date_format_accepted(format@),
        r is None ==> !is_calendar_date(year as int, month as int, day as int)
            || !date_format_accepted(format@),
        r matches Some(t) ==> t@ == date_text(year, month, day, format@),
        format@ == "%Y-%m-%d"@ && is_calendar_date(year as int, month as int, day as int)
            ==> r is Some,
        format@ == "%Y-%m-%d"@ && 0 <= year <= 9999 ==> (r matches Some(t) ==> t@
            == iso_date_text(year as int, month as int, day as int)),
{
    match chrono::NaiveDate::from_ymd_opt(year, month, day) {
        Some(d) => {
            let mut t = String::new();
            match write!(t, "{}", d.format(format)) {
                Ok(()) => Some(t),
                Err(_) => None,
            }
        },
        None => None,
    }
}

/// The date from which the statistics start, as text: the first day of the month
/// `num_months` months before the current one, formatted `%Y-%m-%d` (`YYYY-MM-DD` for
/// the years 0 to 9999); `None` if `chrono` cannot represent that day.
pub fn start_cutoff(now_year: i32, now_month: u32, num_months: u32) -> (r: Option<String>)
    requires
        1 <= now_month <= 12,
        i32::MIN <= months_before(now_year as int, now_month as int, num_months as int).0,
    ensures
        ({
            let (y, m) = months_before(now_year as int, now_month as int, num_months as int);
            &&& r is Some <==> -262143 <= y <= 262142
            &&& r matches Some(t) ==> t@ == date_text(y as i32, m as u32, 1, "%Y-%m-%d"@)
            &&& 0 <= y <= 9999 ==> (r matches Some(t) && t@ == iso_date_text(y, m, 1))
        }),
{
    let (year, month) = start_period(now_year, now_month, num_months);
    formatted_date(year, month, 1, "%Y-%m-%d")
}

/// How many months before the current month the dated item lies (negative for a later
/// month).
pub open spec fn months_ago(now_year: int, now_month: int, year: int, month: int) -> int {
    month_number(now_year, now_month) - month_number(year, month)
}

/// The contents, in order, of the items that lie `k` months before the current month.
pub open spec fn items_of_month<T>(items: Seq<(i32, u32, T)>, now_year: int, now_month: int, k: int) -> Seq<T>
    decreases items.len(),
{
    if items.len() == 0 {
        Seq::empty()
    } else {
        let prev = items_of_month(items.drop_last(), now_year, now_month, k);
        let it = items.last();
        if months_ago(now_year, now_month, it.0 as int, it.1 as int) == k {
            prev.push(it.2)
        } else {
            prev
        }
    }
}

/// The views of a vector of vectors.
pub open spec fn nested_view<T>(v: Seq<Vec<T>>) -> Seq<Seq<T>> {
    Seq::new(v.len(), |i: int| v[i]@)
}

fn months_ago_exec(now_year: i32, now_month: u32, year: i32, month: u32) -> (r: i64)
    ensures
        r == months_ago(now_year as int, now_month as int, year as int, month as int),
{
    (now_year as i64 * 12 + now_month as i64) - (year as i64 * 12 + month as i64)
}

/// Groups dated items by calendar month: group `k` holds, in order, the contents of the
/// items of the month `k` months before the current one, for the `count` months from the
/// current one back; items of other months are left out.
pub fn group_by_month<T: Copy>(items: &Vec<(i32, u32, T)>, now_year: i32, now_month: u32, count: u32) -> (r:
    Vec<Vec<T>>)
    ensures
        r@.len() == count,
        forall|k: int|
            0 <= k < count ==> #[trigger] nested_view(r@)[k] == items_of_month(
                items@,
                now_year as int,
                now_month as int,
                k,
            ),
{
    let mut all: Vec<Vec<T>> = Vec::new();
    let mut k: u32 = 0;
    while k < count
        invariant
            k <= count,
            all@.len() == k,
            forall|j: int|
                0 <= j < k ==> #[trigger] nested_view(all@)[j] == items_of_month(
                    items@,
                    now_year as int,
                    now_month as int,
                    j,
                ),
        decreases count - k,
    {
        let mut group: Vec<T> = Vec::new();
        let mut i: usize = 0;
        while i < items.len()
            invariant
                i <= items@.len(),
                group@ == items_of_month(items@.take(i as int), now_year as int, now_month as int, k as int),
            decreases items@.len() - i,
        {
            assert(items@.take(i as int + 1).drop_last() =~= items@.take(i as int));
            let (year, month, payload) = items[i];
            if months_ago_exec(now_year, now_month, year, month) == k as i64 {
                group.push(payload);
            }
            i = i + 1;
        }
        assert(items@.take(items@.len() as int) =~= items@);
        let ghost before = all@;
        all.push(group);
        assert forall|j: int| 0 <= j < k + 1 implies #[trigger] nested_view(all@)[j]
            == items_of_month(items@, now_year as int, now_month as int, j) by {
            if j < k {
                assert(nested_view(all@)[j] == nested_view(before)[j]);
            }
        }
        k = k + 1;
    }
    all
}

/// The sum of the amounts.
pub open spec fn cents_total(s: Seq<i64>) -> int
    decreases s.len(),
{
    if s.len() == 0 {
        0
    } else {
        cents_total(s.drop_last()) + s.last()
    }
}

/// Every running total of the amounts, in order, fits in an `i64`.
pub open spec fn running_totals_fit(s: Seq<i64>) -> bool {
    forall|k: int| 0 <= k <= s.len() ==> i64::MIN <= #[trigger] cents_total(s.take(k)) <= i64::MAX
}

/// Adds up amounts in cents, in order.
pub fn total_cents(amounts: &Vec<i64>) -> (r: i64)
    requires
        running_totals_fit(amounts@),
    ensures
        r == cents_total(amounts@),
{
    let mut total: i64 = 0;
    let mut i: usize = 0;
    while i < amounts.len()
        invariant
            running_totals_fit(amounts@),
            i <= amounts@.len(),
            total == cents_total(amounts@.take(i as int)),
        decreases amounts@.len() - i,
    {
        assert(amounts@.take(i as int + 1).drop_last() =~= amounts@.take(i as int));
        assert(i64::MIN <= cents_total(amounts@.take(i as int + 1)) <= i64::MAX);
        total = total + amounts[i];
        i = i + 1;
    }
    assert(amounts@.take(amounts@.len() as int) =~= amounts@);
    total
}

/// The total of the offerings that came by the source.
pub open spec fn source_total(s: Seq<(i64, OfferingSource)>, source: OfferingSource) -> int
    decreases s.len(),
{
    if s.len() == 0 {
        0
    } else {
        source_total(s.drop_last(), source) + if s.last().1 == source {
            s.last().0 as int
        } else {
            0
        }
    }
}

/// Every running total of the offerings of each counted source fits in an `i64`.
pub open spec fn source_totals_fit(s: Seq<(i64, OfferingSource)>) -> bool {
    forall|k: int, source: OfferingSource|
        0 <= k <= s.len() && source != OfferingSource::ReturnedCheck ==> i64::MIN
            <= #[trigger] source_total(s.take(k), source) <= i64::MAX
}

/// The offerings of a month added up by how they were given: in person, online, and by
/// unknown means. Returned checks are not counted.
pub fn giving_by_source(offerings: &Vec<(i64, OfferingSource)>) -> (r: (i64, i64, i64))
    requires
        source_totals_fit(offerings@),
    ensures
        r.0 == source_total(offerings@, OfferingSource::InPerson),
        r.1 == source_total(offerings@, OfferingSource::Online),
        r.2 == source_total(offerings@, OfferingSource::Unknown),
{
    let mut in_person: i64 = 0;
    let mut online: i64 = 0;
    let mut unknown: i64 = 0;
    let mut i: usize = 0;
    while i < offerings.len()
        invariant
            source_totals_fit(offerings@),
            i <= offerings@.len(),
            in_person == source_total(offerings@.take(i as int), OfferingSource::InPerson),
            online == source_total(offerings@.take(i as int), OfferingSource::Online),
            unknown == source_total(offerings@.take(i as int), OfferingSource::Unknown),
        decreases offerings@.len() - i,
    {
        let ghost next = offerings@.take(i as int + 1);
        assert(next.drop_last() =~= offerings@.take(i as int));
        assert(i64::MIN <= source_total(next, OfferingSource::InPerson) <= i64::MAX);
        assert(i64::MIN <= source_total(next, OfferingSource::Online) <= i64::MAX);
        assert(i64::MIN <= source_total(next, OfferingSource::Unknown) <= i64::MAX);
        let (total, source) = offerings[i];
        match source {
            OfferingSource::InPerson => in_person = in_person + total,
            OfferingSource::Online => online = online + total,
            OfferingSource::Unknown => unknown = unknown + total,
            OfferingSource::ReturnedCheck => {},
        }
        i = i + 1;
    }
    assert(offerings@.take(offerings@.len() as int) =~= offerings@);
    (in_person, online, unknown)
}

/// The accounts that the items name.
pub open spec fn item_accounts(items: Seq<(i64, i64)>) -> Set<i64> {
    Set::new(|a: i64| exists|i: int| 0 <= i < items.len() && items[i].0 == a)
}

/// The total of the amounts of the items booked to the account.
pub open spec fn account_total(items: Seq<(i64, i64)>, account_id: i64) -> int
    decreases items.len(),
{
    if items.len() == 0 {
        0
    } else {
        account_total(items.drop_last(), account_id) + if items.last().0 == account_id {
            items.last().1 as int
        } else {
            0
        }
    }
}

/// Every running total of each account fits in an `i64`.
pub open spec fn account_totals_fit(items: Seq<(i64, i64)>) -> bool {
    forall|k: int, a: i64|
        0 <= k <= items.len() ==> i64::MIN <= #[trigger] account_total(items.take(k), a)
            <= i64::MAX
}

/// The expenses of a month added up per account, from its items (account, amount in
/// cents): one total for each account that the items name.
pub fn expense_totals(items: &Vec<(i64, i64)>) -> (r: IdMap<i64, i64>)
    requires
        account_totals_fit(items@),
    ensures
        r.wf(),
        r.spec_map().dom() == item_accounts(items@),
        forall|a: i64| #[trigger]
            r.spec_map().dom().contains(a) ==> r.spec_map()[a] == account_total(items@, a),
{
    let mut totals: IdMap<i64, i64> = IdMap::new();
    let mut i: usize = 0;
    while i < items.len()
        invariant
            account_totals_fit(items@),
            i <= items@.len(),
            totals.wf(),
            totals.spec_map().dom() == item_accounts(items@.take(i as int)),
            forall|a: i64| #[trigger]
                totals.spec_map().dom().contains(a) ==> totals.spec_map()[a] == account_total(
                    items@.take(i as int),
                    a,
                ),
        decreases items@.len() - i,
    {
        let ghost prev = items@.take(i as int);
        let ghost next = items@.take(i as int + 1);
        assert(next.drop_last() =~= prev);
        let (account_id, amount) = items[i];
        assert(i64::MIN <= account_total(next, account_id) <= i64::MAX);
        let sum: i64 = match totals.get(&account_id) {
            Some(t) => *t + amount,
            None => {
                proof {
                    assert(!item_accounts(prev).contains(account_id));
                    assert forall|j: int| 0 <= j < prev.len() implies prev[j].0 != account_id by {
                        if prev[j].0 == account_id {
                            assert(item_accounts(prev).contains(account_id));
                        }
                    }
                    lemma_account_total_absent(prev, account_id);
                }
                amount
            },
        };
        totals.insert(account_id, sum);
        proof {
            assert(next[i as int] == (account_id, amount));
            assert forall|a: i64| #[trigger] item_accounts(next).contains(a) <==> totals.spec_map().dom().contains(a) by {
                if item_accounts(prev).contains(a) {
                    let j = choose|j: int| 0 <= j < prev.len() && prev[j].0 == a;
                    assert(next[j].0 == a);
                }
                if item_accounts(next).contains(a) && a != account_id {
                    let j = choose|j: int| 0 <= j < next.len() && next[j].0 == a;
                    assert(prev[j].0 == a);
                }
                if a == account_id {
                    assert(next[i as int].0 == a);
                }
            }
            assert(totals.spec_map().dom() =~= item_accounts(next));
        }
        i = i + 1;
    }
    assert(items@.take(items@.len() as int) =~= items@);
    totals
}

proof fn lemma_account_total_absent(items: Seq<(i64, i64)>, account_id: i64)
    requires
        forall|j: int| 0 <= j < items.len() ==> items[j].0 != account_id,
    ensures
        account_total(items, account_id) == 0,
    decreases items.len(),
{
    if items.len() > 0 {
        lemma_account_total_absent(items.drop_last(), account_id);
    }
}

/// `a` ranks before `b` among expenses (amount, account): a larger amount first, and of
/// equal amounts the smaller account first.
pub open spec fn ranks_before(a: (i64, i64), b: (i64, i64)) -> bool {
    a.0 > b.0 || (a.0 == b.0 && a.1 < b.1)
}

/// Whether the account is among the chosen expenses.
pub open spec fn chosen(r: Seq<(i64, i64)>, account_id: i64) -> bool {
    exists|i: int| 0 <= i < r.len() && r[i].1 == account_id
}

/// `r` lists the largest expenses of the totals, at most `n`, in rank order: each is an
/// account's total; every account left out ranks after all that were chosen; and fewer
/// than `n` are chosen only when every account was.
pub open spec fn is_top_expenses(totals: Map<i64, i64>, n: nat, r: Seq<(i64, i64)>) -> bool {
    &&& r.len() <= n
    &&& forall|i: int, j: int| 0 <= i < j < r.len() ==> ranks_before(r[i], r[j])
    &&& forall|i: int|
        0 <= i < r.len() ==> totals.dom().contains(#[trigger] r[i].1) && totals[r[i].1] == r[i].0
    &&& forall|a: i64|
        totals.dom().contains(a) && !chosen(r, a) ==> forall|i: int|
            0 <= i < r.len() ==> ranks_before(#[trigger] r[i], (totals[a], a))
    &&& r.len() < n ==> forall|a: i64| #[trigger] totals.dom().contains(a) ==> chosen(r, a)
}

fn is_chosen(r: &Vec<(i64, i64)>, account_id: i64) -> (b: bool)
    ensures
        b == chosen(r@, account_id),
{
    let mut i: usize = 0;
    while i < r.len()
        invariant
            i <= r@.len(),
            forall|j: int| 0 <= j < i ==> r@[j].1 != account_id,
        decreases r@.len() - i,
    {
        if r[i].1 == account_id {
            return true;
        }
        i = i + 1;
    }
    false
}

/// The `n` largest expenses (amount, account) of the per-account totals, largest first;
/// of equal amounts the smaller account comes first.
pub fn top_expenses(totals: &IdMap<i64, i64>, n: usize) -> (r: Vec<(i64, i64)>)
    requires
        totals.wf(),
    ensures
        is_top_expenses(totals.spec_map(), n as nat, r@),
{
    let entries = totals.entries();
    let ghost m = totals.spec_map();
    proof {
        lemma_assoc_dom(entries@);
    }
    let mut r: Vec<(i64, i64)> = Vec::new();
    loop
        invariant_except_break
            keys_distinct(entries@),
            assoc_to_map(entries@) == m,
            r@.len() <= n,
            forall|i: int, j: int| 0 <= i < j < r@.len() ==> ranks_before(r@[i], r@[j]),
            forall|i: int|
                0 <= i < r@.len() ==> m.dom().contains(#[trigger] r@[i].1) && m[r@[i].1]
                    == r@[i].0,
            forall|a: i64|
                m.dom().contains(a) && !chosen(r@, a) ==> forall|i: int|
                    0 <= i < r@.len() ==> ranks_before(#[trigger] r@[i], (m[a], a)),
        ensures
            is_top_expenses(m, n as nat, r@),
        decreases n - r@.len(),
    {
        if r.len() >= n {
            break;
        }
        let mut best: Option<(i64, i64)> = None;
        let mut j: usize = 0;
        while j < entries.len()
            invariant
                keys_distinct(entries@),
                assoc_to_map(entries@) == m,
                j <= entries@.len(),
                best is None ==> forall|k: int| 0 <= k < j ==> chosen(r@, #[trigger] entries@[k].0),
                best matches Some(b) ==> {
                    &&& m.dom().contains(b.1) && m[b.1] == b.0
                    &&& !chosen(r@, b.1)
                    &&& forall|k: int|
                        0 <= k < j && !chosen(r@, #[trigger] entries@[k].0) ==> entries@[k].0
                            == b.1 || ranks_before(b, (entries@[k].1, entries@[k].0))
                },
            decreases entries@.len() - j,
        {
            proof {
                lemma_assoc_index(entries@, j as int);
            }
            let (account_id, amount) = entries[j];
            let ghost old_best = best;
            if !is_chosen(&r, account_id) {
                match best {
                    None => {
                        best = Some((amount, account_id));
                    },
                    Some(b) => {
                        if amount > b.0 || (amount == b.0 && account_id < b.1) {
                            best = Some((amount, account_id));
                        }
                    },
                }
            }
            proof {
                if let Some(nb) = best {
                    assert forall|k: int|
                        0 <= k < j + 1 && !chosen(r@, #[trigger] entries@[k].0) implies entries@[k].0
                        == nb.1 || ranks_before(nb, (entries@[k].1, entries@[k].0)) by {
                        if k < j {
                            if let Some(ob) = old_best {
                                assert(entries@[k].0 == ob.1 || ranks_before(
                                    ob,
                                    (entries@[k].1, entries@[k].0),
                                ));
                                if entries@[k].0 == ob.1 {
                                    lemma_assoc_index(entries@, k);
                                }
                            }
                        }
                    }
                }
            }
            j = j + 1;
        }
        match best {
            None => {
                proof {
                    lemma_assoc_dom(entries@);
                    assert forall|a: i64| #[trigger] m.dom().contains(a) implies chosen(r@, a) by {
                        assert(assoc_to_map(entries@).dom().contains(a));
                        let k = choose|k: int| 0 <= k < entries@.len() && entries@[k].0 == a;
                        assert(chosen(r@, entries@[k].0));
                    }
                }
                break;
            },
            Some(b) => {
                let ghost before = r@;
                r.push(b);
                proof {
                    assert(r@.drop_last() == before);
                    lemma_assoc_dom(entries@);
                    assert forall|a: i64| m.dom().contains(a) && !chosen(r@, a) implies forall|i: int|
                        0 <= i < r@.len() ==> ranks_before(#[trigger] r@[i], (m[a], a)) by {
                        assert(assoc_to_map(entries@).dom().contains(a));
                        let k = choose|k: int| 0 <= k < entries@.len() && entries@[k].0 == a;
                        lemma_assoc_index(entries@, k);
                        assert(!chosen(before, a)) by {
                            if chosen(before, a) {
                                let i = choose|i: int| 0 <= i < before.len() && before[i].1 == a;
                                assert(r@[i].1 == a);
                            }
                        }
                        assert(a != b.1) by {
                            assert(r@[before.len() as int].1 == b.1);
                        }
                        assert(ranks_before(b, (entries@[k].1, entries@[k].0)));
                    }
                    assert forall|q: int, t: int| 0 <= q < t < r@.len() implies ranks_before(
                        r@[q],
                        r@[t],
                    ) by {
                        if t == before.len() {
                            assert(r@[q] == before[q]);
                        }
                    }
                    assert forall|x: i64| chosen(r@, x) implies (chosen(before, x) || x == b.1) by {
                        let i = choose|i: int| 0 <= i < r@.len() && r@[i].1 == x;
                        if i < before.len() {
                            assert(before[i].1 == x);
                        }
                    }
                }
            },
        }
    }
    r
}

/// The name of the account by the accounts as read, the last one read winning; "unknown
/// account" if there is none.
pub open spec fn account_name(accounts: Seq<JewelAccount>, account_id: i64) -> Seq<char>
    decreases accounts.len(),
{
    if accounts.len() == 0 {
        "unknown account"@
    } else if accounts.last().account_id == account_id {
        accounts.last().name@
    } else {
        account_name(accounts.drop_last(), account_id)
    }
}

/// Pairs each expense (amount, account) with the name of its account.
pub fn name_expenses(top: &Vec<(i64, i64)>, accounts: &Vec<JewelAccount>) -> (r: Vec<(i64, String)>)
    ensures
        r@.len() == top@.len(),
        forall|i: int|
            0 <= i < r@.len() ==> #[trigger] r@[i].0 == top@[i].0 && r@[i].1@ == account_name(
                accounts@,
                top@[i].1,
            ),
{
    let mut r: Vec<(i64, String)> = Vec::new();
    let mut i: usize = 0;
    while i < top.len()
        invariant
            i <= top@.len(),
            r@.len() == i,
            forall|k: int|
                0 <= k < i ==> #[trigger] r@[k].0 == top@[k].0 && r@[k].1@ == account_name(
                    accounts@,
                    top@[k].1,
                ),
        decreases top@.len() - i,
    {
        let (amount, account_id) = top[i];
        let mut j: usize = accounts.len();
        let mut name: Option<String> = None;
        assert(accounts@.take(j as int) =~= accounts@);
        while j > 0 && name.is_none()
            invariant
                j <= accounts@.len(),
                name is None ==> account_name(accounts@, account_id) == account_name(
                    accounts@.take(j as int),
                    account_id,
                ),
                name matches Some(t) ==> t@ == account_name(accounts@, account_id),
            decreases j,
        {
            assert(accounts@.take(j as int).drop_last() =~= accounts@.take(j as int - 1));
            if accounts[j - 1].account_id == account_id {
                name = Some(accounts[j - 1].name.clone());
            }
            j = j - 1;
        }
        let text = match name {
            Some(t) => t,
            None => {
                assert(accounts@.take(0) =~= Seq::<JewelAccount>::empty());
                proof {
                    reveal_strlit("unknown account");
                }
                String::from_str("unknown account")
            },
        };
        r.push((amount, text));
        i = i + 1;
    }
    r
}

} // verus!
