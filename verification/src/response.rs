//! The scanner for the response payload of an account query: a flat text
//! with one fragment per account, each with a name field and a balance
//! field between fixed markers. It searches; it does not validate the
//! document.

use crate::dispatch::Invocation;
use crate::protocol::{spec_process_request, QbxmlRequestProcessor};
use crate::text::{
    chars_of, copy_range, find, find_from, find_trim_bounds, lemma_find_from_is_leftmost,
    trimmed_range,
};
use vstd::prelude::*;

verus! {

/// The marker that starts an account fragment.
pub open spec fn record_start() -> Seq<char> {
    "<AccountRet>"@
}

/// The marker that ends an account fragment.
pub open spec fn record_end() -> Seq<char> {
    "</AccountRet>"@
}

/// The text of the first field of `xml` that `start_tag` and `end_tag`
/// enclose, without the white space around it: from the first `start_tag`
/// to the first `end_tag` after it.
pub open spec fn spec_extract_xml_field(
    xml: Seq<char>,
    start_tag: Seq<char>,
    end_tag: Seq<char>,
) -> Option<Seq<char>> {
    match find_from(xml, start_tag, 0) {
        None => None,
        Some(at) => match find_from(xml, end_tag, at + start_tag.len()) {
            None => None,
            Some(end) => Some(trimmed_range(xml, at + start_tag.len(), end)),
        },
    }
}

/// The first fragment at or after `from` whose name field is exactly
/// `key`. Fragments are taken from left to right, each from a start marker
/// to the first end marker after it; the search ends at a start marker
/// without an end marker.
pub open spec fn spec_find_account(payload: Seq<char>, key: Seq<char>, from: int) -> Option<
    Seq<char>,
>
    decreases payload.len() - from,
{
    match find_from(payload, record_start(), from) {
        None => None,
        Some(start) => match find_from(payload, record_end(), start) {
            None => None,
            Some(close) => {
                let end = close + record_end().len();
                let block = payload.subrange(start, end);
                if spec_extract_xml_field(block, "<FullName>"@, "</FullName>"@) == Some(key) {
                    Some(block)
                } else {
                    proof {
                        reveal_strlit("</AccountRet>");
                        lemma_find_from_is_leftmost(payload, record_start(), from);
                        lemma_find_from_is_leftmost(payload, record_end(), start);
                    }
                    spec_find_account(payload, key, end)
                }
            },
        },
    }
}

pub open spec fn is_digit(c: char) -> bool {
    '0' <= c <= '9'
}

pub open spec fn is_sign(c: char) -> bool {
    c == '+' || c == '-'
}

/// The index after the digits that stand in `s` from `from` on.
pub open spec fn digits_end(s: Seq<char>, from: int) -> int
    decreases s.len() - from,
{
    if 0 <= from < s.len() && is_digit(s[from]) {
        digits_end(s, from + 1)
    } else {
        from
    }
}

/// Whether `c` is `letter`, or the upper-case ASCII letter of which
/// `letter` is the lower-case form.
pub open spec fn is_letter(c: char, letter: char) -> bool {
    c == letter || ('A' <= c <= 'Z' && (c as u32) + 32 == (letter as u32))
}

/// Whether `s` is `word` but for the case of its ASCII letters.
pub open spec fn is_word(s: Seq<char>, word: Seq<char>) -> bool {
    &&& s.len() == word.len()
    &&& forall|i: int| 0 <= i < s.len() ==> is_letter(#[trigger] s[i], word[i])
}

/// Whether an exponent stands at `at` and ends `s`: `e` or `E`, a sign or
/// none, one digit or more.
pub open spec fn is_exponent(s: Seq<char>, at: int) -> bool {
    let digits = if at + 1 < s.len() && is_sign(s[at + 1]) {
        at + 2
    } else {
        at + 1
    };
    &&& 0 <= at < s.len()
    &&& s[at] == 'e' || s[at] == 'E'
    &&& digits_end(s, digits) > digits
    &&& digits_end(s, digits) == s.len()
}

/// Whether a decimal number stands in `s` from `start` to its end: digits
/// with at most one point among them, before them or after them, at least
/// one digit in all, then an exponent or nothing.
pub open spec fn is_decimal(s: Seq<char>, start: int) -> bool {
    let whole_end = digits_end(s, start);
    let has_point = whole_end < s.len() && s[whole_end] == '.';
    let fraction_start = if has_point {
        whole_end + 1
    } else {
        whole_end
    };
    let fraction_end = digits_end(s, fraction_start);
    &&& (whole_end - start) + (fraction_end - fraction_start) > 0
    &&& fraction_end == s.len() || is_exponent(s, fraction_end)
}

/// Whether `s` is a number: a sign or none, and then either a decimal
/// number or one of the words `inf`, `infinity` and `nan` in any case.
pub open spec fn is_number(s: Seq<char>) -> bool {
    let start: int = if s.len() > 0 && is_sign(s[0]) {
        1
    } else {
        0
    };
    let body = s.subrange(start, s.len() as int);
    ||| is_word(body, "inf"@)
    ||| is_word(body, "infinity"@)
    ||| is_word(body, "nan"@)
    ||| is_decimal(s, start)
}

/// What a payload says of the balance of an account.
#[derive(Debug, PartialEq, Eq)]
pub enum BalanceLookup {
    /// No fragment has this name.
    NotFound,
    /// The fragment of this name has no balance field.
    Missing,
    /// The balance field holds this text, which is no number.
    Malformed { text: String },
    /// The balance field holds this number.
    Value { text: String },
}

/// A [`BalanceLookup`] as a mathematical value.
pub enum BalanceLookupView {
    NotFound,
    Missing,
    Malformed { text: Seq<char> },
    Value { text: Seq<char> },
}

impl View for BalanceLookup {
    type V = BalanceLookupView;

    open spec fn view(&self) -> BalanceLookupView {
        match self {
            BalanceLookup::NotFound => BalanceLookupView::NotFound,
            BalanceLookup::Missing => BalanceLookupView::Missing,
            BalanceLookup::Malformed { text } => BalanceLookupView::Malformed { text: text@ },
            BalanceLookup::Value { text } => BalanceLookupView::Value { text: text@ },
        }
    }
}

/// What `payload` says of the account `key`: the balance field of the
/// first fragment whose name is exactly `key`.
pub open spec fn spec_lookup_balance(payload: Seq<char>, key: Seq<char>) -> BalanceLookupView {
    match spec_find_account(payload, key, 0) {
        None => BalanceLookupView::NotFound,
        Some(block) => match spec_extract_xml_field(block, "<Balance>"@, "</Balance>"@) {
            None => BalanceLookupView::Missing,
            Some(text) => if is_number(text) {
                BalanceLookupView::Value { text }
            } else {
                BalanceLookupView::Malformed { text }
            },
        },
    }
}

/// The balance of the account `key` in `payload`, as the text of a number:
/// that of the first fragment whose name is exactly `key`. None where no
/// fragment has that name, and none where the fragment's balance field is
/// missing or holds no number.
pub open spec fn spec_extract_balance(payload: Seq<char>, key: Seq<char>) -> Option<Seq<char>> {
    match spec_lookup_balance(payload, key) {
        BalanceLookupView::Value { text } => Some(text),
        _ => None,
    }
}

/// Where the field that `start_tag` and `end_tag` enclose begins and ends
/// in `xml`, white space cut off.
fn field_bounds(xml: &Vec<char>, start_tag: &Vec<char>, end_tag: &Vec<char>) -> (bounds: Option<
    (usize, usize),
>)
    ensures
        match bounds {
            Some((lo, hi)) => {
                &&& lo <= hi <= xml@.len()
                &&& spec_extract_xml_field(xml@, start_tag@, end_tag@) == Some(
                    xml@.subrange(lo as int, hi as int),
                )
            },
            None => spec_extract_xml_field(xml@, start_tag@, end_tag@) is None,
        },
{
    let length = xml.len();
    let at = match find(xml, start_tag, 0) {
        Some(at) => at,
        None => return None,
    };
    let start = at + start_tag.len();
    let end = match find(xml, end_tag, start) {
        Some(end) => end,
        None => return None,
    };
    let (lo, hi) = find_trim_bounds(xml, start, end);
    Some((lo, hi))
}

/// The text of the first field of `xml` that `start_tag` and `end_tag`
/// enclose, without the white space around it.
pub fn extract_xml_field(xml: &str, start_tag: &str, end_tag: &str) -> (field: Option<String>)
    ensures
        match spec_extract_xml_field(xml@, start_tag@, end_tag@) {
            Some(text) => field is Some && field->0@ == text,
            None => field is None,
        },
{
    let chars = chars_of(xml);
    let start = chars_of(start_tag);
    let end = chars_of(end_tag);
    match field_bounds(&chars, &start, &end) {
        Some((lo, hi)) => Some(copy_range(xml, lo, hi)),
        None => None,
    }
}

fn copy_chars(chars: &Vec<char>, lo: usize, hi: usize) -> (copy: Vec<char>)
    requires
        lo <= hi <= chars@.len(),
    ensures
        copy@ == chars@.subrange(lo as int, hi as int),
{
    let mut copy: Vec<char> = Vec::new();
    let mut i: usize = lo;
    while i < hi
        invariant
            lo <= i <= hi <= chars@.len(),
            copy@ == chars@.subrange(lo as int, i as int),
        decreases hi - i,
    {
        copy.push(chars[i]);
        i += 1;
    }
    copy
}

fn range_equals(chars: &Vec<char>, lo: usize, hi: usize, other: &Vec<char>) -> (same: bool)
    requires
        lo <= hi <= chars@.len(),
    ensures
        same == (chars@.subrange(lo as int, hi as int) == other@),
{
    if hi - lo != other.len() {
        return false;
    }
    let mut k: usize = 0;
    while k < other.len()
        invariant
            lo <= hi <= chars@.len(),
            hi - lo == other@.len(),
            k <= other@.len(),
            forall|j: int| 0 <= j < k ==> chars@[lo + j] == other@[j],
        decreases other@.len() - k,
    {
        if chars[lo + k] != other[k] {
            return false;
        }
        k += 1;
    }
    assert(chars@.subrange(lo as int, hi as int) =~= other@);
    true
}

/// Where the first fragment of the account `key` begins and ends.
fn find_account(payload: &Vec<char>, key: &Vec<char>) -> (bounds: Option<(usize, usize)>)
    ensures
        match bounds {
            Some((start, end)) => {
                &&& start <= end <= payload@.len()
                &&& spec_find_account(payload@, key@, 0) == Some(
                    payload@.subrange(start as int, end as int),
                )
            },
            None => spec_find_account(payload@, key@, 0) is None,
        },
{
    let start_marker = chars_of("<AccountRet>");
    let end_marker = chars_of("</AccountRet>");
    let name_start = chars_of("<FullName>");
    let name_end = chars_of("</FullName>");
    proof {
        reveal_strlit("</AccountRet>");
    }
    let length = payload.len();
    let mut from: usize = 0;
    loop
        invariant
            from <= payload@.len() == length,
            start_marker@ == record_start(),
            end_marker@ == record_end(),
            end_marker@.len() == 13,
            name_start@ == "<FullName>"@,
            name_end@ == "</FullName>"@,
            spec_find_account(payload@, key@, 0) == spec_find_account(payload@, key@, from as int),
        decreases payload@.len() - from,
    {
        let start = match find(payload, &start_marker, from) {
            Some(start) => start,
            None => return None,
        };
        let close = match find(payload, &end_marker, start) {
            Some(close) => close,
            None => return None,
        };
        let end = close + end_marker.len();
        let block = copy_chars(payload, start, end);
        match field_bounds(&block, &name_start, &name_end) {
            Some((lo, hi)) => {
                if range_equals(&block, lo, hi, key) {
                    return Some((start, end));
                }
            },
            None => {},
        }
        from = end;
    }
}

fn char_is_digit(c: char) -> (b: bool)
    ensures
        b == is_digit(c),
{
    '0' <= c && c <= '9'
}

fn char_is_sign(c: char) -> (b: bool)
    ensures
        b == is_sign(c),
{
    c == '+' || c == '-'
}

fn find_digits_end(s: &Vec<char>, from: usize) -> (end: usize)
    requires
        from <= s@.len(),
    ensures
        end == digits_end(s@, from as int),
        from <= end <= s@.len(),
{
    let mut i: usize = from;
    while i < s.len() && char_is_digit(s[i])
        invariant
            from <= i <= s@.len(),
            digits_end(s@, from as int) == digits_end(s@, i as int),
        decreases s@.len() - i,
    {
        i += 1;
    }
    i
}

fn char_is_letter(c: char, letter: char) -> (b: bool)
    ensures
        b == is_letter(c, letter),
{
    c == letter || ('A' <= c && c <= 'Z' && (c as u32) + 32 == (letter as u32))
}

fn range_is_word(s: &Vec<char>, start: usize, word: &str) -> (b: bool)
    requires
        start <= s@.len(),
    ensures
        b == is_word(s@.subrange(start as int, s@.len() as int), word@),
{
    let letters = chars_of(word);
    if s.len() - start != letters.len() {
        return false;
    }
    let ghost body = s@.subrange(start as int, s@.len() as int);
    let mut k: usize = 0;
    while k < letters.len()
        invariant
            start <= s@.len() <= usize::MAX,
            letters@ == word@,
            s@.len() - start == letters@.len(),
            body == s@.subrange(start as int, s@.len() as int),
            k <= letters@.len(),
            forall|j: int| 0 <= j < k ==> is_letter(#[trigger] body[j], word@[j]),
        decreases letters@.len() - k,
    {
        if !char_is_letter(s[start + k], letters[k]) {
            assert(body[k as int] == s@[start + k]);
            return false;
        }
        k += 1;
    }
    true
}

fn exponent_at(s: &Vec<char>, at: usize) -> (b: bool)
    requires
        at <= s@.len(),
    ensures
        b == is_exponent(s@, at as int),
{
    if at >= s.len() || !(s[at] == 'e' || s[at] == 'E') {
        return false;
    }
    let digits: usize = if at + 1 < s.len() && char_is_sign(s[at + 1]) {
        at + 2
    } else {
        at + 1
    };
    let end = find_digits_end(s, digits);
    end > digits && end == s.len()
}

fn decimal_from(s: &Vec<char>, start: usize) -> (b: bool)
    requires
        start <= s@.len(),
    ensures
        b == is_decimal(s@, start as int),
{
    let whole_end = find_digits_end(s, start);
    let has_point = whole_end < s.len() && s[whole_end] == '.';
    let fraction_start: usize = if has_point {
        whole_end + 1
    } else {
        whole_end
    };
    let fraction_end = find_digits_end(s, fraction_start);
    if (whole_end - start) + (fraction_end - fraction_start) == 0 {
        return false;
    }
    fraction_end == s.len() || exponent_at(s, fraction_end)
}

/// Whether `text` is a number: a sign or none, and then either digits with
/// at most one point and an exponent or none, or one of the words `inf`,
/// `infinity` and `nan` in any case.
pub fn is_number_text(text: &str) -> (b: bool)
    ensures
        b == is_number(text@),
{
    let s = chars_of(text);
    let start: usize = if s.len() > 0 && char_is_sign(s[0]) {
        1
    } else {
        0
    };
    range_is_word(&s, start, "inf") || range_is_word(&s, start, "infinity") || range_is_word(
        &s,
        start,
        "nan",
    ) || decimal_from(&s, start)
}

/// What `payload` says of the balance of the account
/// `target_account_key`.
pub fn lookup_balance(payload: &str, target_account_key: &str) -> (found: BalanceLookup)
    ensures
        found@ == spec_lookup_balance(payload@, target_account_key@),
{
    let chars = chars_of(payload);
    let key = chars_of(target_account_key);
    let (start, end) = match find_account(&chars, &key) {
        Some(bounds) => bounds,
        None => return BalanceLookup::NotFound,
    };
    let block = copy_chars(&chars, start, end);
    let balance_start = chars_of("<Balance>");
    let balance_end = chars_of("</Balance>");
    match field_bounds(&block, &balance_start, &balance_end) {
        None => BalanceLookup::Missing,
        Some((lo, hi)) => {
            assert(block@.subrange(lo as int, hi as int) =~= chars@.subrange(
                start + lo,
                start + hi,
            ));
            let text = copy_range(payload, start + lo, start + hi);
            if is_number_text(text.as_str()) {
                BalanceLookup::Value { text }
            } else {
                BalanceLookup::Malformed { text }
            }
        },
    }
}

/// The balance of the account `target_account_key` in `payload`, as the
/// text of a number: that of the first fragment whose name is exactly the
/// key, case and all. None where no fragment has that name, and none, with
/// no error, where the fragment's balance field is missing or holds no
/// number.
pub fn extract_balance(payload: &str, target_account_key: &str) -> (balance: Option<String>)
    ensures
        match spec_extract_balance(payload@, target_account_key@) {
            Some(text) => balance is Some && balance->0@ == text,
            None => balance is None,
        },
{
    match lookup_balance(payload, target_account_key) {
        BalanceLookup::Value { text } => Some(text),
        _ => None,
    }
}

/// The request that asks for the name and the balance of every account.
pub fn account_query_request() -> (request: String)
    ensures
        request@ == spec_account_query_request(),
{
    "<?xml version=\"1.0\" encoding=\"utf-8\"?>\n<?qbxml version=\"13.0\"?>\n<QBXML>\n   <QBXMLMsgsRq onError=\"continueOnError\">\n      <AccountQueryRq>\n        <IncludeRetElement>FullName</IncludeRetElement>\n        <IncludeRetElement>Balance</IncludeRetElement>\n      </AccountQueryRq>\n   </QBXMLMsgsRq>\n</QBXML>".to_owned()
}

/// The text of the account query.
pub open spec fn spec_account_query_request() -> Seq<char> {
    "<?xml version=\"1.0\" encoding=\"utf-8\"?>\n<?qbxml version=\"13.0\"?>\n<QBXML>\n   <QBXMLMsgsRq onError=\"continueOnError\">\n      <AccountQueryRq>\n        <IncludeRetElement>FullName</IncludeRetElement>\n        <IncludeRetElement>Balance</IncludeRetElement>\n      </AccountQueryRq>\n   </QBXMLMsgsRq>\n</QBXML>"@
}

impl QbxmlRequestProcessor {
    /// The call that submits the account query under `ticket`.
    pub fn get_account_xml(ticket: &str) -> (call: Invocation)
        ensures
            call@ == spec_process_request(ticket@, spec_account_query_request()),
    {
        let request = account_query_request();
        QbxmlRequestProcessor::process_request(ticket, request.as_str())
    }

    /// The balance of the account `account_full_name` in `response_xml`,
    /// as the text of a number.
    pub fn get_account_balance(response_xml: &str, account_full_name: &str) -> (balance: Option<
        String,
    >)
        ensures
            match spec_extract_balance(response_xml@, account_full_name@) {
                Some(text) => balance is Some && balance->0@ == text,
                None => balance is None,
            },
    {
        extract_balance(response_xml, account_full_name)
    }
}

} // verus!
