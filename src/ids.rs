//! Fresh identifiers: random UUIDs, and dated identifiers such as
//! `MNVR-20240120-1A2B3C4D` for maneuvers.

use vstd::prelude::*;

verus! {

/// A digit or a lower-case hexadecimal letter.
pub open spec fn is_lower_hex(c: char) -> bool {
    ('0' <= c && c <= '9') || ('a' <= c && c <= 'f')
}

/// The hyphenated UUID layout: 36 characters, hyphens at positions 8, 13,
/// 18 and 23, lower-case hexadecimal digits everywhere else.
pub open spec fn is_hyphenated_uuid(s: Seq<char>) -> bool {
    &&& s.len() == 36
    &&& forall|i: int|
        0 <= i < 36 ==> if i == 8 || i == 13 || i == 18 || i == 23 {
            #[trigger] s[i] == '-'
        } else {
            is_lower_hex(s[i])
        }
}

/// Relies on `uuid::Uuid::new_v4` and its `Display`, which writes the
/// hyphenated lower-case hexadecimal form (`8-4-4-4-12` digits).
#[verifier::external_body]
pub(crate) fn new_uuid() -> (r: String)
    ensures
        is_hyphenated_uuid(r@),
{
    uuid::Uuid::new_v4().to_string()
}

/// Relies on `chrono::Utc::now` and `DateTime::format` with `%Y%m%d`: today's
/// UTC date as year, month and day digits.
#[verifier::external_body]
fn today_compact() -> (r: String) {
    chrono::Utc::now().format("%Y%m%d").to_string()
}

/// The letters `a` to `f` raised to `A` to `F`; every other character
/// unchanged (on hexadecimal digits, upper case).
pub open spec fn hex_upper(s: Seq<char>) -> Seq<char> {
    s.map_values(|c: char| if 'a' <= c && c <= 'f' { ((c as u32) - 32) as char } else { c })
}

fn upper_hex_letter(c: char) -> (r: &'static str)
    requires
        'a' <= c && c <= 'f',
    ensures
        r@ == seq![((c as u32) - 32) as char],
{
    proof {
        reveal_strlit("A");
        reveal_strlit("B");
        reveal_strlit("C");
        reveal_strlit("D");
        reveal_strlit("E");
        reveal_strlit("F");
    }
    if c == 'a' {
        "A"
    } else if c == 'b' {
        "B"
    } else if c == 'c' {
        "C"
    } else if c == 'd' {
        "D"
    } else if c == 'e' {
        "E"
    } else {
        "F"
    }
}

/// `prefix`, a dash, `date`, a dash, then the first eight characters of
/// `uuid` with hexadecimal letters in upper case.
pub fn dated_id(prefix: &str, date: &str, uuid: &str) -> (r: String)
    requires
        uuid@.len() >= 8,
    ensures
        r@ == prefix@ + "-"@ + date@ + "-"@ + hex_upper(uuid@.take(8)),
{
    let mut tail = String::new();
    let mut i: usize = 0;
    while i < 8
        invariant
            i <= 8,
            uuid@.len() >= 8,
            tail@ == hex_upper(uuid@.take(i as int)),
        decreases 8 - i,
    {
        let c = uuid.get_char(i);
        let ghost u = if 'a' <= c && c <= 'f' { ((c as u32) - 32) as char } else { c };
        if 'a' <= c && c <= 'f' {
            tail.append(upper_hex_letter(c));
        } else {
            tail.append(uuid.substring_char(i, i + 1));
        }
        assert(hex_upper(uuid@.take(i + 1)) =~= hex_upper(uuid@.take(i as int)).push(u));
        i = i + 1;
    }
    String::from_str(prefix).concat("-").concat(date).concat("-").concat(tail.as_str())
}

/// A dated identifier: `prefix`, a dash, a date, a dash, and eight
/// upper-case hexadecimal digits.
pub open spec fn is_dated_id(r: Seq<char>, prefix: Seq<char>) -> bool {
    exists|d: Seq<char>, u: Seq<char>|
        u.len() == 8 && (forall|i: int| 0 <= i < 8 ==> is_lower_hex(#[trigger] u[i])) && r
            == prefix + "-"@ + d + "-"@ + hex_upper(u)
}

/// A new identifier under `prefix`: today's date and the first eight digits
/// of a fresh UUID.
fn new_dated_id(prefix: &str) -> (r: String)
    ensures
        is_dated_id(r@, prefix@),
{
    let uuid = new_uuid();
    let date = today_compact();
    let r = dated_id(prefix, date.as_str(), uuid.as_str());
    let ghost u = uuid@.take(8);
    assert(forall|i: int| 0 <= i < 8 ==> is_lower_hex(#[trigger] u[i]));
    assert(r@ == prefix@ + "-"@ + date@ + "-"@ + hex_upper(u));
    r
}

/// A new maneuver identifier, `MNVR-` then today's date, a dash and eight
/// upper-case hexadecimal digits.
pub fn new_maneuver_id() -> (r: String)
    ensures
        is_dated_id(r@, "MNVR"@),
        r@.take(5) == "MNVR-"@,
{
    let r = new_dated_id("MNVR");
    proof {
        reveal_strlit("MNVR");
        reveal_strlit("-");
        reveal_strlit("MNVR-");
        let (d, u) = choose|d: Seq<char>, u: Seq<char>|
            u.len() == 8 && (forall|i: int| 0 <= i < 8 ==> is_lower_hex(#[trigger] u[i])) && r@
                == "MNVR"@ + "-"@ + d + "-"@ + hex_upper(u);
        assert(r@.take(5) =~= "MNVR-"@);
    }
    r
}

/// A new CDM identifier, `CDM-` then today's date, a dash and eight
/// upper-case hexadecimal digits.
pub fn new_cdm_id() -> (r: String)
    ensures
        is_dated_id(r@, "CDM"@),
        r@.take(4) == "CDM-"@,
{
    let r = new_dated_id("CDM");
    proof {
        reveal_strlit("CDM");
        reveal_strlit("-");
        reveal_strlit("CDM-");
        let (d, u) = choose|d: Seq<char>, u: Seq<char>|
            u.len() == 8 && (forall|i: int| 0 <= i < 8 ==> is_lower_hex(#[trigger] u[i])) && r@
                == "CDM"@ + "-"@ + d + "-"@ + hex_upper(u);
        assert(r@.take(4) =~= "CDM-"@);
    }
    r
}

} // verus!
