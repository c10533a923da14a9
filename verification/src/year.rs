//! The year heuristic: picking a four-digit year out of the free-form vendor
//! comment fields `YEAR`, `DATE` and `ORIGINALYEAR`.
//!
//! The candidate fields are looked up by their exact raw key, each defaulting
//! to the empty string when absent.  They are tried in the fixed priority
//! order `YEAR`, `DATE`, `ORIGINALYEAR`; the first whose value holds at least
//! four characters is parsed.  A ten-character candidate (the width of an ISO
//! `YYYY-MM-DD` date) is truncated to its first four characters first.  Any
//! parse failure — non-digit characters, overflow — degrades silently to 0.

use vstd::prelude::*;

use crate::metadata::RawTag;
use crate::metadata::TagView;

verus! {

/// Holds exactly of the ten decimal digit characters.
pub open spec fn is_decimal_digit(c: char) -> bool {
    '0' <= c && c <= '9'
}

/// The numeric value of a digit character.
pub open spec fn digit_value(c: char) -> int {
    (c as int) - ('0' as int)
}

/// Every character of `s` is a decimal digit.
pub open spec fn all_digits(s: Seq<char>) -> bool {
    forall|i: int| 0 <= i < s.len() ==> is_decimal_digit(#[trigger] s[i])
}

/// The integer denoted by `s` read as a big-endian decimal numeral.
pub open spec fn digits_value(s: Seq<char>) -> int
    decreases s.len(),
{
    if s.len() == 0 {
        0
    } else {
        digits_value(s.drop_last()) * 10 + digit_value(s.last())
    }
}

/// What parsing `s` as an unsigned 32-bit integer yields under the
/// silent-degrade policy: the denoted value when `s` is a nonempty string of
/// digits whose value fits, and 0 on any failure.
pub open spec fn parse_u32_spec(s: Seq<char>) -> u32 {
    if s.len() > 0 && all_digits(s) && digits_value(s) <= u32::MAX {
        digits_value(s) as u32
    } else {
        0
    }
}

/// The characters the year parser reads from a candidate: the first four
/// when the candidate is exactly ten characters wide, all of them otherwise.
pub open spec fn year_digits(s: Seq<char>) -> Seq<char> {
    if s.len() == 10 {
        s.take(4)
    } else {
        s
    }
}

/// The year denoted by one candidate string.
pub open spec fn parse_year_spec(s: Seq<char>) -> u32 {
    parse_u32_spec(year_digits(s))
}

/// The year picked from the three candidate fields, in the fixed priority
/// order `YEAR`, `DATE`, `ORIGINALYEAR`: the first with at least four
/// characters is parsed; when none qualifies the year is 0.
pub open spec fn resolve_year_spec(
    year: Seq<char>,
    date: Seq<char>,
    original_year: Seq<char>,
) -> u32 {
    if year.len() >= 4 {
        parse_year_spec(year)
    } else if date.len() >= 4 {
        parse_year_spec(date)
    } else if original_year.len() >= 4 {
        parse_year_spec(original_year)
    } else {
        0
    }
}

/// The value of the first tag whose vendor key equals `key`, or the empty
/// string when no tag carries that key.
pub open spec fn lookup_value(tags: Seq<TagView>, key: Seq<char>) -> Seq<char>
    decreases tags.len(),
{
    if tags.len() == 0 {
        Seq::<char>::empty()
    } else if tags.first().vendor_key == Some(key) {
        tags.first().value
    } else {
        lookup_value(tags.drop_first(), key)
    }
}

/// The year the heuristic assigns to a whole tag list.
pub open spec fn year_of(tags: Seq<TagView>) -> u32 {
    resolve_year_spec(
        lookup_value(tags, "YEAR"@),
        lookup_value(tags, "DATE"@),
        lookup_value(tags, "ORIGINALYEAR"@),
    )
}

/// A nonempty all-digit numeral denotes a nonnegative value.
proof fn lemma_digits_value_nonneg(s: Seq<char>)
    requires
        all_digits(s),
    ensures
        digits_value(s) >= 0,
    decreases s.len(),
{
    if s.len() > 0 {
        assert(all_digits(s.drop_last())) by {
            assert(forall|i: int|
                0 <= i < s.drop_last().len() ==> s.drop_last()[i] == #[trigger] s[i]);
        }
        lemma_digits_value_nonneg(s.drop_last());
    }
}

/// Extending an all-digit numeral to the right never decreases its value.
proof fn lemma_digits_value_prefix_le(s: Seq<char>, k: int)
    requires
        all_digits(s),
        0 <= k <= s.len(),
    ensures
        digits_value(s.take(k)) <= digits_value(s),
    decreases s.len() - k,
{
    if k == s.len() {
        assert(s.take(k) =~= s);
    } else {
        assert(s.take(k + 1).drop_last() =~= s.take(k));
        assert(s.take(k + 1).last() == s[k]);
        assert(all_digits(s.take(k))) by {
            assert(forall|i: int| 0 <= i < k ==> s.take(k)[i] == #[trigger] s[i]);
        }
        lemma_digits_value_nonneg(s.take(k));
        assert(digits_value(s.take(k + 1)) == digits_value(s.take(k)) * 10 + digit_value(s[k]));
        assert(digits_value(s.take(k)) * 10 >= digits_value(s.take(k)));
        lemma_digits_value_prefix_le(s, k + 1);
    }
}

/// Parses a whole string as a nonempty decimal numeral, yielding 0 on an
/// empty string, a non-digit character, or overflow.
fn parse_decimal(s: &str) -> (r: u32)
    ensures
        r == parse_u32_spec(s@),
{
    let n: usize = s.unicode_len();
    if n == 0 {
        return 0;
    }
    let mut acc: u32 = 0;
    let mut i: usize = 0;
    while i < n
        invariant
            n == s@.len(),
            0 <= i <= n,
            all_digits(s@.take(i as int)),
            acc == digits_value(s@.take(i as int)),
        decreases n - i,
    {
        let c = s.get_char(i);
        if !(c >= '0' && c <= '9') {
            assert(!all_digits(s@));
            return 0;
        }
        let d: u32 = (c as u32) - 48;
        assert(d == digit_value(c));
        if acc > (u32::MAX - d) / 10 {
            proof {
                assert(s@.take(i + 1).drop_last() =~= s@.take(i as int));
                assert(s@.take(i + 1).last() == s@[i as int]);
                assert(digits_value(s@.take(i + 1)) > u32::MAX);
                if all_digits(s@) {
                    lemma_digits_value_prefix_le(s@, i + 1);
                }
            }
            return 0;
        }
        assert(acc * 10 + d <= u32::MAX);
        proof {
            assert(s@.take(i + 1).drop_last() =~= s@.take(i as int));
            assert(s@.take(i + 1).last() == s@[i as int]);
        }
        acc = acc * 10 + d;
        i = i + 1;
    }
    proof {
        assert(s@.take(n as int) =~= s@);
    }
    acc
}

/// Parses one year candidate of any width: a ten-character candidate is
/// truncated to its first four characters, anything else is parsed whole.
pub fn parse_year(s: &str) -> (y: u32)
    ensures
        y == parse_year_spec(s@),
{
    let n: usize = s.unicode_len();
    if n == 10 {
        let t = s.substring_char(0, 4);
        proof {
            assert(t@ =~= year_digits(s@));
        }
        parse_decimal(t)
    } else {
        parse_decimal(s)
    }
}

/// Picks the year from the three candidate fields by the fixed priority
/// order, parsing the first with at least four characters.
pub fn resolve_year(year: &str, date: &str, original_year: &str) -> (y: u32)
    ensures
        y == resolve_year_spec(year@, date@, original_year@),
{
    if year.unicode_len() >= 4 {
        parse_year(year)
    } else if date.unicode_len() >= 4 {
        parse_year(date)
    } else if original_year.unicode_len() >= 4 {
        parse_year(original_year)
    } else {
        0
    }
}

/// Finds the value of the first tag carrying the vendor key `key`, or the
/// empty string when no tag does.
pub fn lookup_vendor(tags: &Vec<RawTag>, key: &str) -> (v: String)
    ensures
        v@ == lookup_value(tags.deep_view(), key@),
{
    let key_owned: String = key.to_owned();
    let ghost views = tags.deep_view();
    proof {
        assert(views.skip(0) =~= views);
    }
    let mut i: usize = 0;
    while i < tags.len()
        invariant
            views == tags.deep_view(),
            views.len() == tags@.len(),
            0 <= i <= tags.len(),
            lookup_value(views, key@) == lookup_value(views.skip(i as int), key@),
            key_owned@ == key@,
        decreases tags.len() - i,
    {
        let tag = &tags[i];
        proof {
            assert(views[i as int] == tags@[i as int].deep_view());
            assert(views.skip(i as int).first() == views[i as int]);
            assert(views.skip(i as int).drop_first() =~= views.skip(i + 1));
        }
        match &tag.vendor_key {
            Some(k) => {
                if *k == key_owned {
                    proof {
                        assert(views[i as int].vendor_key == Some(key@));
                        assert(lookup_value(views.skip(i as int), key@) == views[
                            i as int
                        ].value);
                    }
                    return tag.value.clone();
                }
                proof {
                    assert(views[i as int].vendor_key != Some(key@));
                }
            },
            None => {
                proof {
                    assert(views[i as int].vendor_key is None);
                }
            },
        }
        i = i + 1;
    }
    proof {
        assert(views.skip(tags@.len() as int).len() == 0);
    }
    String::new()
}

/// The value of a four-character numeral, spelt out digit by digit.
proof fn lemma_digits_value_four(s: Seq<char>)
    requires
        s.len() == 4,
    ensures
        digits_value(s) == digit_value(s[0]) * 1000 + digit_value(s[1]) * 100 + digit_value(
            s[2],
        ) * 10 + digit_value(s[3]),
{
    let s3 = s.drop_last();
    let s2 = s3.drop_last();
    let s1 = s2.drop_last();
    let s0 = s1.drop_last();
    assert(s3.len() == 3 && s2.len() == 2 && s1.len() == 1 && s0.len() == 0);
    assert(digits_value(s0) == 0);
    assert(s1.last() == s[0] && s2.last() == s[1] && s3.last() == s[2] && s.last() == s[3]);
    assert(digits_value(s1) == digit_value(s[0]));
    assert(digits_value(s2) == digit_value(s[0]) * 10 + digit_value(s[1]));
    assert(digits_value(s3) == (digit_value(s[0]) * 10 + digit_value(s[1])) * 10 + digit_value(
        s[2],
    ));
}

/// Law: a tag set whose `YEAR` field reads `2021` is assigned year 2021,
/// whatever the other candidate fields hold: `YEAR` has the top priority.
pub proof fn lemma_year_field_wins(tags: Seq<TagView>)
    requires
        lookup_value(tags, "YEAR"@) == "2021"@,
    ensures
        year_of(tags) == 2021,
{
    reveal_strlit("2021");
    let s = "2021"@;
    assert(s.len() == 4);
    assert(s[0] == '2' && s[1] == '0' && s[2] == '2' && s[3] == '1');
    lemma_digits_value_four(s);
    assert(digits_value(s) == 2021);
    assert(all_digits(s));
}

/// Law: when `YEAR` is too short and `DATE` reads `1999-05-01`, the assigned
/// year is 1999: the ten-character date is truncated to its first four
/// characters.
pub proof fn lemma_date_truncated(tags: Seq<TagView>)
    requires
        lookup_value(tags, "YEAR"@).len() < 4,
        lookup_value(tags, "DATE"@) == "1999-05-01"@,
    ensures
        year_of(tags) == 1999,
{
    reveal_strlit("1999-05-01");
    let d = "1999-05-01"@;
    assert(d.len() == 10);
    let s = year_digits(d);
    assert(s.len() == 4);
    assert(s[0] == '1' && s[1] == '9' && s[2] == '9' && s[3] == '9');
    lemma_digits_value_four(s);
    assert(digits_value(s) == 1999);
    assert(all_digits(s));
}

/// Law: when both `YEAR` and `DATE` are too short and `ORIGINALYEAR` reads
/// `1987`, the assigned year is 1987: the heuristic falls through to the
/// last candidate.
pub proof fn lemma_original_year_fallback(tags: Seq<TagView>)
    requires
        lookup_value(tags, "YEAR"@).len() < 4,
        lookup_value(tags, "DATE"@).len() < 4,
        lookup_value(tags, "ORIGINALYEAR"@) == "1987"@,
    ensures
        year_of(tags) == 1987,
{
    reveal_strlit("1987");
    let s = "1987"@;
    assert(s.len() == 4);
    assert(s[0] == '1' && s[1] == '9' && s[2] == '8' && s[3] == '7');
    lemma_digits_value_four(s);
    assert(digits_value(s) == 1987);
    assert(all_digits(s));
}

/// Law: when each of the three candidate fields is absent or under four
/// characters, the assigned year is 0.
pub proof fn lemma_no_candidate_year(tags: Seq<TagView>)
    requires
        lookup_value(tags, "YEAR"@).len() < 4,
        lookup_value(tags, "DATE"@).len() < 4,
        lookup_value(tags, "ORIGINALYEAR"@).len() < 4,
    ensures
        year_of(tags) == 0,
{
}

/// Law: a candidate with a non-digit among the characters the parser reads
/// (all of them, or the first four of a ten-character candidate) yields the
/// year 0, not an error.
pub proof fn lemma_non_numeric_year(s: Seq<char>)
    requires
        s.len() >= 4,
        !all_digits(year_digits(s)),
    ensures
        parse_year_spec(s) == 0,
{
}

/// Applies the whole heuristic to a tag list: look the three candidate
/// fields up by their vendor keys, then resolve by priority.
pub fn year_from_tags(tags: &Vec<RawTag>) -> (y: u32)
    ensures
        y == year_of(tags.deep_view()),
{
    let year = lookup_vendor(tags, "YEAR");
    let date = lookup_vendor(tags, "DATE");
    let original_year = lookup_vendor(tags, "ORIGINALYEAR");
    resolve_year(year.as_str(), date.as_str(), original_year.as_str())
}

} // verus!
