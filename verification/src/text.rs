//! Parsing of the comma-separated destination list.
//!
//! The alert channel is configured as one string of phone numbers
//! separated by commas, possibly padded with whitespace.  Splitting and
//! trimming that string is specified here over sequences of characters
//! and proved on the executable parser.

use vstd::prelude::*;
use vstd::string::StrSliceExecFns;

verus! {

/// The characters trimming strips: ASCII whitespace.
pub open spec fn is_space(c: char) -> bool {
    c == ' ' || c == '\t' || c == '\n' || c == '\r'
}

/// Exec mirror of [`is_space`].
fn is_space_char(c: char) -> (r: bool)
    ensures
        r == is_space(c),
{
    c == ' ' || c == '\t' || c == '\n' || c == '\r'
}

/// `s` split at every comma, fields in order: always exactly one more
/// field than commas, so an empty string has one empty field.
pub open spec fn split_commas(s: Seq<char>) -> Seq<Seq<char>>
    decreases s.len(),
{
    if s.len() == 0 {
        seq![Seq::<char>::empty()]
    } else if s[0] == ',' {
        seq![Seq::<char>::empty()] + split_commas(s.drop_first())
    } else {
        let rest = split_commas(s.drop_first());
        seq![seq![s[0]] + rest[0]] + rest.drop_first()
    }
}

/// `s` without its leading whitespace.
pub open spec fn trim_front(s: Seq<char>) -> Seq<char>
    decreases s.len(),
{
    if s.len() > 0 && is_space(s[0]) {
        trim_front(s.drop_first())
    } else {
        s
    }
}

/// `s` without its trailing whitespace.
pub open spec fn trim_back(s: Seq<char>) -> Seq<char>
    decreases s.len(),
{
    if s.len() > 0 && is_space(s.last()) {
        trim_back(s.drop_last())
    } else {
        s
    }
}

/// `s` without leading and trailing whitespace.
pub open spec fn trim_spaces(s: Seq<char>) -> Seq<char> {
    trim_back(trim_front(s))
}

/// The comma-separated fields of `s`, each trimmed: what the parser
/// returns.
pub open spec fn spec_fields(s: Seq<char>) -> Seq<Seq<char>> {
    split_commas(s).map_values(|f: Seq<char>| trim_spaces(f))
}

/// Splitting never yields an empty field list.
pub proof fn lemma_split_commas_len(s: Seq<char>)
    ensures
        split_commas(s).len() >= 1,
    decreases s.len(),
{
    if s.len() > 0 {
        lemma_split_commas_len(s.drop_first());
    }
}

/// A string without commas is a single field.
pub proof fn lemma_split_no_comma(s: Seq<char>)
    requires
        forall|j: int| 0 <= j < s.len() ==> s[j] != ',',
    ensures
        split_commas(s) == seq![s],
    decreases s.len(),
{
    if s.len() == 0 {
        assert(split_commas(s) =~~= seq![s]);
    } else {
        assert(forall|j: int|
            0 <= j < s.drop_first().len() ==> #[trigger] s.drop_first()[j] == s[j + 1]);
        lemma_split_no_comma(s.drop_first());
        assert(seq![s[0]] + s.drop_first() =~= s);
        assert(split_commas(s) =~~= seq![s]);
    }
}

/// Splitting at the first comma: the field before it, then the split of
/// what follows it.
pub proof fn lemma_split_first_comma(s: Seq<char>, k: int)
    requires
        0 <= k < s.len(),
        s[k] == ',',
        forall|j: int| 0 <= j < k ==> s[j] != ',',
    ensures
        split_commas(s) == seq![s.subrange(0, k)] + split_commas(s.subrange(k + 1, s.len() as int)),
    decreases k,
{
    if k == 0 {
        assert(s.subrange(0, 0) =~= Seq::<char>::empty());
        assert(s.subrange(1, s.len() as int) =~= s.drop_first());
        assert(split_commas(s) =~~= seq![s.subrange(0, 0)] + split_commas(
            s.subrange(1, s.len() as int),
        ));
    } else {
        let t = s.drop_first();
        assert(forall|j: int| 0 <= j < t.len() ==> #[trigger] t[j] == s[j + 1]);
        lemma_split_first_comma(t, k - 1);
        lemma_split_commas_len(t.subrange(k, t.len() as int));
        assert(seq![s[0]] + t.subrange(0, k - 1) =~= s.subrange(0, k));
        assert(t.subrange(k, t.len() as int) =~= s.subrange(k + 1, s.len() as int));
        assert(split_commas(s) =~~= seq![s.subrange(0, k)] + split_commas(
            s.subrange(k + 1, s.len() as int),
        ));
    }
}

/// The configured destination numbers: `list` split at commas, each
/// entry trimmed of surrounding whitespace, order and duplicates kept.
pub fn get_phone_numbers(list: &str) -> (r: Vec<String>)
    ensures
        r@.map_values(|t: String| t@) == spec_fields(list@),
{
    let n: usize = list.unicode_len();
    let mut fields: Vec<String> = Vec::new();
    let mut start: usize = 0;
    let mut done: bool = false;
    proof {
        assert(list@.subrange(0, n as int) =~= list@);
        assert(fields@.map_values(|t: String| t@) =~~= Seq::<Seq<char>>::empty());
        assert(spec_fields(list@) =~~= fields@.map_values(|t: String| t@) + spec_fields(
            list@.subrange(0, n as int),
        ));
    }
    while !done
        invariant
            n == list@.len(),
            start <= n,
            done ==> spec_fields(list@) == fields@.map_values(|t: String| t@),
            !done ==> spec_fields(list@) == fields@.map_values(|t: String| t@) + spec_fields(
                list@.subrange(start as int, n as int),
            ),
        decreases n - start + (if done {
            0int
        } else {
            1int
        }),
    {
        let ghost suffix = list@.subrange(start as int, n as int);
        let mut i: usize = start;
        while i < n && list.get_char(i) != ','
            invariant
                n == list@.len(),
                start <= i <= n,
                forall|j: int| start <= j < i ==> list@[j] != ',',
            decreases n - i,
        {
            i = i + 1;
        }
        let ghost field = list@.subrange(start as int, i as int);
        let mut a: usize = start;
        while a < i && is_space_char(list.get_char(a))
            invariant
                n == list@.len(),
                start <= a <= i <= n,
                trim_front(list@.subrange(start as int, i as int)) == trim_front(
                    list@.subrange(a as int, i as int),
                ),
            decreases i - a,
        {
            proof {
                assert(list@.subrange(a as int, i as int).drop_first() =~= list@.subrange(
                    a as int + 1,
                    i as int,
                ));
            }
            a = a + 1;
        }
        proof {
            assert(trim_front(field) == list@.subrange(a as int, i as int));
        }
        let mut b: usize = i;
        while b > a && is_space_char(list.get_char(b - 1))
            invariant
                n == list@.len(),
                a <= b <= i <= n,
                trim_back(list@.subrange(a as int, i as int)) == trim_back(
                    list@.subrange(a as int, b as int),
                ),
            decreases b,
        {
            proof {
                assert(list@.subrange(a as int, b as int).drop_last() =~= list@.subrange(
                    a as int,
                    b as int - 1,
                ));
            }
            b = b - 1;
        }
        proof {
            assert(trim_spaces(field) == list@.subrange(a as int, b as int));
        }
        let piece: String = list.substring_char(a, b).to_owned();
        proof {
            assert(piece@ == trim_spaces(field));
        }
        fields.push(piece);
        proof {
            let mapped_prefix = fields@.drop_last().map_values(|t: String| t@);
            assert(fields@.map_values(|t: String| t@) =~~= mapped_prefix + seq![piece@]);
            if i < n {
                assert(suffix[i - start] == ',');
                assert(forall|j: int| 0 <= j < i - start ==> #[trigger] suffix[j] == list@[
                    j + start]);
                lemma_split_first_comma(suffix, i - start);
                assert(suffix.subrange(0, i - start) =~= field);
                assert(suffix.subrange(i - start + 1, suffix.len() as int) =~= list@.subrange(
                    i as int + 1,
                    n as int,
                ));
                lemma_split_commas_len(list@.subrange(i as int + 1, n as int));
                assert(spec_fields(suffix) =~~= seq![trim_spaces(field)] + spec_fields(
                    list@.subrange(i as int + 1, n as int),
                ));
                assert(spec_fields(list@) =~~= fields@.map_values(|t: String| t@) + spec_fields(
                    list@.subrange(i as int + 1, n as int),
                ));
            } else {
                assert(forall|j: int| 0 <= j < suffix.len() ==> #[trigger] suffix[j] == list@[
                    j + start]);
                lemma_split_no_comma(suffix);
                assert(spec_fields(suffix) =~~= seq![trim_spaces(field)]);
                assert(spec_fields(list@) =~~= fields@.map_values(|t: String| t@));
            }
        }
        if i < n {
            start = i + 1;
        } else {
            done = true;
        }
    }
    fields
}

} // verus!
