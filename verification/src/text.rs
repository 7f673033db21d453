//! Normalization of raw capture-date text: the metadata field's display
//! value holds a date followed by a time of day; the date is the part
//! before the first space, with surrounding white space removed.

use vstd::prelude::*;

verus! {

/// The Unicode white-space characters, the set that trimming removes.
pub open spec fn is_space_char(c: char) -> bool {
    let u = c as int;
    u == 0x20 || u == 0x09 || u == 0x0A || u == 0x0B || u == 0x0C || u == 0x0D || u == 0x85
        || u == 0xA0 || u == 0x1680 || (0x2000 <= u && u <= 0x200A) || u == 0x2028 || u == 0x2029
        || u == 0x202F || u == 0x205F || u == 0x3000
}

/// Whether `c` is white space, per `is_space_char`.
pub fn is_space(c: char) -> (r: bool)
    ensures
        r == is_space_char(c),
{
    let u = c as u32;
    u == 0x20 || u == 0x09 || u == 0x0A || u == 0x0B || u == 0x0C || u == 0x0D || u == 0x85
        || u == 0xA0 || u == 0x1680 || (0x2000 <= u && u <= 0x200A) || u == 0x2028 || u == 0x2029
        || u == 0x202F || u == 0x205F || u == 0x3000
}

/// The characters before the first space, the whole text when it has none.
pub open spec fn until_space(s: Seq<char>) -> Seq<char>
    decreases s.len(),
{
    if s.len() == 0 {
        s
    } else if s[0] == ' ' {
        Seq::empty()
    } else {
        seq![s[0]] + until_space(s.skip(1))
    }
}

/// The text with its leading white space removed.
pub open spec fn trim_front(s: Seq<char>) -> Seq<char>
    decreases s.len(),
{
    if s.len() > 0 && is_space_char(s[0]) {
        trim_front(s.skip(1))
    } else {
        s
    }
}

/// The text with its trailing white space removed.
pub open spec fn trim_back(s: Seq<char>) -> Seq<char>
    decreases s.len(),
{
    if s.len() > 0 && is_space_char(s[s.len() - 1]) {
        trim_back(s.take(s.len() - 1))
    } else {
        s
    }
}

/// The text with white space removed from both ends.
pub open spec fn trim_spec(s: Seq<char>) -> Seq<char> {
    trim_back(trim_front(s))
}

/// The date portion of a raw capture-date text: what stands before the
/// first space, trimmed of white space.
pub open spec fn date_portion_spec(s: Seq<char>) -> Seq<char> {
    trim_spec(until_space(s))
}

proof fn lemma_until_space_subrange(s: Seq<char>, i: int)
    requires
        0 <= i <= s.len(),
        forall|j: int| 0 <= j < i ==> s[j] != ' ',
        i < s.len() ==> s[i] == ' ',
    ensures
        until_space(s) == s.subrange(0, i),
    decreases i,
{
    if i == 0 {
        assert(until_space(s) =~= s.subrange(0, 0));
    } else {
        lemma_until_space_subrange(s.skip(1), i - 1);
        assert(until_space(s) =~= s.subrange(0, i));
    }
}

proof fn lemma_trim_front_subrange(s: Seq<char>, a: int)
    requires
        0 <= a <= s.len(),
        forall|j: int| 0 <= j < a ==> is_space_char(s[j]),
        a < s.len() ==> !is_space_char(s[a]),
    ensures
        trim_front(s) == s.subrange(a, s.len() as int),
    decreases a,
{
    if a == 0 {
        assert(trim_front(s) =~= s.subrange(0, s.len() as int));
    } else {
        lemma_trim_front_subrange(s.skip(1), a - 1);
        assert(trim_front(s) =~= s.subrange(a, s.len() as int));
    }
}

proof fn lemma_trim_back_subrange(s: Seq<char>, b: int)
    requires
        0 <= b <= s.len(),
        forall|j: int| b <= j < s.len() ==> is_space_char(s[j]),
        b > 0 ==> !is_space_char(s[b - 1]),
    ensures
        trim_back(s) == s.subrange(0, b),
    decreases s.len(),
{
    if b == s.len() {
        assert(trim_back(s) =~= s.subrange(0, b));
    } else {
        assert(is_space_char(s[s.len() - 1]));
        lemma_trim_back_subrange(s.take(s.len() - 1), b);
        assert(trim_back(s) =~= s.subrange(0, b));
    }
}

/// The date portion of a raw capture-date text: the characters before the
/// first space, trimmed of white space at both ends.
pub fn date_portion(s: &str) -> (r: String)
    ensures
        r@ == date_portion_spec(s@),
{
    let n = s.unicode_len();
    let mut i: usize = 0;
    while i < n && s.get_char(i) != ' '
        invariant
            0 <= i <= n,
            n == s@.len(),
            forall|j: int| 0 <= j < i ==> s@[j] != ' ',
        decreases n - i,
    {
        i += 1;
    }
    proof {
        lemma_until_space_subrange(s@, i as int);
    }
    let head = s.substring_char(0, i);
    let m = head.unicode_len();
    let mut a: usize = 0;
    while a < m && is_space(head.get_char(a))
        invariant
            0 <= a <= m,
            m == head@.len(),
            forall|j: int| 0 <= j < a ==> is_space_char(head@[j]),
        decreases m - a,
    {
        a += 1;
    }
    let mut b: usize = m;
    while b > a && is_space(head.get_char(b - 1))
        invariant
            a <= b <= m,
            m == head@.len(),
            forall|j: int| b <= j < m ==> is_space_char(head@[j]),
        decreases b,
    {
        b -= 1;
    }
    proof {
        lemma_trim_front_subrange(head@, a as int);
        let t = head@.subrange(a as int, m as int);
        lemma_trim_back_subrange(t, b - a);
        assert(t.subrange(0, b - a) =~= head@.subrange(a as int, b as int));
    }
    head.substring_char(a, b).to_owned()
}

} // verus!
