use vstd::prelude::*;

verus! {

/// Characters that theme-name lookups ignore: spaces, hyphens and underscores.
pub open spec fn is_name_separator(c: char) -> bool {
    c == ' ' || c == '-' || c == '_'
}

/// ASCII lower-casing of one character; every other character is kept.
pub open spec fn spec_ascii_lower(c: char) -> char {
    if 'A' <= c && c <= 'Z' {
        ((c as u32) + 32) as char
    } else {
        c
    }
}

/// The key a theme name is looked up by: the name with separators dropped
/// and ASCII letters lower-cased, so that "Solarized Dark",
/// "solarized-dark" and "solarizeddark" share one key.
pub open spec fn spec_normalize(s: Seq<char>) -> Seq<char>
    decreases s.len(),
{
    if s.len() == 0 {
        Seq::empty()
    } else {
        let rest = spec_normalize(s.drop_last());
        if is_name_separator(s.last()) {
            rest
        } else {
            rest.push(spec_ascii_lower(s.last()))
        }
    }
}

/// Two names refer to the same theme when their lookup keys agree.
pub open spec fn names_match(a: Seq<char>, b: Seq<char>) -> bool {
    spec_normalize(a) == spec_normalize(b)
}

/// Equality of two strings up to ASCII case.
pub open spec fn spec_eq_ignore_ascii_case(a: Seq<char>, b: Seq<char>) -> bool {
    &&& a.len() == b.len()
    &&& forall|i: int| 0 <= i < a.len() ==> spec_ascii_lower(#[trigger] a[i]) == spec_ascii_lower(b[i])
}

/// ASCII lower-casing of one character.
pub fn ascii_lower(c: char) -> (r: char)
    ensures
        r == spec_ascii_lower(c),
{
    if 'A' <= c && c <= 'Z' {
        let b: u8 = c as u8;
        assert(b as u32 == c as u32);
        (b + 32) as char
    } else {
        c
    }
}

/// `String::push`: appends one character to the string.
#[verifier::external_body]
fn push_char(s: &mut String, c: char)
    ensures
        final(s)@ == old(s)@.push(c),
{
    s.push(c);
}

/// The lookup key of a theme name (see `spec_normalize`).
pub fn normalize_name(name: &str) -> (r: String)
    ensures
        r@ == spec_normalize(name@),
{
    broadcast use vstd::string::group_string_axioms;

    let mut out = String::new();
    for c in it: name.chars()
        invariant
            it.seq() == name@,
            out@ == spec_normalize(name@.take(it.index())),
    {
        proof {
            let prefix = name@.take(it.index() + 1);
            assert(prefix.drop_last() =~= name@.take(it.index()));
            assert(prefix.last() == c);
        }
        if !(c == ' ' || c == '-' || c == '_') {
            push_char(&mut out, ascii_lower(c));
        }
    }
    assert(name@.take(name@.len() as int) =~= name@);
    out
}

/// The characters of a string.
fn chars_of(s: &str) -> (r: Vec<char>)
    ensures
        r@ == s@,
{
    broadcast use vstd::string::group_string_axioms;

    let mut out: Vec<char> = Vec::new();
    for c in it: s.chars()
        invariant
            it.seq() == s@,
            out@ == s@.take(it.index()),
    {
        assert(s@.take(it.index() + 1) =~= out@.push(c));
        out.push(c);
    }
    assert(s@.take(s@.len() as int) =~= s@);
    out
}

/// Whether two strings are equal up to ASCII case.
pub fn eq_ignore_ascii_case(a: &str, b: &str) -> (r: bool)
    ensures
        r == spec_eq_ignore_ascii_case(a@, b@),
{
    let av = chars_of(a);
    let bv = chars_of(b);
    if av.len() != bv.len() {
        return false;
    }
    let mut i: usize = 0;
    while i < av.len()
        invariant
            av@ == a@,
            bv@ == b@,
            a@.len() == b@.len(),
            0 <= i <= a@.len(),
            forall|j: int| 0 <= j < i ==> spec_ascii_lower(#[trigger] a@[j]) == spec_ascii_lower(b@[j]),
        decreases a@.len() - i,
    {
        if ascii_lower(av[i]) != ascii_lower(bv[i]) {
            assert(spec_ascii_lower(a@[i as int]) != spec_ascii_lower(b@[i as int]));
            return false;
        }
        i = i + 1;
    }
    true
}

} // verus!
