use vstd::prelude::*;

use core::cmp::Ordering;

verus! {

/// A name together with the original spelling it was derived from.
#[derive(Debug, Clone, PartialEq, Eq, Hash)]
pub struct Altered {
    pub value: String,
    pub original: String,
}

impl Altered {
    /// The rendering `value(original)`.
    pub fn display(&self) -> (r: String)
        ensures
            r@ == self.value@ + "("@ + self.original@ + ")"@,
    {
        let mut out = self.value.clone();
        out.append("(");
        out.append(self.original.as_str());
        out.append(")");
        out
    }
}

/// A generated identifier: either the input spelling unchanged, or a
/// changed spelling together with the original.
#[derive(Debug, Clone, PartialEq, Eq, Hash)]
pub enum Symbol {
    Unaltered(String),
    Altered(Altered),
}

/// The identifier string a `Symbol` stands for.
pub open spec fn symbol_value(s: Symbol) -> Seq<char> {
    match s {
        Symbol::Unaltered(v) => v@,
        Symbol::Altered(a) => a.value@,
    }
}

impl Symbol {
    pub fn new(s: &str) -> (r: Symbol)
        ensures
            r matches Symbol::Unaltered(v) && v@ == s@,
    {
        Symbol::Unaltered(s.to_owned())
    }

    pub fn value(&self) -> (r: String)
        ensures
            r@ == symbol_value(*self),
    {
        match self {
            Symbol::Unaltered(s) => s.clone(),
            Symbol::Altered(a) => a.value.clone(),
        }
    }
}

/// First character of the Unicode uppercase mapping of `c`; a fixed
/// function of the character alone.
pub uninterp spec fn upper_char(c: char) -> char;

/// Relies on char::to_uppercase: its first character, which depends on
/// the character alone (the iterator is never empty).
#[verifier::external_body]
fn to_upper_first(c: char) -> (r: char)
    ensures
        r == upper_char(c),
{
    c.to_uppercase().next().unwrap()
}

/// Word-wise capitalisation: `-` and space start a new word and are
/// dropped; the first character of a word is uppercased when `upper`
/// starts true; every other character is kept as it is.
pub open spec fn caps_rec(s: Seq<char>, upper: bool) -> Seq<char>
    decreases s.len(),
{
    if s.len() == 0 {
        Seq::empty()
    } else if s[0] == '-' || s[0] == ' ' {
        caps_rec(s.skip(1), true)
    } else if upper {
        seq![upper_char(s[0])] + caps_rec(s.skip(1), false)
    } else {
        seq![s[0]] + caps_rec(s.skip(1), false)
    }
}

/// The PascalCase rendering of `s`.
pub open spec fn pascal_of(s: Seq<char>) -> Seq<char> {
    caps_rec(s, true)
}

/// ASCII lowercasing of one character; all others are kept.
pub open spec fn ascii_lower(c: char) -> char {
    if 65 <= c as u32 && c as u32 <= 90 {
        ((c as u32 + 32) as u8) as char
    } else {
        c
    }
}

/// A one-character ASCII result is lowercased; anything else is kept.
pub open spec fn camel_fixup(t: Seq<char>) -> Seq<char> {
    if t.len() == 1 && (t[0] as u32) < 128 {
        seq![ascii_lower(t[0])]
    } else {
        t
    }
}

/// The camelCase rendering of `s`.
pub open spec fn camel_of(s: Seq<char>) -> Seq<char> {
    camel_fixup(caps_rec(s, false))
}

fn caps_case(s: &str, start_upper: bool) -> (out: String)
    ensures
        out@ == caps_rec(s@, start_upper),
{
    let n: usize = s.unicode_len();
    let mut out = String::new();
    let mut upper = start_upper;
    proof {
        assert(s@.skip(0) =~= s@);
        assert(out@ + caps_rec(s@, start_upper) =~= caps_rec(s@, start_upper));
    }
    for i in 0..n
        invariant
            n == s@.len(),
            caps_rec(s@, start_upper) == out@ + caps_rec(s@.skip(i as int), upper),
    {
        let c = s.get_char(i);
        proof {
            assert(s@.skip(i as int)[0] == s@[i as int]);
            assert(s@.skip(i as int).skip(1) =~= s@.skip(i as int + 1));
        }
        if c == '-' || c == ' ' {
            upper = true;
        } else {
            if upper {
                crate::strutil::push_char(&mut out, to_upper_first(c));
            } else {
                crate::strutil::push_char(&mut out, c);
            }
            upper = false;
        }
    }
    proof {
        assert(s@.skip(n as int) =~= Seq::<char>::empty());
        assert(caps_rec(s@, start_upper) =~= out@);
    }
    out
}

/// PascalCase form of `s`: unaltered when the input already has that form,
/// otherwise the altered spelling with the original kept beside it.
pub fn pascal_case(s: &str) -> (r: Symbol)
    ensures
        pascal_of(s@) == s@ ==> (r matches Symbol::Unaltered(v) && v@ == s@),
        pascal_of(s@) != s@ ==> (r matches Symbol::Altered(a) && a.value@ == pascal_of(s@)
            && a.original@ == s@),
{
    let out = caps_case(s, true);
    if crate::xml::str_eq(out.as_str(), s) {
        Symbol::Unaltered(out)
    } else {
        Symbol::Altered(Altered { value: out, original: s.to_owned() })
    }
}

/// camelCase form of `s`: unaltered when the input already has that form,
/// otherwise the altered spelling with the original kept beside it. A
/// one-character ASCII result is lowercased.
pub fn camel_case(s: &str) -> (r: Symbol)
    ensures
        camel_of(s@) == s@ ==> (r matches Symbol::Unaltered(v) && v@ == s@),
        camel_of(s@) != s@ ==> (r matches Symbol::Altered(a) && a.value@ == camel_of(s@)
            && a.original@ == s@),
{
    let mut out = caps_case(s, false);
    if out.as_str().unicode_len() == 1 {
        let c = out.as_str().get_char(0);
        let cu: u32 = c as u32;
        if cu < 128 {
            let low: char = if cu >= 65 && cu <= 90 {
                (((cu + 32) as u8) as char)
            } else {
                c
            };
            proof {
                assert(low == ascii_lower(c));
            }
            let mut fixed = String::new();
            crate::strutil::push_char(&mut fixed, low);
            proof {
                assert(fixed@ =~= camel_fixup(caps_rec(s@, false)));
            }
            out = fixed;
        }
    }
    proof {
        assert(out@ == camel_fixup(caps_rec(s@, false)));
    }
    if crate::xml::str_eq(out.as_str(), s) {
        Symbol::Unaltered(out)
    } else {
        Symbol::Altered(Altered { value: out, original: s.to_owned() })
    }
}


/// Lexicographic order of two character sequences, by code point.
pub open spec fn seq_cmp(a: Seq<char>, b: Seq<char>) -> Ordering
    decreases a.len(),
{
    if a.len() == 0 && b.len() == 0 {
        Ordering::Equal
    } else if a.len() == 0 {
        Ordering::Less
    } else if b.len() == 0 {
        Ordering::Greater
    } else if (a[0] as u32) < (b[0] as u32) {
        Ordering::Less
    } else if (a[0] as u32) > (b[0] as u32) {
        Ordering::Greater
    } else {
        seq_cmp(a.skip(1), b.skip(1))
    }
}

fn str_cmp(a: &str, b: &str) -> (r: Ordering)
    ensures
        r == seq_cmp(a@, b@),
{
    let an: usize = a.unicode_len();
    let bn: usize = b.unicode_len();
    let n: usize = if an < bn {
        an
    } else {
        bn
    };
    proof {
        assert(a@.skip(0) =~= a@);
        assert(b@.skip(0) =~= b@);
    }
    for i in 0..n
        invariant
            an == a@.len(),
            bn == b@.len(),
            n <= an && n <= bn,
            seq_cmp(a@, b@) == seq_cmp(a@.skip(i as int), b@.skip(i as int)),
    {
        let ac = a.get_char(i);
        let bc = b.get_char(i);
        let au: u32 = ac as u32;
        let bu: u32 = bc as u32;
        proof {
            assert(a@.skip(i as int)[0] == a@[i as int]);
            assert(b@.skip(i as int)[0] == b@[i as int]);
            assert(a@.skip(i as int).skip(1) =~= a@.skip(i as int + 1));
            assert(b@.skip(i as int).skip(1) =~= b@.skip(i as int + 1));
        }
        if au < bu {
            return Ordering::Less;
        }
        if au > bu {
            return Ordering::Greater;
        }
    }
    proof {
        if an <= bn {
            assert(a@.skip(n as int) =~= Seq::<char>::empty());
        }
        if bn <= an {
            assert(b@.skip(n as int) =~= Seq::<char>::empty());
        }
    }
    if an < bn {
        Ordering::Less
    } else if an > bn {
        Ordering::Greater
    } else {
        Ordering::Equal
    }
}

impl PartialOrd for Altered {
    /// Orders by the altered value alone, ignoring the original.
    fn partial_cmp(&self, other: &Altered) -> (r: Option<Ordering>) {
        Some(str_cmp(self.value.as_str(), other.value.as_str()))
    }
}

impl vstd::std_specs::cmp::PartialOrdSpecImpl for Altered {
    open spec fn obeys_partial_cmp_spec() -> bool {
        true
    }

    open spec fn partial_cmp_spec(&self, other: &Altered) -> Option<Ordering> {
        Some(seq_cmp(self.value@, other.value@))
    }
}

impl PartialOrd for Symbol {
    /// Orders by the identifier value a symbol stands for.
    fn partial_cmp(&self, other: &Symbol) -> (r: Option<Ordering>) {
        let a = match self {
            Symbol::Unaltered(s) => s,
            Symbol::Altered(x) => &x.value,
        };
        let b = match other {
            Symbol::Unaltered(s) => s,
            Symbol::Altered(x) => &x.value,
        };
        Some(str_cmp(a.as_str(), b.as_str()))
    }
}

impl vstd::std_specs::cmp::PartialOrdSpecImpl for Symbol {
    open spec fn obeys_partial_cmp_spec() -> bool {
        true
    }

    open spec fn partial_cmp_spec(&self, other: &Symbol) -> Option<Ordering> {
        Some(seq_cmp(symbol_value(*self), symbol_value(*other)))
    }
}

} // verus!
