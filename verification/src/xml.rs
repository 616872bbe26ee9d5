use vstd::prelude::*;

verus! {

/// One element of the already-loaded schema document tree: qualified tag
/// name, attributes in document order, optional direct text content, and
/// child elements in document order. The document loader that produces
/// values of this type from raw XML text is outside this library.
pub struct XmlElement {
    pub name: String,
    pub attributes: Vec<(String, String)>,
    pub text: Option<String>,
    pub children: Vec<XmlElement>,
}

/// Value of the first attribute whose key equals `key`, scanning from `i`.
pub open spec fn lookup_attr_from(attrs: Seq<(String, String)>, key: Seq<char>, i: int) -> Option<Seq<char>>
    decreases attrs.len() - i,
{
    if i < 0 || i >= attrs.len() {
        None
    } else if attrs[i].0@ == key {
        Some(attrs[i].1@)
    } else {
        lookup_attr_from(attrs, key, i + 1)
    }
}

/// Value of the first attribute whose key equals `key`, if any.
pub open spec fn lookup_attr(attrs: Seq<(String, String)>, key: Seq<char>) -> Option<Seq<char>> {
    lookup_attr_from(attrs, key, 0)
}

/// Character-by-character string equality, `r == (a@ == b@)`.
pub fn str_eq(a: &str, b: &str) -> (r: bool)
    ensures
        r == (a@ == b@),
{
    let an: usize = a.unicode_len();
    let bn: usize = b.unicode_len();
    if an != bn {
        assert(a@ != b@) by {
            assert(a@.len() != b@.len());
        }
        return false;
    }
    for i in 0..an
        invariant
            an == a@.len(),
            an == b@.len(),
            forall|j: int| 0 <= j < i ==> a@[j] == b@[j],
    {
        let ac = a.get_char(i);
        let bc = b.get_char(i);
        if ac != bc {
            return false;
        }
    }
    proof {
        assert(a@ =~= b@);
    }
    true
}

/// First attribute value for `key`, as `lookup_attr` describes.
pub fn get_attr<'a>(attrs: &'a Vec<(String, String)>, key: &str) -> (r: Option<&'a String>)
    ensures
        match r {
            Some(v) => lookup_attr(attrs@, key@) == Some(v@),
            None => lookup_attr(attrs@, key@) is None,
        },
{
    for i in 0..attrs.len()
        invariant
            lookup_attr(attrs@, key@) == lookup_attr_from(attrs@, key@, i as int),
    {
        if str_eq(attrs[i].0.as_str(), key) {
            return Some(&attrs[i].1);
        }
    }
    None
}

} // verus!
