//! Response-header multimap: an ordered sequence of (name, value) pairs that
//! preserves duplicates and insertion order, with ASCII case-insensitive name
//! comparison. The pipeline carries backend headers through enrichment in
//! this structure, and the HTTP layer echoes them in order.

use vstd::prelude::*;
use vstd::string::StrSliceExecFns;

use crate::strutil::ascii_eq_ci;
use crate::strutil::str_eq_ci;

verus! {

/// One header entry as the specification sees it: (name, value).
pub type HeaderView = (Seq<char>, Seq<char>);

/// The entries of `s` whose name is not `name` (ASCII case-insensitive),
/// in their original order.
pub open spec fn remove_name(s: Seq<HeaderView>, name: Seq<char>) -> Seq<HeaderView>
    decreases s.len(),
{
    if s.len() == 0 {
        s
    } else {
        let rest = remove_name(s.drop_last(), name);
        if ascii_eq_ci(s.last().0, name) {
            rest
        } else {
            rest.push(s.last())
        }
    }
}

/// The value of the first entry of `s` named `name` (ASCII case-insensitive),
/// if any.
pub open spec fn first_value(s: Seq<HeaderView>, name: Seq<char>) -> Option<Seq<char>>
    decreases s.len(),
{
    if s.len() == 0 {
        None
    } else if ascii_eq_ci(s[0].0, name) {
        Some(s[0].1)
    } else {
        first_value(s.drop_first(), name)
    }
}

/// Some entry of `s` is named `name` (ASCII case-insensitive).
pub open spec fn has_name(s: Seq<HeaderView>, name: Seq<char>) -> bool {
    exists|i: int| 0 <= i < s.len() && ascii_eq_ci(s[i].0, name)
}

/// Ordered multimap of response headers. Duplicate names are preserved;
/// names compare ASCII case-insensitively; the stored spelling of a name is
/// the one given when the entry was added.
#[derive(Clone, Debug)]
pub struct Headers {
    entries: Vec<(String, String)>,
}

impl View for Headers {
    type V = Seq<HeaderView>;

    closed spec fn view(&self) -> Seq<HeaderView> {
        self.entries@.map_values(|e: (String, String)| (e.0@, e.1@))
    }
}

impl Headers {
    /// An empty header map.
    pub fn new() -> (r: Headers)
        ensures
            r@ =~= Seq::<HeaderView>::empty(),
    {
        Headers { entries: Vec::new() }
    }

    /// Number of entries.
    pub fn len(&self) -> (r: usize)
        ensures
            r == self@.len(),
    {
        self.entries.len()
    }

    /// The entries in order, for iteration at the HTTP boundary.
    pub fn pairs(&self) -> (r: &Vec<(String, String)>)
        ensures
            r@.map_values(|e: (String, String)| (e.0@, e.1@)) == self@,
    {
        &self.entries
    }

    /// Add an entry at the end, keeping any existing entries with the same
    /// name.
    pub fn append(&mut self, name: String, value: String)
        ensures
            final(self)@ =~= old(self)@.push((name@, value@)),
    {
        let ghost old_entries = self.entries@;
        self.entries.push((name, value));
        proof {
            assert(self@ =~= old(self)@.push((old_entries.push(
                (name, value),
            ).last().0@, old_entries.push((name, value)).last().1@)));
        }
    }

    /// Remove every entry whose name equals `name` up to ASCII case, then add
    /// the new entry at the end: the single-value replacement used by
    /// enrichment `headers_set`.
    pub fn insert(&mut self, name: String, value: String)
        ensures
            final(self)@ =~= remove_name(old(self)@, name@).push((name@, value@)),
    {
        self.remove(name.as_str());
        self.append(name, value);
    }

    /// Remove every entry whose name equals `name` up to ASCII case.
    pub fn remove(&mut self, name: &str)
        ensures
            final(self)@ =~= remove_name(old(self)@, name@),
    {
        let mut kept: Vec<(String, String)> = Vec::new();
        let n = self.entries.len();
        let mut i: usize = 0;
        while i < n
            invariant
                0 <= i <= n,
                n == self.entries@.len(),
                self.entries@ == old(self).entries@,
                kept@.map_values(|e: (String, String)| (e.0@, e.1@)) =~= remove_name(
                    self@.subrange(0, i as int),
                    name@,
                ),
            decreases n - i,
        {
            let ghost prefix = self@.subrange(0, i as int);
            let ghost next_prefix = self@.subrange(0, i + 1 as int);
            proof {
                assert(next_prefix.drop_last() =~= prefix);
                assert(next_prefix.last() == self@[i as int]);
            }
            let keep = !str_eq_ci(self.entries[i].0.as_str(), name);
            if keep {
                let entry = (self.entries[i].0.clone(), self.entries[i].1.clone());
                proof {
                    assert((entry.0@, entry.1@) == self@[i as int]);
                }
                kept.push(entry);
            }
            i = i + 1;
        }
        proof {
            assert(self@.subrange(0, n as int) =~= self@);
        }
        self.entries = kept;
    }

    /// The value of the first entry named `name` (ASCII case-insensitive).
    pub fn get(&self, name: &str) -> (r: Option<&String>)
        ensures
            match r {
                Some(v) => first_value(self@, name@) == Some(v@),
                None => first_value(self@, name@) is None,
            },
    {
        let n = self.entries.len();
        proof {
            assert(self@.subrange(0, n as int) =~= self@);
        }
        let mut i: usize = 0;
        while i < n
            invariant
                0 <= i <= n,
                n == self.entries@.len(),
                first_value(self@, name@) == first_value(
                    self@.subrange(i as int, n as int),
                    name@,
                ),
            decreases n - i,
        {
            let ghost tail = self@.subrange(i as int, n as int);
            proof {
                assert(tail[0] == self@[i as int]);
                assert(tail.drop_first() =~= self@.subrange(i + 1 as int, n as int));
            }
            if str_eq_ci(self.entries[i].0.as_str(), name) {
                return Some(&self.entries[i].1);
            }
            i = i + 1;
        }
        proof {
            assert(self@.subrange(n as int, n as int) =~= Seq::<HeaderView>::empty());
        }
        None
    }

    /// Some entry is named `name` (ASCII case-insensitive).
    pub fn contains_name(&self, name: &str) -> (r: bool)
        ensures
            r == has_name(self@, name@),
    {
        let n = self.entries.len();
        let mut i: usize = 0;
        while i < n
            invariant
                0 <= i <= n,
                n == self.entries@.len(),
                forall|j: int| 0 <= j < i ==> !ascii_eq_ci(self@[j].0, name@),
            decreases n - i,
        {
            if str_eq_ci(self.entries[i].0.as_str(), name) {
                assert(ascii_eq_ci(self@[i as int].0, name@));
                return true;
            }
            i = i + 1;
        }
        false
    }
}

/// Characters legal in an HTTP header name: the token characters of the
/// header grammar — letters, digits, and `!#$%&'*+-.^_`|~`.
pub open spec fn is_header_name_char(c: char) -> bool {
    ||| 97 <= c as int && c as int <= 122  // a-z
    ||| 65 <= c as int && c as int <= 90  // A-Z
    ||| 48 <= c as int && c as int <= 57  // 0-9
    ||| c as int == 33  // !
    ||| c as int == 35  // #
    ||| c as int == 36  // $
    ||| c as int == 37  // %
    ||| c as int == 38  // &
    ||| c as int == 39  // '
    ||| c as int == 42  // *
    ||| c as int == 43  // +
    ||| c as int == 45  // -
    ||| c as int == 46  // .
    ||| c as int == 94  // ^
    ||| c as int == 95  // _
    ||| c as int == 96  // `
    ||| c as int == 124  // |
    ||| c as int == 126  // ~
}

/// A legal header name: non-empty, token characters only.
pub open spec fn is_valid_header_name(s: Seq<char>) -> bool {
    s.len() > 0 && forall|i: int| 0 <= i < s.len() ==> is_header_name_char(#[trigger] s[i])
}

/// Characters legal in an HTTP header value: horizontal tab or anything that
/// is not a control character (code 9, or at least 32 and not 127).
pub open spec fn is_header_value_char(c: char) -> bool {
    c as int == 9 || (32 <= c as int && c as int != 127)
}

/// A legal header value: value characters only; the empty value is legal.
pub open spec fn is_valid_header_value(s: Seq<char>) -> bool {
    forall|i: int| 0 <= i < s.len() ==> is_header_value_char(#[trigger] s[i])
}

/// Decide whether `s` is a legal header name.
pub fn check_header_name(s: &str) -> (r: bool)
    ensures
        r == is_valid_header_name(s@),
{
    let n = s.unicode_len();
    if n == 0 {
        return false;
    }
    let mut i: usize = 0;
    while i < n
        invariant
            0 <= i <= n,
            n == s@.len(),
            forall|j: int| 0 <= j < i ==> is_header_name_char(#[trigger] s@[j]),
        decreases n - i,
    {
        let c = s.get_char(i) as u32;
        let ok = (97 <= c && c <= 122) || (65 <= c && c <= 90) || (48 <= c && c <= 57) || c == 33
            || c == 35 || c == 36 || c == 37 || c == 38 || c == 39 || c == 42 || c == 43 || c == 45
            || c == 46 || c == 94 || c == 95 || c == 96 || c == 124 || c == 126;
        if !ok {
            assert(!is_header_name_char(s@[i as int]));
            return false;
        }
        i = i + 1;
    }
    true
}

/// Decide whether `s` is a legal header value.
pub fn check_header_value(s: &str) -> (r: bool)
    ensures
        r == is_valid_header_value(s@),
{
    let n = s.unicode_len();
    let mut i: usize = 0;
    while i < n
        invariant
            0 <= i <= n,
            n == s@.len(),
            forall|j: int| 0 <= j < i ==> is_header_value_char(#[trigger] s@[j]),
        decreases n - i,
    {
        let c = s.get_char(i) as u32;
        if !(c == 9 || (32 <= c && c != 127)) {
            assert(!is_header_value_char(s@[i as int]));
            return false;
        }
        i = i + 1;
    }
    true
}

} // verus!
