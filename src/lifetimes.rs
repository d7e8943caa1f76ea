use vstd::prelude::*;

verus! {

/// `w` is the part of `s` before its first space, or all of `s` when it has none.
pub open spec fn is_first_word(s: Seq<char>, w: Seq<char>) -> bool {
    &&& w.len() <= s.len()
    &&& w == s.take(w.len() as int)
    &&& !w.contains(' ')
    &&& w.len() < s.len() ==> s[w.len() as int] == ' '
}

/// The leading part of `s` up to, not including, the first space.
pub fn first_word(s: &str) -> (r: &str)
    ensures
        is_first_word(s@, r@),
{
    let n = s.unicode_len();
    let mut i: usize = 0;
    while i < n
        invariant
            n == s@.len(),
            i <= n,
            forall|k: int| 0 <= k < i ==> s@[k] != ' ',
        decreases n - i,
    {
        if s.get_char(i) == ' ' {
            let r = s.substring_char(0, i);
            assert(r@ =~= s@.take(i as int));
            return r;
        }
        i = i + 1;
    }
    let r = s.substring_char(0, n);
    assert(r@ =~= s@.take(n as int));
    r
}

/// The byte length of `x` is greater than that of `y`.
pub open spec fn longer(x: &str, y: &str) -> bool {
    x.len() > y.len()
}

/// Whichever of `x` and `y` has more bytes; `y` when they tie.
pub fn longest<'a>(x: &'a str, y: &'a str) -> (r: &'a str)
    ensures
        r == if longer(x, y) {
            x
        } else {
            y
        },
{
    if x.len() > y.len() {
        x
    } else {
        y
    }
}

/// A borrowed piece of some longer text.
pub struct ImportantExcerpt<'a> {
    pub part: &'a str,
}

impl<'a> ImportantExcerpt<'a> {
    /// The fixed importance level of an excerpt.
    pub fn level(&self) -> (r: i32)
        ensures
            r == 3,
    {
        3
    }

    /// The excerpt's text.
    pub fn part(&self) -> (r: &'a str)
        ensures
            r == self.part,
    {
        self.part
    }

    /// The excerpt between arrow markers: `------> part <------`.
    pub fn framed(&self) -> (r: String)
        ensures
            r@ == "------> "@ + self.part@ + " <------"@,
    {
        let mut r = String::from_str("------> ");
        r.append(self.part);
        r.append(" <------");
        r
    }
}

} // verus!
