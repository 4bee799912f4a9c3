use vstd::prelude::*;

verus! {

/// Whether `c` has the Unicode property White_Space, the set of characters
/// that `char::is_whitespace` and `str::trim` treat as whitespace.
pub open spec fn is_white_space(c: char) -> bool {
    let u = c as u32;
    (0x09 <= u && u <= 0x0d) || u == 0x20 || u == 0x85 || u == 0xa0 || u == 0x1680 || (0x2000
        <= u && u <= 0x200a) || u == 0x2028 || u == 0x2029 || u == 0x202f || u == 0x205f || u
        == 0x3000
}

/// `s` without its leading white space.
pub open spec fn trim_start(s: Seq<char>) -> Seq<char>
    decreases s.len(),
{
    if s.len() > 0 && is_white_space(s[0]) {
        trim_start(s.drop_first())
    } else {
        s
    }
}

/// `s` without its trailing white space.
pub open spec fn trim_end(s: Seq<char>) -> Seq<char>
    decreases s.len(),
{
    if s.len() > 0 && is_white_space(s.last()) {
        trim_end(s.drop_last())
    } else {
        s
    }
}

/// `s` without its leading and trailing white space.
pub open spec fn trimmed(s: Seq<char>) -> Seq<char> {
    trim_end(trim_start(s))
}

/// `trim_start(s)` is `s` less a prefix made only of white space, and it
/// does not itself start with white space.
proof fn lemma_trim_start(s: Seq<char>)
    ensures
        trim_start(s).len() <= s.len(),
        trim_start(s) == s.subrange(s.len() - trim_start(s).len(), s.len() as int),
        forall|k: int| 0 <= k < s.len() - trim_start(s).len() ==> is_white_space(#[trigger] s[k]),
        trim_start(s).len() > 0 ==> !is_white_space(trim_start(s)[0]),
    decreases s.len(),
{
    if s.len() > 0 && is_white_space(s[0]) {
        let rest = s.drop_first();
        lemma_trim_start(rest);
        assert(trim_start(s) == rest.subrange(rest.len() - trim_start(rest).len(), rest.len() as int));
        assert forall|k: int| 0 <= k < s.len() - trim_start(s).len() implies is_white_space(
            #[trigger] s[k],
        ) by {
            if k > 0 {
                assert(s[k] == rest[k - 1]);
            }
        }
    } else {
        assert(s == s.subrange(0, s.len() as int));
    }
}

/// `trim_end(s)` is `s` less a suffix made only of white space, and it does
/// not itself end with white space.
proof fn lemma_trim_end(s: Seq<char>)
    ensures
        trim_end(s).len() <= s.len(),
        trim_end(s) == s.subrange(0, trim_end(s).len() as int),
        forall|k: int| trim_end(s).len() <= k < s.len() ==> is_white_space(#[trigger] s[k]),
        trim_end(s).len() > 0 ==> !is_white_space(trim_end(s).last()),
    decreases s.len(),
{
    if s.len() > 0 && is_white_space(s.last()) {
        let rest = s.drop_last();
        lemma_trim_end(rest);
        assert forall|k: int| trim_end(s).len() <= k < s.len() implies is_white_space(
            #[trigger] s[k],
        ) by {
            if k < s.len() - 1 {
                assert(s[k] == rest[k]);
            }
        }
    } else {
        assert(s == s.subrange(0, s.len() as int));
    }
}

/// Trimming removes white space at both ends and nothing else: `trimmed(t)`
/// is the part of `t` from `start` to `end`, every character of `t` before
/// `start` or from `end` on is white space, and a non-empty result neither
/// starts nor ends with white space.
pub proof fn lemma_trimmed_strips_white_space(t: Seq<char>)
    ensures
        exists|start: int, end: int|
            {
                &&& 0 <= start <= end <= t.len()
                &&& trimmed(t) == t.subrange(start, end)
                &&& forall|k: int| 0 <= k < start ==> is_white_space(#[trigger] t[k])
                &&& forall|k: int| end <= k < t.len() ==> is_white_space(#[trigger] t[k])
            },
        trimmed(t).len() > 0 ==> !is_white_space(trimmed(t)[0]) && !is_white_space(
            trimmed(t).last(),
        ),
{
    let front = trim_start(t);
    lemma_trim_start(t);
    lemma_trim_end(front);
    let start = t.len() - front.len();
    let end = start + trim_end(front).len();
    assert(trimmed(t) == t.subrange(start, end));
    assert forall|k: int| end <= k < t.len() implies is_white_space(#[trigger] t[k]) by {
        assert(t[k] == front[k - start]);
    }
    if trimmed(t).len() > 0 {
        assert(trimmed(t)[0] == front[0]);
    }
}

/// Relies on `str::trim`: the slice of `s` left once leading and trailing
/// White_Space characters are removed.
#[verifier::external_body]
fn trim_white_space<'a>(s: &'a str) -> (r: &'a str)
    ensures
        r@ == trimmed(s@),
{
    s.trim()
}

/// What a ticket holds: its title, description and status as stored.
pub struct TicketView {
    pub title: Seq<char>,
    pub description: Seq<char>,
    pub status: Seq<char>,
}

/// A unit of work with a lifecycle status. It is built once and never
/// changed; its text accessors return the stored text with surrounding
/// white space removed.
pub struct Ticket {
    title: String,
    description: String,
    status: String,
}

impl View for Ticket {
    type V = TicketView;

    closed spec fn view(&self) -> TicketView {
        TicketView { title: self.title@, description: self.description@, status: self.status@ }
    }
}

impl Ticket {
    /// Builds a ticket from its three fields, stored as given.
    pub fn new(title: String, description: String, status: String) -> (r: Ticket)
        ensures
            r@.title == title@,
            r@.description == description@,
            r@.status == status@,
    {
        Ticket { title, description, status }
    }

    /// The title without leading or trailing white space.
    pub fn title(&self) -> (r: &str)
        ensures
            r@ == trimmed(self@.title),
    {
        trim_white_space(self.title.as_str())
    }

    /// The description without leading or trailing white space.
    pub fn description(&self) -> (r: &str)
        ensures
            r@ == trimmed(self@.description),
    {
        trim_white_space(self.description.as_str())
    }

    /// Whether the status is exactly `"Open"` (case-sensitive).
    pub fn is_open(&self) -> (r: bool)
        ensures
            r == (self@.status == "Open"@),
    {
        self.status == "Open".to_owned()
    }
}

impl Default for Ticket {
    /// A ticket whose title, description and status are all empty; it is
    /// not open.
    fn default() -> (r: Ticket)
        ensures
            r@.title.len() == 0,
            r@.description.len() == 0,
            r@.status.len() == 0,
    {
        Ticket { title: String::new(), description: String::new(), status: String::new() }
    }
}

} // verus!
