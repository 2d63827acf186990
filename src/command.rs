use vstd::prelude::*;
use vstd::string::StrSliceExecFns;

verus! {

/// A command is a message that starts with a slash and has a name.
///
/// Examples: `/start`, `/help@MyBot`, `/echo hello world`.
#[derive(Debug)]
pub struct Command {
    /// The name of the command: `/start` gives `start`.
    pub name: String,
    /// The bot that the command was sent to: `/help@MyBot` gives `MyBot`.
    pub via: Option<String>,
    /// The argument of the command: `/echo hello world` gives `hello world`.
    pub arg: Option<String>,
}

/// `i` is the position of the first `c` in `s`.
pub open spec fn is_first_index(s: Seq<char>, c: char, i: int) -> bool {
    &&& 0 <= i < s.len()
    &&& s[i] == c
    &&& forall|j: int| 0 <= j < i ==> s[j] != c
}

/// Splits `s` at its first `c`: the part before it, and the part after it if `c` occurs.
pub open spec fn split_once(s: Seq<char>, c: char) -> (Seq<char>, Option<Seq<char>>) {
    if exists|i: int| is_first_index(s, c, i) {
        let i = choose|i: int| is_first_index(s, c, i);
        (s.subrange(0, i), Some(s.subrange(i + 1, s.len() as int)))
    } else {
        (s, None)
    }
}

/// The parsed form of a text: `None` unless it starts with `/`; otherwise the name,
/// the bot name after the first `@` of the first word, and the text after the first space.
pub open spec fn command_of(t: Seq<char>) -> Option<(Seq<char>, Option<Seq<char>>, Option<Seq<char>>)> {
    if t.len() == 0 || t[0] != '/' {
        None
    } else {
        let (head, arg) = split_once(t.drop_first(), ' ');
        let (name, via) = split_once(head, '@');
        Some((name, via, arg))
    }
}

pub open spec fn opt_view(o: Option<String>) -> Option<Seq<char>> {
    match o {
        Some(s) => Some(s@),
        None => None,
    }
}

impl Command {
    pub open spec fn spec_parts(&self) -> (Seq<char>, Option<Seq<char>>, Option<Seq<char>>) {
        (self.name@, opt_view(self.via), opt_view(self.arg))
    }
}

proof fn lemma_first_index_unique(s: Seq<char>, c: char, i: int, k: int)
    requires
        is_first_index(s, c, i),
        is_first_index(s, c, k),
    ensures
        i == k,
{
    if i < k {
        assert(s[i] != c);
    } else if k < i {
        assert(s[k] != c);
    }
}

/// Splits `s` at its first `c`.
pub(crate) fn split_first<'a>(s: &'a str, c: char) -> (r: (&'a str, Option<&'a str>))
    ensures
        split_once(s@, c) == (r.0@, match r.1 { Some(t) => Some(t@), None => None::<Seq<char>> }),
{
    let n = s.unicode_len();
    let mut i: usize = 0;
    while i < n
        invariant
            n == s@.len(),
            i <= n,
            forall|j: int| 0 <= j < i ==> s@[j] != c,
        decreases n - i,
    {
        if s.get_char(i) == c {
            proof {
                assert(is_first_index(s@, c, i as int));
                assert forall|k: int| is_first_index(s@, c, k) implies k == i by {
                    lemma_first_index_unique(s@, c, i as int, k);
                }
            }
            let before = s.substring_char(0, i);
            let after = s.substring_char(i + 1, n);
            return (before, Some(after));
        }
        i = i + 1;
    }
    proof {
        assert forall|k: int| !is_first_index(s@, c, k) by {
            if 0 <= k < s@.len() {
                assert(s@[k] != c);
            }
        }
    }
    (s, None)
}

/// Parses a command from the given text.
pub fn parse_command(text: &str) -> (r: Option<Command>)
    ensures
        match r {
            Some(cmd) => command_of(text@) == Some(cmd.spec_parts()),
            None => command_of(text@).is_none(),
        },
{
    let n = text.unicode_len();
    if n == 0 || text.get_char(0) != '/' {
        return None;
    }
    let rest = text.substring_char(1, n);
    assert(rest@ == text@.drop_first());
    let (head, arg) = split_first(rest, ' ');
    let (name, via) = split_first(head, '@');
    let via = match via {
        Some(v) => Some(v.to_owned()),
        None => None,
    };
    let arg = match arg {
        Some(a) => Some(a.to_owned()),
        None => None,
    };
    Some(Command { name: name.to_owned(), via, arg })
}

} // verus!
