//! Structured protocol messages and the line classifier.
//!
//! A raw line is classified into a command and optional parameter text.
//! The client only ever inspects whether a message is a capability
//! acknowledgment, a registration success ("welcome"), or a notice; every
//! other command is kept as [`Command::Other`]. A line may carry a leading
//! tag word (starting with `@`) and a leading source word (starting with
//! `:`); both are skipped. The first word after those is the command, and
//! everything after the single space that follows it is the parameter text.

use vstd::prelude::*;
use vstd::string::StrSliceExecFns;

use crate::text::str_eq;

verus! {

/// Command classifier of a protocol message, at the depth the client
/// inspects it.
#[derive(Clone, Copy, Debug, PartialEq, Eq, Structural)]
pub enum Command {
    /// Capability acknowledgment or rejection (`CAP`).
    Capability,
    /// Registration success (`001`).
    Welcome,
    /// Server notice (`NOTICE`).
    Notice,
    /// Any other command.
    Other,
}

/// A parsed protocol message: a command classifier and optional parameter
/// text.
#[derive(Debug, Clone)]
pub struct Message {
    /// The command classifier.
    pub command: Command,
    /// Everything after the command word, if anything follows it.
    pub params: Option<String>,
}

/// View of optional parameter text as an optional character sequence.
pub open spec fn opt_view(p: Option<String>) -> Option<Seq<char>> {
    match p {
        Option::Some(s) => Option::Some(s@),
        Option::None => Option::None,
    }
}

/// Index of the first space in `s`, or `s.len()` if there is none.
pub open spec fn first_space(s: Seq<char>) -> int
    decreases s.len(),
{
    if s.len() == 0 {
        0
    } else if s[0] == ' ' {
        0
    } else {
        1 + first_space(s.subrange(1, s.len() as int))
    }
}

proof fn lemma_first_space(s: Seq<char>)
    ensures
        0 <= first_space(s) <= s.len(),
        first_space(s) < s.len() ==> s[first_space(s)] == ' ',
        forall|k: int| 0 <= k < first_space(s) ==> s[k] != ' ',
    decreases s.len(),
{
    if s.len() == 0 {
    } else if s[0] == ' ' {
    } else {
        let t = s.subrange(1, s.len() as int);
        lemma_first_space(t);
        assert forall|k: int| 0 <= k < first_space(s) implies s[k] != ' ' by {
            if k > 0 {
                assert(t[k - 1] == s[k]);
            }
        }
    }
}

proof fn lemma_first_space_at(s: Seq<char>, i: int)
    requires
        0 <= i <= s.len(),
        forall|k: int| 0 <= k < i ==> s[k] != ' ',
        i < s.len() ==> s[i] == ' ',
    ensures
        first_space(s) == i,
    decreases s.len(),
{
    if s.len() == 0 {
    } else if i == 0 {
    } else {
        let t = s.subrange(1, s.len() as int);
        assert(s[0] != ' ');
        assert forall|k: int| 0 <= k < i - 1 implies t[k] != ' ' by {
            assert(t[k] == s[k + 1]);
        }
        assert(i - 1 < t.len() ==> t[i - 1] == s[i]);
        lemma_first_space_at(t, i - 1);
    }
}

/// What remains of `s` after its first word and the space that ends the
/// word; empty if no space occurs.
pub open spec fn strip_word(s: Seq<char>) -> Seq<char> {
    if first_space(s) < s.len() {
        s.subrange(first_space(s) + 1, s.len() as int)
    } else {
        Seq::empty()
    }
}

/// The line after any leading tag word and any leading source word.
pub open spec fn body_text(s: Seq<char>) -> Seq<char> {
    let t = if s.len() > 0 && s[0] == '@' {
        strip_word(s)
    } else {
        s
    };
    if t.len() > 0 && t[0] == ':' {
        strip_word(t)
    } else {
        t
    }
}

/// The command word of the line.
pub open spec fn command_text(s: Seq<char>) -> Seq<char> {
    body_text(s).subrange(0, first_space(body_text(s)))
}

/// The parameter text of the line: everything after the space that ends
/// the command word, if that space exists.
pub open spec fn params_text(s: Seq<char>) -> Option<Seq<char>> {
    let u = body_text(s);
    if first_space(u) < u.len() {
        Option::Some(u.subrange(first_space(u) + 1, u.len() as int))
    } else {
        Option::None
    }
}

/// A line is well-formed exactly when it has a nonempty command word.
pub open spec fn line_parses(s: Seq<char>) -> bool {
    command_text(s).len() > 0
}

/// Classification of a command word.
pub open spec fn classify(cmd: Seq<char>) -> Command {
    if cmd == "CAP"@ {
        Command::Capability
    } else if cmd == "001"@ {
        Command::Welcome
    } else if cmd == "NOTICE"@ {
        Command::Notice
    } else {
        Command::Other
    }
}

/// Index of the first space at or after `from`, or the length of `s` if
/// there is none.
fn find_space(s: &str, from: usize) -> (i: usize)
    requires
        from <= s@.len(),
    ensures
        from <= i <= s@.len(),
        first_space(s@.subrange(from as int, s@.len() as int)) == i - from,
        i < s@.len() ==> s@[i as int] == ' ',
{
    let n = s.unicode_len();
    let mut j: usize = from;
    while j < n
        invariant
            from <= j <= n,
            n == s@.len(),
            forall|k: int| from <= k < j ==> s@[k] != ' ',
        decreases n - j,
    {
        if s.get_char(j) == ' ' {
            proof {
                let suf = s@.subrange(from as int, s@.len() as int);
                assert(forall|k: int| 0 <= k < j - from ==> suf[k] == s@[from + k]);
                assert(suf[j - from] == s@[j as int]);
                lemma_first_space_at(suf, j - from);
            }
            return j;
        }
        j += 1;
    }
    proof {
        let suf = s@.subrange(from as int, s@.len() as int);
        assert(forall|k: int| 0 <= k < suf.len() ==> suf[k] == s@[from + k]);
        lemma_first_space_at(suf, n - from);
    }
    n
}

/// Classify one raw line.
///
/// A line with a nonempty command word yields a [`Message`]; any other
/// line is handed back unchanged as the error.
pub fn parse(line: String) -> (r: Result<Message, String>)
    ensures
        line_parses(line@) ==> (r matches Ok(m) && m.command == classify(command_text(line@))
            && opt_view(m.params) == params_text(line@)),
        !line_parses(line@) ==> r == Err::<Message, String>(line),
{
    let s = line.as_str();
    let n = s.unicode_len();

    // Skip a leading tag word, then a leading source word.
    let mut pos: usize = 0;
    if n > 0 && s.get_char(0) == '@' {
        let sp = find_space(s, 0);
        pos = if sp < n {
            sp + 1
        } else {
            n
        };
        proof {
            assert(s@.subrange(0, s@.len() as int) =~= s@);
            assert(s@.subrange(pos as int, s@.len() as int) =~= strip_word(s@));
        }
    }
    proof {
        let t = if s@.len() > 0 && s@[0] == '@' {
            strip_word(s@)
        } else {
            s@
        };
        assert(s@.subrange(pos as int, s@.len() as int) =~= t);
    }
    let ghost t = s@.subrange(pos as int, s@.len() as int);
    if pos < n && s.get_char(pos) == ':' {
        let sp = find_space(s, pos);
        proof {
            assert(first_space(t) == sp - pos);
            assert(forall|k: int| 0 <= k < t.len() ==> t[k] == s@[pos + k]);
        }
        let newpos = if sp < n {
            sp + 1
        } else {
            n
        };
        proof {
            assert(s@.subrange(newpos as int, s@.len() as int) =~= strip_word(t));
        }
        pos = newpos;
    }
    proof {
        assert(s@.subrange(pos as int, s@.len() as int) =~= body_text(s@));
    }
    let ghost u = body_text(s@);

    // The command word runs from `pos` to the next space or the end.
    let ce = find_space(s, pos);
    proof {
        assert(first_space(u) == ce - pos);
        lemma_first_space(u);
    }
    if ce == pos {
        // Empty command word: the line is malformed.
        proof {
            assert(command_text(s@).len() == 0);
        }
        return Err(line);
    }
    let cmd = s.substring_char(pos, ce);
    proof {
        assert(forall|k: int| 0 <= k < u.len() ==> u[k] == s@[pos + k]);
        assert(cmd@ =~= command_text(s@));
    }
    let command = if str_eq(cmd, "CAP") {
        Command::Capability
    } else if str_eq(cmd, "001") {
        Command::Welcome
    } else if str_eq(cmd, "NOTICE") {
        Command::Notice
    } else {
        Command::Other
    };
    let params = if ce < n {
        let p = s.substring_char(ce + 1, n).to_owned();
        proof {
            assert(p@ =~= u.subrange(first_space(u) + 1, u.len() as int));
        }
        Some(p)
    } else {
        None
    };
    Ok(Message { command, params })
}

} // verus!
