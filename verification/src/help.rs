//! The generic help command: its text, and the choice of reply for a help
//! request with an argument.

use vstd::prelude::*;

use crate::text::{is_space, is_space_char};

verus! {

/// How many whitespace-separated words the text holds.
pub open spec fn word_count(s: Seq<char>) -> int
    decreases s.len(),
{
    if s.len() == 0 {
        0
    } else {
        word_count(s.drop_last()) + (if !is_space(s.last()) && (s.len() == 1 || is_space(
            s[s.len() - 2],
        )) {
            1int
        } else {
            0int
        })
    }
}

/// The text a room is sent when help is asked for without an argument.
pub fn general_help_str() -> (r: String)
    ensures
        r@ == "Hi, I'm a friendly robot and provide these options:\n!help         - Print this help\n!help COMMAND - Print add. help for one of the commands below\n"@,
{
    String::from_str(
        "Hi, I'm a friendly robot and provide these options:\n!help         - Print this help\n!help COMMAND - Print add. help for one of the commands below\n",
    )
}

/// The reply to a help command: the general help for a bare request, and an
/// apology for an unknown command word or for more than one word.
pub fn help_reply(cmd: &str) -> (r: String)
    ensures
        word_count(cmd@) == 0 ==> r@
            == "Hi, I'm a friendly robot and provide these options:\n!help         - Print this help\n!help COMMAND - Print add. help for one of the commands below\n"@,
        word_count(cmd@) == 1 ==> r@ == "Sorry, unknown command"@,
        word_count(cmd@) >= 2 ==> r@
            == "Sorry, that is not possible. Please use \"!help\" or \"!help COMMAND\" for more information."@,
{
    let words = count_words(cmd);
    if words == 0 {
        general_help_str()
    } else if words == 1 {
        "Sorry, unknown command".to_owned()
    } else {
        "Sorry, that is not possible. Please use \"!help\" or \"!help COMMAND\" for more information.".to_owned()
    }
}

/// The number of whitespace-separated words, as [`word_count`] counts them.
fn count_words(s: &str) -> (r: usize)
    ensures
        r == word_count(s@),
{
    let n = s.unicode_len();
    let mut count: usize = 0;
    let mut i: usize = 0;
    proof {
        assert(s@.take(0) =~= Seq::<char>::empty());
    }
    while i < n
        invariant
            i <= n == s@.len(),
            count <= i,
            count == word_count(s@.take(i as int)),
        decreases n - i,
    {
        let c = s.get_char(i);
        let starts_word = if i == 0 {
            !is_space_char(c)
        } else {
            !is_space_char(c) && is_space_char(s.get_char(i - 1))
        };
        proof {
            let t = s@.take(i + 1);
            assert(t.drop_last() =~= s@.take(i as int));
            assert(t.last() == s@[i as int]);
            if i > 0 {
                assert(t[t.len() - 2] == s@[i - 1]);
            }
        }
        if starts_word {
            count += 1;
        }
        i += 1;
    }
    proof {
        assert(s@.take(n as int) =~= s@);
    }
    count
}

} // verus!
