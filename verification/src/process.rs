//! Whether an instance is running, judged from a listing of the system's
//! processes. The answer is a hint and no more: the listing is a snapshot,
//! and the answer comes from a search for text.

use vstd::prelude::*;
use crate::text::contains;
use crate::text::contains_chars;
use crate::text::to_chars;

verus! {

/// The number of characters of `text` before its first line feed, or the
/// length of `text` if it has none.
pub open spec fn first_line_len(text: Seq<char>) -> nat
    decreases text.len(),
{
    if text.len() == 0 || text[0] == '\n' {
        0
    } else {
        1 + first_line_len(text.drop_first())
    }
}

/// A line without the carriage return that ended it, if one did.
pub open spec fn without_carriage_return(line: Seq<char>) -> Seq<char> {
    if line.len() > 0 && line.last() == '\r' {
        line.drop_last()
    } else {
        line
    }
}

/// The lines of `text`. A line ends at a line feed, or at a carriage
/// return followed by a line feed; neither belongs to the line. What
/// stands after the last line feed is a line of its own unless it is
/// empty, and it keeps a carriage return at its end.
pub open spec fn lines(text: Seq<char>) -> Seq<Seq<char>>
    decreases text.len(),
{
    if text.len() == 0 {
        Seq::empty()
    } else {
        let n = first_line_len(text) as int;
        if n >= text.len() {
            seq![text]
        } else {
            seq![without_carriage_return(text.take(n))] + lines(text.skip(n + 1))
        }
    }
}

/// Whether one line of a process listing shows the instance `name`
/// running: it names the sandbox, the launcher and the instance.
pub open spec fn line_shows(line: Seq<char>, name: Seq<char>) -> bool {
    &&& contains(line, "flatpak"@)
    &&& contains(line, "PrismLauncher"@)
    &&& contains(line, name)
}

/// Whether some line of `listing` shows the instance `name` running.
pub open spec fn shows_instance(listing: Seq<char>, name: Seq<char>) -> bool {
    exists|i: int| 0 <= i < lines(listing).len() && line_shows(#[trigger] lines(listing)[i], name)
}

/// The first line of a text is as long as the run of characters before the
/// first line feed.
proof fn lemma_first_line_len(text: Seq<char>, n: int)
    requires
        0 <= n <= text.len(),
        forall|k: int| 0 <= k < n ==> text[k] != '\n',
        n < text.len() ==> text[n] == '\n',
    ensures
        first_line_len(text) == n,
    decreases n,
{
    if n > 0 {
        lemma_first_line_len(text.drop_first(), n - 1);
    }
}

/// A text shows the instance exactly if its first line or what follows the
/// first line does.
proof fn lemma_shows_instance_unfold(text: Seq<char>, name: Seq<char>)
    requires
        text.len() > 0,
    ensures
        first_line_len(text) >= text.len() ==> shows_instance(text, name) == line_shows(text, name),
        first_line_len(text) < text.len() ==> shows_instance(text, name) == (line_shows(
            without_carriage_return(text.take(first_line_len(text) as int)),
            name,
        ) || shows_instance(text.skip(first_line_len(text) as int + 1), name)),
{
    let n = first_line_len(text) as int;
    let all = lines(text);
    if n >= text.len() {
        assert(all =~= seq![text]);
        if line_shows(text, name) {
            assert(line_shows(all[0], name));
        }
    } else {
        let head = without_carriage_return(text.take(n));
        let rest = lines(text.skip(n + 1));
        assert(all =~= seq![head] + rest);
        if line_shows(head, name) {
            assert(line_shows(all[0], name));
        }
        if shows_instance(text.skip(n + 1), name) {
            let i = choose|i: int| 0 <= i < rest.len() && line_shows(#[trigger] rest[i], name);
            assert(line_shows(all[i + 1], name));
        }
        if shows_instance(text, name) {
            let i = choose|i: int| 0 <= i < all.len() && line_shows(#[trigger] all[i], name);
            if i > 0 {
                assert(line_shows(rest[i - 1], name));
            }
        }
    }
}

/// Whether some line of the process listing `listing` shows the instance
/// `instance_name` running.
pub fn listing_shows_instance(listing: &str, instance_name: &str) -> (r: bool)
    ensures
        r == shows_instance(listing@, instance_name@),
{
    let text = to_chars(listing);
    let name = to_chars(instance_name);
    let sandbox = to_chars("flatpak");
    let launcher = to_chars("PrismLauncher");
    let mut start: usize = 0;
    assert(text@.skip(0) =~= text@);
    while start < text.len()
        invariant
            start <= text.len(),
            text@ == listing@,
            name@ == instance_name@,
            sandbox@ == "flatpak"@,
            launcher@ == "PrismLauncher"@,
            shows_instance(listing@, instance_name@) == shows_instance(
                text@.skip(start as int),
                name@,
            ),
        decreases text.len() - start,
    {
        let ghost rest = text@.skip(start as int);
        let mut line: Vec<char> = Vec::new();
        let mut end: usize = start;
        while end < text.len() && text[end] != '\n'
            invariant
                start <= end <= text.len(),
                rest == text@.skip(start as int),
                line@ == rest.take(end - start),
                forall|k: int| 0 <= k < end - start ==> rest[k] != '\n',
            decreases text.len() - end,
        {
            line.push(text[end]);
            assert(rest.take(end - start).push(rest[end - start]) =~= rest.take(end + 1 - start));
            end += 1;
        }
        let terminated = end < text.len();
        proof {
            lemma_first_line_len(rest, end - start);
            lemma_shows_instance_unfold(rest, name@);
            if terminated {
                assert(rest.skip(end - start + 1) =~= text@.skip(end + 1));
            } else {
                assert(rest.take(end - start) =~= rest);
            }
        }
        if terminated && line.len() > 0 && line[line.len() - 1] == '\r' {
            let _ = line.pop();
        }
        if contains_chars(&line, &sandbox) && contains_chars(&line, &launcher) && contains_chars(
            &line,
            &name,
        ) {
            return true;
        }
        if !terminated {
            return false;
        }
        start = end + 1;
    }
    assert(lines(text@.skip(start as int)) =~= Seq::<Seq<char>>::empty());
    false
}

} // verus!
