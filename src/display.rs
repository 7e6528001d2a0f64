use vstd::prelude::*;
use crate::clock::now_millis;
use crate::state::{AppState, StatusView};
use crate::task::Task;
use crate::text::{byte_len, decimal, decimal_text, replace_all, replace_text};
use vstd::utf8::{char_is_scalar, encode_scalar};

verus! {

/// Most UTF-8 bytes of a description shown on a task line.
pub const DESCRIPTION_LIMIT: usize = 100;

/// The number of UTF-8 bytes that encode `c`.
pub open spec fn char_width(c: char) -> int {
    encode_scalar(c as u32).len() as int
}

/// The longest prefix of `d` whose UTF-8 encoding takes at most `limit` bytes.
pub open spec fn prefix_within(d: Seq<char>, limit: int) -> Seq<char>
    decreases d.len(),
{
    if d.len() == 0 || char_width(d[0]) > limit {
        Seq::empty()
    } else {
        seq![d[0]] + prefix_within(d.drop_first(), limit - char_width(d[0]))
    }
}

/// The number of UTF-8 bytes that encode `c`.
fn utf8_width(c: char) -> (r: usize)
    ensures
        r as int == char_width(c),
{
    proof {
        char_is_scalar(c);
    }
    let u = c as u32;
    if u <= 0x7F {
        1
    } else if u <= 0x7FF {
        2
    } else if u <= 0xFFFF {
        3
    } else {
        4
    }
}

/// The longest prefix of `d` whose UTF-8 encoding takes at most `DESCRIPTION_LIMIT`
/// bytes.
fn description_prefix(d: &str) -> (r: &str)
    ensures
        r@ == prefix_within(d@, DESCRIPTION_LIMIT as int),
{
    let n = d.unicode_len();
    let ghost s = d@;
    let mut k: usize = 0;
    let mut used: usize = 0;
    proof {
        assert(s.subrange(0, 0) + s.subrange(0, n as int) =~= s.subrange(0, n as int));
        assert(s.subrange(0, n as int) =~= s);
        assert(s.subrange(0, 0) + prefix_within(s, DESCRIPTION_LIMIT as int) =~= prefix_within(s, DESCRIPTION_LIMIT as int));
    }
    loop
        invariant
            k <= n,
            n == s.len(),
            s == d@,
            used <= DESCRIPTION_LIMIT,
            prefix_within(s, DESCRIPTION_LIMIT as int) == s.subrange(0, k as int) + prefix_within(
                s.subrange(k as int, n as int),
                DESCRIPTION_LIMIT - used,
            ),
        ensures
            k <= n,
            prefix_within(s, DESCRIPTION_LIMIT as int) == s.subrange(0, k as int),
        decreases n - k,
    {
        if k >= n {
            assert(s.subrange(0, k as int) + Seq::<char>::empty() =~= s.subrange(0, k as int));
            break;
        }
        let w = utf8_width(d.get_char(k));
        if used + w > DESCRIPTION_LIMIT {
            assert(s.subrange(0, k as int) + Seq::<char>::empty() =~= s.subrange(0, k as int));
            break;
        }
        proof {
            let rest = s.subrange(k as int, n as int);
            assert(rest[0] == s[k as int]);
            assert(rest.drop_first() =~= s.subrange(k + 1, n as int));
            assert(s.subrange(0, k as int) + seq![s[k as int]] =~= s.subrange(0, k + 1));
            assert(s.subrange(0, k as int) + (seq![s[k as int]] + prefix_within(
                s.subrange(k + 1, n as int),
                DESCRIPTION_LIMIT - used - w,
            )) =~= s.subrange(0, k + 1) + prefix_within(
                s.subrange(k + 1, n as int),
                DESCRIPTION_LIMIT - used - w,
            ));
        }
        used = used + w;
        k = k + 1;
    }
    d.substring_char(0, k)
}

/// `s` without a leading `[`.
pub open spec fn drop_open_bracket(s: Seq<char>) -> Seq<char> {
    if s.len() > 0 && s[0] == '[' {
        s.drop_first()
    } else {
        s
    }
}

/// Markup stripped for display: `*` and `_` removed, `](` turned into `) (`, and a
/// leading `[` dropped, so that `[label](url)` reads `label) (url)`.
pub open spec fn plain_text(s: Seq<char>) -> Seq<char> {
    let no_bold = replace_all(s, seq!['*', '*'], Seq::empty());
    let no_star = replace_all(no_bold, seq!['*'], Seq::empty());
    let no_under = replace_all(no_star, seq!['_'], Seq::empty());
    drop_open_bracket(replace_all(no_under, seq![']', '('], seq![')', ' ', '(']))
}

/// Strips light markup from a text for display.
pub fn parse_markdown(text: &str) -> (r: String)
    ensures
        r@ == plain_text(text@),
{
    proof {
        reveal_strlit("**");
        reveal_strlit("*");
        reveal_strlit("_");
        reveal_strlit("");
        reveal_strlit("](");
        reveal_strlit(") (");
        assert("**"@ =~= seq!['*', '*']);
        assert("*"@ =~= seq!['*']);
        assert("_"@ =~= seq!['_']);
        assert(""@ =~= Seq::<char>::empty());
        assert("]("@ =~= seq![']', '(']);
        assert(") ("@ =~= seq![')', ' ', '(']);
    }
    let no_bold = replace_text(text, "**", "");
    let no_star = replace_text(no_bold.as_str(), "*", "");
    let no_under = replace_text(no_star.as_str(), "_", "");
    let cleaned = replace_text(no_under.as_str(), "](", ") (");
    let n = cleaned.as_str().unicode_len();
    if n > 0 && cleaned.as_str().get_char(0) == '[' {
        let rest = cleaned.as_str().substring_char(1, n);
        assert(rest@ =~= cleaned@.drop_first());
        rest.to_owned()
    } else {
        cleaned
    }
}

/// The spinner frame shown at a given millisecond: frames advance every 100 ms
/// through four glyphs.
pub open spec fn spinner_glyph(millis: u64) -> Seq<char> {
    let i = (millis / 100) % 4;
    if i == 0 {
        seq!['⠋']
    } else if i == 1 {
        seq!['⠙']
    } else if i == 2 {
        seq!['⠹']
    } else {
        seq!['⠸']
    }
}

/// The spinner frame for the time `millis`, in milliseconds.
pub fn spinner_frame_at(millis: u64) -> (r: &'static str)
    ensures
        r@ == spinner_glyph(millis),
{
    proof {
        reveal_strlit("⠋");
        reveal_strlit("⠙");
        reveal_strlit("⠹");
        reveal_strlit("⠸");
        assert("⠋"@ =~= seq!['⠋']);
        assert("⠙"@ =~= seq!['⠙']);
        assert("⠹"@ =~= seq!['⠹']);
        assert("⠸"@ =~= seq!['⠸']);
    }
    let i = (millis / 100) % 4;
    if i == 0 {
        "⠋"
    } else if i == 1 {
        "⠙"
    } else if i == 2 {
        "⠹"
    } else {
        "⠸"
    }
}

/// The spinner frame for the current time.
pub fn spinner_frame() -> (r: &'static str)
    ensures
        exists|millis: u64| r@ == spinner_glyph(millis),
{
    spinner_frame_at(now_millis())
}

/// The status label: `Online`, `Offline`, the spinner followed by ` Syncing...`, or
/// `ERR: ` followed by the message.
pub open spec fn status_text(status: StatusView, spinner: Seq<char>) -> Seq<char> {
    match status {
        StatusView::Online => "Online"@,
        StatusView::Offline => "Offline"@,
        StatusView::Syncing => spinner + " Syncing..."@,
        StatusView::Error(m) => "ERR: "@ + m,
    }
}

/// The search indicator: ` | Search: ` followed by the query while searching, else
/// nothing.
pub open spec fn search_text(is_searching: bool, query: Seq<char>) -> Seq<char> {
    if is_searching {
        " | Search: "@ + query
    } else {
        Seq::empty()
    }
}

/// Keys shown at the end of the status line.
pub const KEY_HINTS: &'static str = " | q: quit, r: refresh, j/k: move, space: (un)check";

/// The status line: the status label, the search indicator, the number of active
/// tasks and the key hints.
pub open spec fn status_line_text(
    status: StatusView,
    spinner: Seq<char>,
    is_searching: bool,
    query: Seq<char>,
    task_count: nat,
) -> Seq<char> {
    "Status: "@ + status_text(status, spinner) + search_text(is_searching, query) + " | Tasks: "@
        + decimal(task_count) + KEY_HINTS@
}

/// The description part of a task line: nothing for an empty description, else
/// ` - ` and the description; one longer than `DESCRIPTION_LIMIT` bytes is cut to its
/// longest prefix within that many bytes, followed by `...`.
pub open spec fn description_text(d: Seq<char>) -> Seq<char> {
    if d.len() == 0 {
        Seq::empty()
    } else if byte_len(d) > DESCRIPTION_LIMIT {
        " - "@ + prefix_within(d, DESCRIPTION_LIMIT as int) + "..."@
    } else {
        " - "@ + d
    }
}

/// A task line: `[✓] ` or `[ ] `, the content and the description part, markup
/// stripped from both.
pub open spec fn line_text(t: Task) -> Seq<char> {
    "["@ + (if t.is_completed { "✓"@ } else { " "@ }) + "] "@ + plain_text(t.content@)
        + description_text(plain_text(t.description@))
}

/// The line shown for a task.
pub fn task_line(task: &Task) -> (r: String)
    ensures
        r@ == line_text(*task),
{
    let content = parse_markdown(task.content.as_str());
    let desc = parse_markdown(task.description.as_str());
    let mut line = "[".to_owned();
    if task.is_completed {
        line.append("✓");
    } else {
        line.append(" ");
    }
    line.append("] ");
    line.append(content.as_str());
    let n = desc.as_str().unicode_len();
    if n > 0 {
        line.append(" - ");
        if desc.as_str().len() > DESCRIPTION_LIMIT {
            line.append(description_prefix(desc.as_str()));
            line.append("...");
        } else {
            line.append(desc.as_str());
        }
    }
    proof {
        let d = plain_text(task.description@);
        assert(Seq::<char>::empty() + d =~= d);
    }
    assert(line@ =~= line_text(*task));
    line
}

/// The position within a section of the entry selected globally, when the
/// section, starting at `offset` with `len` entries, holds it.
pub fn section_selection(global: usize, offset: usize, len: usize) -> (r: Option<usize>)
    ensures
        r == (if offset <= global && global < offset + len {
            Some((global - offset) as usize)
        } else {
            None::<usize>
        }),
{
    if global >= offset && global - offset < len {
        Some(global - offset)
    } else {
        None
    }
}

impl AppState {
    /// The status label, with `spinner` before ` Syncing...`.
    pub fn sync_label(&self, spinner: &str) -> (r: String)
        ensures
            r@ == status_text(self@.sync_status, spinner@),
    {
        match &self.sync_status {
            crate::state::SyncStatus::Online => "Online".to_owned(),
            crate::state::SyncStatus::Offline => "Offline".to_owned(),
            crate::state::SyncStatus::Syncing => {
                let mut s = spinner.to_owned();
                s.append(" Syncing...");
                s
            },
            crate::state::SyncStatus::Error(m) => {
                let mut s = "ERR: ".to_owned();
                s.append(m.as_str());
                s
            },
        }
    }

    /// The status line, with `spinner` before ` Syncing...`.
    pub fn status_line(&self, spinner: &str) -> (r: String)
        ensures
            r@ == status_line_text(
                self@.sync_status,
                spinner@,
                self@.is_searching,
                self@.search_query,
                self@.tasks.len(),
            ),
    {
        let mut line = "Status: ".to_owned();
        let status = self.sync_label(spinner);
        line.append(status.as_str());
        let search = self.search_label();
        line.append(search.as_str());
        line.append(" | Tasks: ");
        let count = decimal_text(self.tasks.len());
        line.append(count.as_str());
        line.append(KEY_HINTS);
        line
    }

    /// The search indicator for the status bar.
    pub fn search_label(&self) -> (r: String)
        ensures
            r@ == search_text(self@.is_searching, self@.search_query),
    {
        if self.is_searching {
            let mut s = " | Search: ".to_owned();
            s.append(self.search_query.as_str());
            s
        } else {
            String::new()
        }
    }
}

} // verus!
