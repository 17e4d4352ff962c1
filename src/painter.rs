use vstd::prelude::*;

use colored::Colorize;

use crate::task::{opt_view, Task, TaskList};
use crate::text::decimal;

verus! {

/// Renders task lists as text for a terminal.
pub struct Painter {}

/// The colours the renderer uses.
#[derive(PartialEq, Eq, Structural, Clone, Copy)]
pub enum Hue {
    Blue,
    Green,
    BrightYellow,
}

/// The SGR code of a colour, as colored writes it.
pub open spec fn hue_code(hue: Hue) -> Seq<char> {
    match hue {
        Hue::Blue => seq!['3', '4'],
        Hue::Green => seq!['3', '2'],
        Hue::BrightYellow => seq!['9', '3'],
    }
}

/// What painting `s` bold in `hue` gives: `s` itself where colouring is off,
/// else `s` between the bold-and-colour code and the reset code, where `s`
/// holds no escape character.
pub open spec fn painted(s: Seq<char>, hue: Hue, r: Seq<char>) -> bool {
    ||| r == s
    ||| !s.contains('\u{1b}') && r == seq!['\u{1b}', '[', '1', ';'] + hue_code(hue) + seq!['m'] + s
        + seq!['\u{1b}', '[', '0', 'm']
    ||| s.contains('\u{1b}') && r.len() > 0 && r[0] == '\u{1b}'
}

/// Relies on colored's Colorize::color and Colorize::bold and the Display impl
/// of ColoredString: the text in bold in the colour, wrapped in escape codes
/// when colouring is on and left as it is when it is off.
#[verifier::external_body]
fn paint(s: &str, hue: Hue) -> (r: String)
    ensures
        painted(s@, hue, r@),
{
    let color = match hue {
        Hue::Blue => colored::Color::Blue,
        Hue::Green => colored::Color::Green,
        Hue::BrightYellow => colored::Color::BrightYellow,
    };
    s.color(color).bold().to_string()
}

/// Relies on the `Display` impl of `u64`: the shortest decimal writing.
#[verifier::external_body]
fn decimal_text(n: u64) -> (r: String)
    ensures
        r@ == decimal(n as nat),
{
    n.to_string()
}

/// The status mark of a task, before painting.
pub open spec fn glyph(done: bool) -> Seq<char> {
    if done {
        seq!['\u{2713}']
    } else {
        seq!['\u{25cf}']
    }
}

/// `"<index>. <title>: <description> <status>"`, without the description
/// and its space where there is none.
pub open spec fn task_line(
    index: u64,
    title: Seq<char>,
    description: Option<Seq<char>>,
    status: Seq<char>,
) -> Seq<char> {
    decimal(index as nat) + seq!['.', ' '] + title + seq![':', ' '] + match description {
        Some(d) => d + seq![' '],
        None => Seq::empty(),
    } + status
}

/// The lines joined by newlines.
pub open spec fn joined(lines: Seq<Seq<char>>) -> Seq<char>
    decreases lines.len(),
{
    if lines.len() == 0 {
        Seq::empty()
    } else if lines.len() == 1 {
        lines[0]
    } else {
        joined(lines.drop_last()) + seq!['\n'] + lines.last()
    }
}

/// The length of a name in bytes, as `str::len` gives it.
pub open spec fn rule_width(n: Seq<char>) -> nat {
    (vstd::utf8::encode_utf8(n).len() as usize) as nat
}

/// The rendering of a list: a named list gets its name, underlined with one
/// `=` per byte of the name, above its lines.
pub open spec fn list_text(name: Option<Seq<char>>, lines: Seq<Seq<char>>) -> Seq<char> {
    match name {
        Some(n) => n + seq!['\n'] + Seq::new(rule_width(n), |i: int| '=')
            + seq!['\n'] + joined(lines),
        None => joined(lines),
    }
}

/// A line that paints task `t`.
pub open spec fn paints_task(t: Task, line: Seq<char>) -> bool {
    exists|title: Seq<char>, status: Seq<char>|
        painted(t.title@, Hue::Blue, title) && painted(
            glyph(t.done),
            if t.done {
                Hue::Green
            } else {
                Hue::BrightYellow
            },
            status,
        ) && line == task_line(
            t.index,
            title,
            opt_view(t.description),
            status,
        )
}

/// A rendering of list `l`: one line that paints each task, in order, under
/// the list's name.
pub open spec fn paints_list(l: TaskList, text: Seq<char>) -> bool {
    exists|lines: Seq<Seq<char>>|
        {
            &&& lines.len() == l.tasks@.len()
            &&& forall|i: int| 0 <= i < lines.len() ==> paints_task(l.tasks@[i], #[trigger] lines[i])
            &&& text == list_text(opt_view(l.name), lines)
        }
}

/// Puts a task's line together from its painted title and status.
pub fn task_line_of(index: u64, title: &str, description: &Option<String>, status: &str) -> (r:
    String)
    ensures
        r@ == task_line(index, title@, opt_view(*description), status@),
{
    let mut out = decimal_text(index);
    proof {
        reveal_strlit(". ");
        reveal_strlit(": ");
        reveal_strlit(" ");
    }
    out.append(". ");
    out.append(title);
    out.append(": ");
    match description {
        Some(d) => {
            out.append(d.as_str());
            out.append(" ");
        },
        None => {},
    }
    out.append(status);
    assert(out@ =~= task_line(index, title@, opt_view(*description), status@));
    out
}

/// Puts a list's rendering together from its name and its tasks' lines.
pub fn list_text_of(name: &Option<String>, lines: &Vec<String>) -> (r: String)
    ensures
        r@ == list_text(opt_view(*name), lines@.map_values(|l: String| l@)),
{
    let ghost views = lines@.map_values(|l: String| l@);
    proof {
        reveal_strlit("\n");
        reveal_strlit("=");
    }
    let mut body = String::new();
    let mut i: usize = 0;
    while i < lines.len()
        invariant
            0 <= i <= lines@.len(),
            views == lines@.map_values(|l: String| l@),
            body@ == joined(views.take(i as int)),
        decreases lines@.len() - i,
    {
        proof {
            reveal_strlit("\n");
        }
        let ghost prev = body@;
        if i > 0 {
            body.append("\n");
        }
        body.append(lines[i].as_str());
        assert(views[i as int] == lines@[i as int]@);
        assert(views.take(i + 1).drop_last() =~= views.take(i as int));
        if i == 0 {
            assert(body@ =~= views.take(1)[0]);
        } else {
            assert(body@ =~= prev + seq!['\n'] + views.take(i + 1).last());
        }
        i = i + 1;
    }
    assert(views.take(lines@.len() as int) =~= views);
    match name {
        None => body,
        Some(n) => {
            let ns = n.as_str();
            let width = ns.len();
            let mut out = n.clone();
            out.append("\n");
            let ghost head = out@;
            let mut k: usize = 0;
            while k < width
                invariant
                    0 <= k <= width,
                    out@ == head + Seq::new(k as nat, |i: int| '='),
                decreases width - k,
            {
                proof {
                    reveal_strlit("=");
                }
                out.append("=");
                assert(out@ =~= head + Seq::new((k + 1) as nat, |i: int| '='));
                k = k + 1;
            }
            proof {
                reveal_strlit("\n");
            }
            out.append("\n");
            out.append(body.as_str());
            assert(width == rule_width(n@));
            assert(out@ =~= list_text(opt_view(*name), views));
            out
        },
    }
}

impl Painter {
    /// The line of one task: index, painted title, description if any, and a
    /// painted mark for done or not done.
    pub fn paint_task(&self, task: &Task) -> (r: String)
        ensures
            paints_task(*task, r@),
    {
        let title = paint(task.title.as_str(), Hue::Blue);
        let status = if task.done {
            paint("\u{2713}", Hue::Green)
        } else {
            paint("\u{25cf}", Hue::BrightYellow)
        };
        proof {
            reveal_strlit("\u{2713}");
            reveal_strlit("\u{25cf}");
            assert("\u{2713}"@ =~= glyph(true));
            assert("\u{25cf}"@ =~= glyph(false));
        }
        task_line_of(task.index, title.as_str(), &task.description, status.as_str())
    }

    /// The rendering of a list: its name and underline where it has a name,
    /// then one painted line per task, in order.
    pub fn paint_task_list(&self, task_list: &TaskList) -> (r: String)
        ensures
            paints_list(*task_list, r@),
    {
        let mut lines: Vec<String> = Vec::new();
        let mut i: usize = 0;
        while i < task_list.tasks.len()
            invariant
                0 <= i <= task_list.tasks@.len(),
                lines@.len() == i,
                forall|k: int| 0 <= k < i ==> paints_task(task_list.tasks@[k], #[trigger] lines@[k]@),
            decreases task_list.tasks@.len() - i,
        {
            let line = self.paint_task(&task_list.tasks[i]);
            lines.push(line);
            i = i + 1;
        }
        let r = list_text_of(&task_list.name, &lines);
        let ghost views = lines@.map_values(|l: String| l@);
        assert forall|k: int| 0 <= k < views.len() implies paints_task(task_list.tasks@[k], #[trigger] views[k]) by {
            assert(views[k] == lines@[k]@);
        }
        r
    }
}

} // verus!
