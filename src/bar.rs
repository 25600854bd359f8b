use vstd::prelude::*;
use crate::keys::is_word;

verus! {

/// The widgets a status line can show.
#[derive(Clone, Copy, Debug, PartialEq, Eq, Structural)]
pub enum Widget {
    Desktop,
    Time,
    Cpu,
    Mem,
    Battery,
}

pub open spec fn widget_spec(name: Seq<char>) -> Option<Widget> {
    if name == "desktop"@ {
        Some(Widget::Desktop)
    } else if name == "time"@ {
        Some(Widget::Time)
    } else if name == "cpu"@ {
        Some(Widget::Cpu)
    } else if name == "mem"@ {
        Some(Widget::Mem)
    } else if name == "battery"@ {
        Some(Widget::Battery)
    } else {
        None
    }
}

/// The widget a configured name refers to; unknown names are `None`.
pub fn widget_kind(name: &String) -> (r: Option<Widget>)
    ensures
        r == widget_spec(name@),
{
    if is_word(name, "desktop") {
        Some(Widget::Desktop)
    } else if is_word(name, "time") {
        Some(Widget::Time)
    } else if is_word(name, "cpu") {
        Some(Widget::Cpu)
    } else if is_word(name, "mem") {
        Some(Widget::Mem)
    } else if is_word(name, "battery") {
        Some(Widget::Battery)
    } else {
        None
    }
}

pub open spec fn digit_char(d: nat) -> char {
    if d == 0 {
        '0'
    } else if d == 1 {
        '1'
    } else if d == 2 {
        '2'
    } else if d == 3 {
        '3'
    } else if d == 4 {
        '4'
    } else if d == 5 {
        '5'
    } else if d == 6 {
        '6'
    } else if d == 7 {
        '7'
    } else if d == 8 {
        '8'
    } else {
        '9'
    }
}

/// The decimal digits of `n`, without leading zeros.
pub open spec fn decimal(n: nat) -> Seq<char>
    decreases n,
{
    if n < 10 {
        seq![digit_char(n)]
    } else {
        decimal(n / 10).push(digit_char(n % 10))
    }
}

fn digit_str(d: u64) -> (r: &'static str)
    requires
        d < 10,
    ensures
        r@ == seq![digit_char(d as nat)],
{
    proof {
        reveal_strlit("0");
        reveal_strlit("1");
        reveal_strlit("2");
        reveal_strlit("3");
        reveal_strlit("4");
        reveal_strlit("5");
        reveal_strlit("6");
        reveal_strlit("7");
        reveal_strlit("8");
        reveal_strlit("9");
    }
    if d == 0 {
        "0"
    } else if d == 1 {
        "1"
    } else if d == 2 {
        "2"
    } else if d == 3 {
        "3"
    } else if d == 4 {
        "4"
    } else if d == 5 {
        "5"
    } else if d == 6 {
        "6"
    } else if d == 7 {
        "7"
    } else if d == 8 {
        "8"
    } else {
        "9"
    }
}

fn decimal_string(n: u64) -> (r: String)
    ensures
        r@ == decimal(n as nat),
    decreases n,
{
    if n < 10 {
        digit_str(n).to_owned()
    } else {
        let mut s = decimal_string(n / 10);
        s.append(digit_str(n % 10));
        s
    }
}

/// The label of a desktop, numbered from 1 for display.
pub open spec fn desktop_label(num: nat) -> Seq<char> {
    "Desktop "@ + decimal(num + 1)
}

/// The desktop widget: `"Desktop N"` with `N` the 0-based index plus one.
pub fn desktop_widget(num: usize) -> (r: String)
    requires
        num < usize::MAX,
    ensures
        r@ == desktop_label(num as nat),
{
    let mut s: String = "Desktop ".to_owned();
    let digits = decimal_string((num + 1) as u64);
    s.append(digits.as_str());
    s
}

/// What the widgets that only the system can render show at one refresh.
pub struct WidgetContents {
    pub time: String,
    pub cpu: String,
    pub mem: String,
    pub battery: String,
}

/// The text of the widget named `name`, or `None` for an unknown name.
pub open spec fn widget_text(name: Seq<char>, desktop: nat, c: WidgetContents) -> Option<Seq<char>> {
    match widget_spec(name) {
        Some(Widget::Desktop) => Some(desktop_label(desktop)),
        Some(Widget::Time) => Some(c.time@),
        Some(Widget::Cpu) => Some(c.cpu@),
        Some(Widget::Mem) => Some(c.mem@),
        Some(Widget::Battery) => Some(c.battery@),
        None => None,
    }
}

/// The texts of the known widgets among `names`, in order; unknown names are skipped.
pub open spec fn widget_texts(names: Seq<Seq<char>>, desktop: nat, c: WidgetContents) -> Seq<Seq<char>>
    decreases names.len(),
{
    if names.len() == 0 {
        Seq::empty()
    } else {
        let rest = widget_texts(names.drop_last(), desktop, c);
        match widget_text(names.last(), desktop, c) {
            Some(t) => rest.push(t),
            None => rest,
        }
    }
}

/// The parts joined with `" | "` between neighbours.
pub open spec fn join_bar(parts: Seq<Seq<char>>) -> Seq<char>
    decreases parts.len(),
{
    if parts.len() == 0 {
        Seq::empty()
    } else if parts.len() == 1 {
        parts[0]
    } else {
        join_bar(parts.drop_last()) + " | "@ + parts.last()
    }
}

/// The status line: each configured widget's text in order, unknown names skipped,
/// separated by `" | "`. The desktop widget shows `desktop_num`; the others show
/// what `contents` holds for them.
pub fn get_widgets(widgets: &Vec<String>, desktop_num: &usize, contents: &WidgetContents) -> (r:
    String)
    requires
        *desktop_num < usize::MAX,
    ensures
        r@ == join_bar(
            widget_texts(widgets@.map_values(|w: String| w@), *desktop_num as nat, *contents),
        ),
{
    let ghost names = widgets@.map_values(|w: String| w@);
    let mut out: String = String::new();
    let mut count: usize = 0;
    let mut i: usize = 0;
    while i < widgets.len()
        invariant
            i <= widgets@.len(),
            *desktop_num < usize::MAX,
            names == widgets@.map_values(|w: String| w@),
            count == widget_texts(names.take(i as int), *desktop_num as nat, *contents).len(),
            out@ == join_bar(widget_texts(names.take(i as int), *desktop_num as nat, *contents)),
            count <= i,
        decreases widgets.len() - i,
    {
        proof {
            assert(names.take(i + 1).drop_last() =~= names.take(i as int));
            assert(names.take(i + 1).last() == widgets@[i as int]@);
        }
        let ghost before = widget_texts(names.take(i as int), *desktop_num as nat, *contents);
        let text: Option<String> = match widget_kind(&widgets[i]) {
            Some(Widget::Desktop) => Some(desktop_widget(*desktop_num)),
            Some(Widget::Time) => Some(contents.time.clone()),
            Some(Widget::Cpu) => Some(contents.cpu.clone()),
            Some(Widget::Mem) => Some(contents.mem.clone()),
            Some(Widget::Battery) => Some(contents.battery.clone()),
            None => None,
        };
        match text {
            Some(t) => {
                if count > 0 {
                    out.append(" | ");
                }
                out.append(t.as_str());
                count = count + 1;
                proof {
                    let after = before.push(t@);
                    assert(after.drop_last() =~= before);
                    if before.len() == 0 {
                        assert(out@ =~= t@);
                    }
                }
            },
            None => {},
        }
        i = i + 1;
    }
    proof {
        assert(names.take(i as int) =~= names);
    }
    out
}

} // verus!
