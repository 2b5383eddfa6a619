//! Rendering the display listing as text.
//!
//! The `list` command prints, for every attached display, its name followed by
//! its enumeration index, refresh rate and size, with a blank line between
//! entries and no trailing blank line. The text is built here, character for
//! character, against a specification of the exact output.

use vstd::prelude::*;
use vstd::string::StringExecFns;

use crate::display::Display;
use crate::display::DisplayView;

verus! {

/// The character for one decimal digit.
pub open spec fn digit_char(d: int) -> char {
    if d == 0 {
        '0'
    } else if d == 1 {
        '1'
    } else if d == 2 {
        '2'
    } else if d == 3 {
        '3'
    } else if d == 4 {
        '4'
    } else if d == 5 {
        '5'
    } else if d == 6 {
        '6'
    } else if d == 7 {
        '7'
    } else if d == 8 {
        '8'
    } else {
        '9'
    }
}

/// The decimal representation of `n`: most significant digit first, no leading
/// zeros (the number 0 is the single digit `0`).
pub open spec fn dec_rep(n: nat) -> Seq<char>
    decreases n,
{
    if n < 10 {
        seq![digit_char(n as int)]
    } else {
        dec_rep(n / 10) + seq![digit_char((n % 10) as int)]
    }
}

/// The one-character string for a decimal digit.
fn digit_str(d: u64) -> (s: &'static str)
    requires
        d < 10,
    ensures
        s@ == seq![digit_char(d as int)],
{
    let res: &'static str = if d == 0 {
        "0"
    } else if d == 1 {
        "1"
    } else if d == 2 {
        "2"
    } else if d == 3 {
        "3"
    } else if d == 4 {
        "4"
    } else if d == 5 {
        "5"
    } else if d == 6 {
        "6"
    } else if d == 7 {
        "7"
    } else if d == 8 {
        "8"
    } else {
        "9"
    };
    proof {
        reveal_strlit("0");
        reveal_strlit("1");
        reveal_strlit("2");
        reveal_strlit("3");
        reveal_strlit("4");
        reveal_strlit("5");
        reveal_strlit("6");
        reveal_strlit("7");
        reveal_strlit("8");
        reveal_strlit("9");
        assert(res@ =~= seq![digit_char(d as int)]);
    }
    res
}

/// Render `n` in decimal.
pub fn u64_to_string(n: u64) -> (s: String)
    ensures
        s@ == dec_rep(n as nat),
    decreases n,
{
    if n < 10 {
        digit_str(n).to_owned()
    } else {
        let mut s = u64_to_string(n / 10);
        s.append(digit_str(n % 10));
        proof {
            assert(s@ =~= dec_rep(n as nat));
        }
        s
    }
}

/// The exact text of one listing entry: the display's name, then its
/// enumeration index, refresh rate and size on indented lines, ending with a
/// line break.
pub open spec fn entry_text(v: DisplayView, index: nat) -> Seq<char> {
    v.name + ":\n    Index: "@ + dec_rep(index) + "\n    Refresh Rate: "@ + dec_rep(
        v.mode.refresh_rate as nat,
    ) + "\n    Size: "@ + dec_rep(v.mode.width as nat) + "x"@ + dec_rep(v.mode.height as nat)
        + "\n"@
}

/// Render one listing entry for the display at enumeration index `index`.
pub fn render_entry(display: &Display, index: u64) -> (s: String)
    ensures
        s@ == entry_text(display@, index as nat),
{
    let mut s = String::new();
    s.append(display.name().as_str());
    s.append(":\n    Index: ");
    let idx = u64_to_string(index);
    s.append(idx.as_str());
    s.append("\n    Refresh Rate: ");
    let rate = u64_to_string(display.refresh_rate() as u64);
    s.append(rate.as_str());
    s.append("\n    Size: ");
    let size = display.size();
    let w = u64_to_string(size.0 as u64);
    s.append(w.as_str());
    s.append("x");
    let h = u64_to_string(size.1 as u64);
    s.append(h.as_str());
    s.append("\n");
    proof {
        assert(s@ =~= entry_text(display@, index as nat));
    }
    s
}

/// The listing text for the first `n` of the displays `vs`: their entries in
/// enumeration order, with a blank line between consecutive entries and no
/// trailing blank line.
pub open spec fn list_text_upto(vs: Seq<DisplayView>, n: int) -> Seq<char>
    decreases n,
{
    if n <= 0 {
        Seq::<char>::empty()
    } else {
        list_text_upto(vs, n - 1) + (if n == 1 {
            Seq::<char>::empty()
        } else {
            "\n"@
        }) + entry_text(vs[n - 1], (n - 1) as nat)
    }
}

/// The full listing text for the displays `vs`, in enumeration order.
pub open spec fn list_text(vs: Seq<DisplayView>) -> Seq<char> {
    list_text_upto(vs, vs.len() as int)
}

/// Render the listing for the enumerated displays, in enumeration order: each
/// display's entry, a blank line between entries, no trailing blank line.
pub fn render_list(displays: &Vec<Display>) -> (s: String)
    ensures
        s@ == list_text(displays@.map_values(|d: Display| d@)),
{
    let ghost vs = displays@.map_values(|d: Display| d@);
    let mut s = String::new();
    let mut i: usize = 0;
    while i < displays.len()
        invariant
            i <= displays.len(),
            vs == displays@.map_values(|d: Display| d@),
            s@ == list_text_upto(vs, i as int),
        decreases displays.len() - i,
    {
        if i != 0 {
            s.append("\n");
        }
        let entry = render_entry(&displays[i], i as u64);
        s.append(entry.as_str());
        i = i + 1;
        proof {
            assert(s@ =~= list_text_upto(vs, i as int));
        }
    }
    s
}

} // verus!
