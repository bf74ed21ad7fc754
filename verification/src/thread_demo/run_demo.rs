//! A small counter app in a framed terminal window: arrow keys change a
//! counter, `i` starts typing a player name, `q` quits.
use crate::input::Key;
use crate::text::{
    center, centered, concat, i32_to_string, int_decimal, lemma_decimal_reads_back, numeral_value,
    pop_char, push_char, repeat_spec,
};
use vstd::prelude::*;

verus! {

broadcast use vstd::string::group_string_axioms;

pub struct App {
    pub counter: i32,
    pub exit: bool,
    pub input_mode: bool,
    pub player_name: String,
}

/// The app's state as plain values.
pub struct AppView {
    pub counter: int,
    pub exit: bool,
    pub input_mode: bool,
    pub name: Seq<char>,
}

impl View for App {
    type V = AppView;

    open spec fn view(&self) -> AppView {
        AppView {
            counter: self.counter as int,
            exit: self.exit,
            input_mode: self.input_mode,
            name: self.player_name@,
        }
    }
}

/// The state after `key`.
pub open spec fn after_key(v: AppView, key: Key) -> AppView {
    if v.input_mode {
        match key {
            Key::Enter => AppView { input_mode: false, ..v },
            Key::Backspace => AppView {
                name: if v.name.len() > 0 {
                    v.name.drop_last()
                } else {
                    v.name
                },
                ..v
            },
            Key::Char(c) => AppView { name: v.name.push(c), ..v },
            _ => v,
        }
    } else {
        match key {
            Key::Char(c) => if c == 'q' {
                AppView { exit: true, ..v }
            } else if c == 'i' {
                AppView { input_mode: true, ..v }
            } else {
                v
            },
            Key::Left => AppView { counter: v.counter - 1, ..v },
            Key::Right => AppView { counter: v.counter + 1, ..v },
            _ => v,
        }
    }
}

/// Left then Right leaves the counter where it was.
pub proof fn lemma_left_right_cancel(v: AppView)
    requires
        !v.input_mode,
    ensures
        after_key(after_key(v, Key::Left), Key::Right) == v,
{
}

/// Typing a character and erasing it leaves the name as it was.
pub proof fn lemma_backspace_undoes_typing(v: AppView, c: char)
    requires
        v.input_mode,
    ensures
        after_key(after_key(v, Key::Char(c)), Key::Backspace) == v,
{
    assert(v.name.push(c).drop_last() =~= v.name);
}

/// Once asked to quit, the app stays asked to quit.
pub proof fn lemma_quit_is_final(v: AppView, key: Key)
    requires
        v.exit,
    ensures
        after_key(v, key).exit,
{
}

/// Whether `key` can be handled in state `app` without the counter
/// overflowing.
pub open spec fn key_fits(app: &App, key: Key) -> bool {
    &&& (!app.input_mode && key == Key::Left) ==> app.counter > i32::MIN
    &&& (!app.input_mode && key == Key::Right) ==> app.counter < i32::MAX
}

/// The four lines of text shown inside the frame.
pub open spec fn content_spec(app: &App) -> Seq<Seq<char>> {
    seq![
        "Counter App"@,
        "Value: "@ + int_decimal(app.counter as int),
        "Use Left/Right to change, Q to quit, I for input mode"@,
        if app.input_mode {
            "Enter Name: "@ + app.player_name@
        } else {
            "Player: "@ + app.player_name@
        },
    ]
}

/// The frame's width and height once widened to the least the frame is
/// drawn at.
pub open spec fn frame_width(width: u16) -> int {
    if width < 10 {
        10
    } else {
        width as int
    }
}

pub open spec fn frame_height(height: u16) -> int {
    if height < 5 {
        5
    } else {
        height as int
    }
}

pub open spec fn top_border(w: int) -> Seq<char> {
    seq!['\u{250f}'] + repeat_spec(seq!['\u{2501}'], (w - 2) as nat) + seq!['\u{2513}']
}

pub open spec fn bottom_border(w: int) -> Seq<char> {
    seq!['\u{2517}'] + repeat_spec(seq!['\u{2501}'], (w - 2) as nat) + seq!['\u{251b}']
}

pub open spec fn empty_line(w: int) -> Seq<char> {
    seq!['\u{2503}'] + repeat_spec(seq![' '], (w - 2) as nat) + seq!['\u{2503}']
}

pub open spec fn content_line(text: Seq<char>, w: int) -> Seq<char> {
    seq!['\u{2503}'] + centered(text, (w - 2) as nat) + seq!['\u{2503}']
}

/// Blank lines above the content: half of what is left.
pub open spec fn padding_top(h: int) -> int {
    (h - 4 - 2) / 2
}

/// Blank lines below the content, one fewer than what is left so that the
/// frame does not scroll.
pub open spec fn padding_bottom(h: int) -> int {
    let rest = h - 4 - padding_top(h) - 2;
    if rest > 0 {
        rest - 1
    } else {
        0
    }
}

/// The frame line by line: the top border, blank lines, the content
/// centred, blank lines, the bottom border.
pub open spec fn frame_spec(app: &App, width: u16, height: u16) -> Seq<Seq<char>> {
    let w = frame_width(width);
    let h = frame_height(height);
    seq![top_border(w)] + Seq::new(padding_top(h) as nat, |i: int| empty_line(w)) + content_spec(
        app,
    ).map_values(|t: Seq<char>| content_line(t, w)) + Seq::new(
        padding_bottom(h) as nat,
        |i: int| empty_line(w),
    ) + seq![bottom_border(w)]
}

/// `middle` between `left` and `right`.
fn framed(left: char, middle: &str, right: char) -> (r: String)
    ensures
        r@ == seq![left] + middle@ + seq![right],
{
    let mut r = String::new();
    push_char(&mut r, left);
    let mut r = concat(r.as_str(), middle);
    push_char(&mut r, right);
    assert(r@ =~= seq![left] + middle@ + seq![right]);
    r
}

/// `c` repeated `n` times.
fn repeat_char(c: char, n: usize) -> (r: String)
    ensures
        r@ == repeat_spec(seq![c], n as nat),
{
    let mut r = String::new();
    let mut i: usize = 0;
    while i < n
        invariant
            i <= n,
            r@ == repeat_spec(seq![c], i as nat),
        decreases n - i,
    {
        push_char(&mut r, c);
        assert(r@ =~= repeat_spec(seq![c], (i + 1) as nat));
        i = i + 1;
    }
    r
}

impl App {
    /// A zero counter, no name, not typing.
    pub fn new() -> (a: App)
        ensures
            a.counter == 0 && !a.exit && !a.input_mode && a.player_name@ == Seq::<char>::empty(),
    {
        App { counter: 0, exit: false, input_mode: false, player_name: String::new() }
    }

    /// While typing a name: Enter ends typing, Backspace deletes the last
    /// character, a character is added; otherwise: `q` quits, Left and Right
    /// change the counter by one, `i` starts typing. Other keys do nothing.
    pub fn handle_key(&mut self, key: Key)
        requires
            key_fits(old(self), key),
        ensures
            final(self)@ == after_key(old(self)@, key),
            old(self).input_mode ==> {
                &&& final(self).counter == old(self).counter
                &&& final(self).exit == old(self).exit
                &&& final(self).input_mode == (old(self).input_mode && key != Key::Enter)
                &&& final(self).player_name@ == match key {
                    Key::Backspace => if old(self).player_name@.len() > 0 {
                        old(self).player_name@.drop_last()
                    } else {
                        old(self).player_name@
                    },
                    Key::Char(c) => old(self).player_name@.push(c),
                    _ => old(self).player_name@,
                }
            },
            !old(self).input_mode ==> {
                &&& final(self).player_name@ == old(self).player_name@
                &&& final(self).exit == (old(self).exit || key == Key::Char('q'))
                &&& final(self).input_mode == (key == Key::Char('i'))
                &&& final(self).counter == if key == Key::Left {
                    old(self).counter - 1
                } else if key == Key::Right {
                    old(self).counter + 1
                } else {
                    old(self).counter as int
                }
            },
    {
        if self.input_mode {
            match key {
                Key::Enter => self.input_mode = false,
                Key::Backspace => {
                    pop_char(&mut self.player_name);
                },
                Key::Char(c) => push_char(&mut self.player_name, c),
                _ => {},
            }
        } else {
            match key {
                Key::Char('q') => self.exit = true,
                Key::Left => self.counter = self.counter - 1,
                Key::Right => self.counter = self.counter + 1,
                Key::Char('i') => self.input_mode = true,
                _ => {},
            }
        }
    }

    /// The four lines of text shown inside the frame.
    pub fn content(&self) -> (r: Vec<String>)
        ensures
            r@.len() == 4,
            forall|i: int| 0 <= i < 4 ==> #[trigger] r@[i]@ == content_spec(self)[i],
    {
        let mut r: Vec<String> = Vec::new();
        r.push("Counter App".to_owned());
        r.push(concat("Value: ", i32_to_string(self.counter).as_str()));
        r.push("Use Left/Right to change, Q to quit, I for input mode".to_owned());
        if self.input_mode {
            r.push(concat("Enter Name: ", self.player_name.as_str()));
        } else {
            r.push(concat("Player: ", self.player_name.as_str()));
        }
        r
    }

    /// The frame as drawn in a terminal of `width` columns and `height`
    /// rows, line by line. A height under 6 leaves no room for the content
    /// and is not accepted.
    pub fn frame(&self, width: u16, height: u16) -> (lines: Vec<String>)
        requires
            height >= 6,
        ensures
            lines@.len() == frame_spec(self, width, height).len(),
            forall|i: int|
                0 <= i < lines@.len() ==> #[trigger] lines@[i]@ == frame_spec(self, width, height)[i],
    {
        let width = if width < 10 {
            10
        } else {
            width
        };
        let height = if height < 5 {
            5
        } else {
            height
        };
        let inner = (width - 2) as usize;
        let bar = repeat_char('\u{2501}', inner);
        let top = framed('\u{250f}', bar.as_str(), '\u{2513}');
        let bottom = framed('\u{2517}', bar.as_str(), '\u{251b}');
        let blank = repeat_char(' ', inner);
        let empty = framed('\u{2503}', blank.as_str(), '\u{2503}');
        let content = self.content();
        let content_height = content.len();
        let pad_top = (height as usize - content_height - 2) / 2;
        let rest = height as usize - content_height - pad_top - 2;
        let pad_bottom = if rest > 0 {
            rest - 1
        } else {
            0
        };
        let ghost w = frame_width(width);
        let ghost h = frame_height(height);
        let ghost expected = frame_spec(self, width, height);
        assert(top@ == top_border(w as int));
        assert(bottom@ == bottom_border(w as int));
        assert(empty@ == empty_line(w as int));
        let mut lines: Vec<String> = Vec::new();
        lines.push(top);
        let mut i: usize = 0;
        while i < pad_top
            invariant
                i <= pad_top,
                lines@.len() == 1 + i,
                lines@[0]@ == top_border(w as int),
                forall|j: int| 1 <= j < 1 + i ==> #[trigger] lines@[j]@ == empty_line(w as int),
                empty@ == empty_line(w as int),
            decreases pad_top - i,
        {
            lines.push(empty.clone());
            i = i + 1;
        }
        let mut k: usize = 0;
        while k < content.len()
            invariant
                k <= content@.len() == 4,
                lines@.len() == 1 + pad_top + k,
                lines@[0]@ == top_border(w as int),
                forall|j: int| 1 <= j < 1 + pad_top ==> #[trigger] lines@[j]@ == empty_line(w as int),
                forall|j: int|
                    0 <= j < k ==> #[trigger] lines@[1 + pad_top + j]@ == content_line(
                        content_spec(self)[j],
                        w as int,
                    ),
                forall|j: int| 0 <= j < 4 ==> #[trigger] content@[j]@ == content_spec(self)[j],
                inner == w - 2,
            decreases content@.len() - k,
        {
            let mid = center(content[k].as_str(), inner);
            let line = framed('\u{2503}', mid.as_str(), '\u{2503}');
            lines.push(line);
            k = k + 1;
        }
        let mut b: usize = 0;
        while b < pad_bottom
            invariant
                b <= pad_bottom,
                lines@.len() == 1 + pad_top + 4 + b,
                lines@[0]@ == top_border(w as int),
                forall|j: int| 1 <= j < 1 + pad_top ==> #[trigger] lines@[j]@ == empty_line(w as int),
                forall|j: int|
                    0 <= j < 4 ==> #[trigger] lines@[1 + pad_top + j]@ == content_line(
                        content_spec(self)[j],
                        w as int,
                    ),
                forall|j: int|
                    1 + pad_top + 4 <= j < 1 + pad_top + 4 + b ==> #[trigger] lines@[j]@
                        == empty_line(w as int),
                empty@ == empty_line(w as int),
            decreases pad_bottom - b,
        {
            lines.push(empty.clone());
            b = b + 1;
        }
        lines.push(bottom);
        assert(pad_top == padding_top(h));
        assert(pad_bottom == padding_bottom(h));
        assert forall|i: int| 0 <= i < lines@.len() implies #[trigger] lines@[i]@ == expected[i] by {
            let cs = content_spec(self).map_values(|t: Seq<char>| content_line(t, w as int));
            if i >= 1 + pad_top && i < 1 + pad_top + 4 {
                assert(cs[i - 1 - pad_top] == content_line(content_spec(self)[i - 1 - pad_top], w as int));
                assert(lines@[1 + pad_top + (i - 1 - pad_top)]@ == content_line(content_spec(self)[i - 1 - pad_top], w as int));
            }
        }
        lines
    }
}

proof fn lemma_repeat_char_len(c: char, n: nat)
    ensures
        repeat_spec(seq![c], n).len() == n,
    decreases n,
{
    if n > 0 {
        lemma_repeat_char_len(c, (n - 1) as nat);
    }
}

/// The frame fits the terminal: it is `height - 1` lines tall (all of a
/// 6-line terminal), so that drawing it does not scroll, and, where each
/// content line fits between the borders, every line is exactly as wide as
/// the frame.
pub proof fn lemma_frame_fits(app: &App, width: u16, height: u16)
    requires
        height >= 6,
    ensures
        frame_spec(app, width, height).len() == if height == 6 {
            6
        } else {
            height - 1
        },
        (forall|i: int| 0 <= i < 4 ==> #[trigger] content_spec(app)[i].len() <= frame_width(width)
            - 2) ==> forall|i: int|
            0 <= i < frame_spec(app, width, height).len() ==> #[trigger] frame_spec(
                app,
                width,
                height,
            )[i].len() == frame_width(width),
{
    let w = frame_width(width);
    let h = frame_height(height);
    let f = frame_spec(app, width, height);
    lemma_repeat_char_len('\u{2501}', (w - 2) as nat);
    lemma_repeat_char_len(' ', (w - 2) as nat);
    if forall|i: int| 0 <= i < 4 ==> #[trigger] content_spec(app)[i].len() <= w - 2 {
        let pt = padding_top(h);
        let pb = padding_bottom(h);
        let a = seq![top_border(w)];
        let b = Seq::new(pt as nat, |i: int| empty_line(w));
        let c = content_spec(app).map_values(|t: Seq<char>| content_line(t, w));
        let d = Seq::new(pb as nat, |i: int| empty_line(w));
        let e = seq![bottom_border(w)];
        assert(f == a + b + c + d + e);
        assert(pt >= 0 && pb >= 0);
        assert(a.len() == 1 && b.len() == pt && c.len() == 4 && d.len() == pb && e.len() == 1);
        assert forall|i: int| 0 <= i < f.len() implies #[trigger] f[i].len() == w by {
            assert(f[i] == (a + b + c + d + e)[i]);
            if i < 1 {
                assert(f[i] == a[i]);
                assert(top_border(w).len() == w);
            } else if i < 1 + pt {
                assert(f[i] == b[i - 1]);
                assert(empty_line(w).len() == w);
            } else if i < 1 + pt + 4 {
                assert(f[i] == c[i - 1 - pt]);
                let t = content_spec(app)[i - 1 - pt];
                assert(t.len() <= w - 2);
                assert(centered(t, (w - 2) as nat).len() == w - 2);
                assert(content_line(t, w).len() == w);
            } else if i < 1 + pt + 4 + pb {
                assert(f[i] == d[i - 1 - pt - 4]);
            } else {
                assert(f[i] == e[i - 1 - pt - 4 - pb]);
                assert(bottom_border(w).len() == w);
            }
        }
    }
}

/// The value line shows the counter itself: `Value: ` followed by a
/// numeral that reads back as the counter, minus sign included.
pub proof fn lemma_value_line_shows_counter(app: &App)
    ensures
        content_spec(app)[1].take(7) == "Value: "@,
        numeral_value(content_spec(app)[1].skip(7)) == app.counter,
        (content_spec(app)[1][7] == '-') <==> app.counter < 0,
{
    reveal_strlit("Value: ");
    let line = content_spec(app)[1];
    lemma_decimal_reads_back(app.counter as int);
    assert(line.take(7) =~= "Value: "@);
    assert(line.skip(7) =~= int_decimal(app.counter as int));
}

} // verus!
